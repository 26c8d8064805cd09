use dictation::models::parakeet_models;
use dictation::models::whisper_models;
use dictation::models::{
    cloud_models, engine_is_cloud, files_present, find_model, full_catalog, is_downloaded_given,
    is_model_downloaded, list_models, model_files, model_path, models_dir, paths_present,
    pending_downloads, DownloadTask, Engine, LanguageSupport, ModelInfo,
};
use std::path::PathBuf;

#[test]
fn full_catalog_contains_all_models() {
    let catalog = full_catalog();
    let whisper_count = whisper_models::catalog().len();
    let parakeet_count = parakeet_models::catalog().len();
    let cloud_count = cloud_models().len();
    assert_eq!(catalog.len(), whisper_count + parakeet_count + cloud_count);
}

#[test]
fn all_models_have_unique_ids() {
    let catalog = full_catalog();
    let mut ids: Vec<&str> = catalog.iter().map(|m| m.id.as_str()).collect();
    let original_len = ids.len();
    ids.sort();
    ids.dedup();
    assert_eq!(ids.len(), original_len, "Model IDs must be unique");
}

#[test]
fn whisper_models_have_correct_engine() {
    for model in whisper_models::catalog() {
        assert_eq!(
            model.engine,
            Engine::Whisper,
            "Model {} should be Whisper",
            model.id
        );
    }
}

#[test]
fn parakeet_models_have_correct_engine() {
    for model in parakeet_models::catalog() {
        assert_eq!(
            model.engine,
            Engine::Parakeet,
            "Model {} should be Parakeet",
            model.id
        );
    }
}

#[test]
fn cloud_models_have_correct_engines() {
    let models = cloud_models();
    assert_eq!(models.len(), 2);
    assert_eq!(models[0].engine, Engine::CloudOpenAI);
    assert_eq!(models[1].engine, Engine::CloudGroq);
}

#[test]
fn cloud_models_have_no_files_to_download() {
    for model in cloud_models() {
        assert!(
            model.files.is_empty(),
            "Cloud model {} should have no files",
            model.id
        );
        assert!(model.download_urls.is_empty());
        assert_eq!(model.size_bytes, 0);
    }
}

#[test]
fn local_models_have_files_and_urls() {
    for model in full_catalog() {
        if matches!(model.engine, Engine::CloudOpenAI | Engine::CloudGroq) {
            continue;
        }
        assert!(
            !model.files.is_empty(),
            "Local model {} should have files",
            model.id
        );
        assert!(
            !model.download_urls.is_empty(),
            "Local model {} should have download URLs",
            model.id
        );
        assert!(
            model.size_bytes > 0,
            "Local model {} should have size > 0",
            model.id
        );
    }
}

#[test]
fn models_dir_appends_models_subdir() {
    let base = PathBuf::from("/app/data");
    assert_eq!(models_dir(&base), PathBuf::from("/app/data/models"));
}

#[test]
fn model_path_includes_model_id() {
    let base = PathBuf::from("/app/data");
    assert_eq!(
        model_path(&base, "whisper-base"),
        PathBuf::from("/app/data/models/whisper-base")
    );
}

#[test]
fn cloud_model_always_downloaded() {
    let base = PathBuf::from("/nonexistent/path");
    for model in cloud_models() {
        assert!(
            is_model_downloaded(&base, &model),
            "Cloud model {} should always be 'downloaded'",
            model.id
        );
    }
}

#[test]
fn local_model_not_downloaded_when_files_missing() {
    let base = PathBuf::from("/nonexistent/path");
    let model = &whisper_models::catalog()[0]; // whisper-tiny
    assert!(!is_model_downloaded(&base, model));
}

#[test]
fn model_with_empty_files_is_not_downloaded() {
    let base = PathBuf::from("/tmp");
    let model = ModelInfo {
        id: "empty-test".into(),
        name: "Test".into(),
        engine: Engine::Whisper,
        size_bytes: 0,
        download_urls: vec![],
        files: vec![], // empty files list
        languages: LanguageSupport::English,
        description: "".into(),
    };
    assert!(!is_model_downloaded(&base, &model));
}

#[test]
fn whisper_models_are_all_multilingual() {
    for model in whisper_models::catalog() {
        match &model.languages {
            LanguageSupport::Multilingual(n) => assert!(*n > 0),
            _ => panic!("Whisper model {} should be multilingual", model.id),
        }
    }
}

#[test]
fn parakeet_v2_is_english_only() {
    let models = parakeet_models::catalog();
    assert!(matches!(models[0].languages, LanguageSupport::English));
}

#[test]
fn parakeet_v3_is_multilingual() {
    let models = parakeet_models::catalog();
    assert!(matches!(
        models[1].languages,
        LanguageSupport::Multilingual(25)
    ));
}

#[test]
fn whisper_catalog_lists_the_expected_entries() {
    let models = whisper_models::catalog();
    let ids: Vec<&str> = models.iter().map(|m| m.id.as_str()).collect();
    assert_eq!(
        ids,
        vec![
            "whisper-tiny",
            "whisper-base",
            "whisper-small",
            "whisper-medium",
            "whisper-large-v3-turbo"
        ]
    );
    assert_eq!(models[0].name, "Whisper Tiny");
    assert_eq!(models[0].size_bytes, 77_700_000);
    assert_eq!(models[0].files, vec!["ggml-tiny.bin".to_string()]);
    assert_eq!(
        models[0].download_urls,
        vec!["https://huggingface.co/ggerganov/whisper.cpp/resolve/main/ggml-tiny.bin".to_string()]
    );
    assert_eq!(
        models[0].description,
        "Fastest, least accurate. Good for testing."
    );
    assert_eq!(models[4].size_bytes, 1_620_000_000);
    assert_eq!(models[4].files, vec!["ggml-large-v3-turbo.bin".to_string()]);
}

#[test]
fn parakeet_catalog_pairs_each_file_with_its_address() {
    let models = parakeet_models::catalog();
    assert_eq!(models.len(), 2);
    assert_eq!(models[0].id, "parakeet-tdt-0.6b-v2");
    assert_eq!(models[1].id, "parakeet-tdt-0.6b-v3");
    for model in &models {
        assert_eq!(model.size_bytes, 680_000_000);
        assert_eq!(model.files.len(), 4);
        assert_eq!(model.download_urls.len(), 4);
        for (file, url) in model.files.iter().zip(model.download_urls.iter()) {
            assert!(url.ends_with(&format!("/{}", file)));
        }
    }
    assert_eq!(
        models[0].download_urls[3],
        "https://huggingface.co/csukuangfj/sherpa-onnx-nemo-parakeet-tdt-0.6b-v2-int8/resolve/main/tokens.txt"
    );
    assert_eq!(
        models[1].download_urls[0],
        "https://huggingface.co/csukuangfj/sherpa-onnx-nemo-parakeet-tdt-0.6b-v3-int8/resolve/main/encoder-epoch-86-avg-1.int8.onnx"
    );
}

#[test]
fn full_catalog_keeps_the_order_of_its_parts() {
    let catalog = full_catalog();
    assert_eq!(catalog.len(), 9);
    assert_eq!(catalog[0].id, "whisper-tiny");
    assert_eq!(catalog[5].id, "parakeet-tdt-0.6b-v2");
    assert_eq!(catalog[7].id, "cloud-openai-whisper");
    assert_eq!(catalog[8].id, "cloud-groq-whisper");
}

#[test]
fn find_model_gives_the_place_of_the_entry() {
    let catalog = full_catalog();
    assert_eq!(find_model(&catalog, "whisper-tiny"), Some(0));
    assert_eq!(find_model(&catalog, "parakeet-tdt-0.6b-v3"), Some(6));
    assert_eq!(find_model(&catalog, "cloud-groq-whisper"), Some(8));
    assert_eq!(find_model(&catalog, "no-such-model"), None);
    assert_eq!(find_model(&catalog, ""), None);
}

#[test]
fn downloaded_decision_follows_the_presence_of_every_file() {
    let parakeet = &parakeet_models::catalog()[0];
    assert!(is_downloaded_given(parakeet, &vec![true, true, true, true]));
    assert!(!is_downloaded_given(parakeet, &vec![true, false, true, true]));
    assert!(!is_downloaded_given(parakeet, &vec![true, true, true]));
    assert!(!is_downloaded_given(parakeet, &vec![]));
    let cloud = &cloud_models()[0];
    assert!(is_downloaded_given(cloud, &vec![]));
}

#[test]
fn model_statuses_cover_the_catalog_in_order() {
    let base = PathBuf::from("/nonexistent/path");
    let statuses = list_models(&base);
    let catalog = full_catalog();
    assert_eq!(statuses.len(), catalog.len());
    for (status, model) in statuses.iter().zip(catalog.iter()) {
        assert_eq!(status.info.id, model.id);
        let cloud = matches!(model.engine, Engine::CloudOpenAI | Engine::CloudGroq);
        assert_eq!(status.downloaded, cloud);
    }
}

#[test]
fn local_model_is_downloaded_when_every_file_exists() {
    // An absolute file name replaces the directory it is joined to, so
    // this model's one file is the root directory, which exists.
    let base = PathBuf::from("/nonexistent/path");
    let model = ModelInfo {
        id: "rooted".into(),
        name: "Rooted".into(),
        engine: Engine::Parakeet,
        size_bytes: 1,
        download_urls: vec![],
        files: vec!["/".into()],
        languages: LanguageSupport::English,
        description: "".into(),
    };
    assert!(is_model_downloaded(&base, &model));
    let partial = ModelInfo { files: vec!["/".into(), "missing.bin".into()], ..model };
    assert!(!is_model_downloaded(&base, &partial));
}

#[test]
fn pending_downloads_skip_the_files_that_are_there() {
    let model = &parakeet_models::catalog()[0];
    let all = pending_downloads(model, &vec![]);
    assert_eq!(all.len(), 4);
    for (i, task) in all.iter().enumerate() {
        assert_eq!(task.file_index, i);
        assert_eq!(task.file_name, model.files[i]);
        assert_eq!(task.url, model.download_urls[i]);
    }
    let some = pending_downloads(model, &vec![true, false, true, false]);
    assert_eq!(
        some,
        vec![
            DownloadTask {
                file_index: 1,
                url: model.download_urls[1].clone(),
                file_name: "decoder-epoch-86-avg-1.int8.onnx".to_string()
            },
            DownloadTask {
                file_index: 3,
                url: model.download_urls[3].clone(),
                file_name: "tokens.txt".to_string()
            },
        ]
    );
    assert_eq!(pending_downloads(model, &vec![true, true, true, true]), vec![]);
    assert_eq!(pending_downloads(&cloud_models()[0], &vec![]), vec![]);
}

#[test]
fn pending_downloads_stop_where_addresses_or_files_end() {
    let model = ModelInfo {
        id: "odd".into(),
        name: "Odd".into(),
        engine: Engine::Whisper,
        size_bytes: 1,
        download_urls: vec!["u0".into()],
        files: vec!["f0".into(), "f1".into()],
        languages: LanguageSupport::English,
        description: "".into(),
    };
    let tasks = pending_downloads(&model, &vec![false, false]);
    assert_eq!(
        tasks,
        vec![DownloadTask { file_index: 0, url: "u0".to_string(), file_name: "f0".to_string() }]
    );
}

#[test]
fn files_present_asks_for_every_file() {
    let base = PathBuf::from("/nonexistent/path");
    let model = &parakeet_models::catalog()[1];
    assert_eq!(files_present(&base, model), vec![false, false, false, false]);
    assert_eq!(files_present(&base, &cloud_models()[1]), Vec::<bool>::new());
}

#[test]
fn only_the_two_remote_engines_are_cloud_engines() {
    assert!(!engine_is_cloud(Engine::Whisper));
    assert!(!engine_is_cloud(Engine::Parakeet));
    assert!(engine_is_cloud(Engine::CloudOpenAI));
    assert!(engine_is_cloud(Engine::CloudGroq));
}

#[test]
fn model_files_lie_below_the_model_directory_in_order() {
    let base = PathBuf::from("/app/data");
    let model = &parakeet_models::catalog()[1];
    let paths = model_files(&base, model);
    assert_eq!(paths.len(), 4);
    for (path, file) in paths.iter().zip(model.files.iter()) {
        assert_eq!(path, &model_path(&base, &model.id).join(file));
    }
    assert_eq!(
        paths[0],
        PathBuf::from("/app/data/models/parakeet-tdt-0.6b-v3/encoder-epoch-86-avg-1.int8.onnx")
    );
    assert_eq!(
        model_files(&base, &whisper_models::catalog()[0]),
        vec![PathBuf::from("/app/data/models/whisper-tiny/ggml-tiny.bin")]
    );
    assert_eq!(model_files(&base, &cloud_models()[0]), Vec::<PathBuf>::new());
}

#[test]
fn paths_present_asks_the_disk_for_each_path() {
    let paths = vec![
        PathBuf::from("/"),
        PathBuf::from("/nonexistent/path/file.bin"),
        PathBuf::from("/"),
    ];
    assert_eq!(paths_present(&paths), vec![true, false, true]);
    assert_eq!(paths_present(&vec![]), Vec::<bool>::new());
}
