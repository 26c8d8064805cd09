//! The engine cache and the dispatch of transcription requests: which
//! engine a model needs, whether it has to be loaded, and which way a
//! request goes.

use crate::error::PipelineError;
use crate::models::{
    answer_admitted, catalog_entries, engine_is_cloud, entries, find_model, full_catalog,
    is_cloud, is_model_downloaded, model_file_of, model_files, model_files_of, model_path,
    model_path_of, path_join, position_of, Engine, ModelEntry, ModelInfo,
};
use crate::recording::{get_session_audio, RecordingState};
use crate::stt::{CloudService, OptionsView, TranscriptionOptions};
use crate::text::{glue, text_of};
use std::path::PathBuf;
use vstd::hash_map::StringHashMap;
use vstd::prelude::*;
use vstd::string::*;

verus! {

/// What has to happen before a local model can be used.
#[derive(Debug, PartialEq, Eq)]
pub enum LoadPlan {
    /// The engine is in the cache.
    UseCached,
    /// The encoder-decoder engine is to be built from this file.
    LoadWhisper { model_file: PathBuf },
    /// The transducer engine is to be built from the files of this
    /// directory: `files` are the model's files, in the catalog's order.
    LoadParakeet { model_dir: PathBuf, files: Vec<PathBuf> },
}

/// The outcomes of asking for a local engine.
pub enum LoadDecision {
    UseCached,
    UnknownModel,
    NotDownloaded,
    Whisper,
    Parakeet,
    CloudRefused,
}

/// The way a transcription request goes.
#[derive(Debug, Clone, PartialEq, Eq)]
pub enum Dispatch {
    /// The audio is silence: the answer is the empty transcript and no
    /// engine is involved.
    Silent,
    /// A local engine runs, under the inference lock.
    Local { options: TranscriptionOptions },
    /// The audio is uploaded to a remote service.
    Remote { service: CloudService, api_key: String, model: String, options: TranscriptionOptions },
}

/// The catalog's entry for `model_id`, if it has one.
pub open spec fn catalog_entry(model_id: Seq<char>) -> Option<ModelEntry> {
    match position_of(catalog_entries(), model_id) {
        Some(i) => Some(catalog_entries()[i]),
        None => None,
    }
}

/// The engine that the catalog names for `model_id`.
pub open spec fn engine_of(model_id: Seq<char>) -> Option<Engine> {
    match catalog_entry(model_id) {
        Some(entry) => Some(entry.engine),
        None => None,
    }
}

/// What asking for a local engine leads to: a cached engine is used as it
/// is; otherwise the model must be in the catalog and on disk, and its
/// engine kind, not its name, selects what is built. A local model that
/// names no file is never on disk. Remote models have no local engine.
pub open spec fn load_decision(cached: bool, found: Option<ModelEntry>, downloaded: bool) -> LoadDecision {
    if cached {
        LoadDecision::UseCached
    } else {
        match found {
            None => LoadDecision::UnknownModel,
            Some(entry) => if !downloaded {
                LoadDecision::NotDownloaded
            } else if is_cloud(entry.engine) {
                LoadDecision::CloudRefused
            } else if entry.files.len() == 0 {
                LoadDecision::NotDownloaded
            } else if entry.engine is Parakeet {
                LoadDecision::Parakeet
            } else {
                LoadDecision::Whisper
            },
        }
    }
}

/// Whether `plan` is what `decision` calls for, for the model `model_id`
/// with catalog entry `found` and the data directory `app_data_dir`. What
/// is to be built is built from the entry's own files, at the places where
/// they are looked for when the model is judged downloaded.
pub open spec fn plan_matches(
    plan: Result<LoadPlan, PipelineError>,
    decision: LoadDecision,
    model_id: Seq<char>,
    found: Option<ModelEntry>,
    app_data_dir: PathBuf,
) -> bool {
    match decision {
        LoadDecision::UseCached => plan == Ok::<LoadPlan, PipelineError>(LoadPlan::UseCached),
        LoadDecision::UnknownModel => {
            &&& plan matches Err(PipelineError::UnknownModel { model_id: named })
            &&& named@ == model_id
        },
        LoadDecision::NotDownloaded => {
            &&& plan matches Err(PipelineError::ModelNotDownloaded { model_id: named })
            &&& named@ == model_id
        },
        LoadDecision::Whisper => {
            &&& found matches Some(entry)
            &&& plan == Ok::<LoadPlan, PipelineError>(
                LoadPlan::LoadWhisper { model_file: model_file_of(app_data_dir, entry, 0) },
            )
        },
        LoadDecision::Parakeet => {
            &&& found matches Some(entry)
            &&& plan matches Ok(LoadPlan::LoadParakeet { model_dir, files })
            &&& model_dir == model_path_of(app_data_dir, entry.id)
            &&& files@ == model_files_of(app_data_dir, entry)
        },
        LoadDecision::CloudRefused => {
            &&& plan matches Err(PipelineError::EngineLoadFailed { detail })
            &&& detail@ == "Cloud models should not be loaded as local engines"@
        },
    }
}

/// Whether `plan` is what asking for the uncached model `model_id` may
/// lead to: the plan for the model's catalog entry and for an answer of the
/// disk that the entry admits.
pub open spec fn plan_admitted(
    plan: Result<LoadPlan, PipelineError>,
    model_id: Seq<char>,
    app_data_dir: PathBuf,
) -> bool {
    exists|downloaded: bool|
        {
            &&& catalog_entry(model_id) matches Some(entry) ==> answer_admitted(entry, downloaded)
            &&& plan_matches(
                plan,
                #[trigger] load_decision(false, catalog_entry(model_id), downloaded),
                model_id,
                catalog_entry(model_id),
                app_data_dir,
            )
        }
}

/// What an engine's failure to load is introduced with.
pub open spec fn load_failure_prefix(engine: Engine) -> Seq<char> {
    match engine {
        Engine::Whisper => "Failed to load Whisper model: "@,
        Engine::Parakeet => "Failed to load Parakeet model: "@,
        _ => "Failed to load model: "@,
    }
}

/// What an engine's failure to transcribe is introduced with.
pub open spec fn inference_failure_prefix(engine: Engine) -> Seq<char> {
    match engine {
        Engine::CloudOpenAI => "Cloud OpenAI transcription failed: "@,
        Engine::CloudGroq => "Cloud Groq transcription failed: "@,
        _ => "Transcription failed: "@,
    }
}

/// The engine kind that a plan builds.
pub open spec fn engine_of_plan(plan: LoadPlan) -> Engine {
    match plan {
        LoadPlan::LoadParakeet { .. } => Engine::Parakeet,
        _ => Engine::Whisper,
    }
}

/// Whether `loaded` and the cache after it are what follows from `plan`
/// when `build` constructs the engine: a refusal is handed on and the cache
/// stays; a plan to build hands `build`'s engine out and caches it, or
/// reports `build`'s failure and leaves the cache.
pub open spec fn load_follows<E, F: FnOnce(&LoadPlan) -> Result<E, String>>(
    plan: Result<LoadPlan, PipelineError>,
    build: F,
    loaded: Result<&E, PipelineError>,
    model_id: Seq<char>,
    before: Map<Seq<char>, E>,
    after: Map<Seq<char>, E>,
) -> bool {
    match plan {
        Err(refused) => loaded == Err::<&E, PipelineError>(refused) && after == before,
        Ok(step) => exists|built: Result<E, String>|
            #[trigger] build.ensures((&step,), built) && match built {
                Ok(engine) => {
                    &&& loaded matches Ok(handle)
                    &&& *handle == engine
                    &&& after == before.insert(model_id, engine)
                },
                Err(reason) => {
                    &&& loaded matches Err(PipelineError::EngineLoadFailed { detail })
                    &&& detail@ == load_failure_prefix(engine_of_plan(step)) + reason@
                    &&& after == before
                },
            },
    }
}

/// Whether `route` is the way of a request for `model_id`.
///
/// Silence is answered at once, whatever the model. Otherwise the model's
/// engine decides: a remote one needs an API key, and the second service
/// takes the model named or its default; a local one takes the options.
pub open spec fn is_route(
    route: Result<Dispatch, PipelineError>,
    model_id: Seq<char>,
    silent: bool,
    options: OptionsView,
    api_key: Option<Seq<char>>,
    cloud_model: Option<Seq<char>>,
) -> bool {
    if silent {
        route == Ok::<Dispatch, PipelineError>(Dispatch::Silent)
    } else {
        match engine_of(model_id) {
            None => {
                &&& route matches Err(PipelineError::UnknownModel { model_id: named })
                &&& named@ == model_id
            },
            Some(Engine::CloudOpenAI) => match api_key {
                None => {
                    &&& route matches Err(PipelineError::InferenceFailed { detail })
                    &&& detail@ == "API key required for cloud OpenAI transcription"@
                },
                Some(key) => {
                    &&& route matches Ok(
                        Dispatch::Remote { service, api_key: used, model, options: handed },
                    )
                    &&& service == CloudService::OpenAi
                    &&& used@ == key
                    &&& model@ == "whisper-1"@
                    &&& handed@ == options
                },
            },
            Some(Engine::CloudGroq) => match api_key {
                None => {
                    &&& route matches Err(PipelineError::InferenceFailed { detail })
                    &&& detail@ == "API key required for cloud Groq transcription"@
                },
                Some(key) => {
                    &&& route matches Ok(
                        Dispatch::Remote { service, api_key: used, model, options: handed },
                    )
                    &&& service == CloudService::Groq
                    &&& used@ == key
                    &&& model@ == match cloud_model {
                        Some(name) => name,
                        None => "whisper-large-v3-turbo"@,
                    }
                    &&& handed@ == options
                },
            },
            Some(_) => {
                &&& route matches Ok(Dispatch::Local { options: handed })
                &&& handed@ == options
            },
        }
    }
}

/// Decides what has to happen before the model can be used locally, from
/// whether its engine is cached, its catalog entry, and whether its files
/// were found on disk.
pub fn decide_load(
    cached: bool,
    model: Option<&ModelInfo>,
    model_id: &str,
    downloaded: bool,
    app_data_dir: &PathBuf,
) -> (plan: Result<LoadPlan, PipelineError>)
    ensures
        plan_matches(
            plan,
            load_decision(
                cached,
                match model {
                    Some(info) => Some(info@),
                    None => None,
                },
                downloaded,
            ),
            model_id@,
            match model {
                Some(info) => Some(info@),
                None => None,
            },
            *app_data_dir,
        ),
{
    if cached {
        return Ok(LoadPlan::UseCached);
    }
    let info = match model {
        Some(info) => info,
        None => {
            return Err(PipelineError::UnknownModel { model_id: String::from_str(model_id) });
        },
    };
    if !downloaded {
        return Err(PipelineError::ModelNotDownloaded { model_id: String::from_str(model_id) });
    }
    if engine_is_cloud(info.engine) {
        return Err(
            PipelineError::EngineLoadFailed {
                detail: String::from_str("Cloud models should not be loaded as local engines"),
            },
        );
    }
    if info.files.len() == 0 {
        return Err(PipelineError::ModelNotDownloaded { model_id: String::from_str(model_id) });
    }
    let model_dir = model_path(app_data_dir, info.id.as_str());
    match info.engine {
        Engine::Parakeet => {
            let files = model_files(app_data_dir, info);
            Ok(LoadPlan::LoadParakeet { model_dir, files })
        },
        _ => {
            let model_file = path_join(&model_dir, info.files[0].as_str());
            Ok(LoadPlan::LoadWhisper { model_file })
        },
    }
}

/// The engine that runs the model `model_id`, by the catalog.
pub fn engine_for_model(model_id: &str) -> (engine: Option<Engine>)
    ensures
        engine == engine_of(model_id@),
{
    let catalog = full_catalog();
    match find_model(&catalog, model_id) {
        Some(i) => {
            assert(entries(catalog@)[i as int] == catalog@[i as int]@);
            Some(catalog[i].engine)
        },
        None => None,
    }
}

/// The engine kind that a plan builds.
pub fn plan_engine(plan: &LoadPlan) -> (engine: Engine)
    ensures
        engine == engine_of_plan(*plan),
{
    match plan {
        LoadPlan::LoadParakeet { .. } => Engine::Parakeet,
        _ => Engine::Whisper,
    }
}

/// The error for an engine that could not be built.
pub fn load_failure(engine: Engine, reason: &str) -> (error: PipelineError)
    ensures
        error matches PipelineError::EngineLoadFailed { detail } && detail@ == load_failure_prefix(
            engine,
        ) + reason@,
{
    let detail = match engine {
        Engine::Whisper => glue("Failed to load Whisper model: ", reason),
        Engine::Parakeet => glue("Failed to load Parakeet model: ", reason),
        _ => glue("Failed to load model: ", reason),
    };
    PipelineError::EngineLoadFailed { detail }
}

/// The error for an engine that failed to transcribe. The reason is kept
/// word for word, behind the engine's name.
pub fn inference_failure(engine: Engine, reason: &str) -> (error: PipelineError)
    ensures
        error matches PipelineError::InferenceFailed { detail } && detail@
            == inference_failure_prefix(engine) + reason@,
{
    let detail = match engine {
        Engine::CloudOpenAI => glue("Cloud OpenAI transcription failed: ", reason),
        Engine::CloudGroq => glue("Cloud Groq transcription failed: ", reason),
        _ => glue("Transcription failed: ", reason),
    };
    PipelineError::InferenceFailed { detail }
}

/// The error for an inference worker that ended without a result.
pub fn worker_failure(reason: &str) -> (error: PipelineError)
    ensures
        error matches PipelineError::InferenceFailed { detail } && detail@
            == "Transcription task failed: "@ + reason@,
{
    PipelineError::InferenceFailed { detail: glue("Transcription task failed: ", reason) }
}

/// The audio of the session to transcribe: `SessionNotFound` where nothing
/// is stored under the identifier, `EmptyAudio` where what is stored has no
/// sample.
pub fn session_audio<'a, S>(state: &'a RecordingState<S>, session_id: &str) -> (audio: Result<
    &'a Vec<S>,
    PipelineError,
>)
    requires
        state.wf(),
    ensures
        !state.sessions().contains_key(session_id@) ==> audio == Err::<&Vec<S>, PipelineError>(
            PipelineError::SessionNotFound,
        ),
        state.sessions().contains_key(session_id@) && state.sessions()[session_id@].len() == 0
            ==> audio == Err::<&Vec<S>, PipelineError>(PipelineError::EmptyAudio),
        state.sessions().contains_key(session_id@) && state.sessions()[session_id@].len() != 0
            ==> (audio matches Ok(samples) && samples@ == state.sessions()[session_id@]),
{
    match get_session_audio(state, session_id) {
        None => Err(PipelineError::SessionNotFound),
        Some(samples) => {
            if samples.len() == 0 {
                Err(PipelineError::EmptyAudio)
            } else {
                Ok(samples)
            }
        },
    }
}

/// Plans the transcription of a stored session. `is_silent` judges the
/// audio: it tells whether its energy lies below the silence threshold.
///
/// A session that is not stored is `SessionNotFound`, one without samples
/// `EmptyAudio`. Otherwise `is_silent` is asked, and the request goes the
/// way that `is_route` describes for its answer: silence needs no engine.
pub fn plan_transcription<S, F>(
    state: &RecordingState<S>,
    session_id: &str,
    model_id: &str,
    options: TranscriptionOptions,
    api_key: Option<String>,
    cloud_model: Option<String>,
    is_silent: F,
) -> (route: Result<Dispatch, PipelineError>) where F: FnOnce(&Vec<S>) -> bool
    requires
        state.wf(),
        forall|audio: &Vec<S>| is_silent.requires((audio,)),
    ensures
        !state.sessions().contains_key(session_id@) ==> route == Err::<Dispatch, PipelineError>(
            PipelineError::SessionNotFound,
        ),
        state.sessions().contains_key(session_id@) && state.sessions()[session_id@].len() == 0
            ==> route == Err::<Dispatch, PipelineError>(PipelineError::EmptyAudio),
        state.sessions().contains_key(session_id@) && state.sessions()[session_id@].len() != 0
            ==> exists|audio: &Vec<S>, silent: bool|
            {
                &&& audio@ == state.sessions()[session_id@]
                &&& #[trigger] is_silent.ensures((audio,), silent)
                &&& is_route(
                    route,
                    model_id@,
                    silent,
                    options@,
                    text_of(api_key),
                    text_of(cloud_model),
                )
            },
{
    let audio = match session_audio(state, session_id) {
        Ok(audio) => audio,
        Err(missing) => {
            return Err(missing);
        },
    };
    let silent = is_silent(audio);
    let route = route_transcription(model_id, silent, options, api_key, cloud_model);
    assert(is_silent.ensures((audio,), silent));
    route
}

/// Chooses the way of a transcription request. `silent` tells whether the
/// audio's energy was found below the silence threshold.
pub fn route_transcription(
    model_id: &str,
    silent: bool,
    options: TranscriptionOptions,
    api_key: Option<String>,
    cloud_model: Option<String>,
) -> (route: Result<Dispatch, PipelineError>)
    ensures
        is_route(route, model_id@, silent, options@, text_of(api_key), text_of(cloud_model)),
{
    if silent {
        return Ok(Dispatch::Silent);
    }
    let engine = match engine_for_model(model_id) {
        Some(engine) => engine,
        None => {
            return Err(PipelineError::UnknownModel { model_id: String::from_str(model_id) });
        },
    };
    match engine {
        Engine::CloudOpenAI => match api_key {
            Some(key) => Ok(
                Dispatch::Remote {
                    service: CloudService::OpenAi,
                    api_key: key,
                    model: String::from_str("whisper-1"),
                    options,
                },
            ),
            None => Err(
                PipelineError::InferenceFailed {
                    detail: String::from_str("API key required for cloud OpenAI transcription"),
                },
            ),
        },
        Engine::CloudGroq => match api_key {
            Some(key) => {
                let model = match cloud_model {
                    Some(name) => name,
                    None => String::from_str("whisper-large-v3-turbo"),
                };
                Ok(Dispatch::Remote { service: CloudService::Groq, api_key: key, model, options })
            },
            None => Err(
                PipelineError::InferenceFailed {
                    detail: String::from_str("API key required for cloud Groq transcription"),
                },
            ),
        },
        _ => Ok(Dispatch::Local { options }),
    }
}

/// The loaded engines, by model identifier: at most one per model. `E` is
/// the engine handle, which the manager never looks into.
#[verifier::reject_recursive_types(E)]
pub struct SttManager<E> {
    engines: StringHashMap<E>,
}

impl<E> SttManager<E> {
    /// The cached engines, by model identifier.
    pub closed spec fn cache(&self) -> Map<Seq<char>, E> {
        self.engines@
    }

    /// A manager with nothing loaded.
    pub fn new() -> (manager: Self)
        ensures
            manager.cache() == Map::<Seq<char>, E>::empty(),
    {
        SttManager { engines: StringHashMap::new() }
    }

    /// The cached engine of a model.
    pub fn cached(&self, model_id: &str) -> (engine: Option<&E>)
        ensures
            match engine {
                Some(handle) => self.cache().contains_key(model_id@) && *handle
                    == self.cache()[model_id@],
                None => !self.cache().contains_key(model_id@),
            },
    {
        self.engines.get(model_id)
    }

    /// Says what has to happen before the model can be used locally. A
    /// cached engine is used without a look at the catalog or the disk.
    /// Otherwise the plan is the decision for the model's catalog entry and
    /// for what the disk said of its files: a model that the catalog lacks
    /// is unknown, a remote model is refused, and a local model is built
    /// from its files or reported as not downloaded.
    pub fn plan_load(&self, model_id: &str, app_data_dir: &PathBuf) -> (plan: Result<
        LoadPlan,
        PipelineError,
    >)
        ensures
            self.cache().contains_key(model_id@) ==> plan == Ok::<LoadPlan, PipelineError>(
                LoadPlan::UseCached,
            ),
            !self.cache().contains_key(model_id@) ==> plan_admitted(
                plan,
                model_id@,
                *app_data_dir,
            ),
    {
        if self.engines.contains_key(model_id) {
            return Ok(LoadPlan::UseCached);
        }
        let catalog = full_catalog();
        match find_model(&catalog, model_id) {
            Some(i) => {
                assert(entries(catalog@)[i as int] == catalog@[i as int]@);
                let downloaded = is_model_downloaded(app_data_dir, &catalog[i]);
                let plan = decide_load(false, Some(&catalog[i]), model_id, downloaded, app_data_dir);
                assert(answer_admitted(catalog[i as int]@, downloaded));
                assert(plan_matches(
                    plan,
                    load_decision(false, catalog_entry(model_id@), downloaded),
                    model_id@,
                    catalog_entry(model_id@),
                    *app_data_dir,
                ));
                plan
            },
            None => {
                let plan = decide_load(false, None, model_id, false, app_data_dir);
                assert(plan_matches(
                    plan,
                    load_decision(false, catalog_entry(model_id@), false),
                    model_id@,
                    catalog_entry(model_id@),
                    *app_data_dir,
                ));
                plan
            },
        }
    }

    /// Takes what building the engine gave. An engine is cached under the
    /// model's identifier; a failure is reported as `EngineLoadFailed` and
    /// leaves the cache as it was.
    pub fn finish_load(&mut self, model_id: &str, engine: Engine, built: Result<E, String>) -> (loaded:
        Result<(), PipelineError>)
        ensures
            match built {
                Ok(handle) => loaded is Ok && final(self).cache() == old(self).cache().insert(
                    model_id@,
                    handle,
                ),
                Err(reason) => {
                    &&& loaded matches Err(PipelineError::EngineLoadFailed { detail })
                    &&& detail@ == load_failure_prefix(engine) + reason@
                    &&& final(self).cache() == old(self).cache()
                },
            },
    {
        match built {
            Ok(handle) => {
                self.engines.insert(String::from_str(model_id), handle);
                Ok(())
            },
            Err(reason) => Err(load_failure(engine, reason.as_str())),
        }
    }

    /// Hands out the engine of a model, loading it on first use. `build`
    /// constructs the engine that the plan calls for.
    ///
    /// A cached engine is handed out as it is, and `build` has no part in
    /// it. Otherwise the model must be in the catalog and on disk; the
    /// engine that `build` makes is cached and handed out, and where
    /// `build` fails, the failure is `EngineLoadFailed` and the cache stays
    /// as it was.
    pub fn get_or_load<F>(&mut self, model_id: &str, app_data_dir: &PathBuf, build: F) -> (loaded:
        Result<&E, PipelineError>) where F: FnOnce(&LoadPlan) -> Result<E, String>
        requires
            forall|plan: &LoadPlan| !(*plan is UseCached) ==> build.requires((plan,)),
        ensures
            old(self).cache().contains_key(model_id@) ==> {
                &&& loaded matches Ok(handle)
                &&& *handle == old(self).cache()[model_id@]
                &&& final(self).cache() == old(self).cache()
            },
            !old(self).cache().contains_key(model_id@) ==> exists|
                plan: Result<LoadPlan, PipelineError>,
            |
                {
                    &&& plan_admitted(plan, model_id@, *app_data_dir)
                    &&& #[trigger] load_follows(
                        plan,
                        build,
                        loaded,
                        model_id@,
                        old(self).cache(),
                        final(self).cache(),
                    )
                },
    {
        let plan = self.plan_load(model_id, app_data_dir);
        let ghost planned = plan;
        let ghost before = self.cache();
        let step = match plan {
            Ok(step) => step,
            Err(refused) => {
                assert(load_follows(planned, build, Err(refused), model_id@, before, self.cache()));
                return Err(refused);
            },
        };
        match step {
            LoadPlan::UseCached => {
                match self.engines.get(model_id) {
                    Some(handle) => Ok(handle),
                    None => Err(PipelineError::UnknownModel { model_id: String::from_str(model_id) }),
                }
            },
            _ => {
                let engine = plan_engine(&step);
                let built = build(&step);
                let ghost made = built;
                match self.finish_load(model_id, engine, built) {
                    Ok(_) => {
                        let loaded = self.engines.get(model_id);
                        match loaded {
                            Some(handle) => {
                                assert(load_follows(
                                    planned,
                                    build,
                                    Ok(handle),
                                    model_id@,
                                    before,
                                    self.cache(),
                                ));
                                Ok(handle)
                            },
                            None => Err(
                                PipelineError::UnknownModel {
                                    model_id: String::from_str(model_id),
                                },
                            ),
                        }
                    },
                    Err(failed) => {
                        assert(load_follows(
                            planned,
                            build,
                            Err(failed),
                            model_id@,
                            before,
                            self.cache(),
                        ));
                        Err(failed)
                    },
                }
            },
        }
    }

    /// Drops the cached engine of a model, as after the model's deletion,
    /// so that the next request loads it again or fails.
    pub fn evict(&mut self, model_id: &str)
        ensures
            final(self).cache() == old(self).cache().remove(model_id@),
    {
        self.engines.remove(model_id);
    }
}

/// After an eviction the model's engine is not in the cache, so the next
/// request for it never uses a cached engine: it builds a new one or
/// fails.
pub proof fn lemma_evicted_engine_is_rebuilt<E>(
    cache: Map<Seq<char>, E>,
    model_id: Seq<char>,
    found: Option<ModelEntry>,
    downloaded: bool,
)
    ensures
        !cache.remove(model_id).contains_key(model_id),
        !(load_decision(cache.remove(model_id).contains_key(model_id), found, downloaded)
            is UseCached),
{
}

/// Silence is answered without an engine, whatever else is asked.
pub proof fn lemma_silence_needs_no_engine(
    route: Result<Dispatch, PipelineError>,
    model_id: Seq<char>,
    options: OptionsView,
    api_key: Option<Seq<char>>,
    cloud_model: Option<Seq<char>>,
)
    requires
        is_route(route, model_id, true, options, api_key, cloud_model),
    ensures
        route == Ok::<Dispatch, PipelineError>(Dispatch::Silent),
{
}

} // verus!
