//! The model catalog: which speech-to-text models exist, which engine runs
//! each, which files each needs and where they lie on disk.

use crate::text::{glue3, views};
use std::path::PathBuf;
use vstd::prelude::*;
use vstd::string::*;

pub mod parakeet_models;
pub mod whisper_models;

verus! {

/// The engine that runs a model.
#[derive(Debug, Clone, Copy, PartialEq, Eq, Structural)]
pub enum Engine {
    /// The local encoder-decoder engine.
    Whisper,
    /// The local transducer engine.
    Parakeet,
    /// The first remote service.
    CloudOpenAI,
    /// The second remote service.
    CloudGroq,
}

/// The languages a model understands.
#[derive(Debug, Clone, Copy, PartialEq, Eq, Structural)]
pub enum LanguageSupport {
    English,
    /// The number of languages.
    Multilingual(usize),
}

/// Where a download stands.
#[derive(Debug, Clone, PartialEq, Eq)]
pub enum DownloadStatus {
    Downloading,
    Completed,
    Failed(String),
}

/// One entry of the catalog.
#[derive(Debug, Clone)]
pub struct ModelInfo {
    pub id: String,
    pub name: String,
    pub engine: Engine,
    pub size_bytes: u64,
    pub download_urls: Vec<String>,
    pub files: Vec<String>,
    pub languages: LanguageSupport,
    pub description: String,
}

/// A catalog entry together with whether its files are on disk.
#[derive(Debug, Clone)]
pub struct ModelStatus {
    pub info: ModelInfo,
    pub downloaded: bool,
}

/// What a catalog entry says, with texts as sequences of characters.
pub struct ModelEntry {
    pub id: Seq<char>,
    pub name: Seq<char>,
    pub engine: Engine,
    pub size_bytes: u64,
    pub download_urls: Seq<Seq<char>>,
    pub files: Seq<Seq<char>>,
    pub languages: LanguageSupport,
    pub description: Seq<char>,
}

impl View for ModelInfo {
    type V = ModelEntry;

    open spec fn view(&self) -> ModelEntry {
        ModelEntry {
            id: self.id@,
            name: self.name@,
            engine: self.engine,
            size_bytes: self.size_bytes,
            download_urls: views(self.download_urls@),
            files: views(self.files@),
            languages: self.languages,
            description: self.description@,
        }
    }
}

/// What a list of catalog entries says.
pub open spec fn entries(list: Seq<ModelInfo>) -> Seq<ModelEntry> {
    Seq::new(list.len(), |i: int| list[i]@)
}

/// Whether the engine runs on a remote service.
pub open spec fn is_cloud(engine: Engine) -> bool {
    engine is CloudOpenAI || engine is CloudGroq
}

/// The address of `file` below `base`.
pub open spec fn file_url(base: Seq<char>, file: Seq<char>) -> Seq<char> {
    base + "/"@ + file
}

/// The entry of a local model whose files are all fetched from below one
/// base address, each under its own name.
pub open spec fn hosted_entry(
    id: Seq<char>,
    name: Seq<char>,
    engine: Engine,
    size_bytes: u64,
    base: Seq<char>,
    files: Seq<Seq<char>>,
    languages: LanguageSupport,
    description: Seq<char>,
) -> ModelEntry {
    ModelEntry {
        id,
        name,
        engine,
        size_bytes,
        download_urls: Seq::new(files.len(), |i: int| file_url(base, files[i])),
        files,
        languages,
        description,
    }
}

/// The entry of a model that a remote service runs: nothing to download.
pub open spec fn cloud_entry(
    id: Seq<char>,
    name: Seq<char>,
    engine: Engine,
    description: Seq<char>,
) -> ModelEntry {
    ModelEntry {
        id,
        name,
        engine,
        size_bytes: 0,
        download_urls: Seq::empty(),
        files: Seq::empty(),
        languages: LanguageSupport::Multilingual(99),
        description,
    }
}

/// The two remote models.
pub open spec fn cloud_catalog() -> Seq<ModelEntry> {
    seq![
        cloud_entry(
            "cloud-openai-whisper"@,
            "OpenAI Whisper (Cloud)"@,
            Engine::CloudOpenAI,
            "OpenAI's cloud Whisper API. Requires API key."@,
        ),
        cloud_entry(
            "cloud-groq-whisper"@,
            "Groq Whisper (Cloud)"@,
            Engine::CloudGroq,
            "Groq's fast cloud Whisper API. Requires API key."@,
        ),
    ]
}

/// The whole catalog: the encoder-decoder models, then the transducer
/// models, then the remote ones.
pub open spec fn catalog_entries() -> Seq<ModelEntry> {
    whisper_models::whisper_catalog() + parakeet_models::parakeet_catalog() + cloud_catalog()
}

/// The place of the first entry whose identifier is `id`, if there is one.
pub open spec fn position_of(list: Seq<ModelEntry>, id: Seq<char>) -> Option<int>
    decreases list.len(),
{
    if list.len() == 0 {
        None
    } else if list.first().id == id {
        Some(0)
    } else {
        match position_of(list.drop_first(), id) {
            Some(i) => Some(i + 1),
            None => None,
        }
    }
}

/// Whether a model counts as downloaded when `present` tells, file by
/// file, what is on disk: a remote model always, a local one if it names at
/// least one file and every file it names is present.
pub open spec fn downloaded_given(entry: ModelEntry, present: Seq<bool>) -> bool {
    if is_cloud(entry.engine) {
        true
    } else if entry.files.len() == 0 {
        false
    } else {
        forall|i: int| 0 <= i < entry.files.len() ==> #[trigger] found_at(present, i)
    }
}

/// Whether `present` reports the file at place `i` as being on disk.
pub open spec fn found_at(present: Seq<bool>, i: int) -> bool {
    0 <= i < present.len() && present[i]
}

/// The path that `PathBuf::join` gives for a base path and one component.
pub uninterp spec fn joined_path(base: PathBuf, part: Seq<char>) -> PathBuf;

/// The directory that holds all models below the application's data
/// directory.
pub open spec fn models_dir_of(app_data_dir: PathBuf) -> PathBuf {
    joined_path(app_data_dir, "models"@)
}

/// The directory of one model.
pub open spec fn model_path_of(app_data_dir: PathBuf, model_id: Seq<char>) -> PathBuf {
    joined_path(models_dir_of(app_data_dir), model_id)
}

/// Where the file at place `i` of a model lies: below the model's
/// directory, under the name the entry gives it.
pub open spec fn model_file_of(app_data_dir: PathBuf, entry: ModelEntry, i: int) -> PathBuf {
    joined_path(model_path_of(app_data_dir, entry.id), entry.files[i])
}

/// Where the files of a model lie, in the entry's order.
pub open spec fn model_files_of(app_data_dir: PathBuf, entry: ModelEntry) -> Seq<PathBuf> {
    Seq::new(entry.files.len(), |i: int| model_file_of(app_data_dir, entry, i))
}

/// Whether `downloaded` can be what the disk makes of an entry, whatever
/// the disk holds: a remote model always counts as downloaded, and a local
/// one that names no file never does.
pub open spec fn answer_admitted(entry: ModelEntry, downloaded: bool) -> bool {
    &&& is_cloud(entry.engine) ==> downloaded
    &&& !is_cloud(entry.engine) && entry.files.len() == 0 ==> !downloaded
}

/// Whether `downloaded` is the decision for some answer of the disk, file
/// by file.
pub open spec fn decided_by_disk(entry: ModelEntry, downloaded: bool) -> bool {
    exists|present: Seq<bool>|
        present.len() == entry.files.len() && downloaded == #[trigger] downloaded_given(
            entry,
            present,
        )
}

/// `std::path::PathBuf`, carried through as a value whose inside is not
/// looked at.
#[verifier::external_type_specification]
#[verifier::external_body]
pub struct ExPathBuf(PathBuf);

/// Calls `PathBuf::join` (through `Path::join`), which adjoins `part` to
/// `base`. The result depends on the two arguments only and is named
/// `joined_path`.
#[verifier::external_body]
pub(crate) fn path_join(base: &PathBuf, part: &str) -> (path: PathBuf)
    ensures
        path == joined_path(*base, part@),
{
    base.join(part)
}

/// Calls `Path::exists`, which asks the file system. Nothing is claimed of
/// the answer.
#[verifier::external_body]
pub(crate) fn path_exists(path: &PathBuf) -> (present: bool)
{
    path.exists()
}

/// Whether `engine` runs on a remote service.
pub fn engine_is_cloud(engine: Engine) -> (cloud: bool)
    ensures
        cloud == is_cloud(engine),
{
    match engine {
        Engine::CloudOpenAI => true,
        Engine::CloudGroq => true,
        _ => false,
    }
}

/// Builds the entry of a local model from its files and the base address
/// they are fetched from.
pub(crate) fn hosted_model(
    id: &str,
    name: &str,
    engine: Engine,
    size_bytes: u64,
    base: &str,
    files: Vec<String>,
    languages: LanguageSupport,
    description: &str,
) -> (model: ModelInfo)
    ensures
        model@ == hosted_entry(
            id@,
            name@,
            engine,
            size_bytes,
            base@,
            views(files@),
            languages,
            description@,
        ),
{
    let mut download_urls: Vec<String> = Vec::new();
    let mut i: usize = 0;
    while i < files.len()
        invariant
            i <= files.len(),
            download_urls.len() == i,
            forall|j: int| 0 <= j < i ==> #[trigger] download_urls[j]@ == file_url(base@, files[j]@),
        decreases files.len() - i,
    {
        download_urls.push(glue3(base, "/", files[i].as_str()));
        i += 1;
    }
    let model = ModelInfo {
        id: String::from_str(id),
        name: String::from_str(name),
        engine,
        size_bytes,
        download_urls,
        files,
        languages,
        description: String::from_str(description),
    };
    assert(model@.download_urls =~= hosted_entry(
        id@,
        name@,
        engine,
        size_bytes,
        base@,
        views(files@),
        languages,
        description@,
    ).download_urls);
    model
}

fn cloud_model(id: &str, name: &str, engine: Engine, description: &str) -> (model: ModelInfo)
    ensures
        model@ == cloud_entry(id@, name@, engine, description@),
{
    let model = ModelInfo {
        id: String::from_str(id),
        name: String::from_str(name),
        engine,
        size_bytes: 0,
        download_urls: Vec::new(),
        files: Vec::new(),
        languages: LanguageSupport::Multilingual(99),
        description: String::from_str(description),
    };
    assert(model@.download_urls =~= Seq::<Seq<char>>::empty());
    assert(model@.files =~= Seq::<Seq<char>>::empty());
    model
}

/// The directory that holds all models.
pub fn models_dir(app_data_dir: &PathBuf) -> (dir: PathBuf)
    ensures
        dir == models_dir_of(*app_data_dir),
{
    path_join(app_data_dir, "models")
}

/// The directory of the model `model_id`.
pub fn model_path(app_data_dir: &PathBuf, model_id: &str) -> (dir: PathBuf)
    ensures
        dir == model_path_of(*app_data_dir, model_id@),
{
    let dir = models_dir(app_data_dir);
    path_join(&dir, model_id)
}

/// Decides whether a model counts as downloaded, from what the file system
/// said of each of its files, in their order.
pub fn is_downloaded_given(model: &ModelInfo, present: &Vec<bool>) -> (downloaded: bool)
    ensures
        downloaded == downloaded_given(model@, present@),
{
    if engine_is_cloud(model.engine) {
        return true;
    }
    if model.files.len() == 0 {
        return false;
    }
    let mut i: usize = 0;
    while i < model.files.len()
        invariant
            i <= model.files.len(),
            !is_cloud(model@.engine),
            model@.files.len() == model.files.len() > 0,
            forall|j: int| 0 <= j < i ==> #[trigger] found_at(present@, j),
        decreases model.files.len() - i,
    {
        if i >= present.len() || !present[i] {
            assert(!found_at(present@, i as int));
            return false;
        }
        i += 1;
    }
    true
}

/// Whether the model's files are on disk. A remote model needs none and
/// always counts as downloaded; a local model that names no file never
/// does. For any other model each of the paths that `model_files` gives is
/// looked up, and the answer is the decision for what was found there.
pub fn is_model_downloaded(app_data_dir: &PathBuf, model: &ModelInfo) -> (downloaded: bool)
    ensures
        answer_admitted(model@, downloaded),
        decided_by_disk(model@, downloaded),
{
    let present = files_present(app_data_dir, model);
    let downloaded = is_downloaded_given(model, &present);
    assert(downloaded == downloaded_given(model@, present@));
    downloaded
}

/// The models that remote services run.
pub fn cloud_models() -> (list: Vec<ModelInfo>)
    ensures
        entries(list@) == cloud_catalog(),
{
    let mut list: Vec<ModelInfo> = Vec::new();
    list.push(
        cloud_model(
            "cloud-openai-whisper",
            "OpenAI Whisper (Cloud)",
            Engine::CloudOpenAI,
            "OpenAI's cloud Whisper API. Requires API key.",
        ),
    );
    list.push(
        cloud_model(
            "cloud-groq-whisper",
            "Groq Whisper (Cloud)",
            Engine::CloudGroq,
            "Groq's fast cloud Whisper API. Requires API key.",
        ),
    );
    assert(entries(list@) =~= cloud_catalog());
    list
}

/// Every model: the encoder-decoder ones, the transducer ones, the remote
/// ones, in this order.
pub fn full_catalog() -> (list: Vec<ModelInfo>)
    ensures
        entries(list@) == catalog_entries(),
{
    let mut list = whisper_models::catalog();
    let mut second = parakeet_models::catalog();
    let mut third = cloud_models();
    let ghost a = list@;
    let ghost b = second@;
    let ghost c = third@;
    list.append(&mut second);
    list.append(&mut third);
    assert(list@ == a + b + c);
    assert(entries(list@) =~= entries(a) + entries(b) + entries(c));
    list
}

/// Looks a model up by its identifier: the place of the first entry that
/// carries it.
pub fn find_model(list: &Vec<ModelInfo>, model_id: &str) -> (found: Option<usize>)
    ensures
        match found {
            Some(i) => position_of(entries(list@), model_id@) == Some(i as int) && i < list.len(),
            None => position_of(entries(list@), model_id@) is None,
        },
{
    let key = String::from_str(model_id);
    let mut i: usize = 0;
    let ghost all = entries(list@);
    assert(all.subrange(0, all.len() as int) =~= all);
    while i < list.len()
        invariant
            i <= list.len(),
            key@ == model_id@,
            all == entries(list@),
            position_of(all, model_id@) == match position_of(
                all.subrange(i as int, all.len() as int),
                model_id@,
            ) {
                Some(k) => Some(k + i),
                None => None,
            },
        decreases list.len() - i,
    {
        let ghost rest = all.subrange(i as int, all.len() as int);
        assert(rest.first() == list@[i as int]@);
        assert(rest.drop_first() =~= all.subrange(i + 1, all.len() as int));
        if list[i].id == key {
            return Some(i);
        }
        i += 1;
    }
    None
}

/// One file that is still to be fetched.
#[derive(Debug, Clone, PartialEq, Eq)]
pub struct DownloadTask {
    /// The file's place among the model's files.
    pub file_index: usize,
    pub url: String,
    pub file_name: String,
}

/// A download task, with its texts as sequences of characters.
pub struct DownloadTaskView {
    pub file_index: int,
    pub url: Seq<char>,
    pub file_name: Seq<char>,
}

impl View for DownloadTask {
    type V = DownloadTaskView;

    open spec fn view(&self) -> DownloadTaskView {
        DownloadTaskView {
            file_index: self.file_index as int,
            url: self.url@,
            file_name: self.file_name@,
        }
    }
}

/// What a list of download tasks says.
pub open spec fn task_views(list: Seq<DownloadTask>) -> Seq<DownloadTaskView> {
    Seq::new(list.len(), |i: int| list[i]@)
}

/// How many of a model's files have an address to be fetched from.
pub open spec fn fetchable(entry: ModelEntry) -> int {
    if entry.download_urls.len() <= entry.files.len() {
        entry.download_urls.len() as int
    } else {
        entry.files.len() as int
    }
}

/// The tasks for the first `upto` files of a model: one for every file
/// that is not on disk, in the files' order, each with the address at the
/// file's place.
pub open spec fn pending_upto(entry: ModelEntry, present: Seq<bool>, upto: int) -> Seq<
    DownloadTaskView,
>
    decreases upto,
{
    if upto <= 0 || upto > fetchable(entry) {
        Seq::empty()
    } else if found_at(present, upto - 1) {
        pending_upto(entry, present, upto - 1)
    } else {
        pending_upto(entry, present, upto - 1).push(
            DownloadTaskView {
                file_index: upto - 1,
                url: entry.download_urls[upto - 1],
                file_name: entry.files[upto - 1],
            },
        )
    }
}

/// Lists what a download of the model has to fetch, given what the file
/// system said of each of its files: the files that are there are passed
/// over.
pub fn pending_downloads(model: &ModelInfo, present: &Vec<bool>) -> (tasks: Vec<DownloadTask>)
    ensures
        task_views(tasks@) == pending_upto(model@, present@, fetchable(model@)),
{
    let total = if model.download_urls.len() <= model.files.len() {
        model.download_urls.len()
    } else {
        model.files.len()
    };
    let mut tasks: Vec<DownloadTask> = Vec::new();
    let mut i: usize = 0;
    while i < total
        invariant
            i <= total,
            total == fetchable(model@),
            total <= model.download_urls.len(),
            total <= model.files.len(),
            task_views(tasks@) == pending_upto(model@, present@, i as int),
        decreases total - i,
    {
        let ghost before = task_views(tasks@);
        if !(i < present.len() && present[i]) {
            tasks.push(
                DownloadTask {
                    file_index: i,
                    url: model.download_urls[i].clone(),
                    file_name: model.files[i].clone(),
                },
            );
            assert(task_views(tasks@) =~= before.push(
                DownloadTaskView {
                    file_index: i as int,
                    url: model@.download_urls[i as int],
                    file_name: model@.files[i as int],
                },
            ));
        }
        i += 1;
    }
    tasks
}

/// Where the model's files lie: each below the model's directory, under
/// its own name, in the order of the entry.
pub fn model_files(app_data_dir: &PathBuf, model: &ModelInfo) -> (paths: Vec<PathBuf>)
    ensures
        paths.len() == model@.files.len(),
        forall|i: int|
            0 <= i < paths.len() ==> #[trigger] paths[i] == joined_path(
                model_path_of(*app_data_dir, model@.id),
                model@.files[i],
            ),
        paths@ == model_files_of(*app_data_dir, model@),
{
    let dir = model_path(app_data_dir, model.id.as_str());
    let mut paths: Vec<PathBuf> = Vec::new();
    let mut i: usize = 0;
    while i < model.files.len()
        invariant
            i <= model.files.len(),
            paths.len() == i,
            dir == model_path_of(*app_data_dir, model@.id),
            forall|k: int|
                0 <= k < i ==> #[trigger] paths[k] == joined_path(dir, model@.files[k]),
        decreases model.files.len() - i,
    {
        paths.push(path_join(&dir, model.files[i].as_str()));
        i += 1;
    }
    assert(paths@ =~= model_files_of(*app_data_dir, model@));
    paths
}

/// Asks the file system for each of `paths`, in their order, whether
/// something is there.
pub fn paths_present(paths: &Vec<PathBuf>) -> (present: Vec<bool>)
    ensures
        present.len() == paths.len(),
{
    let mut present: Vec<bool> = Vec::new();
    let mut i: usize = 0;
    while i < paths.len()
        invariant
            i <= paths.len(),
            present.len() == i,
        decreases paths.len() - i,
    {
        present.push(path_exists(&paths[i]));
        i += 1;
    }
    present
}

/// What the file system says of each of the model's files, in their
/// order: the paths are those of `model_files`, and each is asked once.
pub fn files_present(app_data_dir: &PathBuf, model: &ModelInfo) -> (present: Vec<bool>)
    ensures
        present.len() == model@.files.len(),
{
    let paths = model_files(app_data_dir, model);
    paths_present(&paths)
}

/// A lookup that finds an entry finds one that carries the identifier
/// asked for.
pub proof fn lemma_found_entry_carries_id(list: Seq<ModelEntry>, id: Seq<char>)
    ensures
        position_of(list, id) matches Some(i) ==> 0 <= i < list.len() && list[i].id == id,
    decreases list.len(),
{
    if list.len() > 0 && list.first().id != id {
        lemma_found_entry_carries_id(list.drop_first(), id);
    }
}

/// The catalog holds nine models and no identifier twice, so a lookup by
/// identifier finds the one entry that carries it.
pub proof fn lemma_catalog_ids_distinct()
    ensures
        catalog_entries().len() == 9,
        forall|i: int, j: int|
            0 <= i < j < catalog_entries().len() ==> catalog_entries()[i].id
                != catalog_entries()[j].id,
{
    reveal_strlit("whisper-tiny");
    reveal_strlit("whisper-base");
    reveal_strlit("whisper-small");
    reveal_strlit("whisper-medium");
    reveal_strlit("whisper-large-v3-turbo");
    reveal_strlit("parakeet-tdt-0.6b-v2");
    reveal_strlit("parakeet-tdt-0.6b-v3");
    reveal_strlit("cloud-openai-whisper");
    reveal_strlit("cloud-groq-whisper");
    let all = catalog_entries();
    assert(all.len() == 9);
    assert(all[0].id == "whisper-tiny"@);
    assert(all[1].id == "whisper-base"@);
    assert(all[2].id == "whisper-small"@);
    assert(all[3].id == "whisper-medium"@);
    assert(all[4].id == "whisper-large-v3-turbo"@);
    assert(all[5].id == "parakeet-tdt-0.6b-v2"@);
    assert(all[6].id == "parakeet-tdt-0.6b-v3"@);
    assert(all[7].id == "cloud-openai-whisper"@);
    assert(all[8].id == "cloud-groq-whisper"@);
    assert(all[0].id.len() == 12 && all[0].id[8] == 't');
    assert(all[1].id.len() == 12 && all[1].id[8] == 'b');
    assert(all[2].id.len() == 13);
    assert(all[3].id.len() == 14);
    assert(all[4].id.len() == 22);
    assert(all[5].id.len() == 20 && all[5].id[0] == 'p' && all[5].id[19] == '2');
    assert(all[6].id.len() == 20 && all[6].id[0] == 'p' && all[6].id[19] == '3');
    assert(all[7].id.len() == 20 && all[7].id[0] == 'c');
    assert(all[8].id.len() == 18);
}

/// Every catalog entry with whether its files are on disk: always for a
/// remote model, and for a local one as the disk decides.
pub fn list_models(app_data_dir: &PathBuf) -> (list: Vec<ModelStatus>)
    ensures
        list.len() == catalog_entries().len(),
        forall|i: int|
            0 <= i < list.len() ==> {
                &&& (#[trigger] list[i]).info@ == catalog_entries()[i]
                &&& answer_admitted(catalog_entries()[i], list[i].downloaded)
                &&& decided_by_disk(catalog_entries()[i], list[i].downloaded)
            },
{
    let mut catalog = full_catalog();
    let ghost whole = catalog@;
    let ghost all = entries(catalog@);
    let mut list: Vec<ModelStatus> = Vec::new();
    let total = catalog.len();
    let mut i: usize = 0;
    while i < total
        invariant
            i <= total,
            all == catalog_entries(),
            all == entries(whole),
            total == whole.len(),
            list.len() == i,
            catalog@ == whole.subrange(i as int, total as int),
            forall|k: int|
                0 <= k < i ==> {
                    &&& (#[trigger] list[k]).info@ == all[k]
                    &&& answer_admitted(all[k], list[k].downloaded)
                    &&& decided_by_disk(all[k], list[k].downloaded)
                },
        decreases total - i,
    {
        let info = catalog.remove(0);
        assert(info == whole[i as int]);
        assert(catalog@ =~= whole.subrange(i + 1, total as int));
        let downloaded = is_model_downloaded(app_data_dir, &info);
        list.push(ModelStatus { info, downloaded });
        i += 1;
    }
    list
}

} // verus!
