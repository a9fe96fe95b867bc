//! The catalogue of models: what lies on disk, what the hub offers, and
//! where a download goes.

use serde_json::Value;
use vstd::prelude::*;
use vstd::string::StringExecFns;
use crate::json::{
    json_get,
    json_items,
    json_items_of,
    json_member,
    json_number,
    json_number_of,
    json_text,
    json_text_of,
    text_view,
};
use crate::storage::setting_of;
use vstd::utf8::encode_utf8;
use crate::text::{
    contains,
    decimal,
    decimal_digits,
    ends_with,
    has_substring,
    is_suffix,
    last_segment,
    last_segment_of,
    lowercase_of,
    str_eq,
    to_lowercase,
    trim,
    trim_end_matches,
    trimmed,
    without_trailing,
};

verus! {

/// The two kinds of model files.
#[derive(Debug, Clone, Copy, PartialEq, Eq, Structural)]
pub enum ModelKind {
    /// One packed file of quantized weights.
    Gguf,
    /// Weight files in full precision.
    Safetensors,
}

impl ModelKind {
    /// The name of the kind, which is also the name of its folder and the
    /// ending of its files.
    pub open spec fn name(self) -> Seq<char> {
        match self {
            ModelKind::Gguf => "gguf"@,
            ModelKind::Safetensors => "safetensors"@,
        }
    }

    /// The kind that a name stands for.
    pub open spec fn of_name(name: Seq<char>) -> Option<ModelKind> {
        if name == "gguf"@ {
            Some(ModelKind::Gguf)
        } else if name == "safetensors"@ {
            Some(ModelKind::Safetensors)
        } else {
            None
        }
    }

    pub fn as_str(&self) -> (r: &'static str)
        ensures
            r@ == self.name(),
    {
        match self {
            ModelKind::Gguf => "gguf",
            ModelKind::Safetensors => "safetensors",
        }
    }

    /// Reads the kind that a request names. Only the two names themselves
    /// are known, in lowercase.
    pub fn parse(name: &str) -> (r: Option<ModelKind>)
        ensures
            r == Self::of_name(name@),
    {
        if str_eq(name, "gguf") {
            Some(ModelKind::Gguf)
        } else if str_eq(name, "safetensors") {
            Some(ModelKind::Safetensors)
        } else {
            None
        }
    }

    /// Every kind is read back from its own name.
    pub proof fn lemma_name_round_trip(kind: ModelKind)
        ensures
            Self::of_name(kind.name()) == Some(kind),
    {
        reveal_strlit("gguf");
        reveal_strlit("safetensors");
        assert("gguf"@.len() == 4 && "safetensors"@.len() == 11);
    }
}

/// What a file of a repository on the hub is, by its name: `gguf` and
/// `safetensors` by their endings, `tokenizer` for any name that holds that
/// word or ends in `.json`, and `other` for the rest.
pub open spec fn file_type_of(filename: Seq<char>) -> Seq<char> {
    if is_suffix(".gguf"@, filename) {
        "gguf"@
    } else if is_suffix(".safetensors"@, filename) {
        "safetensors"@
    } else if has_substring(filename, "tokenizer"@) || is_suffix(".json"@, filename) {
        "tokenizer"@
    } else {
        "other"@
    }
}

pub fn file_type(filename: &str) -> (r: &'static str)
    ensures
        r@ == file_type_of(filename@),
{
    if ends_with(filename, ".gguf") {
        "gguf"
    } else if ends_with(filename, ".safetensors") {
        "safetensors"
    } else if contains(filename, "tokenizer") || ends_with(filename, ".json") {
        "tokenizer"
    } else {
        "other"
    }
}

/// The kind of a model file on disk: the kind whose folder lies on the path
/// to the file, `gguf` before `safetensors`, and else the kind that the
/// ending of the file names. `components` are the parts of the path and
/// `extension` is the ending of the file, all in lowercase.
pub open spec fn local_kind_of(components: Seq<Seq<char>>, extension: Seq<char>) -> Option<
    ModelKind,
> {
    if components.contains("gguf"@) {
        Some(ModelKind::Gguf)
    } else if components.contains("safetensors"@) {
        Some(ModelKind::Safetensors)
    } else {
        ModelKind::of_name(extension)
    }
}

/// The views of a list of strings.
pub open spec fn views(list: Seq<String>) -> Seq<Seq<char>> {
    list.map_values(|s: String| s@)
}

/// Whether a list of strings holds a given one.
pub fn holds(list: &Vec<String>, wanted: &str) -> (r: bool)
    ensures
        r == views(list@).contains(wanted@),
{
    let mut i: usize = 0;
    while i < list.len()
        invariant
            i <= list.len(),
            forall|j: int| 0 <= j < i ==> views(list@)[j] != wanted@,
        decreases list.len() - i,
    {
        if str_eq(list[i].as_str(), wanted) {
            assert(views(list@)[i as int] == wanted@);
            return true;
        }
        i = i + 1;
    }
    false
}

pub fn local_kind(components: &Vec<String>, extension: &str) -> (r: Option<ModelKind>)
    ensures
        r == local_kind_of(views(components@), extension@),
{
    if holds(components, "gguf") {
        Some(ModelKind::Gguf)
    } else if holds(components, "safetensors") {
        Some(ModelKind::Safetensors)
    } else {
        ModelKind::parse(extension)
    }
}

/// The name under which a model file on disk is listed: the name of its
/// folder where that lies in the folder of a kind, else the name of the
/// file. `above` is the name of the folder above the file's folder, in
/// lowercase.
pub fn local_model_name<'a>(file_name: &'a str, folder: &'a str, above: Option<&str>) -> (r:
    &'a str)
    ensures
        r@ == (if above is Some && ModelKind::of_name(above.unwrap()@) is Some {
            folder@
        } else {
            file_name@
        }),
{
    match above {
        Some(name) => if ModelKind::parse(name).is_some() {
            folder
        } else {
            file_name
        },
        None => file_name,
    }
}

/// What was found beside a model file while looking for its tokenizer.
#[derive(Debug, Clone, Copy, PartialEq, Eq, Structural)]
pub struct TokenizerProbe {
    /// The folder of the model holds a file `tokenizer.json`.
    pub json_beside: bool,
    /// It holds a folder `tokenizer` with a file `tokenizer.json` in it.
    pub json_in_tokenizer_folder: bool,
    /// It holds a folder named like the model file without its ending, with
    /// a file `tokenizer.json` in it.
    pub json_in_named_folder: bool,
}

/// Where the tokenizer of a model file lies.
#[derive(Debug, Clone, Copy, PartialEq, Eq, Structural)]
pub enum TokenizerPlace {
    /// The file `tokenizer.json` beside the model.
    JsonBeside,
    /// The folder `tokenizer` beside the model.
    TokenizerFolder,
    /// The folder named like the model.
    NamedFolder,
}

/// The tokenizer that belongs to a model file: the file beside it before the
/// folder `tokenizer`, and that before the folder named like the model.
pub fn find_tokenizer_in_directory(probe: TokenizerProbe) -> (r: Option<TokenizerPlace>)
    ensures
        r == (if probe.json_beside {
            Some(TokenizerPlace::JsonBeside)
        } else if probe.json_in_tokenizer_folder {
            Some(TokenizerPlace::TokenizerFolder)
        } else if probe.json_in_named_folder {
            Some(TokenizerPlace::NamedFolder)
        } else {
            None::<TokenizerPlace>
        }),
{
    if probe.json_beside {
        Some(TokenizerPlace::JsonBeside)
    } else if probe.json_in_tokenizer_folder {
        Some(TokenizerPlace::TokenizerFolder)
    } else if probe.json_in_named_folder {
        Some(TokenizerPlace::NamedFolder)
    } else {
        None
    }
}

/// Whether a file on disk is listed as a tokenizer: a file that ends in
/// `json`, in any letter case, and has `tokenizer` in its name.
pub fn is_tokenizer_file(file_name: &str, extension: &str) -> (r: bool)
    ensures
        r == (lowercase_of(extension@) == "json"@ && has_substring(file_name@, "tokenizer"@)),
{
    let lower = to_lowercase(extension);
    str_eq(lower.as_str(), "json") && contains(file_name, "tokenizer")
}

/// A byte that stands for itself in a percent-encoded string: a letter, a
/// digit, or one of `-`, `.`, `_` and `~`.
pub open spec fn is_unreserved(b: u8) -> bool {
    ||| 0x30 <= b <= 0x39
    ||| 0x41 <= b <= 0x5A
    ||| 0x61 <= b <= 0x7A
    ||| b == 0x2D
    ||| b == 0x2E
    ||| b == 0x5F
    ||| b == 0x7E
}

/// The hexadecimal digit, in capitals, for a number below sixteen.
pub open spec fn hex_digit(d: u8) -> u8 {
    if d < 10 {
        (0x30 + d) as u8
    } else {
        (0x41 + d - 10) as u8
    }
}

/// The percent-encoding of a sequence of bytes: every byte that is not
/// unreserved becomes `%` and its two hexadecimal digits.
pub open spec fn percent_encoded(bytes: Seq<u8>) -> Seq<u8>
    decreases bytes.len(),
{
    if bytes.len() == 0 {
        Seq::empty()
    } else if is_unreserved(bytes.last()) {
        percent_encoded(bytes.drop_last()).push(bytes.last())
    } else {
        percent_encoded(bytes.drop_last()) + seq![
            0x25u8,
            hex_digit(bytes.last() / 16),
            hex_digit(bytes.last() % 16),
        ]
    }
}

/// Calls `urlencoding::encode`: the bytes of the result are the
/// percent-encoding of the bytes of the argument.
#[verifier::external_body]
fn url_encode(s: &str) -> (r: String)
    ensures
        encode_utf8(r@) == percent_encoded(encode_utf8(s@)),
{
    urlencoding::encode(s).into_owned()
}

/// The address at which the hub is asked for models.
pub open spec fn search_url_of(encoded_query: Seq<char>, limit: nat, filter: Option<ModelKind>) -> Seq<
    char,
> {
    let base = "https://huggingface.co/api/models?search="@ + encoded_query + "&limit="@
        + decimal_digits(limit);
    match filter {
        Some(kind) => base + "&filter="@ + kind.name(),
        None => base,
    }
}

/// The number of models that a search asks for where the request names
/// none.
pub const DEFAULT_SEARCH_LIMIT: usize = 20;

/// Why a search cannot be sent.
#[derive(Debug, Clone, Copy, PartialEq, Eq, Structural)]
pub enum SearchError {
    /// The query holds nothing but white space.
    EmptyQuery,
}

/// The address at which the hub is asked for the models of a request: the
/// query without the white space around it, percent-encoded; the limit of
/// the request or 20; and a filter where the request names one of the two
/// kinds. A query of white space only is refused.
pub fn search_url(request: &SearchRemoteModelsRequest) -> (r: Result<String, SearchError>)
    ensures
        trimmed(request.query@).len() == 0 ==> r == Err::<String, SearchError>(
            SearchError::EmptyQuery,
        ),
        trimmed(request.query@).len() > 0 ==> r is Ok && exists|encoded: Seq<char>|
            #![trigger encode_utf8(encoded)]
            encode_utf8(encoded) == percent_encoded(encode_utf8(trimmed(request.query@)))
                && r.unwrap()@ == search_url_of(
                encoded,
                match request.limit {
                    Some(n) => n as nat,
                    None => DEFAULT_SEARCH_LIMIT as nat,
                },
                match request.model_type {
                    Some(name) => ModelKind::of_name(name@),
                    None => None,
                },
            ),
{
    let query = trim(request.query.as_str());
    if query.unicode_len() == 0 {
        return Err(SearchError::EmptyQuery);
    }
    let limit = match request.limit {
        Some(n) => n,
        None => DEFAULT_SEARCH_LIMIT,
    };
    let encoded = url_encode(query);
    let mut url = "https://huggingface.co/api/models?search=".to_owned();
    url.append(encoded.as_str());
    url.append("&limit=");
    url.append(decimal(limit).as_str());
    let filter = match &request.model_type {
        Some(name) => ModelKind::parse(name.as_str()),
        None => None,
    };
    match filter {
        Some(kind) => {
            url.append("&filter=");
            url.append(kind.as_str());
        },
        None => {},
    }
    Ok(url)
}

/// The address at which the hub lists the files of a repository.
pub fn files_url(repo_id: &str) -> (url: String)
    ensures
        url@ == "https://huggingface.co/api/models/"@ + repo_id@ + "/tree/main"@,
{
    let mut url = "https://huggingface.co/api/models/".to_owned();
    url.append(repo_id);
    url.append("/tree/main");
    url
}

/// The address from which the hub hands out a file of a repository.
pub fn download_url(repo_id: &str, filename: &str) -> (url: String)
    ensures
        url@ == "https://huggingface.co/"@ + repo_id@ + "/resolve/main/"@ + filename@,
{
    let mut url = "https://huggingface.co/".to_owned();
    url.append(repo_id);
    url.append("/resolve/main/");
    url.append(filename);
    url
}

/// The name of the folder for the models of a repository: the last part of
/// its id, without the ending that says of which kind its files are.
pub open spec fn folder_name_of(repo_id: Seq<char>) -> Seq<char> {
    let name = last_segment_of(repo_id, '/');
    if is_suffix("-GGUF"@, name) {
        without_trailing(name, "-GGUF"@)
    } else if is_suffix("-gguf"@, name) {
        without_trailing(name, "-gguf"@)
    } else if is_suffix("-Safetensors"@, name) {
        without_trailing(name, "-Safetensors"@)
    } else if is_suffix("-safetensors"@, name) {
        without_trailing(name, "-safetensors"@)
    } else {
        name
    }
}

pub fn folder_name(repo_id: &str) -> (name: String)
    ensures
        name@ == folder_name_of(repo_id@),
{
    let name = last_segment(repo_id, '/');
    proof {
        reveal_strlit("-GGUF");
        reveal_strlit("-gguf");
        reveal_strlit("-Safetensors");
        reveal_strlit("-safetensors");
    }
    if ends_with(name, "-GGUF") {
        trim_end_matches(name, "-GGUF")
    } else if ends_with(name, "-gguf") {
        trim_end_matches(name, "-gguf")
    } else if ends_with(name, "-Safetensors") {
        trim_end_matches(name, "-Safetensors")
    } else if ends_with(name, "-safetensors") {
        trim_end_matches(name, "-safetensors")
    } else {
        name.to_owned()
    }
}

/// Where a download goes.
#[derive(Debug, Clone, PartialEq, Eq)]
pub enum DownloadPlan {
    /// To the path that the request names.
    Custom(String),
    /// Into the folder of a model, below the folder of its kind; the folder
    /// is made where it is missing.
    ModelFolder { kind: ModelKind, name: String },
    /// Beside the model of the given name: into its folder below `gguf`
    /// where that exists, else into its folder below `safetensors`, which is
    /// made where it is missing.
    BesideModel { name: String },
    /// Into the folder of all models.
    Root,
}

/// The plan for a download, as the contracts see it.
pub enum DownloadPlanView {
    Custom(Seq<char>),
    ModelFolder { kind: ModelKind, name: Seq<char> },
    BesideModel { name: Seq<char> },
    Root,
}

impl View for DownloadPlan {
    type V = DownloadPlanView;

    open spec fn view(&self) -> DownloadPlanView {
        match self {
            DownloadPlan::Custom(path) => DownloadPlanView::Custom(path@),
            DownloadPlan::ModelFolder { kind, name } => DownloadPlanView::ModelFolder {
                kind: *kind,
                name: name@,
            },
            DownloadPlan::BesideModel { name } => DownloadPlanView::BesideModel { name: name@ },
            DownloadPlan::Root => DownloadPlanView::Root,
        }
    }
}

/// Where the file of a request goes: to the path that the request names; or,
/// for a model file, into the folder of its repository below the folder of
/// its kind; for a tokenizer file, beside the model of its repository; for
/// any other file, into the folder of all models. `extension` is the ending
/// of the file name, in lowercase.
pub open spec fn download_plan_of(
    repo_id: Seq<char>,
    filename: Seq<char>,
    save_path: Option<Seq<char>>,
    extension: Seq<char>,
) -> DownloadPlanView {
    match save_path {
        Some(path) => DownloadPlanView::Custom(path),
        None => match ModelKind::of_name(extension) {
            Some(kind) => DownloadPlanView::ModelFolder { kind, name: folder_name_of(repo_id) },
            None => if has_substring(filename, "tokenizer"@) || extension == "json"@ {
                DownloadPlanView::BesideModel { name: last_segment_of(repo_id, '/') }
            } else {
                DownloadPlanView::Root
            },
        },
    }
}

/// Plans the download of a request. `extension` is the ending of the file
/// name of the request, in any letter case, and empty where it has none.
pub fn plan_download(request: &DownloadModelRequest, extension: &str) -> (plan: DownloadPlan)
    ensures
        plan@ == download_plan_of(
            request.repo_id@,
            request.filename@,
            match request.save_path {
                Some(path) => Some(path@),
                None => None,
            },
            lowercase_of(extension@),
        ),
{
    match &request.save_path {
        Some(path) => DownloadPlan::Custom(path.clone()),
        None => {
            let lower = to_lowercase(extension);
            match ModelKind::parse(lower.as_str()) {
                Some(kind) => DownloadPlan::ModelFolder {
                    kind,
                    name: folder_name(request.repo_id.as_str()),
                },
                None => if contains(request.filename.as_str(), "tokenizer") || str_eq(
                    lower.as_str(),
                    "json",
                ) {
                    DownloadPlan::BesideModel {
                        name: last_segment(request.repo_id.as_str(), '/').to_owned(),
                    }
                } else {
                    DownloadPlan::Root
                },
            }
        },
    }
}

/// The folder of the kind beside whose model a tokenizer file is put, and
/// whether that folder has to be made first: the folder below `gguf` where
/// it exists, else the one below `safetensors`.
pub fn tokenizer_folder_kind(gguf_exists: bool, safetensors_exists: bool) -> (r: (ModelKind, bool))
    ensures
        r.0 == (if gguf_exists {
            ModelKind::Gguf
        } else {
            ModelKind::Safetensors
        }),
        r.1 == (!gguf_exists && !safetensors_exists),
{
    if gguf_exists {
        (ModelKind::Gguf, false)
    } else {
        (ModelKind::Safetensors, !safetensors_exists)
    }
}

/// Whether progress is reported after `downloaded` bytes: at every whole
/// multiple of ten mebibytes.
pub fn reports_progress(downloaded: u64) -> (r: bool)
    ensures
        r == (downloaded % 10_485_760 == 0),
{
    downloaded % 10_485_760 == 0
}

/// How far a download has come, in hundredths of a percent.
pub fn progress_basis_points(downloaded: u64, total: u64) -> (r: u64)
    requires
        total > 0,
        downloaded <= total,
    ensures
        r == downloaded as nat * 10_000 / total as nat,
        r <= 10_000,
{
    assert(downloaded as nat * 10_000 <= 0xFFFF_FFFF_FFFF_FFFF * 10_000) by (nonlinear_arith)
        requires
            downloaded <= 0xFFFF_FFFF_FFFF_FFFF,
    ;
    assert(downloaded as nat * 10_000 / total as nat <= 10_000) by (nonlinear_arith)
        requires
            downloaded <= total,
            total > 0,
    ;
    (((downloaded as u128) * 10_000) / (total as u128)) as u64
}

/// A model file on disk.
#[derive(Debug, Clone)]
pub struct LocalModelInfo {
    pub name: String,
    pub path: String,
    pub size: u64,
    /// `gguf` or `safetensors`.
    pub model_type: String,
    pub modified_time: Option<String>,
    /// The tokenizer that lies beside the model, if any.
    pub tokenizer_path: Option<String>,
}

/// A tokenizer on disk.
#[derive(Debug, Clone)]
pub struct TokenizerInfo {
    pub name: String,
    pub path: String,
    pub modified_time: Option<String>,
}

/// A file of a model on the hub.
#[derive(Debug, Clone)]
pub struct ModelFileInfo {
    pub filename: String,
    pub size: Option<u64>,
    /// `gguf`, `safetensors`, `tokenizer` or `other`.
    pub file_type: String,
}

/// A model on the hub.
#[derive(Debug, Clone)]
pub struct RemoteModelInfo {
    pub id: String,
    pub author: String,
    pub downloads: Option<u64>,
    pub likes: Option<u64>,
    pub tags: Vec<String>,
    pub model_type: Option<String>,
    pub files: Vec<ModelFileInfo>,
}

/// A search for models on the hub.
#[derive(Debug, Clone)]
pub struct SearchRemoteModelsRequest {
    pub query: String,
    pub limit: Option<usize>,
    /// `gguf` or `safetensors`, to see models of that kind only.
    pub model_type: Option<String>,
}

/// What a search on the hub found.
#[derive(Debug, Clone)]
pub struct SearchRemoteModelsResponse {
    pub models: Vec<RemoteModelInfo>,
    pub success: bool,
    pub error: Option<String>,
}

/// A request to fetch one file of a model from the hub.
#[derive(Debug, Clone)]
pub struct DownloadModelRequest {
    pub repo_id: String,
    pub filename: String,
    /// Where to put the file, in place of the folder the catalogue would
    /// choose.
    pub save_path: Option<String>,
}

/// How a download ended.
#[derive(Debug, Clone)]
pub struct DownloadModelResponse {
    pub success: bool,
    pub message: String,
    pub local_path: Option<String>,
    pub error: Option<String>,
}

impl ModelFileInfo {
    /// The entry for a file of a repository on the hub.
    pub fn new(filename: String, size: Option<u64>) -> (info: ModelFileInfo)
        ensures
            info.filename == filename,
            info.size == size,
            info.file_type@ == file_type_of(filename@),
    {
        let file_type = file_type(filename.as_str()).to_owned();
        ModelFileInfo { filename, size, file_type }
    }
}

impl SearchRemoteModelsResponse {
    /// The answer for a search that found the given models.
    pub fn found(models: Vec<RemoteModelInfo>) -> (r: SearchRemoteModelsResponse)
        ensures
            r.success,
            r.models == models,
            r.error is None,
    {
        SearchRemoteModelsResponse { models, success: true, error: None }
    }

    /// The answer for a search that failed: no models, and the reason.
    pub fn failed(reason: String) -> (r: SearchRemoteModelsResponse)
        ensures
            !r.success,
            r.models@.len() == 0,
            r.error == Some(reason),
    {
        SearchRemoteModelsResponse { models: Vec::new(), success: false, error: Some(reason) }
    }
}

impl DownloadModelResponse {
    /// The answer for a download that failed: the reason, as message and as
    /// error, and no path.
    pub fn failed(reason: String) -> (r: DownloadModelResponse)
        ensures
            !r.success,
            r.message@ == reason@,
            r.local_path is None,
            r.error == Some(reason),
    {
        DownloadModelResponse {
            success: false,
            message: reason.clone(),
            local_path: None,
            error: Some(reason),
        }
    }
}

/// The file that holds the weights of a dense model, for a path that a
/// request names.
#[derive(Debug, Clone, Copy, PartialEq, Eq, Structural)]
pub enum WeightFile {
    /// The path itself.
    AsGiven,
    /// The file `model.safetensors` in the folder that the path names.
    Default,
    /// The file at this place in the listing of that folder.
    Listed(usize),
}

/// The first place in a list at which `wanted` stands.
pub open spec fn first_place(list: Seq<Seq<char>>, wanted: Seq<char>) -> Option<usize>
    decreases list.len(),
{
    if list.len() == 0 {
        None
    } else {
        match first_place(list.drop_last(), wanted) {
            Some(i) => Some(i),
            None => if list.last() == wanted {
                Some((list.len() - 1) as usize)
            } else {
                None
            },
        }
    }
}

/// The weight file for a path: the path itself unless it names a folder;
/// in a folder the file `model.safetensors` if there is one, else the first
/// file of the listing whose extension is `safetensors`, else the path
/// itself. `extensions` holds the extension of every file of the listing.
pub open spec fn weight_file_of(
    is_directory: bool,
    has_default: bool,
    extensions: Seq<Seq<char>>,
) -> WeightFile {
    if !is_directory {
        WeightFile::AsGiven
    } else if has_default {
        WeightFile::Default
    } else {
        match first_place(extensions, "safetensors"@) {
            Some(i) => WeightFile::Listed(i),
            None => WeightFile::AsGiven,
        }
    }
}

/// The first place in a list at which `wanted` stands.
pub fn find_first(list: &Vec<String>, wanted: &str) -> (r: Option<usize>)
    ensures
        r == first_place(views(list@), wanted@),
        r matches Some(i) ==> i < list.len() && list[i as int]@ == wanted@,
{
    let mut i: usize = 0;
    assert(views(list@).take(0) =~= Seq::<Seq<char>>::empty());
    while i < list.len()
        invariant
            i <= list.len(),
            first_place(views(list@).take(i as int), wanted@) is None,
        decreases list.len() - i,
    {
        assert(views(list@).take(i + 1).drop_last() =~= views(list@).take(i as int));
        if str_eq(list[i].as_str(), wanted) {
            proof {
                lemma_first_place_stays(views(list@), wanted@, i + 1);
            }
            return Some(i);
        }
        i = i + 1;
    }
    assert(views(list@).take(i as int) =~= views(list@));
    None
}

/// A place that was found in the head of a list is the place in the whole
/// list.
pub proof fn lemma_first_place_stays(list: Seq<Seq<char>>, wanted: Seq<char>, n: int)
    requires
        0 <= n <= list.len(),
        first_place(list.take(n), wanted) is Some,
    ensures
        first_place(list, wanted) == first_place(list.take(n), wanted),
    decreases list.len() - n,
{
    if n < list.len() {
        assert(list.take(n + 1).drop_last() =~= list.take(n));
        lemma_first_place_stays(list, wanted, n + 1);
    } else {
        assert(list.take(n) =~= list);
    }
}

/// The weight file for a path that a request names.
pub fn choose_weight_file(is_directory: bool, has_default: bool, extensions: &Vec<String>) -> (r:
    WeightFile)
    ensures
        r == weight_file_of(is_directory, has_default, views(extensions@)),
        r matches WeightFile::Listed(i) ==> i < extensions.len(),
{
    if !is_directory {
        WeightFile::AsGiven
    } else if has_default {
        WeightFile::Default
    } else {
        match find_first(extensions, "safetensors") {
            Some(i) => WeightFile::Listed(i),
            None => WeightFile::AsGiven,
        }
    }
}

/// The text under a name in an answer of the hub; no text where the answer
/// holds none there.
pub open spec fn text_at(item: Value, key: Seq<char>) -> Seq<char> {
    match setting_of(item, key, None) {
        Some(text) => text,
        None => Seq::empty(),
    }
}

/// The number under a name in an answer of the hub, if it holds one there.
pub open spec fn number_at(item: Value, key: Seq<char>) -> Option<u64> {
    match json_member(item, key) {
        Some(entry) => json_number_of(entry),
        None => None,
    }
}

/// The texts among the items of a list, in order: what is no text is left
/// out.
pub open spec fn texts_among(items: Seq<Value>) -> Seq<Seq<char>>
    decreases items.len(),
{
    if items.len() == 0 {
        Seq::empty()
    } else {
        match json_text_of(items.last()) {
            Some(text) => texts_among(items.drop_last()).push(text),
            None => texts_among(items.drop_last()),
        }
    }
}

/// The texts of the list under a name in an answer of the hub; none where
/// the answer holds no list there.
pub open spec fn texts_at(item: Value, key: Seq<char>) -> Seq<Seq<char>> {
    match json_member(item, key) {
        Some(entry) => match json_items_of(entry) {
            Some(items) => texts_among(items),
            None => Seq::empty(),
        },
        None => Seq::empty(),
    }
}

/// The text under a name in an answer of the hub.
pub fn text_or_empty(item: &Value, key: &str) -> (text: String)
    ensures
        text@ == text_at(*item, key@),
{
    let found = match json_get(item, key) {
        Some(entry) => json_text(&entry),
        None => None,
    };
    match found {
        Some(text) => text,
        None => String::new(),
    }
}

/// The text under a name in an answer of the hub, if it holds one there.
pub fn text_if_any(item: &Value, key: &str) -> (text: Option<String>)
    ensures
        text_view(text) == setting_of(*item, key@, None),
{
    match json_get(item, key) {
        Some(entry) => json_text(&entry),
        None => None,
    }
}

/// The number under a name in an answer of the hub.
pub fn number_if_any(item: &Value, key: &str) -> (number: Option<u64>)
    ensures
        number == number_at(*item, key@),
{
    match json_get(item, key) {
        Some(entry) => json_number(&entry),
        None => None,
    }
}

/// The texts among the items of a list, in order.
pub fn texts_of(items: &Vec<Value>) -> (r: Vec<String>)
    ensures
        views(r@) == texts_among(items@),
{
    let mut kept: Vec<String> = Vec::new();
    let mut i: usize = 0;
    assert(views(kept@) =~= texts_among(items@.take(0)));
    while i < items.len()
        invariant
            i <= items.len(),
            views(kept@) == texts_among(items@.take(i as int)),
        decreases items.len() - i,
    {
        assert(items@.take(i + 1).drop_last() =~= items@.take(i as int));
        assert(items@.take(i + 1).last() == items@[i as int]);
        let ghost before = kept@;
        match json_text(&items[i]) {
            Some(text) => {
                kept.push(text);
                assert(views(kept@) =~= views(before).push(text@));
            },
            None => {},
        }
        i = i + 1;
    }
    assert(items@.take(i as int) =~= items@);
    kept
}

/// The texts of the list under a name in an answer of the hub.
pub fn texts_under(item: &Value, key: &str) -> (r: Vec<String>)
    ensures
        views(r@) == texts_at(*item, key@),
{
    let items = match json_get(item, key) {
        Some(entry) => json_items(&entry),
        None => None,
    };
    match items {
        Some(items) => texts_of(&items),
        None => {
            let none: Vec<String> = Vec::new();
            assert(views(none@) =~= Seq::<Seq<char>>::empty());
            none
        },
    }
}

/// A model of the hub, as one item of a search answer describes it, with
/// the files that were listed for it.
pub fn remote_model_from(item: &Value, files: Vec<ModelFileInfo>) -> (model: RemoteModelInfo)
    ensures
        model.id@ == text_at(*item, "id"@),
        model.author@ == text_at(*item, "author"@),
        model.downloads == number_at(*item, "downloads"@),
        model.likes == number_at(*item, "likes"@),
        views(model.tags@) == texts_at(*item, "tags"@),
        text_view(model.model_type) == setting_of(*item, "model_type"@, None),
        model.files == files,
{
    RemoteModelInfo {
        id: text_or_empty(item, "id"),
        author: text_or_empty(item, "author"),
        downloads: number_if_any(item, "downloads"),
        likes: number_if_any(item, "likes"),
        tags: texts_under(item, "tags"),
        model_type: text_if_any(item, "model_type"),
        files,
    }
}

/// A file of a model of the hub, as one item of a file listing describes
/// it.
pub fn model_file_from(item: &Value) -> (file: ModelFileInfo)
    ensures
        file.filename@ == text_at(*item, "path"@),
        file.size == number_at(*item, "size"@),
        file.file_type@ == file_type_of(file.filename@),
{
    ModelFileInfo::new(text_or_empty(item, "path"), number_if_any(item, "size"))
}

} // verus!
