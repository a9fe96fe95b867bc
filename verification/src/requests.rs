//! The messages that the application exchanges with its front end.

use vstd::prelude::*;
use vstd::string::StringExecFns;
use crate::models::ModelKind;

verus! {

/// The number of tokens generated where a request names none.
pub const DEFAULT_MAX_TOKENS: usize = 512;

/// The address on which the local server listens.
pub open spec fn server_address() -> Seq<char> {
    "http://127.0.0.1:8080"@
}

/// The number of tokens to generate for a request: the number it names, or
/// the default.
pub open spec fn spec_max_tokens(max_tokens: Option<usize>) -> usize {
    match max_tokens {
        Some(n) => n,
        None => DEFAULT_MAX_TOKENS,
    }
}

pub fn max_tokens_or_default(max_tokens: Option<usize>) -> (n: usize)
    ensures
        n == spec_max_tokens(max_tokens),
{
    match max_tokens {
        Some(n) => n,
        None => DEFAULT_MAX_TOKENS,
    }
}

/// A request for text.
#[derive(Debug, Clone)]
pub struct InferenceRequest {
    pub prompt: String,
    pub max_tokens: Option<usize>,
}

/// A request for text about an image in a file.
#[derive(Debug, Clone)]
pub struct MultimodalInferenceRequest {
    pub image_path: String,
    pub prompt: String,
    pub max_tokens: Option<usize>,
}

/// A request for text about an image that comes with the request.
#[derive(Debug, Clone)]
pub struct MultimodalInferenceFromBytesRequest {
    pub image_data: Vec<u8>,
    pub prompt: String,
    pub max_tokens: Option<usize>,
}

/// The answer to a request for text: the text, or the reason why there is
/// none.
#[derive(Debug, Clone)]
pub struct InferenceResponse {
    pub text: String,
    pub success: bool,
    pub error: Option<String>,
}

impl InferenceResponse {
    /// The answer that carries generated text.
    pub fn generated(text: String) -> (r: InferenceResponse)
        ensures
            r.success,
            r.text == text,
            r.error is None,
    {
        InferenceResponse { text, success: true, error: None }
    }

    /// The answer to a request that failed: no text, and the reason.
    pub fn failed(reason: String) -> (r: InferenceResponse)
        ensures
            !r.success,
            r.text@.len() == 0,
            r.error == Some(reason),
    {
        InferenceResponse { text: String::new(), success: false, error: Some(reason) }
    }
}

/// A request to load a dense model.
#[derive(Debug, Clone)]
pub struct InitModelRequest {
    pub model_path: String,
    pub tokenizer_path: String,
}

/// The answer to a request to load a model.
#[derive(Debug, Clone)]
pub struct InitModelResponse {
    pub success: bool,
    pub message: String,
}

/// A request to load a quantized model from a file.
#[derive(Debug, Clone)]
pub struct InitGGUFFileRequest {
    pub model_path: String,
    pub tokenizer_path: Option<String>,
}

/// A request to load a quantized model from a repository on the hub.
#[derive(Debug, Clone)]
pub struct InitGGUFHubRequest {
    pub hf_repo: String,
    pub hf_filename: String,
    pub tokenizer_path: Option<String>,
}

/// A request to load a model of either kind and generate text at once.
#[derive(Debug, Clone)]
pub struct UnifiedInferenceRequest {
    pub model_type: String,
    pub model_path: String,
    pub tokenizer_path: Option<String>,
    pub prompt: String,
    pub max_tokens: Option<usize>,
}

/// Why a request to load and generate at once is sent to no engine.
#[derive(Debug, Clone, Copy, PartialEq, Eq, Structural)]
pub enum RoutingError {
    /// The request names a kind of model that is not known.
    UnsupportedModelType,
    /// The request is for a dense model and names no tokenizer.
    MissingTokenizer,
}

/// The engine that a request goes to, by the kind of model it names: the
/// quantized engine takes any request for its kind, the dense engine only
/// those that name a tokenizer.
pub open spec fn route_of(model_type: Seq<char>, has_tokenizer: bool) -> Result<
    ModelKind,
    RoutingError,
> {
    match ModelKind::of_name(model_type) {
        Some(ModelKind::Gguf) => Ok(ModelKind::Gguf),
        Some(ModelKind::Safetensors) => if has_tokenizer {
            Ok(ModelKind::Safetensors)
        } else {
            Err(RoutingError::MissingTokenizer)
        },
        None => Err(RoutingError::UnsupportedModelType),
    }
}

/// The engine that a request to load and generate at once goes to.
pub fn route(request: &UnifiedInferenceRequest) -> (r: Result<ModelKind, RoutingError>)
    ensures
        r == route_of(request.model_type@, request.tokenizer_path is Some),
{
    match ModelKind::parse(request.model_type.as_str()) {
        Some(ModelKind::Gguf) => Ok(ModelKind::Gguf),
        Some(ModelKind::Safetensors) => if request.tokenizer_path.is_some() {
            Ok(ModelKind::Safetensors)
        } else {
            Err(RoutingError::MissingTokenizer)
        },
        None => Err(RoutingError::UnsupportedModelType),
    }
}

/// The answer of the local server.
#[derive(Debug, Clone)]
pub struct ApiResponse {
    pub message: String,
    pub status: String,
}

/// A request to be greeted.
#[derive(Debug, Clone)]
pub struct GreetRequest {
    pub name: String,
}

/// Whether the local server runs, and where.
#[derive(Debug, Clone)]
pub struct ServerStatus {
    pub is_running: bool,
    pub address: Option<String>,
}

impl ServerStatus {
    /// The status of a server that runs, or does not.
    pub fn of(is_running: bool) -> (status: ServerStatus)
        ensures
            status.is_running == is_running,
            is_running ==> status.address is Some && status.address.unwrap()@
                == server_address(),
            !is_running ==> status.address is None,
    {
        if is_running {
            ServerStatus { is_running: true, address: Some("http://127.0.0.1:8080".to_owned()) }
        } else {
            ServerStatus { is_running: false, address: None }
        }
    }
}

/// The greeting of the desktop shell for a name.
pub fn greet(name: &str) -> (greeting: String)
    ensures
        greeting@ == "Hello, "@ + name@ + "! You've been greeted from Rust!"@,
{
    let mut greeting = "Hello, ".to_owned();
    greeting.append(name);
    greeting.append("! You've been greeted from Rust!");
    greeting
}

impl ApiResponse {
    /// The answer to a health check.
    pub fn healthy() -> (r: ApiResponse)
        ensures
            r.message@ == "Service is running"@,
            r.status@ == "ok"@,
    {
        ApiResponse { message: "Service is running".to_owned(), status: "ok".to_owned() }
    }

    /// The greeting of the local server for a name.
    pub fn greeting(name: &str) -> (r: ApiResponse)
        ensures
            r.message@ == "Hello, "@ + name@ + "! You've been greeted from Rust API!"@,
            r.status@ == "success"@,
    {
        let mut message = "Hello, ".to_owned();
        message.append(name);
        message.append("! You've been greeted from Rust API!");
        ApiResponse { message, status: "success".to_owned() }
    }
}

} // verus!
