//! The provider-neutral model layer: call options, results, stream parts,
//! warnings and errors shared by every model provider.

use vstd::prelude::*;
use crate::json::{JsonNumber, JsonValue, obj_lookup};
use crate::strmap::StringMap;

verus! {

/// Error of a provider call.
#[derive(Debug)]
pub enum AiError {
    /// The HTTP call failed or the API answered with an error status.
    ApiCall { message: String, status: Option<u16>, response_body: Option<String> },
    /// No usable credentials.
    Authentication(String),
    /// An argument or option is invalid.
    InvalidArgument(String),
    /// The response could not be read.
    ResponseParsing(String),
    /// The provider does not offer what was asked.
    Unsupported(String),
    /// The requested model does not exist.
    MissingModel(String),
}

/// The display text of an error.
pub open spec fn ai_error_text(e: AiError) -> Seq<char> {
    match e {
        AiError::ApiCall { message, .. } => "API call failed: "@ + message@,
        AiError::Authentication(m) => "authentication failed: "@ + m@,
        AiError::InvalidArgument(m) => "invalid argument: "@ + m@,
        AiError::ResponseParsing(m) => "failed to parse response: "@ + m@,
        AiError::Unsupported(m) => "unsupported functionality: "@ + m@,
        AiError::MissingModel(m) => "missing model: "@ + m@,
    }
}

/// `prefix` followed by `rest`.
pub fn concat(prefix: &str, rest: &str) -> (s: String)
    ensures
        s@ == prefix@ + rest@,
{
    let mut s = prefix.to_string();
    s.append(rest);
    s
}

impl AiError {
    /// The error's display text.
    pub fn describe(&self) -> (s: String)
        ensures
            s@ == ai_error_text(*self),
    {
        match self {
            AiError::ApiCall { message, .. } => concat("API call failed: ", message.as_str()),
            AiError::Authentication(m) => concat("authentication failed: ", m.as_str()),
            AiError::InvalidArgument(m) => concat("invalid argument: ", m.as_str()),
            AiError::ResponseParsing(m) => concat("failed to parse response: ", m.as_str()),
            AiError::Unsupported(m) => concat("unsupported functionality: ", m.as_str()),
            AiError::MissingModel(m) => concat("missing model: ", m.as_str()),
        }
    }
}

/// A note about a setting that the provider did not honour as given.
#[derive(Debug, Clone, PartialEq, Eq)]
pub enum Warning {
    Unsupported { feature: String, details: Option<String> },
    Compatibility { feature: String, details: Option<String> },
    Deprecated { setting: String, message: String },
    Other { message: String },
}

impl Warning {
    /// The warning that `feature` is not supported, without details.
    pub fn unsupported(feature: &str) -> (w: Warning)
        ensures
            w matches Warning::Unsupported { feature: f, details } && f@ == feature@ && details
                is None,
    {
        Warning::Unsupported { feature: feature.to_string(), details: None }
    }
}

/// Token counts of a call, as far as the provider reported them.
#[derive(Debug, Clone, Copy, PartialEq, Eq)]
pub struct Usage {
    pub input_tokens: Option<u64>,
    pub output_tokens: Option<u64>,
    pub total_tokens: Option<u64>,
}

impl Usage {
    /// Usage with no count reported.
    pub fn unknown() -> (u: Usage)
        ensures
            u.input_tokens is None,
            u.output_tokens is None,
            u.total_tokens is None,
    {
        Usage { input_tokens: None, output_tokens: None, total_tokens: None }
    }
}

/// What the provider said about the response itself.
#[derive(Debug, Clone)]
pub struct ResponseMetadata {
    pub id: Option<String>,
    pub model_id: Option<String>,
    pub timestamp: Option<String>,
    pub headers: Option<StringMap>,
}

/// A function the model may call.
#[derive(Debug)]
pub struct FunctionTool {
    pub name: String,
    pub description: Option<String>,
    pub parameters: JsonValue,
}

/// How the model may use the tools.
#[derive(Debug, Clone, PartialEq, Eq)]
pub enum ToolChoice {
    Auto,
    /// The model calls no tool (`"none"` on the wire).
    NoTool,
    Required,
    Tool { name: String },
}

/// The shape of the answer asked for.
#[derive(Debug)]
pub enum ResponseFormat {
    Text,
    Json { schema: Option<JsonValue>, name: Option<String>, description: Option<String> },
}

/// How much reasoning effort is asked for.
#[derive(Debug, Clone, Copy, PartialEq, Eq)]
pub enum Reasoning {
    ProviderDefault,
    /// No reasoning (`none`).
    Off,
    Minimal,
    Low,
    Medium,
    High,
    XHigh,
}

/// One message of a prompt.
#[derive(Debug, Clone, PartialEq, Eq)]
pub struct LanguageMessage {
    pub role: String,
    pub content: String,
}

impl LanguageMessage {
    /// A system message.
    pub fn system(content: &str) -> (m: LanguageMessage)
        ensures
            m.role@ == "system"@,
            m.content@ == content@,
    {
        LanguageMessage { role: "system".to_string(), content: content.to_string() }
    }

    /// A user message.
    pub fn user(content: &str) -> (m: LanguageMessage)
        ensures
            m.role@ == "user"@,
            m.content@ == content@,
    {
        LanguageMessage { role: "user".to_string(), content: content.to_string() }
    }

    /// An assistant message.
    pub fn assistant(content: &str) -> (m: LanguageMessage)
        ensures
            m.role@ == "assistant"@,
            m.content@ == content@,
    {
        LanguageMessage { role: "assistant".to_string(), content: content.to_string() }
    }
}

/// Options for a provider, keyed by provider name; for a name given twice,
/// the last entry counts.
#[derive(Debug)]
pub struct ProviderOptions {
    pub entries: Vec<(String, JsonValue)>,
}

impl ProviderOptions {
    /// The options given for `provider_name`.
    pub open spec fn spec_get(&self, provider_name: Seq<char>) -> Option<JsonValue> {
        obj_lookup(self.entries@, provider_name)
    }
}

/// Options of a language-model call. Sampling parameters are kept as JSON
/// numbers, in the form in which they go into the request body.
#[derive(Debug)]
pub struct LanguageModelCallOptions {
    pub prompt: Vec<LanguageMessage>,
    pub max_output_tokens: Option<u32>,
    pub temperature: Option<JsonNumber>,
    pub top_p: Option<JsonNumber>,
    pub stop_sequences: Option<Vec<String>>,
    pub response_format: Option<ResponseFormat>,
    pub tools: Option<Vec<FunctionTool>>,
    pub tool_choice: Option<ToolChoice>,
    pub reasoning: Option<Reasoning>,
    pub provider_options: Option<ProviderOptions>,
    pub headers: Option<StringMap>,
}

/// A part of a generated answer.
#[derive(Debug)]
pub enum ContentPart {
    Text { text: String },
    Reasoning { text: String },
    ToolCall { id: String, name: String, input: JsonValue },
}

/// Why generation stopped.
#[derive(Debug, Clone, Copy, PartialEq, Eq)]
pub enum FinishReason {
    Stop,
    Length,
    ToolCalls,
    ContentFilter,
    Error,
    Unknown,
}

/// The result of a language-model call.
#[derive(Debug)]
pub struct GenerateResult {
    pub content: Vec<ContentPart>,
    pub finish_reason: FinishReason,
    pub usage: Usage,
    pub response: Option<ResponseMetadata>,
    pub warnings: Vec<Warning>,
}

/// One part of a streamed answer.
#[derive(Debug)]
pub enum LanguageModelStreamPart {
    StreamStart { warnings: Vec<Warning> },
    TextStart { id: String },
    TextDelta { id: String, delta: String },
    TextEnd { id: String },
    ResponseMetadata(ResponseMetadata),
    Finish { usage: Usage, finish_reason: FinishReason },
    Raw { value: JsonValue },
    Error { message: String },
}

/// Options of an image-generation call.
#[derive(Debug)]
pub struct ImageModelCallOptions {
    pub prompt: String,
    pub n: Option<u32>,
    pub size: Option<String>,
    pub response_format: Option<String>,
    pub provider_options: Option<ProviderOptions>,
    pub headers: Option<StringMap>,
}

/// Generated images, each as base64 data or a URL.
#[derive(Debug, Clone)]
pub struct ImageResult {
    pub images: Vec<String>,
    pub response: Option<ResponseMetadata>,
    pub warnings: Vec<Warning>,
}

/// Options of a speech-synthesis call.
#[derive(Debug)]
pub struct SpeechModelCallOptions {
    pub text: String,
    pub voice: String,
    pub format: Option<String>,
    pub instructions: Option<String>,
    pub provider_options: Option<ProviderOptions>,
    pub headers: Option<StringMap>,
}

/// Synthesised audio.
#[derive(Debug, Clone)]
pub struct SpeechResult {
    pub audio: Vec<u8>,
    pub media_type: String,
    pub response: Option<ResponseMetadata>,
    pub warnings: Vec<Warning>,
}

/// Options of a transcription call.
#[derive(Debug)]
pub struct TranscriptionModelCallOptions {
    pub audio: Vec<u8>,
    pub file_name: String,
    pub media_type: Option<String>,
    pub language: Option<String>,
    pub prompt: Option<String>,
    pub provider_options: Option<ProviderOptions>,
    pub headers: Option<StringMap>,
}

/// A transcription.
#[derive(Debug, Clone)]
pub struct TranscriptionResult {
    pub text: String,
    pub response: Option<ResponseMetadata>,
    pub warnings: Vec<Warning>,
}

/// Access to a provider's file storage.
pub trait Files {}

/// Access to a provider's skills.
pub trait Skills {}

} // verus!
