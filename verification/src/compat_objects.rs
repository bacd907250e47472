//! Objects that the API answers the compact client with. Members without a
//! field of their own are kept in `extra` (or `data`), in the order in which
//! they came.

use vstd::prelude::*;
use crate::json::JsonValue;
use crate::openai_compat::ChatToolCall;

verus! {

/// Token counts of a call.
#[derive(Debug)]
pub struct Usage {
    pub prompt_tokens: u32,
    pub completion_tokens: u32,
    pub total_tokens: u32,
    pub extra: Vec<(String, JsonValue)>,
}

/// A chat completion.
#[derive(Debug)]
pub struct ChatCompletion {
    pub id: String,
    pub object: String,
    /// Creation time (Unix seconds).
    pub created: i64,
    pub model: String,
    pub choices: Vec<ChatChoice>,
    pub usage: Option<Usage>,
    pub extra: Vec<(String, JsonValue)>,
}

/// One choice of a chat completion.
#[derive(Debug)]
pub struct ChatChoice {
    pub index: u32,
    pub message: ChatResponseMessage,
    pub finish_reason: Option<String>,
}

/// The message of a choice.
#[derive(Debug)]
pub struct ChatResponseMessage {
    pub role: String,
    pub content: Option<String>,
    pub tool_calls: Option<Vec<ChatToolCall>>,
    pub extra: Vec<(String, JsonValue)>,
}

/// One chunk of a streamed chat completion.
#[derive(Debug)]
pub struct ChatCompletionChunk {
    pub id: Option<String>,
    pub object: String,
    pub created: Option<i64>,
    pub model: Option<String>,
    pub choices: Vec<ChatChunkChoice>,
    pub usage: Option<Usage>,
}

/// One choice of a chunk.
#[derive(Debug)]
pub struct ChatChunkChoice {
    pub index: u32,
    pub delta: ChatDelta,
    pub finish_reason: Option<String>,
}

/// What a chunk adds to a choice's message.
#[derive(Debug)]
pub struct ChatDelta {
    pub role: Option<String>,
    pub content: Option<String>,
    pub tool_calls: Option<Vec<ChatToolCall>>,
    pub extra: Vec<(String, JsonValue)>,
}

/// A model.
#[derive(Debug)]
pub struct Model {
    pub id: String,
    pub object: String,
    pub created: Option<i64>,
    pub owned_by: Option<String>,
    pub extra: Vec<(String, JsonValue)>,
}

/// A legacy completion.
#[derive(Debug)]
pub struct CompletionObject {
    pub id: String,
    pub object: String,
    pub extra: Vec<(String, JsonValue)>,
}

/// The answer to an embeddings call; the vectors stay JSON values.
#[derive(Debug)]
pub struct EmbeddingObject {
    pub object: String,
    pub data: Vec<JsonValue>,
    pub extra: Vec<(String, JsonValue)>,
}

/// The answer to a moderations call; the results stay JSON values.
#[derive(Debug)]
pub struct ModerationObject {
    pub id: String,
    pub model: String,
    pub results: Vec<JsonValue>,
    pub extra: Vec<(String, JsonValue)>,
}

/// Any other object: its id and type when present, and its members.
#[derive(Debug)]
pub struct GenericObject {
    pub id: Option<String>,
    pub object: Option<String>,
    pub extra: Vec<(String, JsonValue)>,
}

/// A response of the Responses API.
#[derive(Debug)]
pub struct ResponseObject {
    pub id: String,
    pub object: String,
    pub model: Option<String>,
    pub output: Vec<ResponseOutputItem>,
    pub extra: Vec<(String, JsonValue)>,
}

/// An item of a response's output, by `type`; items of other types are
/// `Other`.
#[derive(Debug)]
pub enum ResponseOutputItem {
    Message {
        id: Option<String>,
        role: String,
        content: Vec<ResponseOutputContent>,
        extra: Vec<(String, JsonValue)>,
    },
    FunctionCall {
        id: Option<String>,
        call_id: String,
        name: String,
        arguments: String,
        extra: Vec<(String, JsonValue)>,
    },
    Other,
}

/// A part of an output message, by `type`; parts of other types are
/// `Other`.
#[derive(Debug)]
pub enum ResponseOutputContent {
    OutputText { text: String, annotations: Vec<JsonValue> },
    Refusal { refusal: String },
    Other,
}

/// An event of a streamed response: its `type`, its sequence number when
/// present, and its other members.
#[derive(Debug)]
pub struct ResponseEvent {
    pub event_type: String,
    pub sequence_number: Option<u64>,
    pub data: Vec<(String, JsonValue)>,
}

} // verus!
