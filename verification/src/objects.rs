//! Objects that the API answers the main client with. Members without a
//! field of their own are kept in `extra`, in the order in which they came.

use vstd::prelude::*;
use crate::json::JsonValue;
use crate::types::ModerationAppliedInputType;

verus! {

/// A chat completion.
#[derive(Debug)]
pub struct ChatCompletion {
    pub id: String,
    pub extra: Vec<(String, JsonValue)>,
}

/// One chunk of a streamed chat completion.
#[derive(Debug)]
pub struct ChatCompletionChunk {
    pub id: String,
    pub extra: Vec<(String, JsonValue)>,
}

/// A model.
#[derive(Debug)]
pub struct Model {
    pub id: String,
    pub object: String,
    /// Creation time (Unix seconds).
    pub created: u64,
    pub owned_by: String,
    pub extra: Vec<(String, JsonValue)>,
}

/// The list of models.
#[derive(Debug)]
pub struct ModelList {
    pub object: String,
    pub data: Vec<Model>,
    pub extra: Vec<(String, JsonValue)>,
}

/// Confirmation of a model's deletion.
#[derive(Debug)]
pub struct ModelDeleted {
    pub id: String,
    pub deleted: bool,
    pub object: String,
    pub extra: Vec<(String, JsonValue)>,
}

/// A response of the Responses API.
#[derive(Debug)]
pub struct Response {
    pub id: String,
    pub extra: Vec<(String, JsonValue)>,
}

/// An event of a streamed response; `event_type` is its `type` member.
#[derive(Debug)]
pub struct ResponseStreamEvent {
    pub event_type: Option<String>,
    pub extra: Vec<(String, JsonValue)>,
}

/// Which moderation categories were flagged (`self-harm`, `sexual/minors`
/// and the like on the wire).
#[derive(Debug)]
pub struct ModerationCategories {
    pub sexual: Option<bool>,
    pub hate: Option<bool>,
    pub harassment: Option<bool>,
    pub self_harm: Option<bool>,
    pub sexual_minors: Option<bool>,
    pub hate_threatening: Option<bool>,
    pub violence_graphic: Option<bool>,
    pub self_harm_intent: Option<bool>,
    pub self_harm_instructions: Option<bool>,
    pub harassment_threatening: Option<bool>,
    pub violence: Option<bool>,
    pub illicit: Option<bool>,
    pub illicit_violent: Option<bool>,
    pub extra: Vec<(String, JsonValue)>,
}

/// Which kinds of input each moderation category was applied to.
#[derive(Debug)]
pub struct ModerationCategoryAppliedInputTypes {
    pub sexual: Option<Vec<ModerationAppliedInputType>>,
    pub hate: Option<Vec<ModerationAppliedInputType>>,
    pub harassment: Option<Vec<ModerationAppliedInputType>>,
    pub self_harm: Option<Vec<ModerationAppliedInputType>>,
    pub sexual_minors: Option<Vec<ModerationAppliedInputType>>,
    pub hate_threatening: Option<Vec<ModerationAppliedInputType>>,
    pub violence_graphic: Option<Vec<ModerationAppliedInputType>>,
    pub self_harm_intent: Option<Vec<ModerationAppliedInputType>>,
    pub self_harm_instructions: Option<Vec<ModerationAppliedInputType>>,
    pub harassment_threatening: Option<Vec<ModerationAppliedInputType>>,
    pub violence: Option<Vec<ModerationAppliedInputType>>,
    pub illicit: Option<Vec<ModerationAppliedInputType>>,
    pub illicit_violent: Option<Vec<ModerationAppliedInputType>>,
    pub extra: Vec<(String, JsonValue)>,
}

/// The error object of an API error body: its message and the other
/// members.
#[derive(Debug)]
pub struct ApiErrorBody {
    pub message: String,
    pub extra: Vec<(String, JsonValue)>,
}

} // verus!
