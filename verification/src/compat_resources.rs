//! The API resources of the compact client. Each operation says which call
//! to make: the method, the path below the base URL (ids escaped as one path
//! segment), the query of the call and the JSON body; uploads say which
//! multipart form to send. Sending them is the transport's work.

use vstd::prelude::*;
use crate::client::{HttpMethod, pairs_chars};
use crate::compat_params::{
    ChatCompletionCreateParams, CompletionCreateParams, EmbeddingCreateParams,
    GenericCreateParams, ModerationCreateParams, ResponseCreateParams, chat_body, chat_body_view,
    model_body_view, response_body, response_body_view,
};
use crate::error::Error;
use crate::json::{JsonValue, JsonView, jview, members_view};
use crate::openai_compat::{
    FileListParams, ListParams, RealtimeConnection, list_params_pairs, pair_if,
    realtime_connect, resource_item_path, spec_path_segment,
};

verus! {

/// One call of the compact client.
#[derive(Debug)]
pub struct CompatCall {
    pub method: HttpMethod,
    /// The path below the base URL, starting with `/`.
    pub path: String,
    /// The query pairs of this call, sent after the configured ones.
    pub query: Vec<(String, String)>,
    /// The JSON body, if any.
    pub body: Option<JsonValue>,
}

/// Whether `c` is the call with this method, path, query and body.
pub open spec fn call_is(
    c: CompatCall,
    method: HttpMethod,
    path: Seq<char>,
    query: Seq<(Seq<char>, Seq<char>)>,
    body: Option<JsonView>,
) -> bool {
    &&& c.method == method
    &&& c.path@ == path
    &&& pairs_chars(c.query@) == query
    &&& match body {
        None => c.body is None,
        Some(b) => c.body matches Some(x) && jview(x) == b,
    }
}

/// A multipart upload of the compact client: the file part under
/// `file_field`, then the text fields in order.
#[derive(Debug)]
pub struct CompatUpload {
    pub path: String,
    pub file_field: String,
    pub file_name: String,
    pub bytes: Vec<u8>,
    pub fields: Vec<(String, String)>,
}

/// A file to upload with the compact client.
#[derive(Debug)]
pub struct FileCreateParams {
    pub file_name: String,
    pub file_bytes: Vec<u8>,
    pub purpose: String,
}

impl FileCreateParams {
    /// A file from bytes in memory, with its purpose.
    pub fn from_bytes(file_name: &str, file_bytes: Vec<u8>, purpose: &str) -> (p: FileCreateParams)
        ensures
            p.file_name@ == file_name@,
            p.file_bytes == file_bytes,
            p.purpose@ == purpose@,
    {
        FileCreateParams {
            file_name: file_name.to_string(),
            file_bytes,
            purpose: purpose.to_string(),
        }
    }
}

fn no_query() -> (q: Vec<(String, String)>)
    ensures
        pairs_chars(q@) == Seq::<(Seq<char>, Seq<char>)>::empty(),
{
    let q: Vec<(String, String)> = Vec::new();
    assert(pairs_chars(q@) =~= Seq::<(Seq<char>, Seq<char>)>::empty());
    q
}

/// A call without query pairs.
fn plain(method: HttpMethod, path: String, body: Option<JsonValue>) -> (c: CompatCall)
    ensures
        c.method == method,
        c.path == path,
        pairs_chars(c.query@) == Seq::<(Seq<char>, Seq<char>)>::empty(),
        c.body == body,
{
    CompatCall { method, path, query: no_query(), body }
}

/// The path of item `id` under `base`, then `suffix`.
pub open spec fn item_path(base: Seq<char>, id: Seq<char>, suffix: Seq<char>) -> Seq<char> {
    base + "/"@ + spec_path_segment(id) + suffix
}

fn item(base: &str, id: &str, suffix: &str) -> (r: String)
    ensures
        r@ == item_path(base@, id@, suffix@),
{
    let mut p = resource_item_path(base, id);
    p.append(suffix);
    p
}

/// The POST of `params`' fields to `path`.
fn generic_post(path: &str, params: &GenericCreateParams) -> (c: CompatCall)
    ensures
        call_is(c, HttpMethod::Post, path@, seq![], Some(JsonView::Object(members_view(params.extra@)))),
{
    plain(HttpMethod::Post, path.to_string(), Some(params.to_json()))
}

/// The GET of `path`.
fn get(path: String) -> (c: CompatCall)
    ensures
        call_is(c, HttpMethod::Get, path@, seq![], None),
{
    plain(HttpMethod::Get, path, None)
}

/// The GET of a list at `path` with paging parameters.
fn list_call(path: &str, params: &ListParams) -> (c: CompatCall)
    ensures
        call_is(c, HttpMethod::Get, path@, list_params_pairs(*params), None),
{
    CompatCall { method: HttpMethod::Get, path: path.to_string(), query: params.query_pairs(), body: None }
}

/// The Responses API.
#[derive(Debug, Clone, Copy)]
pub struct ResponsesResource;

impl ResponsesResource {
    /// Creates a response: `stream` is not sent.
    pub fn create(&self, params: &ResponseCreateParams) -> (c: CompatCall)
        ensures
            call_is(c, HttpMethod::Post, "/responses"@, seq![], Some(response_body_view(*params, false))),
    {
        plain(HttpMethod::Post, "/responses".to_string(), Some(response_body(params, false)))
    }

    /// Creates a streamed response: `stream` is sent as true.
    pub fn stream(&self, params: &ResponseCreateParams) -> (c: CompatCall)
        ensures
            call_is(c, HttpMethod::Post, "/responses"@, seq![], Some(response_body_view(*params, true))),
    {
        plain(HttpMethod::Post, "/responses".to_string(), Some(response_body(params, true)))
    }

    /// Retrieves a response.
    pub fn retrieve(&self, response_id: &str) -> (c: CompatCall)
        ensures
            call_is(c, HttpMethod::Get, item_path("/responses"@, response_id@, ""@), seq![], None),
    {
        get(item("/responses", response_id, ""))
    }

    /// Deletes a response.
    pub fn delete(&self, response_id: &str) -> (c: CompatCall)
        ensures
            call_is(c, HttpMethod::Delete, item_path("/responses"@, response_id@, ""@), seq![], None),
    {
        plain(HttpMethod::Delete, item("/responses", response_id, ""), None)
    }
}

/// Chat completions, as the compact client sends them.
pub open spec fn chat_create_call(c: CompatCall, params: ChatCompletionCreateParams, stream: bool) -> bool {
    call_is(c, HttpMethod::Post, "/chat/completions"@, seq![], Some(chat_body_view(params, stream)))
}

/// Builds the call of a chat completion with the given `stream` flag.
pub fn chat_completion_call(params: &ChatCompletionCreateParams, stream: bool) -> (c: CompatCall)
    ensures
        chat_create_call(c, *params, stream),
{
    plain(HttpMethod::Post, "/chat/completions".to_string(), Some(chat_body(params, stream)))
}

/// Legacy completions.
#[derive(Debug, Clone, Copy)]
pub struct CompletionsResource;

impl CompletionsResource {
    /// Creates a completion.
    pub fn create(&self, params: &CompletionCreateParams) -> (c: CompatCall)
        ensures
            call_is(
                c,
                HttpMethod::Post,
                "/completions"@,
                seq![],
                Some(model_body_view(params.model@, "prompt"@, jview(params.prompt), params.extra@)),
            ),
    {
        plain(HttpMethod::Post, "/completions".to_string(), Some(params.to_json()))
    }
}

/// Embeddings.
#[derive(Debug, Clone, Copy)]
pub struct EmbeddingsResource;

impl EmbeddingsResource {
    /// Creates embeddings.
    pub fn create(&self, params: &EmbeddingCreateParams) -> (c: CompatCall)
        ensures
            call_is(
                c,
                HttpMethod::Post,
                "/embeddings"@,
                seq![],
                Some(model_body_view(params.model@, "input"@, jview(params.input), params.extra@)),
            ),
    {
        plain(HttpMethod::Post, "/embeddings".to_string(), Some(params.to_json()))
    }
}

/// Moderations.
#[derive(Debug, Clone, Copy)]
pub struct ModerationsResource;

impl ModerationsResource {
    /// Classifies an input.
    pub fn create(&self, params: &ModerationCreateParams) -> (c: CompatCall)
        ensures
            call_is(
                c,
                HttpMethod::Post,
                "/moderations"@,
                seq![],
                Some(model_body_view(params.model@, "input"@, jview(params.input), params.extra@)),
            ),
    {
        plain(HttpMethod::Post, "/moderations".to_string(), Some(params.to_json()))
    }
}

/// Models.
#[derive(Debug, Clone, Copy)]
pub struct ModelsResource;

impl ModelsResource {
    /// Lists the models.
    pub fn list(&self) -> (c: CompatCall)
        ensures
            call_is(c, HttpMethod::Get, "/models"@, seq![], None),
    {
        get("/models".to_string())
    }

    /// Retrieves a model.
    pub fn retrieve(&self, model: &str) -> (c: CompatCall)
        ensures
            call_is(c, HttpMethod::Get, item_path("/models"@, model@, ""@), seq![], None),
    {
        get(item("/models", model, ""))
    }

    /// Deletes a fine-tuned model.
    pub fn delete(&self, model: &str) -> (c: CompatCall)
        ensures
            call_is(c, HttpMethod::Delete, item_path("/models"@, model@, ""@), seq![], None),
    {
        plain(HttpMethod::Delete, item("/models", model, ""), None)
    }
}

/// Files.
#[derive(Debug, Clone, Copy)]
pub struct FilesResource;

impl FilesResource {
    /// Uploads a file: the `file` part, then the `purpose` field.
    pub fn create(&self, params: FileCreateParams) -> (u: CompatUpload)
        ensures
            u.path@ == "/files"@,
            u.file_field@ == "file"@,
            u.file_name == params.file_name,
            u.bytes == params.file_bytes,
            pairs_chars(u.fields@) == seq![("purpose"@, params.purpose@)],
    {
        let mut fields: Vec<(String, String)> = Vec::new();
        fields.push(("purpose".to_string(), params.purpose));
        assert(pairs_chars(fields@) =~= seq![("purpose"@, params.purpose@)]);
        CompatUpload {
            path: "/files".to_string(),
            file_field: "file".to_string(),
            file_name: params.file_name,
            bytes: params.file_bytes,
            fields,
        }
    }

    /// Lists files, with paging and an optional purpose filter.
    pub fn list(&self, params: &FileListParams) -> (c: CompatCall)
        ensures
            call_is(
                c,
                HttpMethod::Get,
                "/files"@,
                list_params_pairs(params.page) + pair_if(
                    params.purpose is Some,
                    "purpose"@,
                    params.purpose.unwrap()@,
                ),
                None,
            ),
    {
        CompatCall { method: HttpMethod::Get, path: "/files".to_string(), query: params.query_pairs(), body: None }
    }

    /// Retrieves a file's metadata.
    pub fn retrieve(&self, file_id: &str) -> (c: CompatCall)
        ensures
            call_is(c, HttpMethod::Get, item_path("/files"@, file_id@, ""@), seq![], None),
    {
        get(item("/files", file_id, ""))
    }

    /// Deletes a file.
    pub fn delete(&self, file_id: &str) -> (c: CompatCall)
        ensures
            call_is(c, HttpMethod::Delete, item_path("/files"@, file_id@, ""@), seq![], None),
    {
        plain(HttpMethod::Delete, item("/files", file_id, ""), None)
    }

    /// Downloads a file's content.
    pub fn content(&self, file_id: &str) -> (c: CompatCall)
        ensures
            call_is(c, HttpMethod::Get, item_path("/files"@, file_id@, "/content"@), seq![], None),
    {
        get(item("/files", file_id, "/content"))
    }
}

/// Multipart uploads in parts.
#[derive(Debug, Clone, Copy)]
pub struct UploadsResource;

impl UploadsResource {
    /// Starts an upload.
    pub fn create(&self, params: &GenericCreateParams) -> (c: CompatCall)
        ensures
            call_is(c, HttpMethod::Post, "/uploads"@, seq![], Some(JsonView::Object(members_view(params.extra@)))),
    {
        generic_post("/uploads", params)
    }

    /// Adds a part: the file's bytes under `data`, with no other field.
    pub fn add_part(&self, upload_id: &str, params: FileCreateParams) -> (u: CompatUpload)
        ensures
            u.path@ == item_path("/uploads"@, upload_id@, "/parts"@),
            u.file_field@ == "data"@,
            u.file_name == params.file_name,
            u.bytes == params.file_bytes,
            u.fields@.len() == 0,
    {
        CompatUpload {
            path: item("/uploads", upload_id, "/parts"),
            file_field: "data".to_string(),
            file_name: params.file_name,
            bytes: params.file_bytes,
            fields: Vec::new(),
        }
    }

    /// Completes an upload.
    pub fn complete(&self, upload_id: &str, params: &GenericCreateParams) -> (c: CompatCall)
        ensures
            call_is(
                c,
                HttpMethod::Post,
                item_path("/uploads"@, upload_id@, "/complete"@),
                seq![],
                Some(JsonView::Object(members_view(params.extra@))),
            ),
    {
        plain(HttpMethod::Post, item("/uploads", upload_id, "/complete"), Some(params.to_json()))
    }

    /// Cancels an upload.
    pub fn cancel(&self, upload_id: &str) -> (c: CompatCall)
        ensures
            call_is(c, HttpMethod::Post, item_path("/uploads"@, upload_id@, "/cancel"@), seq![], None),
    {
        plain(HttpMethod::Post, item("/uploads", upload_id, "/cancel"), None)
    }
}

/// Images.
#[derive(Debug, Clone, Copy)]
pub struct ImagesResource;

impl ImagesResource {
    /// Generates images.
    pub fn generate(&self, params: &GenericCreateParams) -> (c: CompatCall)
        ensures
            call_is(c, HttpMethod::Post, "/images/generations"@, seq![], Some(JsonView::Object(members_view(params.extra@)))),
    {
        generic_post("/images/generations", params)
    }

    /// Edits an image.
    pub fn edit(&self, params: &GenericCreateParams) -> (c: CompatCall)
        ensures
            call_is(c, HttpMethod::Post, "/images/edits"@, seq![], Some(JsonView::Object(members_view(params.extra@)))),
    {
        generic_post("/images/edits", params)
    }
}

/// Audio.
#[derive(Debug, Clone, Copy)]
pub struct AudioResource;

impl AudioResource {
    /// Synthesises speech; the answer is the audio's bytes.
    pub fn speech(&self, params: &GenericCreateParams) -> (c: CompatCall)
        ensures
            call_is(c, HttpMethod::Post, "/audio/speech"@, seq![], Some(JsonView::Object(members_view(params.extra@)))),
    {
        generic_post("/audio/speech", params)
    }

    /// Transcribes audio.
    pub fn transcriptions(&self, params: &GenericCreateParams) -> (c: CompatCall)
        ensures
            call_is(c, HttpMethod::Post, "/audio/transcriptions"@, seq![], Some(JsonView::Object(members_view(params.extra@)))),
    {
        generic_post("/audio/transcriptions", params)
    }

    /// Translates audio.
    pub fn translations(&self, params: &GenericCreateParams) -> (c: CompatCall)
        ensures
            call_is(c, HttpMethod::Post, "/audio/translations"@, seq![], Some(JsonView::Object(members_view(params.extra@)))),
    {
        generic_post("/audio/translations", params)
    }
}

/// Fine-tuning jobs.
#[derive(Debug, Clone, Copy)]
pub struct FineTuningResource;

impl FineTuningResource {
    /// Creates a job.
    pub fn create_job(&self, params: &GenericCreateParams) -> (c: CompatCall)
        ensures
            call_is(c, HttpMethod::Post, "/fine_tuning/jobs"@, seq![], Some(JsonView::Object(members_view(params.extra@)))),
    {
        generic_post("/fine_tuning/jobs", params)
    }

    /// Retrieves a job.
    pub fn retrieve_job(&self, job_id: &str) -> (c: CompatCall)
        ensures
            call_is(c, HttpMethod::Get, item_path("/fine_tuning/jobs"@, job_id@, ""@), seq![], None),
    {
        get(item("/fine_tuning/jobs", job_id, ""))
    }

    /// Lists jobs.
    pub fn list_jobs(&self, params: &ListParams) -> (c: CompatCall)
        ensures
            call_is(c, HttpMethod::Get, "/fine_tuning/jobs"@, list_params_pairs(*params), None),
    {
        list_call("/fine_tuning/jobs", params)
    }

    /// Cancels a job.
    pub fn cancel_job(&self, job_id: &str) -> (c: CompatCall)
        ensures
            call_is(c, HttpMethod::Post, item_path("/fine_tuning/jobs"@, job_id@, "/cancel"@), seq![], None),
    {
        plain(HttpMethod::Post, item("/fine_tuning/jobs", job_id, "/cancel"), None)
    }
}

/// Realtime sessions.
#[derive(Debug, Clone, Copy)]
pub struct RealtimeResource;

impl RealtimeResource {
    /// Creates a session.
    pub fn create_session(&self, params: &GenericCreateParams) -> (c: CompatCall)
        ensures
            call_is(c, HttpMethod::Post, "/realtime/sessions"@, seq![], Some(JsonView::Object(members_view(params.extra@)))),
    {
        generic_post("/realtime/sessions", params)
    }

    /// Creates a transcription session.
    pub fn create_transcription_session(&self, params: &GenericCreateParams) -> (c: CompatCall)
        ensures
            call_is(
                c,
                HttpMethod::Post,
                "/realtime/transcription_sessions"@,
                seq![],
                Some(JsonView::Object(members_view(params.extra@))),
            ),
    {
        generic_post("/realtime/transcription_sessions", params)
    }

    /// Opens a realtime connection; this build has no websocket transport.
    pub fn connect(&self, model: &str) -> (r: Result<RealtimeConnection, Error>)
        ensures
            r matches Err(Error::Unsupported(m)) && m@
                == "websocket transport is modeled but not enabled in this minimal build"@,
    {
        realtime_connect(model)
    }
}

/// Assistants (beta).
#[derive(Debug, Clone, Copy)]
pub struct BetaResource;

impl BetaResource {
    /// Creates an assistant.
    pub fn create_assistant(&self, params: &GenericCreateParams) -> (c: CompatCall)
        ensures
            call_is(c, HttpMethod::Post, "/assistants"@, seq![], Some(JsonView::Object(members_view(params.extra@)))),
    {
        generic_post("/assistants", params)
    }

    /// Retrieves an assistant.
    pub fn retrieve_assistant(&self, assistant_id: &str) -> (c: CompatCall)
        ensures
            call_is(c, HttpMethod::Get, item_path("/assistants"@, assistant_id@, ""@), seq![], None),
    {
        get(item("/assistants", assistant_id, ""))
    }
}

/// The create call of a collection at `base`.
pub open spec fn crud_create_call(c: CompatCall, base: Seq<char>, params: GenericCreateParams) -> bool {
    call_is(c, HttpMethod::Post, base, seq![], Some(JsonView::Object(members_view(params.extra@))))
}

/// The retrieve call of item `id` of a collection at `base`.
pub open spec fn crud_retrieve_call(c: CompatCall, base: Seq<char>, id: Seq<char>) -> bool {
    call_is(c, HttpMethod::Get, item_path(base, id, ""@), seq![], None)
}

/// The list call of a collection at `base`.
pub open spec fn crud_list_call(c: CompatCall, base: Seq<char>, params: ListParams) -> bool {
    call_is(c, HttpMethod::Get, base, list_params_pairs(params), None)
}

/// The delete call of item `id` of a collection at `base`.
pub open spec fn crud_delete_call(c: CompatCall, base: Seq<char>, id: Seq<char>) -> bool {
    call_is(c, HttpMethod::Delete, item_path(base, id, ""@), seq![], None)
}

fn crud_retrieve(base: &str, id: &str) -> (c: CompatCall)
    ensures
        crud_retrieve_call(c, base@, id@),
{
    get(item(base, id, ""))
}

fn crud_delete(base: &str, id: &str) -> (c: CompatCall)
    ensures
        crud_delete_call(c, base@, id@),
{
    plain(HttpMethod::Delete, item(base, id, ""), None)
}

/// Batches.
#[derive(Debug, Clone, Copy)]
pub struct BatchesResource;

impl BatchesResource {
    /// Creates an item.
    pub fn create(&self, params: &GenericCreateParams) -> (c: CompatCall)
        ensures
            crud_create_call(c, "/batches"@, *params),
    {
        generic_post("/batches", params)
    }

    /// Retrieves an item.
    pub fn retrieve(&self, id: &str) -> (c: CompatCall)
        ensures
            crud_retrieve_call(c, "/batches"@, id@),
    {
        crud_retrieve("/batches", id)
    }

    /// Lists items.
    pub fn list(&self, params: &ListParams) -> (c: CompatCall)
        ensures
            crud_list_call(c, "/batches"@, *params),
    {
        list_call("/batches", params)
    }

    /// Deletes an item.
    pub fn delete(&self, id: &str) -> (c: CompatCall)
        ensures
            crud_delete_call(c, "/batches"@, id@),
    {
        crud_delete("/batches", id)
    }
}

/// Containers.
#[derive(Debug, Clone, Copy)]
pub struct ContainersResource;

impl ContainersResource {
    /// Creates an item.
    pub fn create(&self, params: &GenericCreateParams) -> (c: CompatCall)
        ensures
            crud_create_call(c, "/containers"@, *params),
    {
        generic_post("/containers", params)
    }

    /// Retrieves an item.
    pub fn retrieve(&self, id: &str) -> (c: CompatCall)
        ensures
            crud_retrieve_call(c, "/containers"@, id@),
    {
        crud_retrieve("/containers", id)
    }

    /// Lists items.
    pub fn list(&self, params: &ListParams) -> (c: CompatCall)
        ensures
            crud_list_call(c, "/containers"@, *params),
    {
        list_call("/containers", params)
    }

    /// Deletes an item.
    pub fn delete(&self, id: &str) -> (c: CompatCall)
        ensures
            crud_delete_call(c, "/containers"@, id@),
    {
        crud_delete("/containers", id)
    }
}

/// Conversations.
#[derive(Debug, Clone, Copy)]
pub struct ConversationsResource;

impl ConversationsResource {
    /// Creates an item.
    pub fn create(&self, params: &GenericCreateParams) -> (c: CompatCall)
        ensures
            crud_create_call(c, "/conversations"@, *params),
    {
        generic_post("/conversations", params)
    }

    /// Retrieves an item.
    pub fn retrieve(&self, id: &str) -> (c: CompatCall)
        ensures
            crud_retrieve_call(c, "/conversations"@, id@),
    {
        crud_retrieve("/conversations", id)
    }

    /// Lists items.
    pub fn list(&self, params: &ListParams) -> (c: CompatCall)
        ensures
            crud_list_call(c, "/conversations"@, *params),
    {
        list_call("/conversations", params)
    }

    /// Deletes an item.
    pub fn delete(&self, id: &str) -> (c: CompatCall)
        ensures
            crud_delete_call(c, "/conversations"@, id@),
    {
        crud_delete("/conversations", id)
    }
}

/// Vector stores.
#[derive(Debug, Clone, Copy)]
pub struct VectorStoresResource;

impl VectorStoresResource {
    /// Creates an item.
    pub fn create(&self, params: &GenericCreateParams) -> (c: CompatCall)
        ensures
            crud_create_call(c, "/vector_stores"@, *params),
    {
        generic_post("/vector_stores", params)
    }

    /// Retrieves an item.
    pub fn retrieve(&self, id: &str) -> (c: CompatCall)
        ensures
            crud_retrieve_call(c, "/vector_stores"@, id@),
    {
        crud_retrieve("/vector_stores", id)
    }

    /// Lists items.
    pub fn list(&self, params: &ListParams) -> (c: CompatCall)
        ensures
            crud_list_call(c, "/vector_stores"@, *params),
    {
        list_call("/vector_stores", params)
    }

    /// Deletes an item.
    pub fn delete(&self, id: &str) -> (c: CompatCall)
        ensures
            crud_delete_call(c, "/vector_stores"@, id@),
    {
        crud_delete("/vector_stores", id)
    }
}

/// Skills.
#[derive(Debug, Clone, Copy)]
pub struct SkillsResource;

impl SkillsResource {
    /// Creates an item.
    pub fn create(&self, params: &GenericCreateParams) -> (c: CompatCall)
        ensures
            crud_create_call(c, "/skills"@, *params),
    {
        generic_post("/skills", params)
    }

    /// Retrieves an item.
    pub fn retrieve(&self, id: &str) -> (c: CompatCall)
        ensures
            crud_retrieve_call(c, "/skills"@, id@),
    {
        crud_retrieve("/skills", id)
    }

    /// Lists items.
    pub fn list(&self, params: &ListParams) -> (c: CompatCall)
        ensures
            crud_list_call(c, "/skills"@, *params),
    {
        list_call("/skills", params)
    }

    /// Deletes an item.
    pub fn delete(&self, id: &str) -> (c: CompatCall)
        ensures
            crud_delete_call(c, "/skills"@, id@),
    {
        crud_delete("/skills", id)
    }
}

/// Evaluations.
#[derive(Debug, Clone, Copy)]
pub struct EvalsResource;

impl EvalsResource {
    /// Creates an item.
    pub fn create(&self, params: &GenericCreateParams) -> (c: CompatCall)
        ensures
            crud_create_call(c, "/evals"@, *params),
    {
        generic_post("/evals", params)
    }

    /// Retrieves an item.
    pub fn retrieve(&self, id: &str) -> (c: CompatCall)
        ensures
            crud_retrieve_call(c, "/evals"@, id@),
    {
        crud_retrieve("/evals", id)
    }

    /// Lists items.
    pub fn list(&self, params: &ListParams) -> (c: CompatCall)
        ensures
            crud_list_call(c, "/evals"@, *params),
    {
        list_call("/evals", params)
    }

    /// Deletes an item.
    pub fn delete(&self, id: &str) -> (c: CompatCall)
        ensures
            crud_delete_call(c, "/evals"@, id@),
    {
        crud_delete("/evals", id)
    }
}

} // verus!
