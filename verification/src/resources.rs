//! The API resources of the main client. Each operation says which call to
//! make: the method, the path below the base URL, the JSON body and the
//! per-request options; file uploads say which form to send. The transport
//! sends them, with its retry policy.

use vstd::prelude::*;
use crate::client::HttpMethod;
use crate::error::Error;
use crate::files::{
    FileCreateParams, FileListParams, FileObject, UploadForm, apply_list_params, build_create_form,
    file_path, is_create_form, model_path, next_page_params, pagination_request_options,
    spec_file_path, spec_list_query, spec_model_path,
};
use crate::json::{JsonValue, JsonView, jview};
use crate::pagination::CursorPage;
use crate::request_options::{RequestOptions, is_no_override};
use crate::types::{
    ChatCompletionCreateParams, EmbeddingCreateParams, ModerationCreateParams,
    ResponseCreateParams, chat_request_body, chat_request_view, embedding_request_body,
    embedding_request_view, moderation_request_body, moderation_request_view,
    response_request_body, response_request_view,
};

verus! {

/// One call of the main client.
#[derive(Debug)]
pub struct ApiCall {
    pub method: HttpMethod,
    /// The path below the base URL.
    pub path: String,
    /// The JSON body, if any (the options' extra body is merged into it when
    /// sent).
    pub body: Option<JsonValue>,
    pub options: RequestOptions,
}

/// Whether `c` has this method, path and body.
pub open spec fn api_call_is(c: ApiCall, method: HttpMethod, path: Seq<char>, body: Option<JsonView>) -> bool {
    &&& c.method == method
    &&& c.path@ == path
    &&& match body {
        None => c.body is None,
        Some(b) => c.body matches Some(x) && jview(x) == b,
    }
}

/// A multipart upload of the main client.
#[derive(Debug)]
pub struct ApiUpload {
    pub path: String,
    pub form: UploadForm,
    pub options: RequestOptions,
}

/// The Responses API.
#[derive(Debug, Clone, Copy)]
pub struct Responses;

impl Responses {
    /// Creates a response, with no per-request options.
    pub fn create(&self, params: ResponseCreateParams) -> (c: ApiCall)
        ensures
            api_call_is(c, HttpMethod::Post, "/responses"@, Some(response_request_view(params, false))),
            is_no_override(c.options),
    {
        self.create_with_options(params, RequestOptions::new())
    }

    /// Creates a response; the body carries `stream: false`.
    pub fn create_with_options(&self, params: ResponseCreateParams, options: RequestOptions) -> (c: ApiCall)
        ensures
            api_call_is(c, HttpMethod::Post, "/responses"@, Some(response_request_view(params, false))),
            c.options == options,
    {
        ApiCall {
            method: HttpMethod::Post,
            path: "/responses".to_string(),
            body: Some(response_request_body(&params, false)),
            options,
        }
    }

    /// Creates a streamed response, with no per-request options.
    pub fn create_stream(&self, params: ResponseCreateParams) -> (c: ApiCall)
        ensures
            api_call_is(c, HttpMethod::Post, "/responses"@, Some(response_request_view(params, true))),
            is_no_override(c.options),
    {
        self.create_stream_with_options(params, RequestOptions::new())
    }

    /// Creates a streamed response; the body carries `stream: true`.
    pub fn create_stream_with_options(&self, params: ResponseCreateParams, options: RequestOptions) -> (c: ApiCall)
        ensures
            api_call_is(c, HttpMethod::Post, "/responses"@, Some(response_request_view(params, true))),
            c.options == options,
    {
        ApiCall {
            method: HttpMethod::Post,
            path: "/responses".to_string(),
            body: Some(response_request_body(&params, true)),
            options,
        }
    }
}

/// The chat endpoints.
#[derive(Debug, Clone, Copy)]
pub struct Chat;

impl Chat {
    /// Chat completions.
    pub fn completions(&self) -> ChatCompletions {
        ChatCompletions
    }
}

/// Chat completions.
#[derive(Debug, Clone, Copy)]
pub struct ChatCompletions;

impl ChatCompletions {
    /// Creates a chat completion, with no per-request options.
    pub fn create(&self, params: ChatCompletionCreateParams) -> (c: ApiCall)
        ensures
            api_call_is(c, HttpMethod::Post, "/chat/completions"@, Some(chat_request_view(params, false))),
            is_no_override(c.options),
    {
        self.create_with_options(params, RequestOptions::new())
    }

    /// Creates a chat completion; the body carries `stream: false`.
    pub fn create_with_options(&self, params: ChatCompletionCreateParams, options: RequestOptions) -> (c: ApiCall)
        ensures
            api_call_is(c, HttpMethod::Post, "/chat/completions"@, Some(chat_request_view(params, false))),
            c.options == options,
    {
        ApiCall {
            method: HttpMethod::Post,
            path: "/chat/completions".to_string(),
            body: Some(chat_request_body(&params, false)),
            options,
        }
    }

    /// Creates a streamed chat completion, with no per-request options.
    pub fn create_stream(&self, params: ChatCompletionCreateParams) -> (c: ApiCall)
        ensures
            api_call_is(c, HttpMethod::Post, "/chat/completions"@, Some(chat_request_view(params, true))),
            is_no_override(c.options),
    {
        self.create_stream_with_options(params, RequestOptions::new())
    }

    /// Creates a streamed chat completion; the body carries `stream: true`.
    pub fn create_stream_with_options(&self, params: ChatCompletionCreateParams, options: RequestOptions) -> (c: ApiCall)
        ensures
            api_call_is(c, HttpMethod::Post, "/chat/completions"@, Some(chat_request_view(params, true))),
            c.options == options,
    {
        ApiCall {
            method: HttpMethod::Post,
            path: "/chat/completions".to_string(),
            body: Some(chat_request_body(&params, true)),
            options,
        }
    }
}

/// Embeddings.
#[derive(Debug, Clone, Copy)]
pub struct Embeddings;

impl Embeddings {
    /// Creates embeddings, with no per-request options.
    pub fn create(&self, params: EmbeddingCreateParams) -> (c: ApiCall)
        ensures
            api_call_is(c, HttpMethod::Post, "/embeddings"@, Some(embedding_request_view(params))),
            is_no_override(c.options),
    {
        self.create_with_options(params, RequestOptions::new())
    }

    /// Creates embeddings; the encoding is `float` unless another is asked for.
    pub fn create_with_options(&self, params: EmbeddingCreateParams, options: RequestOptions) -> (c: ApiCall)
        ensures
            api_call_is(c, HttpMethod::Post, "/embeddings"@, Some(embedding_request_view(params))),
            c.options == options,
    {
        ApiCall {
            method: HttpMethod::Post,
            path: "/embeddings".to_string(),
            body: Some(embedding_request_body(&params)),
            options,
        }
    }
}

/// Moderations.
#[derive(Debug, Clone, Copy)]
pub struct Moderations;

impl Moderations {
    /// Classifies an input, with no per-request options.
    pub fn create(&self, params: ModerationCreateParams) -> (c: ApiCall)
        ensures
            api_call_is(c, HttpMethod::Post, "/moderations"@, Some(moderation_request_view(params))),
            is_no_override(c.options),
    {
        self.create_with_options(params, RequestOptions::new())
    }

    /// Classifies an input.
    pub fn create_with_options(&self, params: ModerationCreateParams, options: RequestOptions) -> (c: ApiCall)
        ensures
            api_call_is(c, HttpMethod::Post, "/moderations"@, Some(moderation_request_view(params))),
            c.options == options,
    {
        ApiCall {
            method: HttpMethod::Post,
            path: "/moderations".to_string(),
            body: Some(moderation_request_body(&params)),
            options,
        }
    }
}

/// Models.
#[derive(Debug, Clone, Copy)]
pub struct Models;

impl Models {
    /// Lists the models, with no per-request options.
    pub fn list(&self) -> (c: ApiCall)
        ensures
            api_call_is(c, HttpMethod::Get, "/models"@, None),
            is_no_override(c.options),
    {
        self.list_with_options(RequestOptions::new())
    }

    /// Lists the models.
    pub fn list_with_options(&self, options: RequestOptions) -> (c: ApiCall)
        ensures
            api_call_is(c, HttpMethod::Get, "/models"@, None),
            c.options == options,
    {
        ApiCall { method: HttpMethod::Get, path: "/models".to_string(), body: None, options }
    }

    /// Retrieves a model, with no per-request options.
    pub fn retrieve(&self, model: &str) -> (r: Result<ApiCall, Error>)
        ensures
            model@.len() == 0 ==> (r matches Err(Error::Config(m)) && m@ == "model must not be empty"@),
            model@.len() > 0 ==> (r matches Ok(c) && api_call_is(c, HttpMethod::Get, spec_model_path(model@), None)
                && is_no_override(c.options)),
    {
        self.retrieve_with_options(model, RequestOptions::new())
    }

    /// Retrieves a model; an empty id is refused before any request.
    pub fn retrieve_with_options(&self, model: &str, options: RequestOptions) -> (r: Result<ApiCall, Error>)
        ensures
            model@.len() == 0 ==> (r matches Err(Error::Config(m)) && m@ == "model must not be empty"@),
            model@.len() > 0 ==> (r matches Ok(c) && api_call_is(c, HttpMethod::Get, spec_model_path(model@), None)
                && c.options == options),
    {
        match model_path(model) {
            Ok(path) => Ok(ApiCall { method: HttpMethod::Get, path, body: None, options }),
            Err(e) => Err(e),
        }
    }
}

/// Files.
#[derive(Debug, Clone, Copy)]
pub struct Files;

/// The options of a listing: the query gains the listing parameters (never
/// overriding one the caller set); the rest is unchanged.
pub open spec fn is_list_options(o: RequestOptions, options: RequestOptions, params: FileListParams) -> bool {
    &&& o.extra_query@ == spec_list_query(options.extra_query@, params)
    &&& o.extra_headers == options.extra_headers
    &&& o.extra_body == options.extra_body
    &&& o.timeout == options.timeout
}

impl Files {
    /// Uploads a file, with no per-request options.
    pub fn create(&self, params: FileCreateParams) -> (r: Result<ApiUpload, Error>)
        ensures
            r matches Ok(u) && u.path@ == "/files"@ && is_create_form(u.form, params, None)
                && is_no_override(u.options),
    {
        self.create_with_options(params, RequestOptions::new())
    }

    /// Uploads a file; the options' extra body, which must be a JSON object,
    /// adds form fields.
    pub fn create_with_options(&self, params: FileCreateParams, options: RequestOptions) -> (r: Result<ApiUpload, Error>)
        ensures
            (options.extra_body matches Some(b) && !(b is Object)) ==> (r matches Err(Error::Config(m))
                && m@ == "multipart extra_body must be a JSON object"@),
            !(options.extra_body matches Some(b) && !(b is Object)) ==> (r matches Ok(u) && u.path@
                == "/files"@ && is_create_form(u.form, params, options.extra_body) && u.options == options),
    {
        match build_create_form(&params, &options.extra_body) {
            Ok(form) => Ok(ApiUpload { path: "/files".to_string(), form, options }),
            Err(e) => Err(e),
        }
    }

    /// Retrieves a file's metadata, with no per-request options.
    pub fn retrieve(&self, file_id: &str) -> (r: Result<ApiCall, Error>)
        ensures
            file_id@.len() == 0 ==> (r matches Err(Error::Config(m)) && m@ == "file_id must not be empty"@),
            file_id@.len() > 0 ==> (r matches Ok(c) && api_call_is(c, HttpMethod::Get, spec_file_path(file_id@, None), None)
                && is_no_override(c.options)),
    {
        self.retrieve_with_options(file_id, RequestOptions::new())
    }

    /// Retrieves a file's metadata; an empty id is refused.
    pub fn retrieve_with_options(&self, file_id: &str, options: RequestOptions) -> (r: Result<ApiCall, Error>)
        ensures
            file_id@.len() == 0 ==> (r matches Err(Error::Config(m)) && m@ == "file_id must not be empty"@),
            file_id@.len() > 0 ==> (r matches Ok(c) && api_call_is(c, HttpMethod::Get, spec_file_path(file_id@, None), None)
                && c.options == options),
    {
        match file_path(file_id, None) {
            Ok(path) => Ok(ApiCall { method: HttpMethod::Get, path, body: None, options }),
            Err(e) => Err(e),
        }
    }

    /// Lists files, without paging or filtering.
    pub fn list(&self) -> (c: ApiCall)
        ensures
            api_call_is(c, HttpMethod::Get, "/files"@, None),
            c.options.extra_query@ == Map::<Seq<char>, Seq<char>>::empty(),
            c.options.extra_headers@ == Map::<Seq<char>, Seq<char>>::empty(),
            c.options.extra_body is None,
            c.options.timeout is None,
    {
        self.list_with_params(FileListParams::new())
    }

    /// Lists files with paging and filtering, with no per-request options.
    pub fn list_with_params(&self, params: FileListParams) -> (c: ApiCall)
        ensures
            api_call_is(c, HttpMethod::Get, "/files"@, None),
            c.options.extra_query@ == spec_list_query(Map::empty(), params),
            c.options.extra_headers@ == Map::<Seq<char>, Seq<char>>::empty(),
            c.options.extra_body is None,
            c.options.timeout is None,
    {
        self.list_with_options(params, RequestOptions::new())
    }

    /// Lists files: the listing parameters go into the query.
    pub fn list_with_options(&self, params: FileListParams, options: RequestOptions) -> (c: ApiCall)
        ensures
            api_call_is(c, HttpMethod::Get, "/files"@, None),
            is_list_options(c.options, options, params),
    {
        let options = apply_list_params(params, options);
        ApiCall { method: HttpMethod::Get, path: "/files".to_string(), body: None, options }
    }

    /// The call of the page after `current_page`, with no per-request
    /// options; `None` after the last page.
    pub fn list_next_page(&self, current_page: &CursorPage<FileObject>, params: FileListParams) -> (r: Option<ApiCall>)
        ensures
            r is None <==> !current_page.spec_has_next_page(),
            r matches Some(c) ==> api_call_is(c, HttpMethod::Get, "/files"@, None)
                && c.options.extra_query@.contains_key("after"@)
                && current_page.spec_next_after() == Some(c.options.extra_query@["after"@]),
    {
        self.list_next_page_with_options(current_page, params, RequestOptions::new())
    }

    /// The call of the page after `current_page`: the cursor is the last
    /// item's id, and an `after` the options' query held gives way to it;
    /// `None` after the last page.
    pub fn list_next_page_with_options(
        &self,
        current_page: &CursorPage<FileObject>,
        params: FileListParams,
        options: RequestOptions,
    ) -> (r: Option<ApiCall>)
        ensures
            r is None <==> !current_page.spec_has_next_page(),
            r matches Some(c) ==> api_call_is(c, HttpMethod::Get, "/files"@, None)
                && c.options.extra_query@.contains_key("after"@)
                && current_page.spec_next_after() == Some(c.options.extra_query@["after"@])
                && c.options.extra_headers == options.extra_headers
                && c.options.extra_body == options.extra_body
                && c.options.timeout == options.timeout,
    {
        match next_page_params(current_page, params) {
            None => None,
            Some(p) => {
                let ghost next = p;
                let o = pagination_request_options(options);
                let c = self.list_with_options(p, o);
                proof {
                    let q0 = o.extra_query@;
                    assert(!q0.contains_key("after"@));
                }
                Some(c)
            },
        }
    }

    /// Deletes a file, with no per-request options.
    pub fn delete(&self, file_id: &str) -> (r: Result<ApiCall, Error>)
        ensures
            file_id@.len() == 0 ==> (r matches Err(Error::Config(m)) && m@ == "file_id must not be empty"@),
            file_id@.len() > 0 ==> (r matches Ok(c) && api_call_is(c, HttpMethod::Delete, spec_file_path(file_id@, None), None)
                && is_no_override(c.options)),
    {
        self.delete_with_options(file_id, RequestOptions::new())
    }

    /// Deletes a file; an empty id is refused.
    pub fn delete_with_options(&self, file_id: &str, options: RequestOptions) -> (r: Result<ApiCall, Error>)
        ensures
            file_id@.len() == 0 ==> (r matches Err(Error::Config(m)) && m@ == "file_id must not be empty"@),
            file_id@.len() > 0 ==> (r matches Ok(c) && api_call_is(c, HttpMethod::Delete, spec_file_path(file_id@, None), None)
                && c.options == options),
    {
        match file_path(file_id, None) {
            Ok(path) => Ok(ApiCall { method: HttpMethod::Delete, path, body: None, options }),
            Err(e) => Err(e),
        }
    }

    /// Downloads a file's content, with no per-request options.
    pub fn content(&self, file_id: &str) -> (r: Result<ApiCall, Error>)
        ensures
            file_id@.len() == 0 ==> (r matches Err(Error::Config(m)) && m@ == "file_id must not be empty"@),
            file_id@.len() > 0 ==> (r matches Ok(c) && api_call_is(
                c,
                HttpMethod::Get,
                spec_file_path(file_id@, Some("content"@)),
                None,
            ) && c.options.extra_headers@ == map![ "Accept"@ => "application/binary"@ ]),
    {
        self.content_with_options(file_id, RequestOptions::new())
    }

    /// Downloads a file's content: the request asks for
    /// `Accept: application/binary` unless the options set `Accept`.
    pub fn content_with_options(&self, file_id: &str, options: RequestOptions) -> (r: Result<ApiCall, Error>)
        ensures
            file_id@.len() == 0 ==> (r matches Err(Error::Config(m)) && m@ == "file_id must not be empty"@),
            file_id@.len() > 0 ==> (r matches Ok(c) && api_call_is(
                c,
                HttpMethod::Get,
                spec_file_path(file_id@, Some("content"@)),
                None,
            ) && c.options.extra_headers@ == (if options.extra_headers@.contains_key("Accept"@) {
                options.extra_headers@
            } else {
                options.extra_headers@.insert("Accept"@, "application/binary"@)
            }) && c.options.extra_query == options.extra_query && c.options.extra_body
                == options.extra_body && c.options.timeout == options.timeout),
    {
        let mut options = options;
        options.extra_headers.insert_if_absent("Accept".to_string(), "application/binary".to_string());
        match file_path(file_id, Some("content")) {
            Ok(path) => Ok(ApiCall { method: HttpMethod::Get, path, body: None, options }),
            Err(e) => Err(e),
        }
    }
}

} // verus!
