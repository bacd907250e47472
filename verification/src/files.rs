//! File resource data and the request-building logic of the Files API:
//! resource paths, list query parameters, cursor pagination and the upload
//! form.

use vstd::prelude::*;
use crate::error::Error;
use crate::json::JsonValue;
use crate::pagination::{CursorPage, CursorPageItem};
use crate::path::{encode_path_segment, spec_encode_path_segment};
use crate::request_options::RequestOptions;
use crate::text::{decimal, u64_to_decimal, opt_chars, str_eq};
use crate::openai_provider::{check_media_type, media_type_check};
use vstd::string::*;

verus! {

/// What a file is for.
#[derive(Debug, Clone, Copy, PartialEq, Eq)]
pub enum FilePurpose {
    Assistants,
    AssistantsOutput,
    Batch,
    BatchOutput,
    FineTune,
    FineTuneResults,
    Vision,
    UserData,
    Evals,
}

/// The API's name for a purpose.
pub open spec fn purpose_wire(p: FilePurpose) -> Seq<char> {
    match p {
        FilePurpose::Assistants => "assistants"@,
        FilePurpose::AssistantsOutput => "assistants_output"@,
        FilePurpose::Batch => "batch"@,
        FilePurpose::BatchOutput => "batch_output"@,
        FilePurpose::FineTune => "fine-tune"@,
        FilePurpose::FineTuneResults => "fine-tune-results"@,
        FilePurpose::Vision => "vision"@,
        FilePurpose::UserData => "user_data"@,
        FilePurpose::Evals => "evals"@,
    }
}

/// The API's name for `purpose`.
pub fn purpose_as_str(purpose: FilePurpose) -> (s: String)
    ensures
        s@ == purpose_wire(purpose),
{
    match purpose {
        FilePurpose::Assistants => "assistants".to_string(),
        FilePurpose::AssistantsOutput => "assistants_output".to_string(),
        FilePurpose::Batch => "batch".to_string(),
        FilePurpose::BatchOutput => "batch_output".to_string(),
        FilePurpose::FineTune => "fine-tune".to_string(),
        FilePurpose::FineTuneResults => "fine-tune-results".to_string(),
        FilePurpose::Vision => "vision".to_string(),
        FilePurpose::UserData => "user_data".to_string(),
        FilePurpose::Evals => "evals".to_string(),
    }
}

/// Distinct purposes have distinct names, so a purpose read back from its
/// name is the purpose itself.
pub proof fn law_purpose_names_distinct(p: FilePurpose, q: FilePurpose)
    ensures
        purpose_wire(p) == purpose_wire(q) ==> p == q,
{
    reveal_strlit("assistants");
    reveal_strlit("assistants_output");
    reveal_strlit("batch");
    reveal_strlit("batch_output");
    reveal_strlit("fine-tune");
    reveal_strlit("fine-tune-results");
    reveal_strlit("vision");
    reveal_strlit("user_data");
    reveal_strlit("evals");
    if purpose_wire(p) == purpose_wire(q) && p != q {
        let a = purpose_wire(p);
        let b = purpose_wire(q);
        assert(a.len() == b.len());
        assert(a[0] == b[0]);
        assert(a[a.len() - 1] == b[b.len() - 1]);
    }
}

/// The purpose that the API names `s`, if any.
pub fn purpose_from_wire(s: &str) -> (r: Option<FilePurpose>)
    ensures
        match r {
            Some(p) => purpose_wire(p) == s@,
            None => forall|p: FilePurpose| purpose_wire(p) != s@,
        },
{
    proof {
        reveal_strlit("assistants");
        reveal_strlit("assistants_output");
        reveal_strlit("batch");
        reveal_strlit("batch_output");
        reveal_strlit("fine-tune");
        reveal_strlit("fine-tune-results");
        reveal_strlit("vision");
        reveal_strlit("user_data");
        reveal_strlit("evals");
    }
    if str_eq(s, "assistants") {
        Some(FilePurpose::Assistants)
    } else if str_eq(s, "assistants_output") {
        Some(FilePurpose::AssistantsOutput)
    } else if str_eq(s, "batch") {
        Some(FilePurpose::Batch)
    } else if str_eq(s, "batch_output") {
        Some(FilePurpose::BatchOutput)
    } else if str_eq(s, "fine-tune") {
        Some(FilePurpose::FineTune)
    } else if str_eq(s, "fine-tune-results") {
        Some(FilePurpose::FineTuneResults)
    } else if str_eq(s, "vision") {
        Some(FilePurpose::Vision)
    } else if str_eq(s, "user_data") {
        Some(FilePurpose::UserData)
    } else if str_eq(s, "evals") {
        Some(FilePurpose::Evals)
    } else {
        None
    }
}

/// Sort order of a listing by creation time.
#[derive(Debug, Clone, Copy, PartialEq, Eq)]
pub enum ListOrder {
    Asc,
    Desc,
}

/// Paging and filtering of a file listing.
#[derive(Debug, Clone, PartialEq, Eq)]
pub struct FileListParams {
    /// Cursor: list the files after this id.
    pub after: Option<String>,
    /// Page size.
    pub limit: Option<u32>,
    /// Sort order.
    pub order: Option<ListOrder>,
    /// Only files with this purpose.
    pub purpose: Option<String>,
}

impl FileListParams {
    /// No paging or filtering.
    pub fn new() -> (p: FileListParams)
        ensures
            p.after is None && p.limit is None && p.order is None && p.purpose is None,
    {
        FileListParams { after: None, limit: None, order: None, purpose: None }
    }
}

/// A file's metadata.
#[derive(Debug)]
pub struct FileObject {
    pub id: String,
    pub bytes: Option<u64>,
    pub created_at: Option<u64>,
    pub filename: Option<String>,
    pub object: Option<String>,
    pub purpose: Option<FilePurpose>,
    pub status: Option<String>,
    pub expires_at: Option<u64>,
    pub status_details: Option<String>,
    /// Members of the API's answer that have no field here.
    pub extra: Vec<(String, JsonValue)>,
}

impl CursorPageItem for FileObject {
    open spec fn spec_id(&self) -> Option<Seq<char>> {
        Some(self.id@)
    }

    fn id(&self) -> (r: Option<&str>) {
        Some(self.id.as_str())
    }
}

/// Confirmation of a deletion.
#[derive(Debug)]
pub struct FileDeleted {
    pub id: String,
    pub deleted: bool,
    pub object: Option<String>,
    pub extra: Vec<(String, JsonValue)>,
}

/// The path of a file resource, `/files/{id}` or `/files/{id}/{suffix}`, with
/// the id percent-encoded.
pub open spec fn spec_file_path(file_id: Seq<char>, suffix: Option<Seq<char>>) -> Seq<char> {
    match suffix {
        Some(s) => "/files/"@ + spec_encode_path_segment(file_id) + "/"@ + s,
        None => "/files/"@ + spec_encode_path_segment(file_id),
    }
}

/// Builds the path of a file resource; an empty id is a configuration error.
pub fn file_path(file_id: &str, suffix: Option<&str>) -> (r: Result<String, Error>)
    ensures
        file_id@.len() == 0 ==> (r matches Err(Error::Config(m)) && m@ == "file_id must not be empty"@),
        file_id@.len() > 0 ==> (r matches Ok(p) && p@ == spec_file_path(
            file_id@,
            match suffix {
                Some(s) => Some(s@),
                None => None,
            },
        )),
{
    if file_id.is_empty() {
        return Err(Error::Config("file_id must not be empty".to_string()));
    }
    let encoded = encode_path_segment(file_id);
    let mut p = "/files/".to_string();
    p.append(encoded.as_str());
    match suffix {
        Some(s) => {
            p.append("/");
            p.append(s);
        },
        None => {},
    }
    Ok(p)
}

/// The path of a model resource, `/models/{model}` with the id
/// percent-encoded.
pub open spec fn spec_model_path(model: Seq<char>) -> Seq<char> {
    "/models/"@ + spec_encode_path_segment(model)
}

/// Builds the path of a model resource; an empty model id is a
/// configuration error.
pub fn model_path(model: &str) -> (r: Result<String, Error>)
    ensures
        model@.len() == 0 ==> (r matches Err(Error::Config(m)) && m@ == "model must not be empty"@),
        model@.len() > 0 ==> (r matches Ok(p) && p@ == spec_model_path(model@)),
{
    if model.is_empty() {
        return Err(Error::Config("model must not be empty".to_string()));
    }
    let encoded = encode_path_segment(model);
    let mut p = "/models/".to_string();
    p.append(encoded.as_str());
    Ok(p)
}

/// The API's name for a sort order.
pub open spec fn order_wire(o: ListOrder) -> Seq<char> {
    match o {
        ListOrder::Asc => "asc"@,
        ListOrder::Desc => "desc"@,
    }
}

/// `m` with `key` set to `value` when `value` is given and `key` has no
/// value yet.
pub open spec fn set_if_absent(m: Map<Seq<char>, Seq<char>>, key: Seq<char>, value: Option<Seq<char>>) -> Map<Seq<char>, Seq<char>> {
    match value {
        Some(v) => if m.contains_key(key) {
            m
        } else {
            m.insert(key, v)
        },
        None => m,
    }
}

/// The query parameters of a listing: `after`, `limit`, `order` and
/// `purpose` from `params`, each unless the query already has it.
pub open spec fn spec_list_query(q: Map<Seq<char>, Seq<char>>, params: FileListParams) -> Map<Seq<char>, Seq<char>> {
    let q1 = set_if_absent(q, "after"@, opt_chars(params.after));
    let q2 = set_if_absent(
        q1,
        "limit"@,
        match params.limit {
            Some(l) => Some(decimal(l as nat)),
            None => None,
        },
    );
    let q3 = set_if_absent(
        q2,
        "order"@,
        match params.order {
            Some(o) => Some(order_wire(o)),
            None => None,
        },
    );
    set_if_absent(q3, "purpose"@, opt_chars(params.purpose))
}

/// Sets a query parameter unless the caller already set it.
pub fn insert_query_if_absent(options: &mut RequestOptions, key: &str, value: Option<String>)
    ensures
        final(options).extra_query@ == set_if_absent(old(options).extra_query@, key@, opt_chars(value)),
        final(options).extra_headers == old(options).extra_headers,
        final(options).extra_body == old(options).extra_body,
        final(options).timeout == old(options).timeout,
{
    match value {
        Some(v) => options.extra_query.insert_if_absent(key.to_string(), v),
        None => {},
    }
}

/// Writes the listing parameters into the query, never overriding a
/// parameter the caller set.
pub fn apply_list_params(params: FileListParams, options: RequestOptions) -> (o: RequestOptions)
    ensures
        o.extra_query@ == spec_list_query(options.extra_query@, params),
        o.extra_headers == options.extra_headers,
        o.extra_body == options.extra_body,
        o.timeout == options.timeout,
{
    let mut o = options;
    let ghost p = params;
    insert_query_if_absent(&mut o, "after", params.after);
    let limit = match params.limit {
        Some(l) => Some(u64_to_decimal(l as u64)),
        None => None,
    };
    insert_query_if_absent(&mut o, "limit", limit);
    let order = match params.order {
        Some(ListOrder::Asc) => Some("asc".to_string()),
        Some(ListOrder::Desc) => Some("desc".to_string()),
        None => None,
    };
    insert_query_if_absent(&mut o, "order", order);
    insert_query_if_absent(&mut o, "purpose", params.purpose);
    o
}

/// The parameters that fetch the page after `current_page`, or `None` when
/// it is the last page.
pub fn next_page_params(current_page: &CursorPage<FileObject>, params: FileListParams) -> (r: Option<FileListParams>)
    ensures
        match r {
            None => !current_page.spec_has_next_page(),
            Some(p) => {
                &&& current_page.spec_has_next_page()
                &&& p.limit == params.limit
                &&& p.order == params.order
                &&& p.purpose == params.purpose
                &&& p.after matches Some(a)
                &&& current_page.spec_next_after() == Some(a@)
            },
        },
{
    let after = match current_page.next_after() {
        Some(a) => a,
        None => {
            return None;
        },
    };
    if !current_page.has_next_page() {
        return None;
    }
    let mut p = params;
    p.after = Some(after.to_string());
    Some(p)
}

/// Prepares an auto-paging listing: a cursor given as an `after` query
/// parameter moves into `params` (unless `params` has one), and the query
/// loses its `after`.
pub fn pagination_start(params: FileListParams, options: RequestOptions) -> (r: (FileListParams, RequestOptions))
    ensures
        params.after is Some ==> r.0.after == params.after,
        params.after is None ==> opt_chars(r.0.after) == (if options.extra_query@.contains_key("after"@) {
            Some(options.extra_query@["after"@])
        } else {
            None
        }),
        r.0.limit == params.limit && r.0.order == params.order && r.0.purpose == params.purpose,
        r.1.extra_query@ == options.extra_query@.remove("after"@),
        r.1.extra_headers == options.extra_headers,
        r.1.extra_body == options.extra_body,
        r.1.timeout == options.timeout,
{
    let mut p = params;
    let mut o = options;
    if p.after.is_none() {
        p.after = match o.extra_query.get("after") {
            Some(a) => Some(a.clone()),
            None => None,
        };
    }
    let _ = o.extra_query.remove("after");
    (p, o)
}

/// Options for fetching a later page: the query loses its `after`, which
/// the page parameters carry.
pub fn pagination_request_options(options: RequestOptions) -> (o: RequestOptions)
    ensures
        o.extra_query@ == options.extra_query@.remove("after"@),
        o.extra_headers == options.extra_headers,
        o.extra_body == options.extra_body,
        o.timeout == options.timeout,
{
    let mut o = options;
    let _ = o.extra_query.remove("after");
    o
}

/// A file to upload: its name, bytes and optional media type.
#[derive(Debug, Clone)]
pub struct UploadFile {
    pub file_name: String,
    pub bytes: Vec<u8>,
    pub mime_type: Option<String>,
}

impl UploadFile {
    /// A file from bytes in memory, without a media type.
    pub fn from_bytes(file_name: &str, bytes: Vec<u8>) -> (f: UploadFile)
        ensures
            f.file_name@ == file_name@,
            f.bytes@ == bytes@,
            f.mime_type is None,
    {
        UploadFile { file_name: file_name.to_string(), bytes, mime_type: None }
    }
}

/// When an uploaded file expires: seconds after an anchor.
#[derive(Debug, Clone, PartialEq, Eq)]
pub struct ExpiresAfter {
    pub anchor: String,
    pub seconds: u32,
}

/// Parameters of a file upload.
#[derive(Debug)]
pub struct FileCreateParams {
    pub file: UploadFile,
    pub purpose: FilePurpose,
    pub expires_after: Option<ExpiresAfter>,
    pub extra: Vec<(String, JsonValue)>,
}

impl FileCreateParams {
    /// Upload parameters with a file and a purpose, nothing else set.
    pub fn new(file: UploadFile, purpose: FilePurpose) -> (p: FileCreateParams)
        ensures
            p.file == file,
            p.purpose == purpose,
            p.expires_after is None,
            p.extra@.len() == 0,
    {
        FileCreateParams { file, purpose, expires_after: None, extra: Vec::new() }
    }
}

/// The value of a text field of a form: a string as it is, any other JSON
/// value as its JSON text (which the caller renders).
#[derive(Debug)]
pub enum FormValue {
    Text(String),
    Json(JsonValue),
}

/// A multipart upload: its text fields in order and the file part (sent
/// under the name `file`).
#[derive(Debug)]
pub struct UploadForm {
    pub fields: Vec<(String, FormValue)>,
    pub file: UploadFile,
}

/// Whether `f` is the field `key` holding the JSON value `v`: a string as
/// text, anything else for rendering as JSON.
pub open spec fn is_form_field(f: (String, FormValue), key: Seq<char>, v: JsonValue) -> bool {
    &&& f.0@ == key
    &&& match v {
        JsonValue::String(s) => f.1 matches FormValue::Text(t) && t@ == s@,
        _ => f.1 matches FormValue::Json(j) && crate::json::jview(j) == crate::json::jview(v),
    }
}

/// Whether `f` is the field `key` holding JSON to render with value `v`.
pub open spec fn is_json_field(f: (String, FormValue), key: Seq<char>, v: crate::json::JsonView) -> bool {
    &&& f.0@ == key
    &&& f.1 matches FormValue::Json(j) && crate::json::jview(j) == v
}

/// Whether two upload files have the same name, bytes and media type.
pub open spec fn same_file(a: UploadFile, b: UploadFile) -> bool {
    a.file_name@ == b.file_name@ && a.bytes@ == b.bytes@ && opt_chars(a.mime_type) == opt_chars(
        b.mime_type,
    )
}

/// Whether `fields` are the fields of `members`, one for one in order.
pub open spec fn are_form_fields(fields: Seq<(String, FormValue)>, members: Seq<(String, JsonValue)>) -> bool {
    &&& fields.len() == members.len()
    &&& forall|i: int| 0 <= i < members.len() ==> is_form_field(#[trigger] fields[i], members[i].0@, members[i].1)
}

/// The JSON form of an expiry policy: `{"anchor": …, "seconds": …}`.
pub open spec fn expires_after_view(e: ExpiresAfter) -> crate::json::JsonView {
    crate::json::JsonView::Object(
        seq![
            ("anchor"@, crate::json::JsonView::String(e.anchor@)),
            ("seconds"@, crate::json::JsonView::Number(crate::json::NumberView::PosInt(e.seconds as u64))),
        ],
    )
}

fn copy_bytes(v: &Vec<u8>) -> (r: Vec<u8>)
    ensures
        r@ == v@,
{
    let mut out: Vec<u8> = Vec::new();
    let mut i: usize = 0;
    while i < v.len()
        invariant
            i <= v@.len(),
            out@ =~= v@.take(i as int),
        decreases v@.len() - i,
    {
        out.push(v[i]);
        i = i + 1;
    }
    out
}

fn form_field(key: &String, v: &JsonValue) -> (f: (String, FormValue))
    ensures
        is_form_field(f, key@, *v),
{
    match v {
        JsonValue::String(s) => (key.clone(), FormValue::Text(s.clone())),
        _ => (key.clone(), FormValue::Json(crate::json::json_clone(v))),
    }
}

fn push_form_fields(fields: &mut Vec<(String, FormValue)>, members: &Vec<(String, JsonValue)>)
    ensures
        final(fields)@.len() == old(fields)@.len() + members@.len(),
        final(fields)@.take(old(fields)@.len() as int) == old(fields)@,
        are_form_fields(final(fields)@.skip(old(fields)@.len() as int), members@),
{
    let ghost start = fields@;
    let mut i: usize = 0;
    while i < members.len()
        invariant
            i <= members@.len(),
            fields@.len() == start.len() + i,
            fields@.take(start.len() as int) == start,
            forall|j: int| 0 <= j < i ==> is_form_field(#[trigger] fields@[start.len() + j], members@[j].0@, members@[j].1),
        decreases members@.len() - i,
    {
        let f = form_field(&members[i].0, &members[i].1);
        fields.push(f);
        assert(fields@.take(start.len() as int) =~= start);
        i = i + 1;
    }
    assert forall|j: int| 0 <= j < members@.len() implies is_form_field(
        #[trigger] fields@.skip(start.len() as int)[j],
        members@[j].0@,
        members@[j].1,
    ) by {
        assert(fields@.skip(start.len() as int)[j] == fields@[start.len() + j]);
    }
}

/// Whether `form` is the upload form of `params` with the request's extra
/// body: `purpose` first, then `expires_after` when set, then the
/// parameters' extra fields, then the members of the extra body, and the
/// file.
pub open spec fn is_create_form(form: UploadForm, params: FileCreateParams, extra_body: Option<JsonValue>) -> bool {
    let head = if params.expires_after is Some { 2int } else { 1int };
    let extra_len = params.extra@.len();
    &&& same_file(form.file, params.file)
    &&& form.fields@[0].0@ == "purpose"@
    &&& (form.fields@[0].1 matches FormValue::Text(t) && t@ == purpose_wire(params.purpose))
    &&& params.expires_after matches Some(e) ==> is_json_field(
        form.fields@[1],
        "expires_after"@,
        expires_after_view(e),
    )
    &&& are_form_fields(form.fields@.subrange(head, head + extra_len), params.extra@)
    &&& match extra_body {
        Some(JsonValue::Object(ms)) => form.fields@.len() == head + extra_len + ms@.len()
            && are_form_fields(form.fields@.skip(head + extra_len), ms@),
        _ => form.fields@.len() == head + extra_len,
    }
}

/// The message of an upload whose MIME type does not parse.
pub open spec fn invalid_mime_message(mime: Seq<char>, reason: Seq<char>) -> Seq<char> {
    "invalid MIME type `"@ + mime + "`: "@ + reason
}

/// Checks the MIME type of an upload before it is sent: none, or one that
/// parses, passes; one that does not parse is a configuration error.
pub fn check_upload_mime(file: &UploadFile) -> (r: Result<(), Error>)
    ensures
        match file.mime_type {
            None => r is Ok,
            Some(m) => match media_type_check(m@) {
                None => r is Ok,
                Some(reason) => r matches Err(Error::Config(x)) && x@ == invalid_mime_message(
                    m@,
                    reason,
                ) && reason == "builder error"@,
            },
        },
{
    match &file.mime_type {
        None => Ok(()),
        Some(m) => match check_media_type(m.as_str()) {
            None => Ok(()),
            Some(reason) => {
                let mut x = "invalid MIME type `".to_string();
                x.append(m.as_str());
                x.append("`: ");
                x.append(reason.as_str());
                Err(Error::Config(x))
            },
        },
    }
}

/// Builds the upload form: the purpose, the expiry policy (as JSON) when
/// set, the parameters' extra fields, then the request's extra body fields,
/// which must form a JSON object.
pub fn build_create_form(params: &FileCreateParams, extra_body: &Option<JsonValue>) -> (r: Result<
    UploadForm,
    Error,
>)
    ensures
        (extra_body matches Some(b) && !(b is Object)) ==> (r matches Err(Error::Config(m)) && m@
            == "multipart extra_body must be a JSON object"@),
        !(extra_body matches Some(b) && !(b is Object)) ==> (r matches Ok(form) && is_create_form(
            form,
            *params,
            *extra_body,
        )),
{
    match extra_body {
        Some(JsonValue::Object(_)) | None => {},
        Some(_) => {
            return Err(Error::Config("multipart extra_body must be a JSON object".to_string()));
        },
    }
    let mut fields: Vec<(String, FormValue)> = Vec::new();
    fields.push(("purpose".to_string(), FormValue::Text(purpose_as_str(params.purpose))));
    match &params.expires_after {
        Some(e) => {
            let mut ms: Vec<(String, JsonValue)> = Vec::new();
            crate::json::push_member(&mut ms, "anchor", crate::json::json_string(e.anchor.as_str()));
            crate::json::push_member(&mut ms, "seconds", JsonValue::Number(crate::json::JsonNumber::PosInt(e.seconds as u64)));
            proof {
                crate::json::lemma_jview_object(ms);
                assert(crate::json::members_view(Seq::<(String, JsonValue)>::empty()) =~= Seq::empty());
                assert(crate::json::members_view(ms@) =~= seq![
                    ("anchor"@, crate::json::JsonView::String(e.anchor@)),
                    ("seconds"@, crate::json::JsonView::Number(crate::json::NumberView::PosInt(e.seconds as u64))),
                ]);
            }
            fields.push(("expires_after".to_string(), FormValue::Json(JsonValue::Object(ms))));
        },
        None => {},
    }
    let ghost head = fields@;
    assert(head.len() == if params.expires_after is Some { 2int } else { 1int });
    push_form_fields(&mut fields, &params.extra);
    let ghost mid = fields@;
    proof {
        assert(mid.subrange(head.len() as int, (head.len() + params.extra@.len()) as int) =~= mid.skip(head.len() as int));
    }
    match extra_body {
        Some(JsonValue::Object(ms)) => {
            push_form_fields(&mut fields, ms);
            proof {
                assert(fields@[0] == mid[0]);
                assert(params.expires_after is Some ==> fields@[1] == mid[1]);
                assert(fields@.subrange(head.len() as int, (head.len() + params.extra@.len()) as int)
                    =~= mid.subrange(head.len() as int, (head.len() + params.extra@.len()) as int));
            }
        },
        _ => {},
    }
    assert(fields@[0] == head[0]);
    assert(params.expires_after is Some ==> fields@[1] == head[1]);
    let file = UploadFile {
        file_name: params.file.file_name.clone(),
        bytes: copy_bytes(&params.file.bytes),
        mime_type: match &params.file.mime_type {
            Some(m) => Some(m.clone()),
            None => None,
        },
    };
    Ok(UploadForm { fields, file })
}

} // verus!
