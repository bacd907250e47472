use ai_provider_sdk::client::{ClientEnv, HttpMethod, OpenAI};
use ai_provider_sdk::error::Error;
use ai_provider_sdk::files::{FileCreateParams, FileListParams, FileObject, FilePurpose, ListOrder, UploadFile};
use ai_provider_sdk::json::{JsonNumber, JsonValue};
use ai_provider_sdk::pagination::CursorPage;
use ai_provider_sdk::request_options::RequestOptions;
use ai_provider_sdk::types::{
    ChatCompletionCreateParams, ChatMessage, EmbeddingCreateParams, EmbeddingInput, ModerationCreateParams,
    ModerationInput, ResponseCreateParams,
};

fn client() -> OpenAI {
    let env = ClientEnv { api_key: None, org_id: None, project_id: None, webhook_secret: None, base_url: None };
    OpenAI::new("sk-test", env).unwrap()
}

fn member<'a>(v: &'a JsonValue, key: &str) -> Option<&'a JsonValue> {
    match v {
        JsonValue::Object(ms) => ms.iter().rev().find(|(k, _)| k == key).map(|(_, v)| v),
        _ => None,
    }
}

fn file(id: &str) -> FileObject {
    FileObject {
        id: id.to_string(),
        bytes: None,
        created_at: None,
        filename: None,
        object: None,
        purpose: None,
        status: None,
        expires_at: None,
        status_details: None,
        extra: vec![],
    }
}

#[test]
fn main_client_json_calls() {
    let api = client();
    let chat = api.chat().completions().create(ChatCompletionCreateParams::new("gpt-4.1-mini", vec![ChatMessage::user("Hello!")]));
    assert_eq!((chat.method, chat.path.as_str()), (HttpMethod::Post, "/chat/completions"));
    assert!(matches!(member(chat.body.as_ref().unwrap(), "stream"), Some(JsonValue::Bool(false))));
    let streamed = api
        .chat()
        .completions()
        .create_stream_with_options(ChatCompletionCreateParams::new("m", vec![]), RequestOptions::new().header("x-trace-id", "t"));
    assert!(matches!(member(streamed.body.as_ref().unwrap(), "stream"), Some(JsonValue::Bool(true))));
    assert_eq!(streamed.options.extra_headers.get("x-trace-id").map(|s| s.as_str()), Some("t"));

    let response = api.responses().create(ResponseCreateParams::new("gpt-4.1-mini").input(JsonValue::String("hello".to_string())));
    assert_eq!(response.path, "/responses");
    assert!(matches!(member(response.body.as_ref().unwrap(), "input"), Some(JsonValue::String(s)) if s == "hello"));
    assert!(matches!(member(api.responses().create_stream(ResponseCreateParams::new("m")).body.as_ref().unwrap(), "stream"), Some(JsonValue::Bool(true))));

    let embed = api.embeddings().create(EmbeddingCreateParams::new("text-embedding-3-small", EmbeddingInput::Text("x".to_string())));
    assert_eq!(embed.path, "/embeddings");
    assert!(matches!(member(embed.body.as_ref().unwrap(), "encoding_format"), Some(JsonValue::String(s)) if s == "float"));

    let moderation = api.moderations().create(ModerationCreateParams::new(ModerationInput::Text("hi".to_string())));
    assert_eq!((moderation.method, moderation.path.as_str()), (HttpMethod::Post, "/moderations"));

    let models = api.models().list();
    assert_eq!((models.method, models.path.as_str(), models.body.is_none()), (HttpMethod::Get, "/models", true));
    assert_eq!(api.models().retrieve("fine/tuned model").unwrap().path, "/models/fine%2Ftuned%20model");
    match api.models().retrieve("") {
        Err(Error::Config(m)) => assert_eq!(m, "model must not be empty"),
        _ => panic!("expected a configuration error"),
    }
}

#[test]
fn main_client_file_calls() {
    let api = client();
    let got = api.files().retrieve("file-1").unwrap();
    assert_eq!((got.method, got.path.as_str()), (HttpMethod::Get, "/files/file-1"));
    let gone = api.files().delete("file 2").unwrap();
    assert_eq!((gone.method, gone.path.as_str()), (HttpMethod::Delete, "/files/file%202"));
    match api.files().delete("") {
        Err(Error::Config(m)) => assert_eq!(m, "file_id must not be empty"),
        _ => panic!("expected a configuration error"),
    }
    let content = api.files().content("file-3").unwrap();
    assert_eq!(content.path, "/files/file-3/content");
    assert_eq!(content.options.extra_headers.get("Accept").map(|s| s.as_str()), Some("application/binary"));
    let custom = api.files().content_with_options("file-3", RequestOptions::new().header("Accept", "text/plain")).unwrap();
    assert_eq!(custom.options.extra_headers.get("Accept").map(|s| s.as_str()), Some("text/plain"));

    let mut params = FileListParams::new();
    params.limit = Some(20);
    params.order = Some(ListOrder::Desc);
    let listed = api.files().list_with_options(params, RequestOptions::new().query("order", "asc"));
    assert_eq!((listed.method, listed.path.as_str()), (HttpMethod::Get, "/files"));
    assert_eq!(listed.options.extra_query.get("limit").map(|s| s.as_str()), Some("20"));
    assert_eq!(listed.options.extra_query.get("order").map(|s| s.as_str()), Some("asc"));
    assert!(api.files().list().options.extra_query.get("after").is_none());

    let upload = api
        .files()
        .create(FileCreateParams::new(UploadFile::from_bytes("train.jsonl", b"{}".to_vec()), FilePurpose::FineTune))
        .unwrap();
    assert_eq!(upload.path, "/files");
    let bad = RequestOptions::new().extra_body(JsonValue::Number(JsonNumber::PosInt(1)));
    match api.files().create_with_options(FileCreateParams::new(UploadFile::from_bytes("a", vec![]), FilePurpose::Batch), bad) {
        Err(Error::Config(m)) => assert_eq!(m, "multipart extra_body must be a JSON object"),
        _ => panic!("expected a configuration error"),
    }
}

#[test]
fn main_client_next_page_call() {
    let api = client();
    let page = CursorPage { object: Some("list".to_string()), data: vec![file("f1"), file("f2")], has_more: Some(true), extra: vec![] };
    let next = api
        .files()
        .list_next_page_with_options(&page, FileListParams::new(), RequestOptions::new().query("after", "stale"))
        .unwrap();
    assert_eq!(next.options.extra_query.get("after").map(|s| s.as_str()), Some("f2"));
    let last = CursorPage { object: None, data: vec![file("f3")], has_more: Some(false), extra: vec![] };
    assert!(api.files().list_next_page(&last, FileListParams::new()).is_none());
    let empty: CursorPage<FileObject> = CursorPage { object: None, data: vec![], has_more: Some(true), extra: vec![] };
    assert!(api.files().list_next_page(&empty, FileListParams::new()).is_none());
}
