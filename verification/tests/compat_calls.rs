use ai_provider_sdk::client::HttpMethod;
use ai_provider_sdk::compat_params::{
    chat_body, response_body, ChatCompletionCreateParams, ChatMessage, ChatTool, CompletionCreateParams,
    ContentPart, EmbeddingCreateParams, FunctionDefinition, GenericCreateParams, MessageContent,
    ModerationCreateParams, ResponseCreateParams, ResponseInput, ResponseInputItem, ResponseTool,
};
use ai_provider_sdk::compat_resources::{CompatCall, FileCreateParams};
use ai_provider_sdk::error::Error;
use ai_provider_sdk::json::{JsonNumber, JsonValue};
use ai_provider_sdk::openai_compat::{
    ChatToolCall, FileListParams, FunctionCall, ImageUrl, ListParams, OpenAIClient,
};
use ai_provider_sdk::strmap::StringMap;

fn value_of(v: &JsonValue) -> serde_json::Value {
    match v {
        JsonValue::Null => serde_json::Value::Null,
        JsonValue::Bool(b) => serde_json::Value::Bool(*b),
        JsonValue::Number(JsonNumber::PosInt(n)) => serde_json::Value::from(*n),
        JsonValue::Number(JsonNumber::NegInt(n)) => serde_json::Value::from(*n),
        JsonValue::Number(JsonNumber::Float(t)) => serde_json::from_str(t).unwrap(),
        JsonValue::String(x) => serde_json::Value::String(x.clone()),
        JsonValue::Array(items) => serde_json::Value::Array(items.iter().map(value_of).collect()),
        JsonValue::Object(members) => {
            let mut m = serde_json::Map::new();
            for (k, v) in members {
                m.insert(k.clone(), value_of(v));
            }
            serde_json::Value::Object(m)
        }
    }
}

fn expect(text: &str) -> serde_json::Value {
    serde_json::from_str(text).unwrap()
}

fn keys(v: &JsonValue) -> Vec<String> {
    match v {
        JsonValue::Object(members) => members.iter().map(|(k, _)| k.clone()).collect(),
        _ => vec![],
    }
}

fn object(pairs: Vec<(&str, JsonValue)>) -> JsonValue {
    JsonValue::Object(pairs.into_iter().map(|(k, v)| (k.to_string(), v)).collect())
}

fn text(s: &str) -> JsonValue {
    JsonValue::String(s.to_string())
}

fn query_of(c: &CompatCall) -> Vec<(String, String)> {
    c.query.clone()
}

fn chat_params() -> ChatCompletionCreateParams {
    let mut params = ChatCompletionCreateParams::new(
        "gpt-4o",
        vec![ChatMessage::developer("be brief"), ChatMessage::user("hi")],
    );
    params.temperature = Some(JsonNumber::Float("0.2".to_string()));
    params.tools = Some(vec![ChatTool::Function {
        function: FunctionDefinition {
            name: "lookup".to_string(),
            description: None,
            parameters: Some(object(vec![("type", text("object"))])),
            strict: Some(true),
        },
    }]);
    params.extra = vec![("seed".to_string(), JsonValue::Number(JsonNumber::PosInt(7)))];
    params
}

#[test]
fn compact_chat_create_leaves_out_stream() {
    let client = OpenAIClient::new("sk-test");
    let params = chat_params();
    let call = client.chat.completions.create(&params);
    assert_eq!(call.method, HttpMethod::Post);
    assert_eq!(call.path, "/chat/completions");
    assert!(call.query.is_empty());
    let body = call.body.unwrap();
    assert_eq!(keys(&body), vec!["model", "messages", "temperature", "tools", "seed"]);
    assert_eq!(
        value_of(&body),
        expect(
            r#"{"model":"gpt-4o","messages":[{"role":"developer","content":"be brief"},{"role":"user","content":"hi"}],
               "temperature":0.2,"tools":[{"type":"function","function":{"name":"lookup","parameters":{"type":"object"},"strict":true}}],
               "seed":7}"#
        )
    );
}

#[test]
fn compact_chat_stream_sends_stream_before_extra_fields() {
    let client = OpenAIClient::new("sk-test");
    let call = client.chat.completions.create_stream(&chat_params());
    let body = call.body.unwrap();
    assert_eq!(keys(&body), vec!["model", "messages", "temperature", "tools", "stream", "seed"]);
    assert_eq!(value_of(&body)["stream"], serde_json::Value::Bool(true));
}

#[test]
fn compact_chat_messages_of_every_role() {
    let messages = vec![
        ChatMessage::System { content: MessageContent::Text("sys".to_string()), extra: vec![] },
        ChatMessage::User {
            content: MessageContent::Parts(vec![
                ContentPart::Text { text: "look".to_string() },
                ContentPart::ImageUrl {
                    image_url: ImageUrl { url: "https://x/y.png".to_string(), detail: Some("low".to_string()) },
                },
                ContentPart::InputAudio { input_audio: object(vec![("format", text("wav"))]) },
            ]),
            extra: vec![("name".to_string(), text("ann"))],
        },
        ChatMessage::Assistant {
            content: None,
            tool_calls: Some(vec![ChatToolCall {
                id: "call_1".to_string(),
                call_type: "function".to_string(),
                function: FunctionCall { name: "lookup".to_string(), arguments: "{}".to_string() },
            }]),
            extra: vec![],
        },
        ChatMessage::Tool {
            content: MessageContent::Text("42".to_string()),
            tool_call_id: "call_1".to_string(),
            extra: vec![],
        },
    ];
    let params = ChatCompletionCreateParams::new("m", messages);
    let body = chat_body(&params, false);
    assert_eq!(
        value_of(&body),
        expect(
            r#"{"model":"m","messages":[
                {"role":"system","content":"sys"},
                {"role":"user","content":[{"type":"text","text":"look"},
                    {"type":"image_url","image_url":{"url":"https://x/y.png","detail":"low"}},
                    {"type":"input_audio","input_audio":{"format":"wav"}}],"name":"ann"},
                {"role":"assistant","tool_calls":[{"id":"call_1","type":"function","function":{"name":"lookup","arguments":"{}"}}]},
                {"role":"tool","content":"42","tool_call_id":"call_1"}]}"#
        )
    );
}

#[test]
fn compact_responses_body_and_calls() {
    let client = OpenAIClient::new("sk-test");
    let mut metadata = StringMap::new();
    metadata.insert("run".to_string(), "7".to_string());
    let mut params = ResponseCreateParams::new(
        "gpt-4.1",
        ResponseInput::Items(vec![
            ResponseInputItem::Message {
                role: "user".to_string(),
                content: vec![ContentPart::Text { text: "hi".to_string() }],
            },
            ResponseInputItem::FunctionCallOutput { call_id: "c1".to_string(), output: "ok".to_string() },
        ]),
    );
    params.tools = Some(vec![
        ResponseTool::WebSearchPreview,
        ResponseTool::FileSearch { vector_store_ids: vec!["vs_1".to_string()], extra: vec![] },
        ResponseTool::Function { name: "f".to_string(), description: Some("d".to_string()), parameters: None, strict: None },
        ResponseTool::ComputerUsePreview { extra: vec![("display_width".to_string(), JsonValue::Number(JsonNumber::PosInt(800)))] },
    ]);
    params.max_output_tokens = Some(64);
    params.metadata = Some(metadata);
    params.store = Some(false);
    let body = response_body(&params, false);
    assert_eq!(keys(&body), vec!["model", "input", "tools", "max_output_tokens", "metadata", "store"]);
    assert_eq!(
        value_of(&body),
        expect(
            r#"{"model":"gpt-4.1","input":[{"type":"message","role":"user","content":[{"type":"text","text":"hi"}]},
                {"type":"function_call_output","call_id":"c1","output":"ok"}],
                "tools":[{"type":"web_search_preview"},{"type":"file_search","vector_store_ids":["vs_1"]},
                    {"type":"function","name":"f","description":"d"},{"type":"computer_use_preview","display_width":800}],
                "max_output_tokens":64,"metadata":{"run":"7"},"store":false}"#
        )
    );
    let created = client.responses.create(&params);
    assert_eq!(created.path, "/responses");
    assert!(value_of(created.body.as_ref().unwrap()).get("stream").is_none());
    let streamed = client.responses.stream(&params);
    assert_eq!(value_of(streamed.body.as_ref().unwrap())["stream"], serde_json::Value::Bool(true));
    let text_input = ResponseCreateParams::new("m", ResponseInput::Text("hello".to_string()));
    assert_eq!(value_of(&response_body(&text_input, false)), expect(r#"{"model":"m","input":"hello"}"#));
    let fetched = client.responses.retrieve("resp 1");
    assert_eq!((fetched.method, fetched.path.as_str()), (HttpMethod::Get, "/responses/resp%201"));
    let deleted = client.responses.delete("resp_2");
    assert_eq!((deleted.method, deleted.path.as_str()), (HttpMethod::Delete, "/responses/resp_2"));
}

#[test]
fn compact_simple_create_bodies() {
    let client = OpenAIClient::new("sk-test");
    let completion = CompletionCreateParams {
        model: "davinci".to_string(),
        prompt: text("Say hi"),
        extra: vec![("max_tokens".to_string(), JsonValue::Number(JsonNumber::PosInt(5)))],
    };
    let call = client.completions.create(&completion);
    assert_eq!(call.path, "/completions");
    assert_eq!(keys(call.body.as_ref().unwrap()), vec!["model", "prompt", "max_tokens"]);
    let embedding = EmbeddingCreateParams { model: "e".to_string(), input: text("x"), extra: vec![] };
    let call = client.embeddings.create(&embedding);
    assert_eq!((call.path.as_str(), value_of(call.body.as_ref().unwrap())), ("/embeddings", expect(r#"{"model":"e","input":"x"}"#)));
    let moderation = ModerationCreateParams { model: "omni".to_string(), input: text("y"), extra: vec![] };
    let call = client.moderations.create(&moderation);
    assert_eq!((call.path.as_str(), value_of(call.body.as_ref().unwrap())), ("/moderations", expect(r#"{"model":"omni","input":"y"}"#)));
    let generic = GenericCreateParams { extra: vec![("prompt".to_string(), text("a cat"))] };
    let call = client.images.generate(&generic);
    assert_eq!((call.path.as_str(), value_of(call.body.as_ref().unwrap())), ("/images/generations", expect(r#"{"prompt":"a cat"}"#)));
    assert_eq!(client.images.edit(&generic).path, "/images/edits");
    assert_eq!(client.audio.speech(&generic).path, "/audio/speech");
    assert_eq!(client.audio.transcriptions(&generic).path, "/audio/transcriptions");
    assert_eq!(client.audio.translations(&generic).path, "/audio/translations");
    assert_eq!(client.realtime.create_session(&generic).path, "/realtime/sessions");
    assert_eq!(client.realtime.create_transcription_session(&generic).path, "/realtime/transcription_sessions");
    assert_eq!(client.beta.create_assistant(&generic).path, "/assistants");
    assert_eq!(client.uploads.create(&generic).path, "/uploads");
    assert_eq!(client.fine_tuning.create_job(&generic).path, "/fine_tuning/jobs");
}

#[test]
fn compact_resource_paths_escape_ids() {
    let client = OpenAIClient::new("sk-test");
    let c = client.files.retrieve("file/1 x");
    assert_eq!((c.method, c.path.as_str()), (HttpMethod::Get, "/files/file%2F1%20x"));
    assert_eq!(client.files.content("f#1").path, "/files/f%231/content");
    assert_eq!(client.files.delete("f?1").method, HttpMethod::Delete);
    assert_eq!(client.files.delete("f?1").path, "/files/f%3F1");
    assert_eq!(client.models.retrieve("ft:gpt/x").path, "/models/ft:gpt%2Fx");
    assert_eq!(client.models.delete("m").method, HttpMethod::Delete);
    let listed = client.models.list();
    assert_eq!((listed.method, listed.path.as_str(), listed.body.is_none()), (HttpMethod::Get, "/models", true));
    assert_eq!(client.fine_tuning.retrieve_job("j1").path, "/fine_tuning/jobs/j1");
    let cancel = client.fine_tuning.cancel_job("j 1");
    assert_eq!((cancel.method, cancel.path.as_str()), (HttpMethod::Post, "/fine_tuning/jobs/j%201/cancel"));
    assert_eq!(client.uploads.complete("u1", &GenericCreateParams { extra: vec![] }).path, "/uploads/u1/complete");
    assert_eq!(client.uploads.cancel("u1").path, "/uploads/u1/cancel");
    assert_eq!(client.beta.retrieve_assistant("asst_1").path, "/assistants/asst_1");
    assert_eq!(client.vector_stores.retrieve("vs 1").path, "/vector_stores/vs%201");
    assert_eq!(client.containers.delete("c1").path, "/containers/c1");
    assert_eq!(client.conversations.create(&GenericCreateParams { extra: vec![] }).path, "/conversations");
    assert_eq!(client.skills.retrieve("s").path, "/skills/s");
    assert_eq!(client.evals.delete("e").method, HttpMethod::Delete);
}

#[test]
fn compact_list_calls_carry_paging_query() {
    let client = OpenAIClient::new("sk-test");
    let page = ListParams { after: Some("b_1".to_string()), before: None, limit: Some(5), order: None };
    let c = client.batches.list(&page);
    assert_eq!((c.method, c.path.as_str()), (HttpMethod::Get, "/batches"));
    assert_eq!(query_of(&c), vec![("after".to_string(), "b_1".to_string()), ("limit".to_string(), "5".to_string())]);
    let jobs = client.fine_tuning.list_jobs(&ListParams::default());
    assert!(jobs.query.is_empty());
    let files = client.files.list(&FileListParams { page: ListParams::default(), purpose: Some("batch".to_string()) });
    assert_eq!(query_of(&files), vec![("purpose".to_string(), "batch".to_string())]);
}

#[test]
fn compact_uploads_name_their_parts() {
    let client = OpenAIClient::new("sk-test");
    let upload = client.files.create(FileCreateParams::from_bytes("a.jsonl", b"{}".to_vec(), "fine-tune"));
    assert_eq!((upload.path.as_str(), upload.file_field.as_str(), upload.file_name.as_str()), ("/files", "file", "a.jsonl"));
    assert_eq!(upload.bytes, b"{}".to_vec());
    assert_eq!(upload.fields, vec![("purpose".to_string(), "fine-tune".to_string())]);
    let part = client.uploads.add_part("up 1", FileCreateParams::from_bytes("chunk", vec![1, 2], "ignored"));
    assert_eq!((part.path.as_str(), part.file_field.as_str()), ("/uploads/up%201/parts", "data"));
    assert!(part.fields.is_empty());
}

#[test]
fn compact_realtime_connect_is_unsupported() {
    let client = OpenAIClient::new("sk-test");
    match client.realtime.connect("gpt-realtime") {
        Err(Error::Unsupported(m)) => {
            assert_eq!(m, "websocket transport is modeled but not enabled in this minimal build")
        }
        _ => panic!("expected an unsupported error"),
    }
}
