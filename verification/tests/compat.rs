use ai_provider_sdk::error::Error;
use ai_provider_sdk::json::{JsonNumber, JsonValue};
use ai_provider_sdk::openai_compat::{
    bearer_header_value, build_request, is_sensitive_key, path_segment, realtime_connect,
    redact_json, resource_item_path, CompatEnv, FileListParams, ListParams, OpenAIClient,
    OpenAIConfig, RealtimeConnection, RealtimeEvent, RequestOptions,
};
use ai_provider_sdk::sse_stream::{FrameBuffer, FrameStep};
use ai_provider_sdk::strmap::StringMap;
use ai_provider_sdk::webhook::webhook_signature;
use ai_provider_sdk::types::{
    chat_request_body, embedding_request_body, moderation_request_body, response_request_body,
    ChatCompletionCreateParams, ChatMessage, ChatRole, EmbeddingCreateParams, EmbeddingInput,
    EncodingFormat, ModerationCreateParams, ModerationInput, ModerationInputItem,
    ResponseCreateParams,
};

fn value_of(v: &JsonValue) -> serde_json::Value {
    match v {
        JsonValue::Null => serde_json::Value::Null,
        JsonValue::Bool(b) => serde_json::Value::Bool(*b),
        JsonValue::Number(JsonNumber::PosInt(n)) => serde_json::Value::from(*n),
        JsonValue::Number(JsonNumber::NegInt(n)) => serde_json::Value::from(*n),
        JsonValue::Number(JsonNumber::Float(t)) => serde_json::from_str(t).unwrap(),
        JsonValue::String(x) => serde_json::Value::String(x.clone()),
        JsonValue::Array(items) => serde_json::Value::Array(items.iter().map(value_of).collect()),
        JsonValue::Object(members) => {
            let mut m = serde_json::Map::new();
            for (k, v) in members {
                m.insert(k.clone(), value_of(v));
            }
            serde_json::Value::Object(m)
        }
    }
}

fn expect(text: &str) -> serde_json::Value {
    serde_json::from_str(text).unwrap()
}

fn text(s: &str) -> JsonValue {
    JsonValue::String(s.to_string())
}

#[test]
fn config_defaults_to_official_openai_base_url() {
    let cfg = OpenAIConfig::new("sk-test");
    assert_eq!(cfg.base_url, "https://api.openai.com/v1");
}

#[test]
fn config_from_env_and_builders() {
    let env = CompatEnv { api_key: None, base_url: None, org_id: None, project_id: None };
    match OpenAIConfig::from_env(env) {
        Err(Error::MissingEnv(m)) => assert_eq!(m, "OPENAI_API_KEY"),
        other => panic!("unexpected {:?}", other.is_ok()),
    }
    let env = CompatEnv {
        api_key: Some("k".to_string()),
        base_url: Some("http://local/v1/".to_string()),
        org_id: Some("o".to_string()),
        project_id: None,
    };
    let cfg = OpenAIConfig::from_env(env).unwrap().with_max_retries(4).with_default_query("q", "1");
    assert_eq!(cfg.base_url, "http://local/v1/");
    assert_eq!(cfg.organization.as_deref(), Some("o"));
    assert_eq!(cfg.max_retries, 4);
    let client = OpenAIClient::from_config(cfg);
    assert_eq!(client.config().api_key, "k");
    assert_eq!(OpenAIClient::new("sk").config().max_retries, 2);
}

#[test]
fn request_plan_orders_headers_and_query() {
    let cfg = OpenAIConfig::new("sk")
        .with_base_url("http://local/v1/")
        .with_organization("org")
        .with_default_query("d", "1")
        .with_default_header("X-A", "a")
        .unwrap();
    let opts = RequestOptions::new().with_query("o", "2").with_idempotency_key("idem");
    let plan = build_request(&cfg, "/files", &opts, &vec![("limit".to_string(), "5".to_string())]).unwrap();
    assert_eq!(plan.url, "http://local/v1/files");
    let names: Vec<&str> = plan.headers.iter().map(|(k, _)| k.as_str()).collect();
    assert_eq!(names, vec!["authorization", "x-a", "OpenAI-Organization", "Idempotency-Key"]);
    assert_eq!(plan.headers[0].1, "Bearer sk");
    let query: Vec<(&str, &str)> = plan.query.iter().map(|(k, v)| (k.as_str(), v.as_str())).collect();
    assert_eq!(query, vec![("d", "1"), ("o", "2"), ("limit", "5")]);
    assert!(matches!(bearer_header_value("bad\r\nkey"), Err(Error::InvalidHeader(_))));
}

#[test]
fn list_params_serialize_in_field_order() {
    let p = ListParams { after: Some("a".to_string()), before: None, limit: Some(20), order: Some("asc".to_string()) };
    let pairs = p.query_pairs();
    assert_eq!(pairs, vec![
        ("after".to_string(), "a".to_string()),
        ("limit".to_string(), "20".to_string()),
        ("order".to_string(), "asc".to_string()),
    ]);
    let f = FileListParams { page: ListParams::default(), purpose: Some("batch".to_string()) };
    assert_eq!(f.query_pairs(), vec![("purpose".to_string(), "batch".to_string())]);
}

#[test]
fn path_segments_escape_reserved_characters() {
    assert_eq!(path_segment("a/b c#d?e%f"), "a%2Fb%20c%23d%3Fe%25f");
    assert_eq!(path_segment("plain"), "plain");
    assert_eq!(resource_item_path("/batches", "b/1"), "/batches/b%2F1");
}

#[test]
fn redaction_hides_secret_members() {
    assert!(is_sensitive_key("API_KEY"));
    assert!(is_sensitive_key("Authorization"));
    assert!(!is_sensitive_key("model"));
    let v = JsonValue::Object(vec![
        ("model".to_string(), text("gpt")),
        ("Password".to_string(), text("p")),
        (
            "nested".to_string(),
            JsonValue::Array(vec![JsonValue::Object(vec![("token".to_string(), text("t"))])]),
        ),
    ]);
    assert_eq!(
        value_of(&redact_json(&v)),
        expect(r#"{"model": "gpt", "Password": "<redacted>", "nested": [{"token": "<redacted>"}]}"#)
    );
}

#[test]
fn realtime_is_not_available() {
    assert!(matches!(realtime_connect("m"), Err(Error::Unsupported(_))));
    let mut c = RealtimeConnection;
    let event = RealtimeEvent { event_type: "ping".to_string(), data: vec![] };
    match c.send(&event) {
        Err(Error::Unsupported(m)) => assert_eq!(m, "websocket transport is not connected"),
        other => panic!("unexpected {:?}", other.is_ok()),
    }
    assert!(matches!(c.next(), Err(Error::Unsupported(_))));
}

#[test]
fn chat_and_response_bodies_carry_stream_flag() {
    let mut p = ChatCompletionCreateParams::new("gpt", vec![ChatMessage::user("hi"), ChatMessage::developer("be brief")]);
    p.max_tokens = Some(5);
    p.extra = vec![("stream".to_string(), JsonValue::Bool(true)), ("seed".to_string(), JsonValue::Number(JsonNumber::PosInt(1)))];
    assert_eq!(
        value_of(&chat_request_body(&p, false)),
        expect(r#"{"model": "gpt", "messages": [{"role": "user", "content": "hi"},
                   {"role": "developer", "content": "be brief"}], "max_tokens": 5, "seed": 1,
                   "stream": false}"#)
    );
    assert_eq!(ChatRole::Tool.wire_name(), "tool");
    let r = ResponseCreateParams::new("gpt").input(text("hello"));
    assert_eq!(
        value_of(&response_request_body(&r, true)),
        expect(r#"{"model": "gpt", "input": "hello", "stream": true}"#)
    );
}

#[test]
fn embedding_body_defaults_to_float_encoding() {
    let p = EmbeddingCreateParams::new("emb", EmbeddingInput::Tokens(vec![1, 2]));
    assert_eq!(
        value_of(&embedding_request_body(&p)),
        expect(r#"{"model": "emb", "input": [1, 2], "encoding_format": "float"}"#)
    );
    let mut p = EmbeddingCreateParams::new("emb", EmbeddingInput::Text("x".to_string()));
    p.encoding_format = Some(EncodingFormat::Base64);
    p.dimensions = Some(8);
    assert_eq!(
        value_of(&embedding_request_body(&p)),
        expect(r#"{"model": "emb", "input": "x", "dimensions": 8, "encoding_format": "base64"}"#)
    );
}

#[test]
fn moderation_body_tags_items() {
    let p = ModerationCreateParams::new(ModerationInput::Items(vec![
        ModerationInputItem::text("t"),
        ModerationInputItem::image_url("http://i"),
    ]))
    .model("omni");
    assert_eq!(
        value_of(&moderation_request_body(&p)),
        expect(r#"{"input": [{"type": "text", "text": "t"},
                   {"type": "image_url", "image_url": {"url": "http://i"}}], "model": "omni"}"#)
    );
}

#[test]
fn parses_split_sse_frames() {
    let mut buffer = FrameBuffer::new();
    buffer.push(b"data: {\"text\":\"hel");
    assert_eq!(buffer.next(), FrameStep::NeedMore);
    buffer.push(b"lo\"}\r\n\r\ndata: [DONE]\r\n\r\n");
    let mut out = Vec::new();
    loop {
        match buffer.next() {
            FrameStep::Payload(p) => {
                let v: serde_json::Value = serde_json::from_str(&p).unwrap();
                out.push(v["text"].as_str().unwrap().to_string());
            }
            FrameStep::Finished => break,
            FrameStep::NeedMore => match buffer.end() {
                FrameStep::Payload(p) => {
                    let v: serde_json::Value = serde_json::from_str(&p).unwrap();
                    out.push(v["text"].as_str().unwrap().to_string());
                }
                _ => break,
            },
        }
    }
    assert_eq!(out, vec!["hello"]);
}

#[test]
fn frame_buffer_yields_trailing_frame_at_end() {
    let mut buffer = FrameBuffer::new();
    buffer.push(b": comment\n\ndata: {\"a\":1}");
    assert_eq!(buffer.next(), FrameStep::NeedMore);
    assert_eq!(buffer.end(), FrameStep::Payload("{\"a\":1}".to_string()));
    assert_eq!(buffer.next(), FrameStep::Finished);
}

#[test]
fn webhooks_resource_reads_signature_headers() {
    let client = OpenAIClient::new("sk-test");
    let sig = webhook_signature("whsec", "1700000000", b"{}");
    let mut headers = StringMap::new();
    headers.insert("openai-signature".to_string(), format!("v0=zz, v1={sig}"));
    headers.insert("webhook-timestamp".to_string(), "1700000000".to_string());
    assert!(client.webhooks.verify_signature("whsec", b"{}", &headers).is_ok());

    let mut wrong_payload = StringMap::new();
    wrong_payload.insert("webhook-signature".to_string(), format!("v1={sig}"));
    wrong_payload.insert("openai-timestamp".to_string(), "1700000000".to_string());
    match client.webhooks.verify_signature("whsec", b"{\"a\":1}", &wrong_payload) {
        Err(Error::WebhookVerification(m)) => assert_eq!(m, "signature mismatch"),
        other => panic!("unexpected {other:?}"),
    }

    let mut no_time = StringMap::new();
    no_time.insert("webhook-signature".to_string(), sig.clone());
    match client.webhooks.verify_signature("whsec", b"{}", &no_time) {
        Err(Error::WebhookVerification(m)) => assert_eq!(m, "missing timestamp header"),
        other => panic!("unexpected {other:?}"),
    }
    match client.webhooks.verify_signature("whsec", b"{}", &StringMap::new()) {
        Err(Error::WebhookVerification(m)) => assert_eq!(m, "missing signature header"),
        other => panic!("unexpected {other:?}"),
    }
}

fn drain_all(chunks: &[&[u8]]) -> Vec<String> {
    let mut buffer = FrameBuffer::new();
    let mut out = Vec::new();
    for chunk in chunks {
        buffer.push(chunk);
        loop {
            match buffer.next() {
                FrameStep::Payload(p) => out.push(p),
                FrameStep::Finished => return out,
                FrameStep::NeedMore => break,
            }
        }
    }
    if let FrameStep::Payload(p) = buffer.end() {
        out.push(p);
    }
    out
}

#[test]
fn frame_stream_does_not_depend_on_chunking() {
    let whole: &[u8] = b": hi\n\ndata: {\"a\":1}\r\n\r\ndata: x\ndata: y\n\nevent: e\n\ndata: [DONE]\n\ndata: after\n\n";
    let expected = drain_all(&[whole]);
    assert_eq!(expected, vec!["{\"a\":1}".to_string(), "x\ny".to_string()]);
    for split in 0..=whole.len() {
        assert_eq!(drain_all(&[&whole[..split], &whole[split..]]), expected, "split at {split}");
    }
}

#[test]
fn bearer_header_rejects_invalid_api_key() {
    let err = bearer_header_value("bad\r\nkey").unwrap_err();
    assert!(err.describe().starts_with("invalid header:"));
}

#[test]
fn a_failed_stream_stays_ended() {
    let mut buffer = FrameBuffer::new();
    buffer.push(b"data: not json\n\ndata: {\"a\":1}\n\n");
    assert_eq!(buffer.next(), FrameStep::Payload("not json".to_string()));
    buffer.fail();
    assert_eq!(buffer.next(), FrameStep::Finished);
    buffer.push(b"data: {\"b\":2}\n\n");
    assert_eq!(buffer.next(), FrameStep::Finished);
    assert_eq!(buffer.end(), FrameStep::Finished);
}
