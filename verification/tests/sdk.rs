use ai_provider_sdk::error::Error;
use ai_provider_sdk::json::{merge_extra_body, JsonNumber, JsonValue};
use ai_provider_sdk::path::encode_path_segment;
use ai_provider_sdk::retry::{parse_retry_after, should_retry};
use ai_provider_sdk::sse::{classify_event, classify_final_event, ServerSentEvent, SseDecoder, StreamStep};
use ai_provider_sdk::sse_frame::{parse_sse_frame, SseEvent};

fn obj(pairs: Vec<(&str, JsonValue)>) -> JsonValue {
    JsonValue::Object(pairs.into_iter().map(|(k, v)| (k.to_string(), v)).collect())
}

fn s(v: &str) -> JsonValue {
    JsonValue::String(v.to_string())
}

fn to_serde(v: &JsonValue) -> serde_json::Value {
    match v {
        JsonValue::Null => serde_json::Value::Null,
        JsonValue::Bool(b) => serde_json::Value::Bool(*b),
        JsonValue::Number(JsonNumber::PosInt(n)) => serde_json::Value::from(*n),
        JsonValue::Number(JsonNumber::NegInt(n)) => serde_json::Value::from(*n),
        JsonValue::Number(JsonNumber::Float(t)) => serde_json::from_str(t).unwrap(),
        JsonValue::String(x) => serde_json::Value::String(x.clone()),
        JsonValue::Array(items) => serde_json::Value::Array(items.iter().map(to_serde).collect()),
        JsonValue::Object(members) => {
            let mut m = serde_json::Map::new();
            for (k, v) in members {
                m.insert(k.clone(), to_serde(v));
            }
            serde_json::Value::Object(m)
        }
    }
}

#[test]
fn encodes_path_segment_like_python_sdk() {
    assert_eq!(encode_path_segment("fine/tuned model"), "fine%2Ftuned%20model");
    assert_eq!(encode_path_segment("a:b@c,d"), "a:b@c,d");
}

#[test]
fn parses_sse_frame() {
    assert_eq!(
        parse_sse_frame("event: response.output_text.delta\ndata: {\"delta\":\"hi\"}"),
        Some(SseEvent {
            event: Some("response.output_text.delta".to_string()),
            data: "{\"delta\":\"hi\"}".to_string(),
        })
    );
}

#[test]
fn ignores_sse_comments_without_data() {
    assert_eq!(parse_sse_frame(": keep-alive"), None);
}

#[test]
fn decodes_complete_event() {
    let mut decoder = SseDecoder::new();
    let events = decoder
        .push(b"event: ping\ndata: {\"x\":1}\nid: abc\n\n")
        .unwrap();

    assert_eq!(
        events,
        vec![ServerSentEvent {
            event: Some("ping".to_string()),
            data: "{\"x\":1}".to_string(),
            id: Some("abc".to_string()),
            retry: None,
        }]
    );
}

#[test]
fn decodes_split_event_and_multi_data_lines() {
    let mut decoder = SseDecoder::new();
    assert!(decoder.push(b"data: a\n").unwrap().is_empty());
    let events = decoder.push(b"data: b\n\n").unwrap();
    assert_eq!(events[0].data, "a\nb");
}

#[test]
fn keeps_last_event_id_across_events() {
    let mut decoder = SseDecoder::new();
    let events = decoder.push(b"id: one\ndata: a\n\ndata: b\n\n").unwrap();
    assert_eq!(events[0].id.as_deref(), Some("one"));
    assert_eq!(events[1].id.as_deref(), Some("one"));
}

#[test]
fn extra_body_overrides_body_fields() {
    let body = obj(vec![("model", s("a")), ("input", s("x"))]);
    let extra = obj(vec![("model", s("b")), ("metadata", obj(vec![("k", s("v"))]))]);

    let mut expected_metadata = serde_json::Map::new();
    expected_metadata.insert("k".to_string(), serde_json::Value::from("v"));
    let mut expected = serde_json::Map::new();
    expected.insert("model".to_string(), serde_json::Value::from("b"));
    expected.insert("input".to_string(), serde_json::Value::from("x"));
    expected.insert("metadata".to_string(), serde_json::Value::Object(expected_metadata));

    assert_eq!(
        to_serde(&merge_extra_body(body, Some(extra))),
        serde_json::Value::Object(expected)
    );
}

#[test]
fn retries_target_python_status_set() {
    for status in [408u16, 409, 429, 500] {
        assert!(should_retry(status, None));
    }
}

#[test]
fn parses_retry_after_headers() {
    assert_eq!(parse_retry_after(Some("250"), None), Some(250));
}

#[test]
fn errors_describe_themselves() {
    assert_eq!(Error::Timeout.describe(), "request timed out");
    assert_eq!(Error::Connection("refused".to_string()).describe(), "connection error: refused");
    assert_eq!(Error::Config("file_id must not be empty".to_string()).describe(), "configuration error: file_id must not be empty");
    assert_eq!(Error::Url("relative URL without a base".to_string()).describe(), "invalid URL: relative URL without a base");
    assert_eq!(Error::HeaderValue("failed to parse header value".to_string()).describe(), "invalid header value: failed to parse header value");
    assert_eq!(Error::Json("EOF".to_string()).describe(), "invalid JSON: EOF");
    assert_eq!(Error::Io("denied".to_string()).describe(), "I/O error: denied");
    assert_eq!(Error::Stream("boom".to_string()).describe(), "SSE stream error: boom");
    assert_eq!(Error::api_status(404, None, None).describe(), "OpenAI API returned status 404 Not Found");
    let body = JsonValue::Object(vec![(
        "error".to_string(),
        JsonValue::Object(vec![("message".to_string(), JsonValue::String("no such model".to_string()))]),
    )]);
    assert_eq!(Error::api_status(404, Some("req_1".to_string()), Some(body)).describe(), "no such model");
}

fn event_with(data: &str) -> ServerSentEvent {
    ServerSentEvent { event: None, data: data.to_string(), id: None, retry: None }
}

#[test]
fn events_are_classified_alike_before_and_at_the_end_of_the_body() {
    let error = JsonValue::Object(vec![(
        "error".to_string(),
        JsonValue::Object(vec![("message".to_string(), JsonValue::String("overloaded".to_string()))]),
    )]);
    let e = event_with(r#"{"error":{"message":"overloaded"}}"#);
    assert_eq!(classify_event(&e, Some(&error)), StreamStep::Fail("overloaded".to_string()));
    assert_eq!(classify_final_event(&e, Some(&error)), StreamStep::Fail("overloaded".to_string()));
    let bare = JsonValue::Object(vec![("error".to_string(), JsonValue::Null)]);
    assert_eq!(
        classify_final_event(&event_with(r#"{"error":null}"#), Some(&bare)),
        StreamStep::Fail("An error occurred during streaming".to_string())
    );
    assert_eq!(classify_final_event(&event_with("[DONE]"), None), StreamStep::Stop);
    let plain = JsonValue::Object(vec![("a".to_string(), JsonValue::Null)]);
    assert_eq!(classify_final_event(&event_with(r#"{"a":null}"#), Some(&plain)), StreamStep::Emit);
    assert_eq!(classify_final_event(&event_with("text"), None), StreamStep::Emit);
}
