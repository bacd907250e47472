use ai_provider_sdk::error::Error;
use ai_provider_sdk::files::{
    purpose_as_str, purpose_from_wire, build_create_form, check_upload_mime, file_path, model_path, ExpiresAfter, FileCreateParams, FilePurpose,
    FormValue, UploadFile,
};
use ai_provider_sdk::json::{merge_extra_body, JsonNumber, JsonValue};
use ai_provider_sdk::openai_provider::{
    build_transcription_form, image_result, speech_result, transcription_result,
};
use ai_provider_sdk::path::encode_path_segment;
use ai_provider_sdk::provider::{AiError, TranscriptionModelCallOptions};
use ai_provider_sdk::retry::{core_next_action, next_action, retry_delay_ms, AttemptOutcome, RetryAction};
use ai_provider_sdk::sse::SseDecoder;
use ai_provider_sdk::strmap::StringMap;
use ai_provider_sdk::webhook::{verify_webhook_signature, webhook_signature};

fn percent_decode(s: &str) -> String {
    let bytes = s.as_bytes();
    let mut out = Vec::new();
    let mut i = 0;
    while i < bytes.len() {
        if bytes[i] == b'%' && i + 2 < bytes.len() {
            let hex = std::str::from_utf8(&bytes[i + 1..i + 3]).unwrap();
            out.push(u8::from_str_radix(hex, 16).unwrap());
            i += 3;
        } else {
            out.push(bytes[i]);
            i += 1;
        }
    }
    String::from_utf8(out).unwrap()
}

#[test]
fn path_segment_encoding_round_trips() {
    for value in ["fine/tuned model", "a:b@c,d", "ümlaut ✓", "100%", "?#&=+"] {
        let encoded = encode_path_segment(value);
        assert!(!encoded.contains('/') && !encoded.contains('?') && !encoded.contains('#'));
        assert_eq!(percent_decode(&encoded), value);
    }
    assert_ne!(encode_path_segment("a b"), encode_path_segment("a%20b"));
}

#[test]
fn resource_paths_encode_ids_and_reject_empty_ones() {
    assert_eq!(file_path("file 1", Some("content")).unwrap(), "/files/file%201/content");
    assert_eq!(file_path("f", None).unwrap(), "/files/f");
    assert!(matches!(file_path("", None), Err(Error::Config(_))));
    assert_eq!(model_path("ft:gpt/x").unwrap(), "/models/ft:gpt%2Fx");
    assert!(matches!(model_path(""), Err(Error::Config(_))));
}

#[test]
fn signed_webhook_round_trips() {
    let sig = webhook_signature("whsec", "1700000000", b"{\"id\":1}");
    assert_eq!(sig.len(), 64);
    let header = format!("v1={sig}");
    assert!(verify_webhook_signature("whsec", b"{\"id\":1}", Some(&header), Some("1700000000")).is_ok());
    let listed = format!("v0=abc, v1={sig}");
    assert!(verify_webhook_signature("whsec", b"{\"id\":1}", Some(&listed), Some("1700000000")).is_ok());
    match verify_webhook_signature("other", b"{\"id\":1}", Some(&header), Some("1700000000")) {
        Err(Error::WebhookVerification(m)) => assert_eq!(m, "signature mismatch"),
        other => panic!("unexpected {:?}", other.is_ok()),
    }
    match verify_webhook_signature("whsec", b"x", None, Some("1")) {
        Err(Error::WebhookVerification(m)) => assert_eq!(m, "missing signature header"),
        other => panic!("unexpected {:?}", other.is_ok()),
    }
    match verify_webhook_signature("whsec", b"x", Some("v1=a"), None) {
        Err(Error::WebhookVerification(m)) => assert_eq!(m, "missing timestamp header"),
        other => panic!("unexpected {:?}", other.is_ok()),
    }
}

#[test]
fn extra_body_fields_win_and_others_stay() {
    let body = JsonValue::Object(vec![
        ("a".to_string(), JsonValue::Bool(true)),
        ("b".to_string(), JsonValue::Null),
    ]);
    let extra = JsonValue::Object(vec![("b".to_string(), JsonValue::Bool(false))]);
    match merge_extra_body(body, Some(extra)) {
        JsonValue::Object(ms) => {
            assert_eq!(ms.len(), 2);
            assert!(ms.iter().any(|(k, v)| k == "a" && matches!(v, JsonValue::Bool(true))));
            assert!(ms.iter().any(|(k, v)| k == "b" && matches!(v, JsonValue::Bool(false))));
        }
        _ => panic!("expected an object"),
    }
    let replaced = merge_extra_body(JsonValue::Null, Some(JsonValue::Bool(true)));
    assert!(matches!(replaced, JsonValue::Bool(true)));
    assert!(matches!(merge_extra_body(JsonValue::Null, None), JsonValue::Null));
}

#[test]
fn retry_delays_are_bounded() {
    let mut last = 0;
    for attempt in 0..20 {
        let d = retry_delay_ms(attempt, None);
        assert!(d >= last && d <= 8000);
        last = d;
    }
    assert_eq!(retry_delay_ms(0, None), 500);
    assert_eq!(retry_delay_ms(3, Some(60_000)), 60_000);
    assert_eq!(retry_delay_ms(3, Some(60_001)), 4000);
}

#[test]
fn sse_decoding_does_not_depend_on_chunking() {
    let whole = b"event: a\ndata: 1\n\nid: 7\ndata: 2\ndata: 3\n\n";
    let mut one = SseDecoder::new();
    let expected = one.push(whole).unwrap();
    for split in 1..whole.len() {
        let mut d = SseDecoder::new();
        let mut got = d.push(&whole[..split]).unwrap();
        got.extend(d.push(&whole[split..]).unwrap());
        assert_eq!(got, expected);
    }
}

#[test]
fn upload_form_orders_fields_and_checks_extra_body() {
    let mut params = FileCreateParams::new(UploadFile::from_bytes("train.jsonl", b"{}".to_vec()), FilePurpose::FineTune);
    params.expires_after = Some(ExpiresAfter { anchor: "created_at".to_string(), seconds: 3600 });
    params.extra = vec![
        ("note".to_string(), JsonValue::String("x".to_string())),
        ("n".to_string(), JsonValue::Number(JsonNumber::PosInt(3))),
    ];
    let extra_body = Some(JsonValue::Object(vec![("tag".to_string(), JsonValue::Bool(true))]));
    let form = build_create_form(&params, &extra_body).unwrap();
    let names: Vec<&str> = form.fields.iter().map(|(k, _)| k.as_str()).collect();
    assert_eq!(names, vec!["purpose", "expires_after", "note", "n", "tag"]);
    assert!(matches!(&form.fields[0].1, FormValue::Text(t) if t == "fine-tune"));
    assert!(matches!(&form.fields[2].1, FormValue::Text(t) if t == "x"));
    assert!(matches!(&form.fields[3].1, FormValue::Json(JsonValue::Number(JsonNumber::PosInt(3)))));
    assert_eq!(form.file.file_name, "train.jsonl");
    match build_create_form(&params, &Some(JsonValue::Bool(true))) {
        Err(Error::Config(m)) => assert_eq!(m, "multipart extra_body must be a JSON object"),
        other => panic!("unexpected {:?}", other.is_ok()),
    }
}

#[test]
fn transcription_form_checks_media_type() {
    let options = TranscriptionModelCallOptions {
        audio: b"audio".to_vec(),
        file_name: "sample.wav".to_string(),
        media_type: Some("audio/wav".to_string()),
        language: Some("en".to_string()),
        prompt: Some("technical terms".to_string()),
        provider_options: None,
        headers: None,
    };
    let form = build_transcription_form("gpt-transcribe", &options).unwrap();
    assert_eq!(form.model, "gpt-transcribe");
    assert_eq!(form.audio, b"audio".to_vec());
    assert_eq!(form.language.as_deref(), Some("en"));

    let bad = TranscriptionModelCallOptions {
        media_type: Some("not a media type".to_string()),
        language: None,
        prompt: None,
        ..options
    };
    match build_transcription_form("gpt-transcribe", &bad) {
        Err(AiError::InvalidArgument(m)) => assert_eq!(m, "invalid transcription media type: builder error"),
        other => panic!("unexpected {:?}", other.is_ok()),
    }
}

#[test]
fn model_results_are_assembled() {
    let data = JsonValue::Object(vec![
        ("id".to_string(), JsonValue::String("img_1".to_string())),
        (
            "data".to_string(),
            JsonValue::Array(vec![JsonValue::Object(vec![(
                "url".to_string(),
                JsonValue::String("http://x".to_string()),
            )])]),
        ),
    ]);
    let images = image_result(&data).unwrap();
    assert_eq!(images.images, vec!["http://x".to_string()]);
    assert_eq!(images.response.unwrap().id.as_deref(), Some("img_1"));

    let text = JsonValue::Object(vec![("text".to_string(), JsonValue::String("hello from audio".to_string()))]);
    assert_eq!(transcription_result(&text).unwrap().text, "hello from audio");

    let mut headers = StringMap::new();
    headers.insert("x-request-id".to_string(), "r".to_string());
    let speech = speech_result("tts", Some("wav"), vec![1, 2], headers);
    assert_eq!(speech.media_type, "audio/wav");
    assert_eq!(speech.audio, vec![1, 2]);
    let meta = speech.response.unwrap();
    assert_eq!(meta.model_id.as_deref(), Some("tts"));
    assert!(meta.headers.unwrap().get("x-request-id").is_some());
}

fn status_outcome(status: u16) -> AttemptOutcome {
    AttemptOutcome::Response { status, should_retry_header: None, retry_after_ms: None, retry_after: None }
}

#[test]
fn retry_decisions_stop_at_max_retries() {
    assert_eq!(next_action(0, 2, &status_outcome(503)), RetryAction::Retry { delay_ms: 500, next_attempt: 1 });
    assert_eq!(next_action(1, 2, &status_outcome(429)), RetryAction::Retry { delay_ms: 1000, next_attempt: 2 });
    assert_eq!(next_action(2, 2, &status_outcome(503)), RetryAction::Finish);
    assert_eq!(next_action(0, 2, &status_outcome(400)), RetryAction::Finish);
    let server_said = AttemptOutcome::Response {
        status: 200,
        should_retry_header: Some("true".to_string()),
        retry_after_ms: Some("250".to_string()),
        retry_after: None,
    };
    assert_eq!(next_action(0, 1, &server_said), RetryAction::Retry { delay_ms: 0, next_attempt: 1 });
    assert_eq!(next_action(1, 1, &server_said), RetryAction::Finish);
    let server_delay = AttemptOutcome::Response {
        status: 503,
        should_retry_header: None,
        retry_after_ms: Some("250".to_string()),
        retry_after: None,
    };
    assert_eq!(next_action(0, 1, &server_delay), RetryAction::Retry { delay_ms: 250, next_attempt: 1 });
    assert_eq!(next_action(0, 3, &AttemptOutcome::Failed { retryable: false }), RetryAction::Finish);

    assert_eq!(core_next_action(0, 2, &status_outcome(500)), RetryAction::Retry { delay_ms: 100, next_attempt: 1 });
    assert_eq!(core_next_action(1, 2, &status_outcome(408)), RetryAction::Retry { delay_ms: 200, next_attempt: 2 });
    assert_eq!(core_next_action(2, 2, &status_outcome(500)), RetryAction::Finish);
    assert_eq!(core_next_action(0, 2, &status_outcome(404)), RetryAction::Finish);
    assert_eq!(
        core_next_action(0, 2, &AttemptOutcome::Failed { retryable: true }),
        RetryAction::Retry { delay_ms: 100, next_attempt: 1 }
    );
}

#[test]
fn purposes_read_back_from_their_wire_names() {
    for p in [
        FilePurpose::Assistants,
        FilePurpose::AssistantsOutput,
        FilePurpose::Batch,
        FilePurpose::BatchOutput,
        FilePurpose::FineTune,
        FilePurpose::FineTuneResults,
        FilePurpose::Vision,
        FilePurpose::UserData,
        FilePurpose::Evals,
    ] {
        assert_eq!(purpose_from_wire(&purpose_as_str(p)), Some(p));
    }
    assert_eq!(purpose_from_wire("fine_tune"), None);
    assert_eq!(purpose_from_wire(""), None);
}

fn multipart_of(form: ai_provider_sdk::openai_provider::TranscriptionForm) -> reqwest::multipart::Form {
    let mut part = reqwest::multipart::Part::bytes(form.audio).file_name(form.file_name);
    if let Some(m) = &form.media_type {
        part = part.mime_str(m).unwrap();
    }
    let mut out = reqwest::multipart::Form::new().text("model", form.model).part("file", part);
    if let Some(language) = form.language {
        out = out.text("language", language);
    }
    if let Some(prompt) = form.prompt {
        out = out.text("prompt", prompt);
    }
    out
}

#[test]
fn builds_transcription_form_and_rejects_invalid_media_type() {
    let form = build_transcription_form(
        "gpt-transcribe",
        &TranscriptionModelCallOptions {
            audio: b"audio".to_vec(),
            file_name: "sample.wav".to_string(),
            media_type: Some("audio/wav".to_string()),
            language: Some("en".to_string()),
            prompt: Some("technical terms".to_string()),
            provider_options: None,
            headers: None,
        },
    )
    .unwrap();

    assert!(!multipart_of(form).boundary().is_empty());

    let error = build_transcription_form(
        "gpt-transcribe",
        &TranscriptionModelCallOptions {
            audio: b"audio".to_vec(),
            file_name: "sample.wav".to_string(),
            media_type: Some("not a media type".to_string()),
            language: None,
            prompt: None,
            provider_options: None,
            headers: None,
        },
    )
    .unwrap_err();

    assert!(matches!(error, AiError::InvalidArgument(_)));
}

#[test]
fn upload_mime_types_are_checked_before_sending() {
    let plain = UploadFile::from_bytes("notes.txt", b"hi".to_vec());
    assert!(check_upload_mime(&plain).is_ok());
    let typed = UploadFile { mime_type: Some("text/plain".to_string()), ..plain.clone() };
    assert!(check_upload_mime(&typed).is_ok());
    let bad = UploadFile { mime_type: Some("not a mime".to_string()), ..plain };
    match check_upload_mime(&bad) {
        Err(Error::Config(m)) => {
            assert_eq!(m, "invalid MIME type `not a mime`: builder error");
        }
        other => panic!("unexpected {:?}", other),
    }
}

#[test]
fn sse_decoding_does_not_depend_on_where_a_crlf_is_split() {
    let whole = b"event: a\r\ndata: 1\r\n\r\nid: 7\r\ndata: 2\r\r\n";
    let mut one = SseDecoder::new();
    let mut expected = one.push(whole).unwrap();
    expected.extend(one.finish().unwrap());
    assert_eq!(expected.len(), 3);
    for split in 1..whole.len() {
        let mut d = SseDecoder::new();
        let mut got = d.push(&whole[..split]).unwrap();
        got.extend(d.push(&whole[split..]).unwrap());
        got.extend(d.finish().unwrap());
        assert_eq!(got, expected, "split at {split}");
    }
    let mut held = SseDecoder::new();
    assert!(held.push(b"id\r").unwrap().is_empty());
    assert!(held.push(b"\n").unwrap().is_empty());
    let mut at_once = SseDecoder::new();
    assert!(at_once.push(b"id\r\n").unwrap().is_empty());
    let mut ended = SseDecoder::new();
    assert!(ended.push(b"data: x\r").unwrap().is_empty());
    let last = ended.finish().unwrap();
    assert_eq!(last.len(), 1);
    assert_eq!(last[0].data, "x");
}

#[test]
fn safe_segments_encode_to_themselves() {
    assert_eq!(encode_path_segment("file-abc_1.txt~"), "file-abc_1.txt~");
    assert_eq!(encode_path_segment("a:b@c"), "a:b@c");
    assert_ne!(encode_path_segment("a b"), "a b");
    assert_ne!(encode_path_segment("é"), "é");
    assert_eq!(encode_path_segment("é"), "%C3%A9");
}
