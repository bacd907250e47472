use ai_provider_sdk::json::{JsonNumber, JsonValue};
use ai_provider_sdk::openai_provider::{
    build_embedding_request_body, build_image_request_body, build_language_request_body,
    build_speech_request_body, format_to_media_type, parse_chat_generate_response,
    parse_embeddings, parse_finish_reason, parse_images, parse_openai_stream_event,
    parse_provider_options, parse_responses_generate_response, provider_options_value, parse_transcription_text,
    parse_usage, reasoning_to_openai_effort, LanguageEndpoint, OpenAIProvider,
    OpenAIProviderOptions, OpenAIProviderSettings,
};
use ai_provider_sdk::provider::{
    AiError, ContentPart, FinishReason, FunctionTool, ImageModelCallOptions, LanguageMessage,
    LanguageModelCallOptions, LanguageModelStreamPart, ProviderOptions, Reasoning, ResponseFormat,
    SpeechModelCallOptions, ToolChoice, Warning,
};
use ai_provider_sdk::provider_utils::{load_api_key, merge_headers, user_agent, validate_json_schema};
use ai_provider_sdk::strmap::StringMap;
use ai_provider_sdk::openai_provider::{build_transcription_form, is_stream_done, transcription_result};
use ai_provider_sdk::provider::TranscriptionModelCallOptions;
use ai_provider_sdk::provider_utils::failed_response_error;
use ai_provider_sdk::sse_frame::{parse_sse_frame, take_frame};

fn to_json(v: &serde_json::Value) -> JsonValue {
    match v {
        serde_json::Value::Null => JsonValue::Null,
        serde_json::Value::Bool(b) => JsonValue::Bool(*b),
        serde_json::Value::Number(n) => JsonValue::Number(match (n.as_u64(), n.as_i64()) {
            (Some(u), _) => JsonNumber::PosInt(u),
            (None, Some(i)) => JsonNumber::NegInt(i),
            _ => JsonNumber::Float(n.to_string()),
        }),
        serde_json::Value::String(s) => JsonValue::String(s.clone()),
        serde_json::Value::Array(items) => JsonValue::Array(items.iter().map(to_json).collect()),
        serde_json::Value::Object(m) => {
            JsonValue::Object(m.iter().map(|(k, v)| (k.clone(), to_json(v))).collect())
        }
    }
}

fn from_json(v: &JsonValue) -> serde_json::Value {
    match v {
        JsonValue::Null => serde_json::Value::Null,
        JsonValue::Bool(b) => serde_json::Value::Bool(*b),
        JsonValue::Number(JsonNumber::PosInt(n)) => serde_json::Value::from(*n),
        JsonValue::Number(JsonNumber::NegInt(n)) => serde_json::Value::from(*n),
        JsonValue::Number(JsonNumber::Float(t)) => serde_json::from_str(t).unwrap(),
        JsonValue::String(x) => serde_json::Value::String(x.clone()),
        JsonValue::Array(items) => serde_json::Value::Array(items.iter().map(from_json).collect()),
        JsonValue::Object(members) => {
            let mut m = serde_json::Map::new();
            for (k, v) in members {
                m.insert(k.clone(), from_json(v));
            }
            serde_json::Value::Object(m)
        }
    }
}

fn parse(text: &str) -> JsonValue {
    to_json(&serde_json::from_str::<serde_json::Value>(text).unwrap())
}

/// The test's reading of the OpenAI options through `serde`, as a caller of
/// the library reads them.
struct TestOptions(OpenAIProviderOptions);

struct TestOptionsVisitor;

const OPTION_FIELDS: [&str; 4] = ["parallelToolCalls", "user", "serviceTier", "reasoningEffort"];

impl<'de> serde::de::Visitor<'de> for TestOptionsVisitor {
    type Value = TestOptions;

    fn expecting(&self, f: &mut std::fmt::Formatter) -> std::fmt::Result {
        f.write_str("struct OpenAIProviderOptions")
    }

    fn visit_map<A: serde::de::MapAccess<'de>>(self, mut map: A) -> Result<TestOptions, A::Error> {
        let mut o = OpenAIProviderOptions::empty();
        while let Some(key) = map.next_key::<String>()? {
            match key.as_str() {
                "parallelToolCalls" => o.parallel_tool_calls = map.next_value::<Option<bool>>()?,
                "user" => o.user = map.next_value::<Option<String>>()?,
                "serviceTier" => o.service_tier = map.next_value::<Option<String>>()?,
                "reasoningEffort" => o.reasoning_effort = map.next_value::<Option<String>>()?,
                _ => {
                    map.next_value::<serde::de::IgnoredAny>()?;
                }
            }
        }
        Ok(TestOptions(o))
    }
}

impl<'de> serde::Deserialize<'de> for TestOptions {
    fn deserialize<D: serde::Deserializer<'de>>(d: D) -> Result<TestOptions, D::Error> {
        d.deserialize_struct("OpenAIProviderOptions", &OPTION_FIELDS, TestOptionsVisitor)
    }
}

fn decode(po: Option<&ProviderOptions>) -> Option<Result<OpenAIProviderOptions, String>> {
    provider_options_value(po, "openai").map(|v| {
        serde_json::from_value::<TestOptions>(from_json(v)).map(|t| t.0).map_err(|e| e.to_string())
    })
}

fn decode_for(options: &LanguageModelCallOptions) -> Option<Result<OpenAIProviderOptions, String>> {
    decode(options.provider_options.as_ref())
}

fn options_with(prompt: Vec<LanguageMessage>) -> LanguageModelCallOptions {
    LanguageModelCallOptions {
        prompt,
        max_output_tokens: None,
        temperature: None,
        top_p: None,
        stop_sequences: None,
        response_format: None,
        tools: None,
        tool_choice: None,
        reasoning: None,
        provider_options: None,
        headers: None,
    }
}

fn provider_options(name: &str, value: JsonValue) -> ProviderOptions {
    ProviderOptions { entries: vec![(name.to_string(), value)] }
}

fn headers(pairs: &[(&str, &str)]) -> StringMap {
    let mut m = StringMap::new();
    for (k, v) in pairs {
        m.insert(k.to_string(), v.to_string());
    }
    m
}

#[test]
fn parses_valid_openai_provider_options() {
    let options = provider_options(
        "openai",
        parse(r#"{"parallelToolCalls": true, "user": "user-1", "serviceTier": "auto"}"#),
    );
    let parsed = parse_provider_options("openai", decode(Some(&options))).unwrap();
    assert_eq!(
        parsed,
        Some(OpenAIProviderOptions {
            parallel_tool_calls: Some(true),
            user: Some("user-1".to_string()),
            service_tier: Some("auto".to_string()),
            reasoning_effort: None,
        })
    );
}

#[test]
fn rejects_invalid_openai_provider_options() {
    let options = provider_options("openai", JsonValue::String("bad".to_string()));
    let error = parse_provider_options("openai", decode(Some(&options))).unwrap_err();
    assert!(matches!(error, AiError::InvalidArgument(_)));
}

#[test]
fn provider_options_of_other_providers_are_ignored() {
    let options = provider_options("anthropic", JsonValue::String("bad".to_string()));
    assert_eq!(parse_provider_options("openai", decode(Some(&options))).unwrap(), None);
    assert_eq!(parse_provider_options("openai", decode(None)).unwrap(), None);
}

#[test]
fn provider_option_of_wrong_type_names_the_provider() {
    let options = provider_options("openai", parse(r#"{"user": 5}"#));
    match parse_provider_options("openai", decode(Some(&options))) {
        Err(AiError::InvalidArgument(m)) => {
            assert_eq!(m, "invalid openai provider options: invalid type: integer `5`, expected a string")
        }
        other => panic!("unexpected {:?}", other),
    }
}

#[test]
fn unsupported_reasoning_none_produces_warning() {
    let mut options = options_with(vec![LanguageMessage::user("hello")]);
    options.reasoning = Some(Reasoning::Off);
    let (_, warnings) =
        build_language_request_body("gpt-test", LanguageEndpoint::Responses, &options, false, decode_for(&options)).unwrap();
    assert_eq!(warnings, vec![Warning::unsupported("reasoning=none")]);
}

#[test]
fn builds_language_request_body() {
    let mut options = options_with(vec![LanguageMessage::system("a"), LanguageMessage::user("b")]);
    options.max_output_tokens = Some(100);
    options.temperature = Some(JsonNumber::Float("0.4".to_string()));
    options.top_p = Some(JsonNumber::Float("0.9".to_string()));
    options.stop_sequences = Some(vec!["stop".to_string()]);
    options.response_format = Some(ResponseFormat::Json {
        schema: Some(parse(r#"{"type": "object"}"#)),
        name: Some("answer".to_string()),
        description: None,
    });
    options.tools = Some(vec![FunctionTool {
        name: "lookup".to_string(),
        description: Some("lookup things".to_string()),
        parameters: parse(r#"{"type": "object"}"#),
    }]);
    options.tool_choice = Some(ToolChoice::Tool { name: "lookup".to_string() });
    options.reasoning = Some(Reasoning::High);
    let (body, warnings) =
        build_language_request_body("gpt-test", LanguageEndpoint::Responses, &options, false, decode_for(&options)).unwrap();
    let body = from_json(&body);

    assert!(warnings.is_empty());
    assert_eq!(body["model"], "gpt-test");
    assert_eq!(body["max_output_tokens"], 100);
    assert_eq!(body["response_format"]["type"], "json_schema");
    assert_eq!(body["tools"][0]["function"]["name"], "lookup");
    assert_eq!(body["tool_choice"]["function"]["name"], "lookup");
    assert_eq!(body["reasoning"]["effort"], "high");
}

#[test]
fn chat_body_uses_messages_and_max_tokens() {
    let mut options = options_with(vec![LanguageMessage::assistant("x")]);
    options.max_output_tokens = Some(7);
    options.tool_choice = Some(ToolChoice::Required);
    let (body, _) =
        build_language_request_body("m", LanguageEndpoint::Chat, &options, true, decode_for(&options)).unwrap();
    let expected: serde_json::Value = serde_json::from_str(
        r#"{"model": "m", "messages": [{"role": "assistant", "content": "x"}], "stream": true,
            "max_tokens": 7, "tool_choice": "required"}"#,
    )
    .unwrap();
    assert_eq!(from_json(&body), expected);
}

#[test]
fn reasoning_effort_option_overrides_level() {
    let mut options = options_with(vec![]);
    options.reasoning = Some(Reasoning::Low);
    options.provider_options = Some(provider_options(
        "openai",
        parse(r#"{"reasoningEffort": "minimal", "user": "u", "parallelToolCalls": false}"#),
    ));
    let (body, warnings) =
        build_language_request_body("m", LanguageEndpoint::Responses, &options, false, decode_for(&options)).unwrap();
    let body = from_json(&body);
    assert!(warnings.is_empty());
    assert_eq!(body["reasoning"]["effort"], "minimal");
    assert_eq!(body["user"], "u");
    assert_eq!(body["parallel_tool_calls"], false);
}

#[test]
fn provider_default_reasoning_sends_nothing() {
    let mut options = options_with(vec![]);
    options.reasoning = Some(Reasoning::ProviderDefault);
    let (body, warnings) =
        build_language_request_body("m", LanguageEndpoint::Responses, &options, false, decode_for(&options)).unwrap();
    assert!(warnings.is_empty());
    assert!(from_json(&body).get("reasoning").is_none());
}

#[test]
fn invalid_schema_is_rejected() {
    let mut options = options_with(vec![]);
    options.response_format = Some(ResponseFormat::Json {
        schema: Some(JsonValue::String("nope".to_string())),
        name: None,
        description: None,
    });
    match build_language_request_body("m", LanguageEndpoint::Chat, &options, false, decode_for(&options)) {
        Err(AiError::InvalidArgument(m)) => assert_eq!(m, "JSON schema must be an object or boolean"),
        other => panic!("unexpected {:?}", other.is_ok()),
    }
}

#[test]
fn json_format_without_schema_is_json_object() {
    let mut options = options_with(vec![]);
    options.response_format =
        Some(ResponseFormat::Json { schema: None, name: None, description: None });
    let (body, _) = build_language_request_body("m", LanguageEndpoint::Chat, &options, false, decode_for(&options)).unwrap();
    assert_eq!(from_json(&body)["response_format"]["type"], "json_object");
    options.response_format = Some(ResponseFormat::Text);
    let (body, _) = build_language_request_body("m", LanguageEndpoint::Chat, &options, false, decode_for(&options)).unwrap();
    assert_eq!(from_json(&body)["response_format"]["type"], "text");
}

#[test]
fn schema_name_defaults_to_response() {
    let mut options = options_with(vec![]);
    options.response_format = Some(ResponseFormat::Json {
        schema: Some(JsonValue::Bool(true)),
        name: None,
        description: Some("d".to_string()),
    });
    let (body, _) = build_language_request_body("m", LanguageEndpoint::Chat, &options, false, decode_for(&options)).unwrap();
    let body = from_json(&body);
    assert_eq!(body["response_format"]["json_schema"]["name"], "response");
    assert_eq!(body["response_format"]["json_schema"]["description"], "d");
    assert_eq!(body["response_format"]["json_schema"]["schema"], true);
}

#[test]
fn builds_embedding_image_speech_requests() {
    assert_eq!(
        from_json(&build_embedding_request_body("text-embedding", &vec!["a".to_string()])),
        serde_json::from_str::<serde_json::Value>(r#"{ "model": "text-embedding", "input": ["a"] }"#)
            .unwrap()
    );

    assert_eq!(
        from_json(&build_image_request_body(
            "gpt-image",
            &ImageModelCallOptions {
                prompt: "draw".to_string(),
                n: Some(2),
                size: Some("1024x1024".to_string()),
                response_format: Some("b64_json".to_string()),
                provider_options: None,
                headers: None,
            }
        )),
        serde_json::from_str::<serde_json::Value>(
            r#"{"model": "gpt-image", "prompt": "draw", "n": 2, "size": "1024x1024",
                "response_format": "b64_json"}"#
        )
        .unwrap()
    );

    assert_eq!(
        from_json(&build_speech_request_body(
            "gpt-4o-mini-tts",
            &SpeechModelCallOptions {
                text: "hello".to_string(),
                voice: "alloy".to_string(),
                format: Some("mp3".to_string()),
                instructions: Some("calm".to_string()),
                provider_options: None,
                headers: None,
            }
        )),
        serde_json::from_str::<serde_json::Value>(
            r#"{"model": "gpt-4o-mini-tts", "input": "hello", "voice": "alloy",
                "response_format": "mp3", "instructions": "calm"}"#
        )
        .unwrap()
    );
}

#[test]
fn converts_sse_chunk_into_stream_part() {
    let part = parse_openai_stream_event(Ok(parse(
        r#"{"type": "response.output_text.delta", "item_id": "msg_1", "delta": "hello"}"#,
    )))
    .unwrap();
    match part {
        LanguageModelStreamPart::TextDelta { id, delta } => {
            assert_eq!(id, "msg_1");
            assert_eq!(delta, "hello");
        }
        other => panic!("unexpected {:?}", other),
    }
}

#[test]
fn stream_events_cover_chat_deltas_finishes_and_raw() {
    match parse_openai_stream_event(Ok(parse(r#"{"choices": [{"delta": {"content": "hel"}}]}"#))) {
        Ok(LanguageModelStreamPart::TextDelta { id, delta }) => {
            assert_eq!(id, "0");
            assert_eq!(delta, "hel");
        }
        other => panic!("unexpected {:?}", other),
    }
    match parse_openai_stream_event(Ok(parse(r#"{"choices": [{"delta": {}, "finish_reason": "length"}]}"#))) {
        Ok(LanguageModelStreamPart::Finish { usage, finish_reason }) => {
            assert_eq!(finish_reason, FinishReason::Length);
            assert_eq!(usage.total_tokens, None);
        }
        other => panic!("unexpected {:?}", other),
    }
    match parse_openai_stream_event(Ok(parse(r#"{"delta": "x"}"#))) {
        Ok(LanguageModelStreamPart::TextDelta { id, delta }) => {
            assert_eq!(id, "0");
            assert_eq!(delta, "x");
        }
        other => panic!("unexpected {:?}", other),
    }
    assert!(matches!(
        parse_openai_stream_event(Ok(parse(r#"{"type": "response.created"}"#))),
        Ok(LanguageModelStreamPart::Raw { .. })
    ));
    match parse_openai_stream_event(Err("expected value".to_string())) {
        Err(AiError::ResponseParsing(m)) => assert_eq!(m, "invalid OpenAI stream JSON: expected value"),
        other => panic!("unexpected {:?}", other),
    }
}

#[test]
fn reads_responses_and_chat_results() {
    let response = parse(
        r#"{"id": "resp_1", "model": "gpt", "output": [{"content": [{"type": "x"}, {"text": "hi"}]}],
            "usage": {"input_tokens": 10, "output_tokens": 2, "total_tokens": 12}}"#,
    );
    let result = parse_responses_generate_response(response, vec![]).unwrap();
    assert!(matches!(&result.content[0], ContentPart::Text { text } if text == "hi"));
    assert_eq!(result.finish_reason, FinishReason::Stop);
    assert_eq!(result.usage.input_tokens, Some(10));
    assert_eq!(result.usage.total_tokens, Some(12));
    let meta = result.response.unwrap();
    assert_eq!(meta.id.as_deref(), Some("resp_1"));
    assert_eq!(meta.model_id.as_deref(), Some("gpt"));

    let chat = parse(
        r#"{"choices": [{"message": {"content": "yo"}, "finish_reason": "tool_calls"}],
            "usage": {"prompt_tokens": 3, "completion_tokens": 4}}"#,
    );
    let result = parse_chat_generate_response(chat, vec![Warning::unsupported("x")]).unwrap();
    assert!(matches!(&result.content[0], ContentPart::Text { text } if text == "yo"));
    assert_eq!(result.finish_reason, FinishReason::ToolCalls);
    assert_eq!(result.usage.input_tokens, Some(3));
    assert_eq!(result.usage.output_tokens, Some(4));
    assert_eq!(result.warnings.len(), 1);

    match parse_chat_generate_response(parse(r#"{"choices": []}"#), vec![]) {
        Err(AiError::ResponseParsing(m)) => assert_eq!(m, "missing OpenAI chat choice"),
        other => panic!("unexpected {:?}", other.is_ok()),
    }
}

#[test]
fn output_text_wins_over_output_items() {
    let response = parse(r#"{"output_text": "direct", "output": [{"content": [{"text": "x"}]}]}"#);
    let result = parse_responses_generate_response(response, vec![]).unwrap();
    assert!(matches!(&result.content[0], ContentPart::Text { text } if text == "direct"));
    let empty = parse_responses_generate_response(parse("{}"), vec![]).unwrap();
    assert!(matches!(&empty.content[0], ContentPart::Text { text } if text.is_empty()));
}

#[test]
fn finish_reasons_and_usage_defaults() {
    assert_eq!(parse_finish_reason(Some("stop")), FinishReason::Stop);
    assert_eq!(parse_finish_reason(Some("content_filter")), FinishReason::ContentFilter);
    assert_eq!(parse_finish_reason(Some("other")), FinishReason::Unknown);
    assert_eq!(parse_finish_reason(None), FinishReason::Unknown);
    let usage = parse_usage(None);
    assert_eq!(usage.input_tokens, None);
    let u = parse(r#"{"input_tokens": "x", "prompt_tokens": 5}"#);
    assert_eq!(parse_usage(Some(&u)).input_tokens, None);
}

#[test]
fn media_types_and_efforts() {
    assert_eq!(format_to_media_type(None), "audio/mpeg");
    assert_eq!(format_to_media_type(Some("mp3")), "audio/mpeg");
    assert_eq!(format_to_media_type(Some("opus")), "audio/opus");
    assert_eq!(format_to_media_type(Some("ogg")), "audio/ogg");
    assert_eq!(reasoning_to_openai_effort(&Reasoning::Minimal), "low");
    assert_eq!(reasoning_to_openai_effort(&Reasoning::XHigh), "high");
    assert_eq!(reasoning_to_openai_effort(&Reasoning::Off), "medium");
}

#[test]
fn reads_embeddings_images_and_transcriptions() {
    let rows = parse_embeddings(&parse(r#"{"data": [{"embedding": [1, 0.5]}, {"embedding": []}]}"#)).unwrap();
    assert_eq!(rows.len(), 2);
    assert_eq!(rows[0], vec![JsonNumber::PosInt(1), JsonNumber::Float("0.5".to_string())]);
    assert!(rows[1].is_empty());
    match parse_embeddings(&parse(r#"{"data": [{"embedding": ["a"]}]}"#)) {
        Err(AiError::ResponseParsing(m)) => assert_eq!(m, "embedding value must be a number"),
        other => panic!("unexpected {:?}", other.is_ok()),
    }
    match parse_embeddings(&parse(r#"{"data": [{}]}"#)) {
        Err(AiError::ResponseParsing(m)) => assert_eq!(m, "missing embedding"),
        other => panic!("unexpected {:?}", other.is_ok()),
    }
    match parse_embeddings(&parse(r#"{}"#)) {
        Err(AiError::ResponseParsing(m)) => assert_eq!(m, "missing embeddings data"),
        other => panic!("unexpected {:?}", other.is_ok()),
    }

    let images = parse_images(&parse(
        r#"{"data": [{"b64_json": "AAA"}, {"url": "http://x"}, {"b64_json": 1, "url": "u"}]}"#,
    ))
    .unwrap();
    assert_eq!(images, vec!["AAA".to_string(), "http://x".to_string()]);
    assert!(matches!(parse_images(&parse("{}")), Err(AiError::ResponseParsing(_))));

    assert_eq!(parse_transcription_text(&parse(r#"{"text": "hello from audio"}"#)).unwrap(), "hello from audio");
    match parse_transcription_text(&parse("{}")) {
        Err(AiError::ResponseParsing(m)) => assert_eq!(m, "missing transcription text"),
        other => panic!("unexpected {:?}", other.is_ok()),
    }
}

#[test]
fn reranking_model_is_unsupported() {
    let provider = OpenAIProvider::new(
        OpenAIProviderSettings {
            api_key: Some("test-key".to_string()),
            base_url: None,
            headers: StringMap::new(),
        },
        None,
        None,
    )
    .unwrap();
    match provider.reranking_model("rerank-test") {
        AiError::Unsupported(m) => {
            assert_eq!(m, "OpenAI does not provide reranking model 'rerank-test' in this adapter")
        }
        _ => panic!("expected reranking model to be unsupported"),
    }
}

#[test]
fn provider_settings_resolve_key_url_and_headers() {
    let provider = OpenAIProvider::new(
        OpenAIProviderSettings {
            api_key: None,
            base_url: Some("http://localhost:8080/v1//".to_string()),
            headers: headers(&[("x-team", "a"), ("user-agent", "custom")]),
        },
        Some("env-key".to_string()),
        Some("http://ignored".to_string()),
    )
    .unwrap();
    assert_eq!(provider.base_url(), "http://localhost:8080/v1");
    assert_eq!(provider.endpoint("/responses"), "http://localhost:8080/v1/responses");
    let h = provider.request_headers(Some(headers(&[("x-team", "b")])));
    assert_eq!(h.get("authorization").map(|s| s.as_str()), Some("Bearer env-key"));
    assert_eq!(h.get("user-agent").map(|s| s.as_str()), Some("custom"));
    assert_eq!(h.get("x-team").map(|s| s.as_str()), Some("b"));

    let default_url = OpenAIProvider::new(
        OpenAIProviderSettings { api_key: Some("k".to_string()), base_url: None, headers: StringMap::new() },
        None,
        None,
    )
    .unwrap();
    assert_eq!(default_url.base_url(), "https://api.openai.com/v1");

    match OpenAIProvider::new(
        OpenAIProviderSettings { api_key: Some("   ".to_string()), base_url: None, headers: StringMap::new() },
        None,
        None,
    ) {
        Err(AiError::Authentication(m)) => {
            assert_eq!(m, "OpenAI API key is missing; set OPENAI_API_KEY")
        }
        other => panic!("unexpected {:?}", other.is_ok()),
    }
}

#[test]
fn utilities_merge_headers_and_validate() {
    let merged = merge_headers(headers(&[("a", "1"), ("b", "2")]), Some(headers(&[("b", "3")])));
    assert_eq!(merged.get("a").map(|s| s.as_str()), Some("1"));
    assert_eq!(merged.get("b").map(|s| s.as_str()), Some("3"));
    assert_eq!(user_agent(), "ai-rust-provider/0.1.0");
    assert!(validate_json_schema(&JsonValue::Bool(false)).is_ok());
    assert!(validate_json_schema(&JsonValue::Null).is_err());
    assert_eq!(load_api_key(None, Some("k".to_string()), "V", "P").unwrap(), "k");
    match load_api_key(None, None, "V", "P") {
        Err(AiError::Authentication(m)) => assert_eq!(m, "P API key is missing; set V"),
        other => panic!("unexpected {:?}", other.is_ok()),
    }
}

#[test]
fn error_descriptions_follow_variants() {
    assert_eq!(AiError::Unsupported("x".to_string()).describe(), "unsupported functionality: x");
    assert_eq!(
        AiError::ApiCall { message: "m".to_string(), status: Some(500), response_body: None }.describe(),
        "API call failed: m"
    );
    let e = ai_provider_sdk::provider_utils::failed_response_error(401, "{}".to_string());
    match e {
        AiError::ApiCall { message, status, response_body } => {
            assert_eq!(message, "provider API returned HTTP 401");
            assert_eq!(status, Some(401));
            assert_eq!(response_body.as_deref(), Some("{}"));
        }
        _ => panic!("expected an API-call error"),
    }
}

#[test]
fn provider_models_call_their_endpoints() {
    let provider = OpenAIProvider::new(
        OpenAIProviderSettings {
            api_key: Some("k".to_string()),
            base_url: Some("http://local/v1/".to_string()),
            headers: StringMap::new(),
        },
        None,
        None,
    )
    .unwrap();
    let embedding = provider.embedding("text-embedding-3-small");
    assert_eq!(embedding.model_id, "text-embedding-3-small");
    assert_eq!(embedding.url(), "http://local/v1/embeddings");
    assert_eq!(provider.image("gpt-image-1").url(), "http://local/v1/images/generations");
    assert_eq!(provider.speech("tts-1").url(), "http://local/v1/audio/speech");
    let transcription = provider.transcription("whisper-1");
    assert_eq!(transcription.url(), "http://local/v1/audio/transcriptions");
    assert_eq!(transcription.provider.base_url(), "http://local/v1");
    assert_eq!(provider.chat("gpt-4o").url(), "http://local/v1/chat/completions");
    assert_eq!(provider.responses("gpt-4o").url(), "http://local/v1/responses");
}

fn local_provider() -> OpenAIProvider {
    OpenAIProvider::new(
        OpenAIProviderSettings {
            api_key: Some("test-key".to_string()),
            base_url: Some("http://127.0.0.1:4010/".to_string()),
            headers: StringMap::new(),
        },
        None,
        None,
    )
    .unwrap()
}

#[test]
fn validates_url_headers_and_request_body() {
    let model = local_provider().responses("gpt-test");
    assert_eq!(model.url(), "http://127.0.0.1:4010/responses");
    let mut options = options_with(vec![LanguageMessage::user("hello")]);
    options.max_output_tokens = Some(10);
    let headers = model.provider.request_headers(None);
    assert_eq!(headers.get("authorization").map(|v| v.as_str()), Some("Bearer test-key"));
    let (body, warnings) = build_language_request_body(&model.model_id, model.endpoint, &options, false, decode_for(&options)).unwrap();
    assert_eq!(
        from_json(&body),
        serde_json::from_str::<serde_json::Value>(
            r#"{"model": "gpt-test", "input": [{"role": "user", "content": "hello"}],
                "stream": false, "max_output_tokens": 10}"#
        )
        .unwrap()
    );
    let answer = parse(
        r#"{"id": "resp_1", "model": "gpt-test", "output_text": "hi",
            "usage": {"input_tokens": 1, "output_tokens": 1, "total_tokens": 2}}"#,
    );
    let result = model.read_response(answer, warnings).unwrap();
    assert_eq!(result.content.len(), 1);
    match &result.content[0] {
        ContentPart::Text { text } => assert_eq!(text, "hi"),
        other => panic!("unexpected {:?}", other),
    }
    assert_eq!(result.usage.total_tokens, Some(2));
}

#[test]
fn parses_error_response() {
    let model = local_provider().embedding("text-embedding");
    assert_eq!(model.url(), "http://127.0.0.1:4010/embeddings");
    let error = failed_response_error(401, r#"{"error": {"message": "bad key"}}"#.to_string());
    assert!(matches!(error, AiError::ApiCall { status: Some(401), .. }));
}

#[test]
fn converts_sse_chunks_to_unified_stream_parts() {
    let model = local_provider().responses("gpt-test");
    let (_, warnings) = build_language_request_body(
        &model.model_id,
        model.endpoint,
        &options_with(vec![LanguageMessage::user("hello")]),
        true,
        None,
    )
    .unwrap();
    assert!(warnings.is_empty());
    let mut buffer = String::new();
    buffer.push_str("data: {\"type\":\"response.output_text.delta\",\"item_id\":\"msg_1\",\"delta\":\"hel\"}\n\n");
    buffer.push_str("data: {\"type\":\"response.output_text.delta\",\"item_id\":\"msg_1\",\"delta\":\"lo\"}\n\n");
    buffer.push_str("data: [DONE]\n\n");
    let mut deltas: Vec<(String, String)> = Vec::new();
    while let Some((frame, rest)) = take_frame(&buffer) {
        buffer = rest;
        let Some(event) = parse_sse_frame(&frame) else { continue };
        if is_stream_done(&event.data) {
            continue;
        }
        match parse_openai_stream_event(Ok(parse(&event.data))).unwrap() {
            LanguageModelStreamPart::TextDelta { id, delta } => deltas.push((id, delta)),
            other => panic!("unexpected {:?}", other),
        }
    }
    assert_eq!(
        deltas,
        vec![("msg_1".to_string(), "hel".to_string()), ("msg_1".to_string(), "lo".to_string())]
    );
}

#[test]
fn validates_transcription_multipart_request() {
    let model = local_provider().transcription("gpt-transcribe");
    assert_eq!(model.url(), "http://127.0.0.1:4010/audio/transcriptions");
    let headers = model.provider.request_headers(None);
    assert_eq!(headers.get("authorization").map(|v| v.as_str()), Some("Bearer test-key"));
    let options = TranscriptionModelCallOptions {
        audio: b"wav-data".to_vec(),
        file_name: "sample.wav".to_string(),
        media_type: Some("audio/wav".to_string()),
        language: Some("en".to_string()),
        prompt: None,
        provider_options: None,
        headers: None,
    };
    let form = build_transcription_form(&model.model_id, &options).unwrap();
    assert_eq!(form.model, "gpt-transcribe");
    assert_eq!(form.file_name, "sample.wav");
    assert_eq!(form.audio, b"wav-data".to_vec());
    assert_eq!(form.media_type.as_deref(), Some("audio/wav"));
    assert_eq!(form.language.as_deref(), Some("en"));
    assert_eq!(form.prompt, None);
    let result = transcription_result(&parse(r#"{"text": "hello from audio"}"#)).unwrap();
    assert_eq!(result.text, "hello from audio");
}

#[test]
fn undecodable_options_carry_the_decoders_message() {
    let options = provider_options("openai", JsonValue::String("bad".to_string()));
    match parse_provider_options("openai", decode(Some(&options))) {
        Err(AiError::InvalidArgument(m)) => assert_eq!(
            m,
            "invalid openai provider options: invalid type: string \"bad\", expected struct OpenAIProviderOptions"
        ),
        other => panic!("unexpected {:?}", other),
    }
    assert!(matches!(
        parse_provider_options::<OpenAIProviderOptions>("anthropic", Some(Err("boom".to_string()))),
        Err(AiError::InvalidArgument(m)) if m == "invalid anthropic provider options: boom"
    ));
    let mut call = options_with(vec![]);
    call.provider_options = Some(options);
    match build_language_request_body("m", LanguageEndpoint::Chat, &call, false, decode_for(&call)) {
        Err(AiError::InvalidArgument(m)) => assert!(m.starts_with("invalid openai provider options: invalid type")),
        other => panic!("unexpected {:?}", other.is_ok()),
    }
}
