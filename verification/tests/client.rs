use ai_provider_sdk::cli::{parse_cli, raw_post_target, required_arg, CliCommand, RawTarget};
use ai_provider_sdk::client::{
    build_default_headers, idempotency_key, new_idempotency_key, normalize_base_url, ClientEnv,
    ClientOptions, HttpMethod, OpenAI, RetrySession, WorkloadIdentity, SubjectTokenType,
};
use ai_provider_sdk::retry::{AttemptOutcome, RetryAction};
use ai_provider_sdk::error::Error;
use ai_provider_sdk::headers::{header_name_check, header_value_check, set_header};
use ai_provider_sdk::request_options::RequestOptions;
use ai_provider_sdk::strmap::StringMap;

fn no_env() -> ClientEnv {
    ClientEnv { api_key: None, org_id: None, project_id: None, webhook_secret: None, base_url: None }
}

fn map_of(pairs: &[(&str, &str)]) -> StringMap {
    let mut m = StringMap::new();
    for (k, v) in pairs {
        m.insert(k.to_string(), v.to_string());
    }
    m
}

fn get<'a>(m: &'a StringMap, k: &str) -> Option<&'a str> {
    m.get(k).map(|s| s.as_str())
}

#[test]
fn normalizes_base_url_with_trailing_slash() {
    let url = normalize_base_url("https://api.example.com/v1").unwrap();
    assert_eq!(url, "https://api.example.com/v1/");
}

#[test]
fn normalization_keeps_slash_and_collapses_extra_ones() {
    assert_eq!(normalize_base_url("https://api.example.com/v1/").unwrap(), "https://api.example.com/v1/");
    assert_eq!(normalize_base_url("https://api.example.com/v1//").unwrap(), "https://api.example.com/v1//");
    assert_eq!(normalize_base_url("https://api.example.com").unwrap(), "https://api.example.com/");
    assert!(matches!(normalize_base_url("not a url"), Err(Error::Url(_))));
}

#[test]
fn client_options_default_values() {
    let o = ClientOptions::default();
    assert_eq!(o.max_retries, 2);
    assert_eq!(o.timeout, Some(std::time::Duration::from_secs(600)));
    assert!(o.api_key.is_none());
}

#[test]
fn with_options_rejects_key_and_workload_identity_together() {
    let mut o = ClientOptions::default();
    o.api_key = Some("sk".to_string());
    o.workload_identity = Some(WorkloadIdentity {
        client_id: "c".to_string(),
        identity_provider_id: "p".to_string(),
        service_account_id: "s".to_string(),
        token_type: SubjectTokenType::Jwt,
    });
    match OpenAI::with_options(o, no_env()) {
        Err(Error::Config(m)) => {
            assert_eq!(m, "The `api_key` and `workload_identity` arguments are mutually exclusive")
        }
        other => panic!("unexpected {:?}", other.is_ok()),
    }
}

#[test]
fn with_options_requires_a_key() {
    match OpenAI::from_env(no_env()) {
        Err(Error::Config(m)) => assert_eq!(m, "api_key must be provided or OPENAI_API_KEY must be set"),
        other => panic!("unexpected {:?}", other.is_ok()),
    }
}

#[test]
fn with_options_falls_back_to_environment() {
    let env = ClientEnv {
        api_key: Some("env-key".to_string()),
        org_id: Some("org_1".to_string()),
        project_id: None,
        webhook_secret: None,
        base_url: Some("https://proxy.example.com/openai".to_string()),
    };
    let mut o = ClientOptions::default();
    o.project = Some("proj".to_string());
    o.default_headers = Some(map_of(&[("X-Custom", "1"), ("Content-Type", "text/plain")]));
    o.max_retries = 5;
    let client = OpenAI::with_options(o, env).unwrap();
    let t = &client.transport;
    assert_eq!(t.base_url, "https://proxy.example.com/openai/");
    assert_eq!(get(&t.default_headers, "authorization"), Some("Bearer env-key"));
    assert_eq!(get(&t.default_headers, "openai-organization"), Some("org_1"));
    assert_eq!(get(&t.default_headers, "openai-project"), Some("proj"));
    assert_eq!(get(&t.default_headers, "x-stainless-async"), Some("true"));
    assert_eq!(get(&t.default_headers, "x-custom"), Some("1"));
    assert_eq!(get(&t.default_headers, "content-type"), Some("text/plain"));
    assert_eq!(t.max_retries, 5);
}

#[test]
fn default_headers_reject_bad_names_and_values() {
    match build_default_headers("k", &None, &None, &Some(map_of(&[("bad name", "v")]))) {
        Err(Error::Config(m)) => assert_eq!(m, "invalid header name `bad name`: invalid HTTP header name"),
        other => panic!("unexpected {:?}", other.is_ok()),
    }
    match build_default_headers("k", &Some("a\nb".to_string()), &None, &None) {
        Err(Error::HeaderValue(m)) => assert_eq!(m, "failed to parse header value"),
        other => panic!("unexpected {:?}", other.is_ok()),
    }
    assert!(matches!(build_default_headers("bad\r\nkey", &None, &None, &None), Err(Error::HeaderValue(_))));
}

#[test]
fn header_checks_follow_http_rules() {
    assert_eq!(header_name_check("X-Request-ID").unwrap(), "x-request-id");
    assert!(header_name_check("").is_err());
    assert!(header_name_check("a:b").is_err());
    assert!(header_value_check("tab\there é").is_ok());
    assert!(header_value_check("del\u{7f}").is_err());
    let mut m = StringMap::new();
    set_header(&mut m, "Accept", "json").unwrap();
    assert_eq!(get(&m, "accept"), Some("json"));
}

#[test]
fn transport_builds_urls_and_headers() {
    let mut o = ClientOptions::default();
    o.api_key = Some("sk".to_string());
    o.default_query = Some(map_of(&[("api-version", "1")]));
    let client = OpenAI::with_options(o, no_env()).unwrap();
    let t = &client.transport;
    let mut ro = RequestOptions::new();
    let url = t.url("/chat/completions", &ro).unwrap();
    assert_eq!(url, "https://api.openai.com/v1/chat/completions?api-version=1");
    ro.extra_query.insert("a b".to_string(), "c&d".to_string());
    let url = t.url("models", &ro).unwrap();
    assert_eq!(url, "https://api.openai.com/v1/models?api-version=1&a+b=c%26d");

    ro.extra_headers.insert("X-Trace".to_string(), "t".to_string());
    let h = t.request_headers(&ro, Some("key-1"), true).unwrap();
    assert_eq!(get(&h, "idempotency-key"), Some("key-1"));
    assert_eq!(get(&h, "x-trace"), Some("t"));
    assert_eq!(get(&h, "content-type"), None);
    let h = t.request_headers(&ro, None, false).unwrap();
    assert_eq!(get(&h, "content-type"), Some("application/json"));
    assert!(matches!(t.request_headers(&ro, Some("a\nb"), false), Err(Error::HeaderValue(_))));
}

#[test]
fn transport_url_without_query_keeps_marker() {
    let client = OpenAI::new("sk", no_env()).unwrap();
    let url = client.transport.url("/models", &RequestOptions::new()).unwrap();
    assert_eq!(url, "https://api.openai.com/v1/models?");
}

#[test]
fn idempotency_keys_only_for_writes() {
    assert_eq!(idempotency_key(HttpMethod::Get, "u"), None);
    assert_eq!(idempotency_key(HttpMethod::Post, "u").as_deref(), Some("stainless-rust-retry-u"));
    assert!(new_idempotency_key(HttpMethod::Get).is_none());
    let k = new_idempotency_key(HttpMethod::Delete).unwrap();
    assert!(k.starts_with("stainless-rust-retry-"));
    assert_eq!(k.len(), 57);
    let uuid: Vec<char> = k["stainless-rust-retry-".len()..].chars().collect();
    for (i, c) in uuid.iter().enumerate() {
        if [8, 13, 18, 23].contains(&i) {
            assert_eq!(*c, '-');
        } else {
            assert!(c.is_ascii_hexdigit() && !c.is_ascii_uppercase());
        }
    }
    assert_eq!(uuid[14], '4');
    assert!(['8', '9', 'a', 'b'].contains(&uuid[19]));
    assert_ne!(new_idempotency_key(HttpMethod::Post), Some(k));
}

#[test]
fn cli_reads_commands_and_arguments() {
    let args = |xs: &[&str]| xs.iter().map(|s| s.to_string()).collect::<Vec<String>>();
    assert_eq!(parse_cli(&args(&[])).unwrap(), CliCommand::Usage);
    assert_eq!(parse_cli(&args(&["models:list"])).unwrap(), CliCommand::ModelsList);
    assert_eq!(parse_cli(&args(&["nope"])).unwrap(), CliCommand::Usage);
    assert_eq!(
        parse_cli(&args(&["chat:create", "gpt", "hi"])).unwrap(),
        CliCommand::ChatCreate { model: "gpt".to_string(), message: "hi".to_string() }
    );
    assert_eq!(parse_cli(&args(&["models:get"])).unwrap_err(), "missing required argument: model");
    assert_eq!(parse_cli(&args(&["raw:post", "/x"])).unwrap_err(), "missing required argument: json");
    assert_eq!(required_arg(Some("v".to_string()), "n").unwrap(), "v");
    assert_eq!(raw_post_target("/batches").unwrap(), RawTarget::Batches);
    assert_eq!(raw_post_target("/files").unwrap_err(), "raw:post does not support /files");
}

#[test]
fn request_headers_override_client_defaults() {
    let mut o = ClientOptions::default();
    o.api_key = Some("sk".to_string());
    o.default_headers = Some(map_of(&[("x-team", "a"), ("x-keep", "k")]));
    let client = OpenAI::with_options(o, no_env()).unwrap();
    let mut ro = RequestOptions::new();
    ro.extra_headers.insert("X-Team".to_string(), "b".to_string());
    ro.extra_headers.insert("Content-Type".to_string(), "text/plain".to_string());
    let h = client.transport.request_headers(&ro, None, false).unwrap();
    assert_eq!(get(&h, "x-team"), Some("b"));
    assert_eq!(get(&h, "content-type"), Some("text/plain"));
    assert_eq!(get(&h, "x-keep"), Some("k"));
    assert_eq!(get(&h, "authorization"), Some("Bearer sk"));
}

#[test]
fn retry_session_keeps_its_key_across_attempts() {
    let unavailable = AttemptOutcome::Response {
        status: 503,
        should_retry_header: None,
        retry_after_ms: None,
        retry_after: None,
    };
    let mut session = RetrySession::start(HttpMethod::Post, 2);
    let key = session.key().map(|k| k.to_string()).expect("a POST carries a key");
    assert!(key.starts_with("stainless-rust-retry-"));
    assert_eq!(key.len(), 57);
    assert_eq!(session.attempt(), 0);
    assert_eq!(session.after(&unavailable), RetryAction::Retry { delay_ms: 500, next_attempt: 1 });
    assert_eq!(session.attempt(), 1);
    assert_eq!(session.key(), Some(key.as_str()));
    assert_eq!(session.after(&unavailable), RetryAction::Retry { delay_ms: 1000, next_attempt: 2 });
    assert_eq!(session.after(&unavailable), RetryAction::Finish);
    assert_eq!(session.attempt(), 2);
    assert_eq!(session.key(), Some(key.as_str()));

    let get = RetrySession::start(HttpMethod::Get, 2);
    assert_eq!(get.key(), None);
}

#[test]
fn missing_timeout_means_six_hundred_seconds() {
    let mut o = ClientOptions::default();
    o.api_key = Some("sk".to_string());
    o.timeout = None;
    let client = OpenAI::with_options(o, no_env()).unwrap();
    assert_eq!(client.timeout, Some(std::time::Duration::from_secs(600)));
    let mut o = ClientOptions::default();
    o.api_key = Some("sk".to_string());
    o.timeout = Some(std::time::Duration::from_secs(5));
    let client = OpenAI::with_options(o, no_env()).unwrap();
    assert_eq!(client.timeout, Some(std::time::Duration::from_secs(5)));
}
