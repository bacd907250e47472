//! Client configuration: resolution of the options against the environment,
//! base-URL normalisation, the default headers, and the URL and headers of
//! each request.

use vstd::prelude::*;
use core::time::Duration;
use crate::error::Error;
use crate::headers::{
    header_value_check, is_valid_header_value, set_headers, first_bad_header, headers_after,
    is_header_error, law_unnamed_defaults_kept,
};
use crate::provider::concat;
use crate::request_options::RequestOptions;
use crate::strmap::StringMap;
use crate::text::{opt_chars, trim_end_char, trim_start_char, trim_end_matches_char, trim_start_matches_char};

use crate::resources::{Chat, Embeddings, Files, Models, Moderations, Responses};

use crate::webhook::is_lower_hex;
use crate::retry::{AttemptOutcome, RetryAction, next_action, spec_next_action};
verus! {

/// The default base URL of the OpenAI API.
pub open spec fn default_base_url() -> Seq<char> {
    "https://api.openai.com/v1"@
}

/// The kind of subject token that an identity provider issues.
#[derive(Debug, Clone, Copy, PartialEq, Eq)]
pub enum SubjectTokenType {
    /// A JWT (such as a Kubernetes service-account token).
    Jwt,
    /// An ID token.
    Id,
}

/// Federated workload-identity settings, used in place of an API key.
#[derive(Debug, Clone)]
pub struct WorkloadIdentity {
    pub client_id: String,
    pub identity_provider_id: String,
    pub service_account_id: String,
    pub token_type: SubjectTokenType,
}

/// Options of a client.
#[derive(Debug)]
pub struct ClientOptions {
    /// The API key; excludes `workload_identity`.
    pub api_key: Option<String>,
    /// Workload identity; excludes `api_key`.
    pub workload_identity: Option<WorkloadIdentity>,
    /// Sent as `openai-organization`.
    pub organization: Option<String>,
    /// Sent as `openai-project`.
    pub project: Option<String>,
    /// Secret of webhook signatures.
    pub webhook_secret: Option<String>,
    /// Base URL of an OpenAI-compatible service.
    pub base_url: Option<String>,
    /// Base URL of websocket connections.
    pub websocket_base_url: Option<String>,
    /// Total timeout of a request.
    pub timeout: Option<Duration>,
    /// Retries after the first attempt; 0 turns retrying off.
    pub max_retries: u32,
    /// Headers added to every request.
    pub default_headers: Option<StringMap>,
    /// Query parameters added to every request.
    pub default_query: Option<StringMap>,
    /// Whether responses are validated strictly.
    pub strict_response_validation: bool,
}

/// The duration of `secs` seconds (`Duration::from_secs`).
pub uninterp spec fn seconds_duration(secs: u64) -> Duration;

/// The duration of `secs` seconds.
#[verifier::external_body]
fn seconds(secs: u64) -> (d: Duration)
    ensures
        d == seconds_duration(secs),
{
    Duration::from_secs(secs)
}

impl Default for ClientOptions {
    /// No credentials or overrides, a 600-second timeout and two retries.
    fn default() -> (o: ClientOptions)
        ensures
            o.api_key is None,
            o.workload_identity is None,
            o.organization is None,
            o.project is None,
            o.webhook_secret is None,
            o.base_url is None,
            o.websocket_base_url is None,
            o.timeout == Some(seconds_duration(600)),
            o.max_retries == 2,
            o.default_headers is None,
            o.default_query is None,
            !o.strict_response_validation,
    {
        ClientOptions {
            api_key: None,
            workload_identity: None,
            organization: None,
            project: None,
            webhook_secret: None,
            base_url: None,
            websocket_base_url: None,
            timeout: Some(seconds(600)),
            max_retries: 2,
            default_headers: None,
            default_query: None,
            strict_response_validation: false,
        }
    }
}

/// The values of the environment variables that the client falls back to:
/// `OPENAI_API_KEY`, `OPENAI_ORG_ID`, `OPENAI_PROJECT_ID`,
/// `OPENAI_WEBHOOK_SECRET` and `OPENAI_BASE_URL`.
#[derive(Debug, Clone)]
pub struct ClientEnv {
    pub api_key: Option<String>,
    pub org_id: Option<String>,
    pub project_id: Option<String>,
    pub webhook_secret: Option<String>,
    pub base_url: Option<String>,
}

/// The outcome of parsing a URL (`url::Url::parse`): its serialization and
/// its path, or the parser's message.
pub uninterp spec fn parsed_url(s: Seq<char>) -> Result<(Seq<char>, Seq<char>), Seq<char>>;

/// A parsed URL's serialization and path.
pub open spec fn url_ok(serialized: Seq<char>, path: Seq<char>) -> Result<(Seq<char>, Seq<char>), Seq<char>> {
    Ok((serialized, path))
}

/// A URL parser's message.
pub open spec fn url_err(message: Seq<char>) -> Result<(Seq<char>, Seq<char>), Seq<char>> {
    Err(message)
}

/// Parses `s` as a URL (`url::Url::parse`), giving its serialization and
/// path, or the error's message.
#[verifier::external_body]
fn url_parts(s: &str) -> (r: Result<(String, String), String>)
    ensures
        r matches Ok((u, p)) ==> parsed_url(s@) == url_ok(u@, p@),
        r matches Err(m) ==> parsed_url(s@) == url_err(m@),
{
    match url::Url::parse(s) {
        Ok(u) => Ok((u.as_str().to_string(), u.path().to_string())),
        Err(e) => Err(e.to_string()),
    }
}

/// The serialization of the URL `s` with its path set to `path`
/// (`url::Url::set_path`).
pub uninterp spec fn url_with_path(s: Seq<char>, path: Seq<char>) -> Seq<char>;

/// The URL `s`, which parses, with its path set to `path`.
#[verifier::external_body]
fn url_set_path(s: &str, path: &str) -> (r: String)
    requires
        parsed_url(s@) is Ok,
    ensures
        r@ == url_with_path(s@, path@),
{
    match url::Url::parse(s) {
        Ok(mut u) => {
            u.set_path(path);
            u.as_str().to_string()
        },
        Err(_) => String::new(),
    }
}

/// Whether `s` ends with a slash.
pub open spec fn ends_with_slash(s: Seq<char>) -> bool {
    s.len() > 0 && s.last() == '/'
}

/// The normalised base URL: the parsed URL, with its path made to end with
/// exactly one slash when it did not end with one (so that relative paths
/// join below it); a URL that does not parse is an error.
pub open spec fn spec_normalize_base_url(s: Seq<char>) -> Result<Seq<char>, Seq<char>> {
    match parsed_url(s) {
        Err(m) => Err(m),
        Ok((serialized, path)) => if ends_with_slash(path) {
            Ok(serialized)
        } else {
            Ok(url_with_path(s, trim_end_char(path, '/') + "/"@))
        },
    }
}

/// Normalises a base URL so that its path ends with a slash.
pub fn normalize_base_url(base_url: &str) -> (r: Result<String, Error>)
    ensures
        match spec_normalize_base_url(base_url@) {
            Ok(u) => r matches Ok(x) && x@ == u,
            Err(m) => r matches Err(Error::Url(x)) && x@ == m,
        },
{
    let (serialized, path) = match url_parts(base_url) {
        Ok(parts) => parts,
        Err(m) => {
            return Err(Error::Url(m));
        },
    };
    let pchars = crate::text::chars_of(path.as_str());
    let ends = pchars.len() > 0 && pchars[pchars.len() - 1] == '/';
    if ends {
        Ok(serialized)
    } else {
        let mut new_path = trim_end_matches_char(path.as_str(), '/');
        new_path.append("/");
        Ok(url_set_path(base_url, new_path.as_str()))
    }
}

/// The headers every request carries before the user's defaults: the bearer
/// token, the async marker, the JSON content type, and the organization and
/// project when given.
pub open spec fn fixed_headers(
    api_key: Seq<char>,
    organization: Option<Seq<char>>,
    project: Option<Seq<char>>,
) -> Map<Seq<char>, Seq<char>> {
    let base = Map::<Seq<char>, Seq<char>>::empty().insert("authorization"@, "Bearer "@ + api_key).insert(
        "x-stainless-async"@,
        "true"@,
    ).insert("content-type"@, "application/json"@);
    let with_org = match organization {
        Some(o) => base.insert("openai-organization"@, o),
        None => base,
    };
    match project {
        Some(p) => with_org.insert("openai-project"@, p),
        None => with_org,
    }
}

/// Whether the fixed header values are valid.
pub open spec fn fixed_headers_ok(
    api_key: Seq<char>,
    organization: Option<Seq<char>>,
    project: Option<Seq<char>>,
) -> bool {
    &&& is_valid_header_value("Bearer "@ + api_key)
    &&& organization matches Some(o) ==> is_valid_header_value(o)
    &&& project matches Some(p) ==> is_valid_header_value(p)
}

/// Builds the default headers of a client: the fixed ones, then the user's
/// defaults (names normalised to lower case), which replace fixed ones of the
/// same name. An invalid fixed value is a header-value error; an invalid
/// user header is reported as `set_header` reports it.
pub fn build_default_headers(
    api_key: &str,
    organization: &Option<String>,
    project: &Option<String>,
    default_headers: &Option<StringMap>,
) -> (r: Result<StringMap, Error>)
    ensures
        !fixed_headers_ok(api_key@, opt_chars(*organization), opt_chars(*project)) ==> (r matches Err(
            Error::HeaderValue(m),
        ) && m@ == "failed to parse header value"@),
        fixed_headers_ok(api_key@, opt_chars(*organization), opt_chars(*project)) ==> match *default_headers {
            None => r matches Ok(h) && h@ == fixed_headers(
                api_key@,
                opt_chars(*organization),
                opt_chars(*project),
            ),
            Some(d) => match first_bad_header(d.pairs@) {
                None => r matches Ok(h) && h@ == headers_after(
                    fixed_headers(api_key@, opt_chars(*organization), opt_chars(*project)),
                    d.pairs@,
                ),
                Some(i) => r matches Err(e) && is_header_error(e, d.pairs@[i].0@, d.pairs@[i].1@),
            },
        },
{
    let bearer = concat("Bearer ", api_key);
    match header_value_check(bearer.as_str()) {
        Err(m) => {
            return Err(Error::HeaderValue(m));
        },
        Ok(()) => {},
    }
    let mut headers = StringMap::new();
    headers.insert("authorization".to_string(), bearer);
    headers.insert("x-stainless-async".to_string(), "true".to_string());
    headers.insert("content-type".to_string(), "application/json".to_string());
    match organization {
        Some(o) => {
            match header_value_check(o.as_str()) {
                Err(m) => {
                    return Err(Error::HeaderValue(m));
                },
                Ok(()) => {},
            }
            headers.insert("openai-organization".to_string(), o.clone());
        },
        None => {},
    }
    match project {
        Some(p) => {
            match header_value_check(p.as_str()) {
                Err(m) => {
                    return Err(Error::HeaderValue(m));
                },
                Ok(()) => {},
            }
            headers.insert("openai-project".to_string(), p.clone());
        },
        None => {},
    }
    match default_headers {
        Some(d) => match set_headers(&mut headers, d) {
            Err(e) => Err(e),
            Ok(()) => Ok(headers),
        },
        None => Ok(headers),
    }
}

/// Builds request URLs and headers from a client's normalised settings.
#[derive(Debug)]
pub struct Transport {
    /// The normalised base URL (its path ends with a slash).
    pub base_url: String,
    /// Headers of every request.
    pub default_headers: StringMap,
    /// Query parameters of every request.
    pub default_query: StringMap,
    /// Retries after the first attempt.
    pub max_retries: u32,
}

/// The OpenAI client: its transport settings and request timeout.
#[derive(Debug)]
pub struct OpenAI {
    pub transport: Transport,
    pub timeout: Option<Duration>,
}

/// The message of giving both an API key and a workload identity.
pub open spec fn exclusive_credentials_message() -> Seq<char> {
    "The `api_key` and `workload_identity` arguments are mutually exclusive"@
}

/// The message of a missing API key.
pub open spec fn missing_api_key_message() -> Seq<char> {
    "api_key must be provided or OPENAI_API_KEY must be set"@
}

/// The API key in effect: none needed (empty) with a workload identity, else
/// the given one, else that of the environment.
pub open spec fn resolved_api_key(o: ClientOptions, env: ClientEnv) -> Option<Seq<char>> {
    if o.workload_identity is Some {
        Some(Seq::empty())
    } else {
        match o.api_key {
            Some(k) => Some(k@),
            None => opt_chars(env.api_key),
        }
    }
}

/// A setting given in the options, else taken from the environment.
pub open spec fn or_env(given: Option<String>, from_env: Option<String>) -> Option<Seq<char>> {
    match given {
        Some(g) => Some(g@),
        None => opt_chars(from_env),
    }
}

/// The base URL in effect before normalisation.
pub open spec fn resolved_base_url(o: ClientOptions, env: ClientEnv) -> Seq<char> {
    match or_env(o.base_url, env.base_url) {
        Some(u) => u,
        None => default_base_url(),
    }
}

fn or_env_exec(given: &Option<String>, from_env: &Option<String>) -> (r: Option<String>)
    ensures
        opt_chars(r) == or_env(*given, *from_env),
{
    match given {
        Some(g) => Some(g.clone()),
        None => match from_env {
            Some(e) => Some(e.clone()),
            None => None,
        },
    }
}

/// Whether `r` is what creating a client from `o` and `env` gives.
pub open spec fn is_client_outcome(r: Result<OpenAI, Error>, o: ClientOptions, env: ClientEnv) -> bool {
    if o.api_key is Some && o.workload_identity is Some {
        r matches Err(Error::Config(m)) && m@ == exclusive_credentials_message()
    } else {
        match resolved_api_key(o, env) {
            None => r matches Err(Error::Config(m)) && m@ == missing_api_key_message(),
            Some(key) => match spec_normalize_base_url(resolved_base_url(o, env)) {
                Err(m) => r matches Err(Error::Url(x)) && x@ == m,
                Ok(base) => {
                    let org = or_env(o.organization, env.org_id);
                    let project = or_env(o.project, env.project_id);
                    if !fixed_headers_ok(key, org, project) {
                        r matches Err(Error::HeaderValue(m)) && m@ == "failed to parse header value"@
                    } else {
                        match o.default_headers {
                            Some(d) if first_bad_header(d.pairs@) is Some => r matches Err(e)
                                && is_header_error(
                                e,
                                d.pairs@[first_bad_header(d.pairs@).unwrap()].0@,
                                d.pairs@[first_bad_header(d.pairs@).unwrap()].1@,
                            ),
                            _ => r matches Ok(c) && {
                                &&& c.transport.base_url@ == base
                                &&& c.transport.default_headers@ == match o.default_headers {
                                    Some(d) => headers_after(fixed_headers(key, org, project), d.pairs@),
                                    None => fixed_headers(key, org, project),
                                }
                                &&& c.transport.default_query.pairs@ == match o.default_query {
                                    Some(q) => q.pairs@,
                                    None => Seq::<(String, String)>::empty(),
                                }
                                &&& c.transport.default_query@ == match o.default_query {
                                    Some(q) => q@,
                                    None => Map::<Seq<char>, Seq<char>>::empty(),
                                }
                                &&& c.transport.max_retries == o.max_retries
                                &&& c.timeout == Some(match o.timeout {
                                    Some(t) => t,
                                    None => seconds_duration(600),
                                })
                            },
                        }
                    }
                },
            },
        }
    }
}

/// Whether `r` is the client made with API key `key`, default options and
/// the other settings from `env`: the base URL must parse and the fixed
/// headers must be valid; the client keeps two retries and a 600-second
/// timeout.
pub open spec fn is_env_client_outcome(r: Result<OpenAI, Error>, key: Seq<char>, env: ClientEnv) -> bool {
    let org = opt_chars(env.org_id);
    let project = opt_chars(env.project_id);
    match spec_normalize_base_url(
        match env.base_url {
            Some(u) => u@,
            None => default_base_url(),
        },
    ) {
        Err(m) => r matches Err(Error::Url(x)) && x@ == m,
        Ok(base) => if !fixed_headers_ok(key, org, project) {
            r matches Err(Error::HeaderValue(m)) && m@ == "failed to parse header value"@
        } else {
            r matches Ok(c) && {
                &&& c.transport.base_url@ == base
                &&& c.transport.default_headers@ == fixed_headers(key, org, project)
                &&& c.transport.default_query@ == Map::<Seq<char>, Seq<char>>::empty()
                &&& c.transport.max_retries == 2
                &&& c.timeout == Some(seconds_duration(600))
            }
        },
    }
}

impl OpenAI {
    /// Creates a client from options, falling back to the environment (whose
    /// values the caller passes in `env`): the API key, the organization, the
    /// project and the base URL. Giving both an API key and a workload
    /// identity, or no key at all without a workload identity, is a
    /// configuration error; the base URL must parse, and the default headers
    /// must be valid. Without a timeout in the options, requests time out
    /// after 600 seconds.
    pub fn with_options(options: ClientOptions, env: ClientEnv) -> (r: Result<OpenAI, Error>)
        ensures
            is_client_outcome(r, options, env),
    {
        if options.api_key.is_some() && options.workload_identity.is_some() {
            return Err(
                Error::Config(
                    "The `api_key` and `workload_identity` arguments are mutually exclusive".to_string(),
                ),
            );
        }
        let api_key = if options.workload_identity.is_some() {
            String::new()
        } else {
            match &options.api_key {
                Some(k) => k.clone(),
                None => match &env.api_key {
                    Some(k) => k.clone(),
                    None => {
                        return Err(
                            Error::Config(
                                "api_key must be provided or OPENAI_API_KEY must be set".to_string(),
                            ),
                        );
                    },
                },
            }
        };
        let organization = or_env_exec(&options.organization, &env.org_id);
        let project = or_env_exec(&options.project, &env.project_id);
        let base = match or_env_exec(&options.base_url, &env.base_url) {
            Some(u) => u,
            None => "https://api.openai.com/v1".to_string(),
        };
        let base_url = match normalize_base_url(base.as_str()) {
            Ok(u) => u,
            Err(e) => {
                return Err(e);
            },
        };
        let headers = match build_default_headers(
            api_key.as_str(),
            &organization,
            &project,
            &options.default_headers,
        ) {
            Ok(h) => h,
            Err(e) => {
                return Err(e);
            },
        };
        let default_query = match options.default_query {
            Some(q) => q,
            None => {
                let q = StringMap::new();
                assert(q.pairs@ =~= Seq::<(String, String)>::empty());
                q
            },
        };
        let timeout = match options.timeout {
            Some(t) => t,
            None => seconds(600),
        };
        Ok(
            OpenAI {
                transport: Transport {
                    base_url,
                    default_headers: headers,
                    default_query,
                    max_retries: options.max_retries,
                },
                timeout: Some(timeout),
            },
        )
    }

    /// A client with the given API key and default options (the other
    /// settings from `env`).
    pub fn new(api_key: &str, env: ClientEnv) -> (r: Result<OpenAI, Error>)
        ensures
            is_env_client_outcome(r, api_key@, env),
    {
        let mut options = ClientOptions::default();
        options.api_key = Some(api_key.to_string());
        OpenAI::with_options(options, env)
    }

    /// A client configured from the environment alone.
    pub fn from_env(env: ClientEnv) -> (r: Result<OpenAI, Error>)
        ensures
            env.api_key is None ==> (r matches Err(Error::Config(m)) && m@
                == missing_api_key_message()),
            env.api_key matches Some(k) ==> is_env_client_outcome(r, k@, env),
    {
        OpenAI::with_options(ClientOptions::default(), env)
    }

    /// The Responses API.
    pub fn responses(&self) -> Responses {
        Responses
    }

    /// The chat endpoints.
    pub fn chat(&self) -> Chat {
        Chat
    }

    /// The models endpoints.
    pub fn models(&self) -> Models {
        Models
    }

    /// The embeddings endpoint.
    pub fn embeddings(&self) -> Embeddings {
        Embeddings
    }

    /// The files endpoints.
    pub fn files(&self) -> Files {
        Files
    }

    /// The moderations endpoint.
    pub fn moderations(&self) -> Moderations {
        Moderations
    }
}

/// The outcome of joining a relative reference onto a base URL
/// (`url::Url::parse` of the base, then `Url::join`): the joined URL's
/// serialization, or the parser's message.
pub uninterp spec fn joined_url(base: Seq<char>, reference: Seq<char>) -> Result<Seq<char>, Seq<char>>;

/// A joined URL.
pub open spec fn join_ok(u: Seq<char>) -> Result<Seq<char>, Seq<char>> {
    Ok(u)
}

/// A URL parser's message, for a join.
pub open spec fn join_err(m: Seq<char>) -> Result<Seq<char>, Seq<char>> {
    Err(m)
}

/// Joins `reference` onto the URL `base`.
#[verifier::external_body]
fn url_join(base: &str, reference: &str) -> (r: Result<String, String>)
    ensures
        r matches Ok(u) ==> joined_url(base@, reference@) == join_ok(u@),
        r matches Err(m) ==> joined_url(base@, reference@) == join_err(m@),
{
    match url::Url::parse(base).and_then(|u| u.join(reference)) {
        Ok(u) => Ok(u.as_str().to_string()),
        Err(e) => Err(e.to_string()),
    }
}

/// The characters of each pair.
pub open spec fn pairs_chars(pairs: Seq<(String, String)>) -> Seq<(Seq<char>, Seq<char>)> {
    Seq::new(pairs.len(), |i: int| (pairs[i].0@, pairs[i].1@))
}

/// Appending a pair appends its characters.
pub proof fn lemma_pairs_chars_push(s: Seq<(String, String)>, x: (String, String))
    ensures
        pairs_chars(s.push(x)) == pairs_chars(s).push((x.0@, x.1@)),
{
    assert forall|i: int| 0 <= i < s.len() + 1 implies #[trigger] pairs_chars(s.push(x))[i]
        == pairs_chars(s).push((x.0@, x.1@))[i] by {
        if i < s.len() {
            assert(s.push(x)[i] == s[i]);
        }
    }
    assert(pairs_chars(s.push(x)) =~= pairs_chars(s).push((x.0@, x.1@)));
}

/// The outcome of appending form-encoded query pairs to a URL
/// (`url::Url::parse`, then `query_pairs_mut().append_pair` for each pair):
/// the new URL's serialization, or the parser's message.
pub uninterp spec fn url_with_query(url: Seq<char>, pairs: Seq<(Seq<char>, Seq<char>)>) -> Result<
    Seq<char>,
    Seq<char>,
>;

/// Appends the query pairs to the URL `url`, in order.
#[verifier::external_body]
fn url_append_query(url: &str, pairs: &Vec<(String, String)>) -> (r: Result<String, String>)
    ensures
        r matches Ok(u) ==> url_with_query(url@, pairs_chars(pairs@)) == join_ok(u@),
        r matches Err(m) ==> url_with_query(url@, pairs_chars(pairs@)) == join_err(m@),
{
    match url::Url::parse(url) {
        Ok(mut u) => {
            {
                let mut query = u.query_pairs_mut();
                for (k, v) in pairs {
                    query.append_pair(k, v);
                }
            }
            Ok(u.as_str().to_string())
        },
        Err(e) => Err(e.to_string()),
    }
}

/// The URL of a request: the path (without leading slashes) joined onto the
/// base URL, then the default query pairs and the request's query pairs.
pub open spec fn request_url(
    base: Seq<char>,
    path: Seq<char>,
    default_query: Seq<(String, String)>,
    extra_query: Seq<(String, String)>,
) -> Result<Seq<char>, Seq<char>> {
    match joined_url(base, trim_start_char(path, '/')) {
        Err(m) => Err(m),
        Ok(u) => url_with_query(u, pairs_chars(default_query + extra_query)),
    }
}

/// The HTTP methods the client uses.
#[derive(Debug, Clone, Copy, PartialEq, Eq, Structural)]
pub enum HttpMethod {
    Get,
    Post,
    Delete,
}

/// The idempotency key of a request: none for `GET`, else
/// `stainless-rust-retry-` followed by `uuid`.
pub open spec fn spec_idempotency_key(method: HttpMethod, uuid: Seq<char>) -> Option<Seq<char>> {
    if method == HttpMethod::Get {
        None
    } else {
        Some("stainless-rust-retry-"@ + uuid)
    }
}

/// The idempotency key of a request, from a fresh UUID.
pub fn idempotency_key(method: HttpMethod, uuid: &str) -> (r: Option<String>)
    ensures
        opt_chars(r) == spec_idempotency_key(method, uuid@),
{
    if method == HttpMethod::Get {
        None
    } else {
        Some(concat("stainless-rust-retry-", uuid))
    }
}

/// Whether `s` is the lower-case hyphenated text of a version-4 UUID: 36
/// characters, hyphens at 8, 13, 18 and 23, lower-case hexadecimal digits
/// elsewhere, the version digit `4` at 14 and a variant digit of `8`, `9`,
/// `a` or `b` at 19.
pub open spec fn is_uuid_v4_text(s: Seq<char>) -> bool {
    &&& s.len() == 36
    &&& forall|i: int|
        0 <= i < 36 ==> if i == 8 || i == 13 || i == 18 || i == 23 {
            #[trigger] s[i] == '-'
        } else {
            is_lower_hex(s[i])
        }
    &&& s[14] == '4'
    &&& (s[19] == '8' || s[19] == '9' || s[19] == 'a' || s[19] == 'b')
}

/// A random version-4 UUID (`uuid::Uuid::new_v4`) in its `Display` form:
/// the source formats it lower-case and hyphenated, with the version and
/// variant bits set. Which UUID comes out is left open: it is random.
#[verifier::external_body]
fn new_uuid_v4() -> (r: String)
    ensures
        is_uuid_v4_text(r@),
{
    uuid::Uuid::new_v4().to_string()
}

/// A fresh idempotency key for a request: none for `GET`, else
/// `stainless-rust-retry-` followed by a random UUID.
pub fn new_idempotency_key(method: HttpMethod) -> (r: Option<String>)
    ensures
        method == HttpMethod::Get ==> r is None,
        method != HttpMethod::Get ==> (r matches Some(k) && k@.len() == 57 && k@.subrange(0, 21)
            == "stainless-rust-retry-"@ && is_uuid_v4_text(k@.subrange(21, 57))),
{
    if method == HttpMethod::Get {
        None
    } else {
        let uuid = new_uuid_v4();
        proof {
            reveal_strlit("stainless-rust-retry-");
        }
        let key = concat("stainless-rust-retry-", uuid.as_str());
        assert(key@.subrange(0, 21) =~= "stainless-rust-retry-"@);
        assert(key@.subrange(21, 57) =~= uuid@);
        Some(key)
    }
}

/// The retry state of one request: its idempotency key, made once and kept
/// for every attempt, and the number of the current attempt.
#[derive(Debug)]
pub struct RetrySession {
    key: Option<String>,
    attempt: u32,
    max_retries: u32,
}

impl RetrySession {
    /// The request's idempotency key.
    pub closed spec fn spec_key(&self) -> Option<Seq<char>> {
        opt_chars(self.key)
    }

    /// The number of the current attempt, from 0.
    pub closed spec fn spec_attempt(&self) -> u32 {
        self.attempt
    }

    /// The retries allowed after the first attempt.
    pub closed spec fn spec_max_retries(&self) -> u32 {
        self.max_retries
    }

    /// Starts a request: the first attempt, and a fresh idempotency key
    /// unless the method is `GET`.
    pub fn start(method: HttpMethod, max_retries: u32) -> (s: RetrySession)
        ensures
            s.spec_attempt() == 0,
            s.spec_max_retries() == max_retries,
            method == HttpMethod::Get ==> s.spec_key() is None,
            method != HttpMethod::Get ==> (s.spec_key() matches Some(k) && k.len() == 57
                && k.subrange(0, 21) == "stainless-rust-retry-"@ && is_uuid_v4_text(k.subrange(21, 57))),
    {
        RetrySession { key: new_idempotency_key(method), attempt: 0, max_retries }
    }

    /// The idempotency key to send with the current attempt.
    pub fn key(&self) -> (r: Option<&str>)
        ensures
            match r {
                Some(k) => self.spec_key() == Some(k@),
                None => self.spec_key() is None,
            },
    {
        match &self.key {
            Some(k) => Some(k.as_str()),
            None => None,
        }
    }

    /// The number of the current attempt.
    pub fn attempt(&self) -> (r: u32)
        ensures
            r == self.spec_attempt(),
    {
        self.attempt
    }

    /// Decides what follows the current attempt's `outcome`, as
    /// `next_action` does, and moves to the next attempt on a retry. The
    /// idempotency key never changes.
    pub fn after(&mut self, outcome: &AttemptOutcome) -> (a: RetryAction)
        ensures
            a == spec_next_action(old(self).spec_attempt(), old(self).spec_max_retries(), *outcome),
            final(self).spec_key() == old(self).spec_key(),
            final(self).spec_max_retries() == old(self).spec_max_retries(),
            a matches RetryAction::Retry { next_attempt, .. } ==> final(self).spec_attempt() == next_attempt,
            a is Finish ==> final(self).spec_attempt() == old(self).spec_attempt(),
    {
        let a = next_action(self.attempt, self.max_retries, outcome);
        match a {
            RetryAction::Retry { next_attempt, .. } => {
                self.attempt = next_attempt;
            },
            RetryAction::Finish => {},
        }
        a
    }
}

/// The headers of a request: the default headers (without the JSON content
/// type for a multipart body), the idempotency key when there is one, then
/// the request's extra headers.
pub open spec fn request_header_base(
    defaults: Map<Seq<char>, Seq<char>>,
    key: Option<Seq<char>>,
    multipart: bool,
) -> Map<Seq<char>, Seq<char>> {
    let base = if multipart {
        defaults.remove("content-type"@)
    } else {
        defaults
    };
    match key {
        Some(k) => base.insert("idempotency-key"@, k),
        None => base,
    }
}

impl Transport {
    /// The URL of a request to `path`.
    pub fn url(&self, path: &str, options: &RequestOptions) -> (r: Result<String, Error>)
        ensures
            match request_url(
                self.base_url@,
                path@,
                self.default_query.pairs@,
                options.extra_query.pairs@,
            ) {
                Ok(u) => r matches Ok(x) && x@ == u,
                Err(m) => r matches Err(Error::Url(x)) && x@ == m,
            },
    {
        let relative = trim_start_matches_char(path, '/');
        let joined = match url_join(self.base_url.as_str(), relative.as_str()) {
            Ok(u) => u,
            Err(m) => {
                return Err(Error::Url(m));
            },
        };
        let mut pairs: Vec<(String, String)> = Vec::new();
        let mut i: usize = 0;
        while i < self.default_query.pairs.len()
            invariant
                i <= self.default_query.pairs@.len(),
                pairs_chars(pairs@) =~= pairs_chars(self.default_query.pairs@.take(i as int)),
            decreases self.default_query.pairs@.len() - i,
        {
            let k = self.default_query.pairs[i].0.clone();
            let v = self.default_query.pairs[i].1.clone();
            let ghost before = pairs@;
            pairs.push((k, v));
            proof {
                let t = self.default_query.pairs@;
                assert(t.take(i + 1) =~= t.take(i as int).push(t[i as int]));
                lemma_pairs_chars_push(before, (k, v));
                lemma_pairs_chars_push(t.take(i as int), t[i as int]);
            }
            i = i + 1;
        }
        let mut j: usize = 0;
        assert(self.default_query.pairs@.take(self.default_query.pairs@.len() as int)
            =~= self.default_query.pairs@);
        assert(self.default_query.pairs@ + options.extra_query.pairs@.take(0)
            =~= self.default_query.pairs@);
        while j < options.extra_query.pairs.len()
            invariant
                j <= options.extra_query.pairs@.len(),
                pairs_chars(pairs@) =~= pairs_chars(
                    self.default_query.pairs@ + options.extra_query.pairs@.take(j as int),
                ),
            decreases options.extra_query.pairs@.len() - j,
        {
            let k = options.extra_query.pairs[j].0.clone();
            let v = options.extra_query.pairs[j].1.clone();
            let ghost before = pairs@;
            pairs.push((k, v));
            proof {
                let d = self.default_query.pairs@;
                let t = options.extra_query.pairs@;
                assert(d + t.take(j + 1) =~= (d + t.take(j as int)).push(t[j as int]));
                lemma_pairs_chars_push(before, (k, v));
                lemma_pairs_chars_push(d + t.take(j as int), t[j as int]);
            }
            j = j + 1;
        }
        assert(self.default_query.pairs@.take(self.default_query.pairs@.len() as int)
            =~= self.default_query.pairs@);
        assert(options.extra_query.pairs@.take(options.extra_query.pairs@.len() as int)
            =~= options.extra_query.pairs@);
        match url_append_query(joined.as_str(), &pairs) {
            Ok(u) => Ok(u),
            Err(m) => Err(Error::Url(m)),
        }
    }

    /// The headers of a request with the given idempotency key; `multipart`
    /// drops the JSON content type so that the form sets its own. An invalid
    /// key is a header-value error; invalid extra headers are reported as
    /// `set_header` reports them.
    pub fn request_headers(
        &self,
        options: &RequestOptions,
        idempotency_key: Option<&str>,
        multipart: bool,
    ) -> (r: Result<StringMap, Error>)
        ensures
            match idempotency_key {
                Some(k) if !is_valid_header_value(k@) => r matches Err(Error::HeaderValue(m)) && m@
                    == "failed to parse header value"@,
                _ => match first_bad_header(options.extra_headers.pairs@) {
                    None => r matches Ok(h) && h@ == headers_after(
                        request_header_base(
                            self.default_headers@,
                            match idempotency_key {
                                Some(k) => Some(k@),
                                None => None,
                            },
                            multipart,
                        ),
                        options.extra_headers.pairs@,
                    ),
                    Some(i) => r matches Err(e) && is_header_error(
                        e,
                        options.extra_headers.pairs@[i].0@,
                        options.extra_headers.pairs@[i].1@,
                    ),
                },
            },
    {
        let mut headers = self.default_headers.duplicate();
        if multipart {
            let _ = headers.remove("content-type");
        }
        match idempotency_key {
            Some(k) => {
                match header_value_check(k) {
                    Err(m) => {
                        return Err(Error::HeaderValue(m));
                    },
                    Ok(()) => {},
                }
                headers.insert("idempotency-key".to_string(), k.to_string());
            },
            None => {},
        }
        match set_headers(&mut headers, &options.extra_headers) {
            Err(e) => Err(e),
            Ok(()) => Ok(headers),
        }
    }
}

/// Whether no pair of `pairs` names header `name` (names compared in lower
/// case).
pub open spec fn leaves_header(pairs: Seq<(String, String)>, name: Seq<char>) -> bool {
    forall|j: int| 0 <= j < pairs.len() ==> crate::headers::lower_ascii(#[trigger] pairs[j].0@) != name
}

/// The default headers given in the options, as pairs.
pub open spec fn given_default_headers(o: ClientOptions) -> Seq<(String, String)> {
    match o.default_headers {
        Some(d) => d.pairs@,
        None => Seq::empty(),
    }
}

/// The default query given in the options, as pairs.
pub open spec fn given_default_query(o: ClientOptions) -> Seq<(String, String)> {
    match o.default_query {
        Some(q) => q.pairs@,
        None => Seq::empty(),
    }
}

/// Whether the headers `h` of a request carry header `name` with `value`.
pub open spec fn carries(h: Map<Seq<char>, Seq<char>>, name: Seq<char>, value: Seq<char>) -> bool {
    h.contains_key(name) && h[name] == value
}

/// The requests of a client made from options `o` and environment `env`
/// without a workload identity. With `k` the API key of the options or of
/// `OPENAI_API_KEY`, and the organization, project and base URL likewise
/// from the options or `OPENAI_ORG_ID`, `OPENAI_PROJECT_ID`,
/// `OPENAI_BASE_URL` (else the default URL): a request to `path` goes to the
/// normalised base URL joined with `path`, with the default query and then
/// the request's query; it carries `authorization: Bearer k`, and
/// `openai-organization` and `openai-project` when set, each unless the
/// default headers or the request's extra headers name that header; and it
/// is retried at most `max_retries` times.
pub proof fn law_configured_client_requests(
    o: ClientOptions,
    env: ClientEnv,
    c: OpenAI,
    path: Seq<char>,
    request: RequestOptions,
    key: Option<Seq<char>>,
    multipart: bool,
    attempt: u32,
    outcome: AttemptOutcome,
)
    requires
        is_client_outcome(Ok(c), o, env),
        o.workload_identity is None,
    ensures
        resolved_api_key(o, env) matches Some(k) && spec_normalize_base_url(resolved_base_url(o, env))
            matches Ok(base) && {
            let h = headers_after(
                request_header_base(c.transport.default_headers@, key, multipart),
                request.extra_headers.pairs@,
            );
            let defaults = given_default_headers(o);
            let extra = request.extra_headers.pairs@;
            &&& request_url(
                c.transport.base_url@,
                path,
                c.transport.default_query.pairs@,
                request.extra_query.pairs@,
            ) == request_url(base, path, given_default_query(o), request.extra_query.pairs@)
            &&& leaves_header(defaults, "authorization"@) && leaves_header(extra, "authorization"@)
                ==> carries(h, "authorization"@, "Bearer "@ + k)
            &&& or_env(o.organization, env.org_id) matches Some(org) ==> (leaves_header(
                defaults,
                "openai-organization"@,
            ) && leaves_header(extra, "openai-organization"@) ==> carries(h, "openai-organization"@, org))
            &&& or_env(o.project, env.project_id) matches Some(p) ==> (leaves_header(
                defaults,
                "openai-project"@,
            ) && leaves_header(extra, "openai-project"@) ==> carries(h, "openai-project"@, p))
            &&& spec_next_action(attempt, c.transport.max_retries, outcome) is Retry ==> attempt
                < o.max_retries
        },
{
    reveal_strlit("authorization");
    reveal_strlit("openai-organization");
    reveal_strlit("openai-project");
    reveal_strlit("content-type");
    reveal_strlit("idempotency-key");
    reveal_strlit("x-stainless-async");
    assert("authorization"@.len() == 13);
    assert("content-type"@.len() == 12);
    assert("idempotency-key"@.len() == 15);
    assert("openai-organization"@.len() == 19);
    assert("openai-project"@.len() == 14);
    assert("x-stainless-async"@.len() == 17);
    let k = resolved_api_key(o, env)->0;
    let org = or_env(o.organization, env.org_id);
    let project = or_env(o.project, env.project_id);
    let fixed = fixed_headers(k, org, project);
    let defaults = given_default_headers(o);
    let extra = request.extra_headers.pairs@;
    assert(c.transport.default_headers@ == headers_after(fixed, defaults)) by {
        if o.default_headers is None {
            assert(defaults =~= Seq::<(String, String)>::empty());
        }
    }
    let base_map = request_header_base(c.transport.default_headers@, key, multipart);
    if leaves_header(defaults, "authorization"@) && leaves_header(extra, "authorization"@) {
        law_unnamed_defaults_kept(fixed, defaults, "authorization"@);
        law_unnamed_defaults_kept(base_map, extra, "authorization"@);
    }
    if org matches Some(x) {
        if leaves_header(defaults, "openai-organization"@) && leaves_header(extra, "openai-organization"@) {
            law_unnamed_defaults_kept(fixed, defaults, "openai-organization"@);
            law_unnamed_defaults_kept(base_map, extra, "openai-organization"@);
        }
    }
    if project matches Some(x) {
        if leaves_header(defaults, "openai-project"@) && leaves_header(extra, "openai-project"@) {
            law_unnamed_defaults_kept(fixed, defaults, "openai-project"@);
            law_unnamed_defaults_kept(base_map, extra, "openai-project"@);
        }
    }
    crate::retry::law_retries_bounded(attempt, c.transport.max_retries, outcome);
    let base = spec_normalize_base_url(resolved_base_url(o, env))->Ok_0;
    assert(c.transport.base_url@ == base);
    assert(c.transport.default_query.pairs@ == given_default_query(o));
    let h = headers_after(base_map, extra);
    if leaves_header(defaults, "authorization"@) && leaves_header(extra, "authorization"@) {
        assert(fixed.contains_key("authorization"@));
        assert(carries(base_map, "authorization"@, "Bearer "@ + k));
        assert(carries(h, "authorization"@, "Bearer "@ + k));
    }
    assert(c.transport.max_retries == o.max_retries);
}

} // verus!
