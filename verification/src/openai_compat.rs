//! The compact OpenAI client: its configuration, per-request options, the
//! plan of each HTTP request, list parameters and pages, path segments, and
//! the redaction of secrets from logged JSON.

use vstd::prelude::*;
use core::time::Duration;
use crate::error::Error;
use crate::headers::{header_value_check, is_valid_header_value, set_header, header_ok, is_header_error, lower_ascii};
use crate::json::{JsonValue, JsonView, jview, items_view, members_view, lemma_jview_array, lemma_jview_object};
use crate::provider::concat;
use crate::strmap::StringMap;
use crate::compat_params::ChatCompletionCreateParams;
use crate::compat_resources::{
    AudioResource, BatchesResource, BetaResource, CompatCall, CompletionsResource, ContainersResource,
    ConversationsResource, EmbeddingsResource, EvalsResource, FilesResource, FineTuningResource,
    ImagesResource, ModelsResource, ModerationsResource, RealtimeResource, ResponsesResource,
    SkillsResource, UploadsResource, VectorStoresResource, chat_completion_call, chat_create_call,
};
use crate::webhook::{verify_webhook_signature, provided_signature, spec_webhook_signature};
use crate::text::{opt_chars, str_eq, trim_end_char, trim_end_matches_char, decimal, u64_to_decimal};

verus! {

/// The default base URL of the compact client.
pub open spec fn compat_default_base_url() -> Seq<char> {
    "https://api.openai.com/v1"@
}

/// Configuration of the compact client.
#[derive(Debug)]
pub struct OpenAIConfig {
    pub api_key: String,
    pub base_url: String,
    pub organization: Option<String>,
    pub project: Option<String>,
    pub timeout: Option<Duration>,
    pub max_retries: u32,
    pub default_headers: StringMap,
    pub default_query: Vec<(String, String)>,
}

/// The values of `OPENAI_API_KEY`, `OPENAI_BASE_URL`, `OPENAI_ORG_ID` and
/// `OPENAI_PROJECT_ID`.
#[derive(Debug, Clone)]
pub struct CompatEnv {
    pub api_key: Option<String>,
    pub base_url: Option<String>,
    pub org_id: Option<String>,
    pub project_id: Option<String>,
}

/// Whether `c` holds the key, base URL, organization and project given and
/// the defaults for the rest: no timeout, two retries, no default headers
/// and no default query.
pub open spec fn is_config_with(
    c: OpenAIConfig,
    key: Seq<char>,
    base_url: Seq<char>,
    organization: Option<Seq<char>>,
    project: Option<Seq<char>>,
) -> bool {
    &&& c.api_key@ == key
    &&& c.base_url@ == base_url
    &&& opt_chars(c.organization) == organization
    &&& opt_chars(c.project) == project
    &&& c.timeout is None
    &&& c.max_retries == 2
    &&& c.default_headers.pairs@.len() == 0
    &&& c.default_headers@ == Map::<Seq<char>, Seq<char>>::empty()
    &&& c.default_query@.len() == 0
}

/// The base URL that the environment gives: `OPENAI_BASE_URL`, else the
/// official one.
pub open spec fn env_base_url(env: CompatEnv) -> Seq<char> {
    match env.base_url {
        Some(u) => u@,
        None => compat_default_base_url(),
    }
}

impl OpenAIConfig {
    /// A configuration with the given key and the defaults: the official
    /// base URL and two retries.
    pub fn new(api_key: &str) -> (c: OpenAIConfig)
        ensures
            c.api_key@ == api_key@,
            c.base_url@ == compat_default_base_url(),
            c.organization is None,
            c.project is None,
            c.timeout is None,
            c.max_retries == 2,
            c.default_headers@ == Map::<Seq<char>, Seq<char>>::empty(),
            c.default_query@.len() == 0,
            is_config_with(c, api_key@, compat_default_base_url(), None, None),
    {
        OpenAIConfig {
            api_key: api_key.to_string(),
            base_url: "https://api.openai.com/v1".to_string(),
            organization: None,
            project: None,
            timeout: None,
            max_retries: 2,
            default_headers: StringMap::new(),
            default_query: Vec::new(),
        }
    }

    /// A configuration from the environment: the key (required), the base
    /// URL (else the default), the organization and the project.
    pub fn from_env(env: CompatEnv) -> (r: Result<OpenAIConfig, Error>)
        ensures
            env.api_key is None ==> (r matches Err(Error::MissingEnv(m)) && m@ == "OPENAI_API_KEY"@),
            env.api_key matches Some(k) ==> (r matches Ok(c) && c.api_key@ == k@ && c.base_url@
                == match env.base_url {
                Some(u) => u@,
                None => compat_default_base_url(),
            } && opt_chars(c.organization) == opt_chars(env.org_id) && opt_chars(c.project)
                == opt_chars(env.project_id) && c.max_retries == 2),
            env.api_key matches Some(k) ==> (r matches Ok(c) && is_config_with(
                c,
                k@,
                env_base_url(env),
                opt_chars(env.org_id),
                opt_chars(env.project_id),
            )),
    {
        let api_key = match env.api_key {
            Some(k) => k,
            None => {
                return Err(Error::MissingEnv("OPENAI_API_KEY".to_string()));
            },
        };
        let mut config = OpenAIConfig::new(api_key.as_str());
        match env.base_url {
            Some(u) => {
                config.base_url = u;
            },
            None => {},
        }
        config.organization = env.org_id;
        config.project = env.project_id;
        Ok(config)
    }

    /// The configuration with another base URL.
    pub fn with_base_url(self, base_url: &str) -> (c: OpenAIConfig)
        ensures
            c.base_url@ == base_url@,
            c == (OpenAIConfig { base_url: c.base_url, ..self }),
    {
        let mut c = self;
        c.base_url = base_url.to_string();
        c
    }

    /// The configuration with an organization.
    pub fn with_organization(self, organization: &str) -> (c: OpenAIConfig)
        ensures
            opt_chars(c.organization) == Some(organization@),
            c == (OpenAIConfig { organization: c.organization, ..self }),
    {
        let mut c = self;
        c.organization = Some(organization.to_string());
        c
    }

    /// The configuration with a project.
    pub fn with_project(self, project: &str) -> (c: OpenAIConfig)
        ensures
            opt_chars(c.project) == Some(project@),
            c == (OpenAIConfig { project: c.project, ..self }),
    {
        let mut c = self;
        c.project = Some(project.to_string());
        c
    }

    /// The configuration with a timeout.
    pub fn with_timeout(self, timeout: Duration) -> (c: OpenAIConfig)
        ensures
            c.timeout == Some(timeout),
            c == (OpenAIConfig { timeout: c.timeout, ..self }),
    {
        let mut c = self;
        c.timeout = Some(timeout);
        c
    }

    /// The configuration with another retry count.
    pub fn with_max_retries(self, max_retries: u32) -> (c: OpenAIConfig)
        ensures
            c.max_retries == max_retries,
            c == (OpenAIConfig { max_retries: c.max_retries, ..self }),
    {
        let mut c = self;
        c.max_retries = max_retries;
        c
    }

    /// The configuration with a default header (its name in lower case,
    /// replacing one of that name); an invalid name or value is an error.
    pub fn with_default_header(self, name: &str, value: &str) -> (r: Result<OpenAIConfig, Error>)
        ensures
            header_ok(name@, value@) ==> (r matches Ok(c) && c.default_headers@
                == self.default_headers@.insert(lower_ascii(name@), value@) && c == (OpenAIConfig {
                default_headers: c.default_headers,
                ..self
            })),
            !header_ok(name@, value@) ==> (r matches Err(e) && is_header_error(e, name@, value@)),
    {
        let mut c = self;
        match set_header(&mut c.default_headers, name, value) {
            Ok(()) => Ok(c),
            Err(e) => Err(e),
        }
    }

    /// The configuration with a default query pair appended.
    pub fn with_default_query(self, name: &str, value: &str) -> (c: OpenAIConfig)
        ensures
            c.default_query@.len() == self.default_query@.len() + 1,
            c.default_query@.drop_last() == self.default_query@,
            c.default_query@.last().0@ == name@,
            c.default_query@.last().1@ == value@,
            c == (OpenAIConfig { default_query: c.default_query, ..self }),
    {
        let mut c = self;
        let ghost before = c.default_query@;
        c.default_query.push((name.to_string(), value.to_string()));
        assert(c.default_query@.drop_last() =~= before);
        c
    }
}

/// Per-request options of the compact client.
#[derive(Debug)]
pub struct RequestOptions {
    pub headers: StringMap,
    pub query: Vec<(String, String)>,
    pub idempotency_key: Option<String>,
}

impl RequestOptions {
    /// No options.
    pub fn new() -> (o: RequestOptions)
        ensures
            o.headers@ == Map::<Seq<char>, Seq<char>>::empty(),
            o.headers.pairs@.len() == 0,
            o.query@.len() == 0,
            o.idempotency_key is None,
    {
        RequestOptions { headers: StringMap::new(), query: Vec::new(), idempotency_key: None }
    }

    /// The options with a header (its name in lower case, replacing one of
    /// that name); an invalid name or value is an error.
    pub fn with_header(self, name: &str, value: &str) -> (r: Result<RequestOptions, Error>)
        ensures
            header_ok(name@, value@) ==> (r matches Ok(o) && o.headers@ == self.headers@.insert(
                lower_ascii(name@),
                value@,
            ) && o.query == self.query && o.idempotency_key == self.idempotency_key),
            !header_ok(name@, value@) ==> (r matches Err(e) && is_header_error(e, name@, value@)),
    {
        let mut o = self;
        match set_header(&mut o.headers, name, value) {
            Ok(()) => Ok(o),
            Err(e) => Err(e),
        }
    }

    /// The options with a query pair appended.
    pub fn with_query(self, name: &str, value: &str) -> (o: RequestOptions)
        ensures
            o.query@.len() == self.query@.len() + 1,
            o.query@.drop_last() == self.query@,
            o.query@.last().0@ == name@,
            o.query@.last().1@ == value@,
            o.headers == self.headers,
            o.idempotency_key == self.idempotency_key,
    {
        let mut o = self;
        let ghost before = o.query@;
        o.query.push((name.to_string(), value.to_string()));
        assert(o.query@.drop_last() =~= before);
        o
    }

    /// The options with an idempotency key.
    pub fn with_idempotency_key(self, key: &str) -> (o: RequestOptions)
        ensures
            opt_chars(o.idempotency_key) == Some(key@),
            o.headers == self.headers,
            o.query == self.query,
    {
        let mut o = self;
        o.idempotency_key = Some(key.to_string());
        o
    }
}

/// The escaped form of a character in a path segment.
pub open spec fn segment_char(c: char) -> Seq<char> {
    if c == '%' {
        "%25"@
    } else if c == '/' {
        "%2F"@
    } else if c == ' ' {
        "%20"@
    } else if c == '#' {
        "%23"@
    } else if c == '?' {
        "%3F"@
    } else {
        seq![c]
    }
}

/// A value escaped for use as one path segment: `%`, `/`, space, `#` and
/// `?` are percent-encoded, other characters kept.
pub open spec fn spec_path_segment(s: Seq<char>) -> Seq<char>
    decreases s.len(),
{
    if s.len() == 0 {
        Seq::empty()
    } else {
        spec_path_segment(s.drop_last()) + segment_char(s.last())
    }
}

/// Escapes a value for use as one path segment.
pub fn path_segment(value: &str) -> (r: String)
    ensures
        r@ == spec_path_segment(value@),
{
    let chars = crate::text::chars_of(value);
    let mut out: Vec<char> = Vec::new();
    let mut i: usize = 0;
    while i < chars.len()
        invariant
            i <= chars@.len(),
            chars@ == value@,
            out@ == spec_path_segment(chars@.take(i as int)),
        decreases chars@.len() - i,
    {
        let c = chars[i];
        assert(chars@.take(i + 1).drop_last() =~= chars@.take(i as int));
        proof {
            reveal_strlit("%25");
            reveal_strlit("%2F");
            reveal_strlit("%20");
            reveal_strlit("%23");
            reveal_strlit("%3F");
        }
        let ghost before = out@;
        if c == '%' {
            out.push('%');
            out.push('2');
            out.push('5');
        } else if c == '/' {
            out.push('%');
            out.push('2');
            out.push('F');
        } else if c == ' ' {
            out.push('%');
            out.push('2');
            out.push('0');
        } else if c == '#' {
            out.push('%');
            out.push('2');
            out.push('3');
        } else if c == '?' {
            out.push('%');
            out.push('3');
            out.push('F');
        } else {
            out.push(c);
        }
        assert(out@ =~= before + segment_char(c));
        i = i + 1;
    }
    assert(chars@.take(chars@.len() as int) =~= chars@);
    crate::text::string_from_chars(&out)
}

/// The path of an item of a collection: the collection's path, a slash and
/// the escaped id.
pub fn resource_item_path(base: &str, id: &str) -> (r: String)
    ensures
        r@ == base@ + "/"@ + spec_path_segment(id@),
{
    let mut p = base.to_string();
    p.append("/");
    let seg = path_segment(id);
    p.append(seg.as_str());
    p
}

/// Whether a JSON key names a secret (compared in ASCII lower case).
pub open spec fn spec_is_sensitive_key(key: Seq<char>) -> bool {
    let k = lower_ascii(key);
    ||| k == "api_key"@
    ||| k == "apikey"@
    ||| k == "authorization"@
    ||| k == "token"@
    ||| k == "access_token"@
    ||| k == "refresh_token"@
    ||| k == "password"@
    ||| k == "secret"@
}

fn lower_ascii_string(s: &str) -> (r: String)
    ensures
        r@ == lower_ascii(s@),
{
    let chars = crate::text::chars_of(s);
    let mut out: Vec<char> = Vec::new();
    let mut i: usize = 0;
    while i < chars.len()
        invariant
            i <= chars@.len(),
            chars@ == s@,
            out@ =~= lower_ascii(s@).take(i as int),
        decreases chars@.len() - i,
    {
        let c = chars[i];
        let l = if 'A' <= c && c <= 'Z' {
            ((c as u32) + 32) as u8 as char
        } else {
            c
        };
        assert(l == crate::headers::lower_char(c));
        out.push(l);
        i = i + 1;
    }
    crate::text::string_from_chars(&out)
}

/// Whether a JSON key names a secret.
pub fn is_sensitive_key(key: &str) -> (r: bool)
    ensures
        r == spec_is_sensitive_key(key@),
{
    let k = lower_ascii_string(key);
    let s = k.as_str();
    str_eq(s, "api_key") || str_eq(s, "apikey") || str_eq(s, "authorization") || str_eq(s, "token")
        || str_eq(s, "access_token") || str_eq(s, "refresh_token") || str_eq(s, "password")
        || str_eq(s, "secret")
}

/// A JSON document with the values of secret-named members, at any depth,
/// replaced by the string `<redacted>`.
pub open spec fn redact_view(v: JsonView) -> JsonView
    decreases v,
{
    match v {
        JsonView::Object(ms) => JsonView::Object(
            Seq::new(
                ms.len(),
                |i: int|
                    if 0 <= i < ms.len() {
                        (
                            ms[i].0,
                            if spec_is_sensitive_key(ms[i].0) {
                                JsonView::String("<redacted>"@)
                            } else {
                                redact_view(ms[i].1)
                            },
                        )
                    } else {
                        (Seq::empty(), JsonView::Null)
                    },
            ),
        ),
        JsonView::Array(xs) => JsonView::Array(
            Seq::new(xs.len(), |i: int| if 0 <= i < xs.len() { redact_view(xs[i]) } else { JsonView::Null }),
        ),
        _ => v,
    }
}

/// A member with its value redacted.
pub open spec fn redact_member(m: (Seq<char>, JsonView)) -> (Seq<char>, JsonView) {
    (
        m.0,
        if spec_is_sensitive_key(m.0) {
            JsonView::String("<redacted>"@)
        } else {
            redact_view(m.1)
        },
    )
}

proof fn lemma_redact_array(items: Seq<JsonValue>)
    ensures
        redact_view(JsonView::Array(items_view(items))) == JsonView::Array(
            Seq::new(items.len(), |j: int| redact_view(jview(items[j]))),
        ),
{
    let r = redact_view(JsonView::Array(items_view(items)));
    assert(r->Array_0 =~= Seq::new(items.len(), |j: int| redact_view(jview(items[j]))));
}

proof fn lemma_redact_object(ms: Seq<(String, JsonValue)>)
    ensures
        redact_view(JsonView::Object(members_view(ms))) == JsonView::Object(
            Seq::new(ms.len(), |j: int| redact_member((ms[j].0@, jview(ms[j].1)))),
        ),
{
    let r = redact_view(JsonView::Object(members_view(ms)));
    assert(r->Object_0 =~= Seq::new(ms.len(), |j: int| redact_member((ms[j].0@, jview(ms[j].1)))));
}

/// A copy of a JSON document with the values of secret-named members
/// replaced by `<redacted>`.
pub fn redact_json(v: &JsonValue) -> (r: JsonValue)
    ensures
        jview(r) == redact_view(jview(*v)),
    decreases v,
{
    match v {
        JsonValue::Array(items) => {
            let mut out: Vec<JsonValue> = Vec::new();
            let mut i: usize = 0;
            while i < items.len()
                invariant
                    i <= items@.len(),
                    *v == JsonValue::Array(*items),
                    items_view(out@) =~= Seq::new(i as nat, |j: int| redact_view(jview(items@[j]))),
                decreases items@.len() - i,
            {
                proof {
                    let ghost arr = JsonValue::Array(*items);
                    assert(decreases_to!(arr => arr->Array_0));
                    vstd::std_specs::vec::axiom_vec_index_decreases(*items, i as int);
                }
                let c = redact_json(&items[i]);
                let ghost before = out@;
                out.push(c);
                proof {
                    crate::json::lemma_items_view_push(before, c);
                    assert(items_view(out@) =~= Seq::new((i + 1) as nat, |j: int| redact_view(jview(items@[j]))));
                }
                i = i + 1;
            }
            proof {
                lemma_jview_array(out);
                lemma_jview_array(*items);
                lemma_redact_array(items@);
            }
            JsonValue::Array(out)
        },
        JsonValue::Object(members) => {
            let mut out: Vec<(String, JsonValue)> = Vec::new();
            let mut i: usize = 0;
            while i < members.len()
                invariant
                    i <= members@.len(),
                    *v == JsonValue::Object(*members),
                    members_view(out@) =~= Seq::new(
                        i as nat,
                        |j: int| redact_member((members@[j].0@, jview(members@[j].1))),
                    ),
                decreases members@.len() - i,
            {
                proof {
                    let ghost obj = JsonValue::Object(*members);
                    assert(decreases_to!(obj => obj->Object_0));
                    vstd::std_specs::vec::axiom_vec_index_decreases(*members, i as int);
                    assert(decreases_to!(members[i as int] => members[i as int].1));
                }
                let value = if is_sensitive_key(members[i].0.as_str()) {
                    crate::json::json_string("<redacted>")
                } else {
                    redact_json(&members[i].1)
                };
                let k = members[i].0.clone();
                let ghost before = out@;
                out.push((k, value));
                proof {
                    crate::json::lemma_members_view_push(before, (k, value));
                    assert(members_view(out@) =~= Seq::new(
                        (i + 1) as nat,
                        |j: int| redact_member((members@[j].0@, jview(members@[j].1))),
                    ));
                }
                i = i + 1;
            }
            proof {
                lemma_jview_object(out);
                lemma_jview_object(*members);
                lemma_redact_object(members@);
            }
            JsonValue::Object(out)
        },
        _ => crate::json::json_clone(v),
    }
}

/// The value of the authorization header: `Bearer ` and the key, which must
/// be a valid header value.
pub fn bearer_header_value(api_key: &str) -> (r: Result<String, Error>)
    ensures
        is_valid_header_value("Bearer "@ + api_key@) ==> (r matches Ok(v) && v@ == "Bearer "@
            + api_key@),
        !is_valid_header_value("Bearer "@ + api_key@) ==> (r matches Err(Error::InvalidHeader(m))
            && m@ == "failed to parse header value"@),
{
    let value = concat("Bearer ", api_key);
    match header_value_check(value.as_str()) {
        Ok(()) => Ok(value),
        Err(m) => Err(Error::InvalidHeader(m)),
    }
}

/// What an HTTP request of the compact client is made of: the URL, the
/// headers in the order they are added, and the query pairs in order.
#[derive(Debug)]
pub struct RequestPlan {
    pub url: String,
    pub headers: Vec<(String, String)>,
    pub query: Vec<(String, String)>,
}

/// One pair, or none.
pub open spec fn pair_if(present: bool, k: Seq<char>, v: Seq<char>) -> Seq<(Seq<char>, Seq<char>)> {
    if present {
        seq![(k, v)]
    } else {
        seq![]
    }
}

/// The headers of a request: the bearer token, the configured defaults, the
/// request's headers, then organization, project and idempotency key when
/// set.
pub open spec fn plan_headers(config: OpenAIConfig, options: RequestOptions) -> Seq<
    (Seq<char>, Seq<char>),
> {
    seq![("authorization"@, "Bearer "@ + config.api_key@)] + crate::client::pairs_chars(
        config.default_headers.pairs@,
    ) + crate::client::pairs_chars(options.headers.pairs@) + pair_if(
        config.organization is Some,
        "OpenAI-Organization"@,
        config.organization.unwrap()@,
    ) + pair_if(config.project is Some, "OpenAI-Project"@, config.project.unwrap()@) + pair_if(
        options.idempotency_key is Some,
        "Idempotency-Key"@,
        options.idempotency_key.unwrap()@,
    )
}

fn append_pairs(out: &mut Vec<(String, String)>, pairs: &Vec<(String, String)>)
    ensures
        crate::client::pairs_chars(final(out)@) == crate::client::pairs_chars(old(out)@)
            + crate::client::pairs_chars(pairs@),
{
    let ghost start = out@;
    let mut i: usize = 0;
    while i < pairs.len()
        invariant
            i <= pairs@.len(),
            crate::client::pairs_chars(out@) =~= crate::client::pairs_chars(start)
                + crate::client::pairs_chars(pairs@.take(i as int)),
        decreases pairs@.len() - i,
    {
        let k = pairs[i].0.clone();
        let v = pairs[i].1.clone();
        let ghost before = out@;
        out.push((k, v));
        proof {
            assert(pairs@.take(i + 1) =~= pairs@.take(i as int).push(pairs@[i as int]));
            crate::client::lemma_pairs_chars_push(before, (k, v));
            crate::client::lemma_pairs_chars_push(pairs@.take(i as int), pairs@[i as int]);
        }
        i = i + 1;
    }
    assert(pairs@.take(pairs@.len() as int) =~= pairs@);
}

fn push_pair(out: &mut Vec<(String, String)>, k: &str, v: &str)
    ensures
        crate::client::pairs_chars(final(out)@) == crate::client::pairs_chars(old(out)@).push(
            (k@, v@),
        ),
{
    let key = k.to_string();
    let value = v.to_string();
    let ghost before = out@;
    out.push((key, value));
    proof {
        crate::client::lemma_pairs_chars_push(before, (key, value));
    }
}

/// Plans a request to `path` with the given serialized query: the URL is the
/// base URL without trailing slashes followed by the path; the query pairs
/// are the configured defaults, the request's, then `query`. A key that is
/// no valid header value is an error.
pub fn build_request(
    config: &OpenAIConfig,
    path: &str,
    options: &RequestOptions,
    query: &Vec<(String, String)>,
) -> (r: Result<RequestPlan, Error>)
    ensures
        !is_valid_header_value("Bearer "@ + config.api_key@) ==> (r matches Err(
            Error::InvalidHeader(m),
        ) && m@ == "failed to parse header value"@),
        is_valid_header_value("Bearer "@ + config.api_key@) ==> (r matches Ok(plan) && {
            &&& plan.url@ == trim_end_char(config.base_url@, '/') + path@
            &&& crate::client::pairs_chars(plan.headers@) == plan_headers(*config, *options)
            &&& crate::client::pairs_chars(plan.query@) == crate::client::pairs_chars(
                config.default_query@,
            ) + crate::client::pairs_chars(options.query@) + crate::client::pairs_chars(query@)
        }),
{
    let bearer = match bearer_header_value(config.api_key.as_str()) {
        Ok(b) => b,
        Err(e) => {
            return Err(e);
        },
    };
    let mut url = trim_end_matches_char(config.base_url.as_str(), '/');
    url.append(path);
    let mut headers: Vec<(String, String)> = Vec::new();
    push_pair(&mut headers, "authorization", bearer.as_str());
    assert(crate::client::pairs_chars(Seq::<(String, String)>::empty()) =~= Seq::empty());
    append_pairs(&mut headers, &config.default_headers.pairs);
    append_pairs(&mut headers, &options.headers.pairs);
    let ghost h0 = crate::client::pairs_chars(headers@);
    match &config.organization {
        Some(o) => push_pair(&mut headers, "OpenAI-Organization", o.as_str()),
        None => {},
    }
    let ghost h1 = crate::client::pairs_chars(headers@);
    assert(h1 =~= h0 + pair_if(config.organization is Some, "OpenAI-Organization"@, config.organization.unwrap()@));
    match &config.project {
        Some(p) => push_pair(&mut headers, "OpenAI-Project", p.as_str()),
        None => {},
    }
    let ghost h2 = crate::client::pairs_chars(headers@);
    assert(h2 =~= h1 + pair_if(config.project is Some, "OpenAI-Project"@, config.project.unwrap()@));
    match &options.idempotency_key {
        Some(k) => push_pair(&mut headers, "Idempotency-Key", k.as_str()),
        None => {},
    }
    let ghost h3 = crate::client::pairs_chars(headers@);
    assert(h3 =~= h2 + pair_if(options.idempotency_key is Some, "Idempotency-Key"@, options.idempotency_key.unwrap()@));
    let mut q: Vec<(String, String)> = Vec::new();
    append_pairs(&mut q, &config.default_query);
    append_pairs(&mut q, &options.query);
    append_pairs(&mut q, query);
    Ok(RequestPlan { url, headers, query: q })
}

/// Page parameters of a list call.
#[derive(Debug, Clone, Default)]
pub struct ListParams {
    pub after: Option<String>,
    pub before: Option<String>,
    pub limit: Option<u32>,
    pub order: Option<String>,
}

/// The query pairs of page parameters: `after`, `before`, `limit` and
/// `order`, each when set, in that order.
pub open spec fn list_params_pairs(p: ListParams) -> Seq<(Seq<char>, Seq<char>)> {
    pair_if(p.after is Some, "after"@, p.after.unwrap()@) + pair_if(
        p.before is Some,
        "before"@,
        p.before.unwrap()@,
    ) + pair_if(p.limit is Some, "limit"@, decimal(p.limit.unwrap() as nat)) + pair_if(
        p.order is Some,
        "order"@,
        p.order.unwrap()@,
    )
}

impl ListParams {
    /// The query pairs of the parameters.
    pub fn query_pairs(&self) -> (r: Vec<(String, String)>)
        ensures
            crate::client::pairs_chars(r@) == list_params_pairs(*self),
    {
        let mut out: Vec<(String, String)> = Vec::new();
        assert(crate::client::pairs_chars(Seq::<(String, String)>::empty()) =~= Seq::empty());
        let ghost p0 = crate::client::pairs_chars(out@);
        match &self.after {
            Some(a) => push_pair(&mut out, "after", a.as_str()),
            None => {},
        }
        let ghost p1 = crate::client::pairs_chars(out@);
        assert(p1 =~= p0 + pair_if(self.after is Some, "after"@, self.after.unwrap()@));
        match &self.before {
            Some(b) => push_pair(&mut out, "before", b.as_str()),
            None => {},
        }
        let ghost p2 = crate::client::pairs_chars(out@);
        assert(p2 =~= p1 + pair_if(self.before is Some, "before"@, self.before.unwrap()@));
        match self.limit {
            Some(l) => {
                let text = u64_to_decimal(l as u64);
                push_pair(&mut out, "limit", text.as_str());
            },
            None => {},
        }
        let ghost p3 = crate::client::pairs_chars(out@);
        assert(p3 =~= p2 + pair_if(self.limit is Some, "limit"@, decimal(self.limit.unwrap() as nat)));
        match &self.order {
            Some(o) => push_pair(&mut out, "order", o.as_str()),
            None => {},
        }
        let ghost p4 = crate::client::pairs_chars(out@);
        assert(p4 =~= p3 + pair_if(self.order is Some, "order"@, self.order.unwrap()@));
        out
    }
}

/// Parameters of listing files: the page and an optional purpose.
#[derive(Debug, Clone, Default)]
pub struct FileListParams {
    pub page: ListParams,
    pub purpose: Option<String>,
}

impl FileListParams {
    /// The query pairs: the page's, then `purpose` when set.
    pub fn query_pairs(&self) -> (r: Vec<(String, String)>)
        ensures
            crate::client::pairs_chars(r@) == list_params_pairs(self.page) + pair_if(
                self.purpose is Some,
                "purpose"@,
                self.purpose.unwrap()@,
            ),
    {
        let mut out = self.page.query_pairs();
        let ghost p0 = crate::client::pairs_chars(out@);
        match &self.purpose {
            Some(p) => push_pair(&mut out, "purpose", p.as_str()),
            None => {},
        }
        assert(crate::client::pairs_chars(out@) =~= p0 + pair_if(
            self.purpose is Some,
            "purpose"@,
            self.purpose.unwrap()@,
        ));
        out
    }
}

/// A page of a list response.
#[derive(Debug, Clone)]
pub struct ListPage<T> {
    pub object: String,
    pub data: Vec<T>,
    pub first_id: Option<String>,
    pub last_id: Option<String>,
    pub has_more: bool,
}

/// The answer to a delete call.
#[derive(Debug, Clone, PartialEq, Eq)]
pub struct DeletedObject {
    pub id: String,
    pub object: String,
    pub deleted: bool,
}

/// An image given by URL in a chat message.
#[derive(Debug, Clone, PartialEq, Eq)]
pub struct ImageUrl {
    pub url: String,
    pub detail: Option<String>,
}

/// A tool call made by the model.
#[derive(Debug, Clone, PartialEq, Eq)]
pub struct ChatToolCall {
    pub id: String,
    pub call_type: String,
    pub function: FunctionCall,
}

/// The function and arguments of a tool call.
#[derive(Debug, Clone, PartialEq, Eq)]
pub struct FunctionCall {
    pub name: String,
    pub arguments: String,
}

/// An event of a realtime session.
#[derive(Debug)]
pub struct RealtimeEvent {
    pub event_type: String,
    pub data: Vec<(String, JsonValue)>,
}

/// A realtime session; this build has no websocket transport, so every
/// operation on it fails.
#[derive(Debug)]
pub struct RealtimeConnection;

/// The message of a realtime operation without a connection.
pub open spec fn not_connected_message() -> Seq<char> {
    "websocket transport is not connected"@
}

impl RealtimeConnection {
    /// Sends an event: not available without a connection.
    pub fn send(&mut self, event: &RealtimeEvent) -> (r: Result<(), Error>)
        ensures
            r matches Err(Error::Unsupported(m)) && m@ == not_connected_message(),
    {
        Err(Error::Unsupported("websocket transport is not connected".to_string()))
    }

    /// Receives the next event: not available without a connection.
    pub fn next(&mut self) -> (r: Result<Option<RealtimeEvent>, Error>)
        ensures
            r matches Err(Error::Unsupported(m)) && m@ == not_connected_message(),
    {
        Err(Error::Unsupported("websocket transport is not connected".to_string()))
    }
}

/// Opening a realtime session: not available in this build.
pub fn realtime_connect(model: &str) -> (r: Result<RealtimeConnection, Error>)
    ensures
        r matches Err(Error::Unsupported(m)) && m@
            == "websocket transport is modeled but not enabled in this minimal build"@,
{
    Err(
        Error::Unsupported(
            "websocket transport is modeled but not enabled in this minimal build".to_string(),
        ),
    )
}

/// The chat-completions endpoint of the compact client.
#[derive(Debug, Clone, Copy)]
pub struct ChatCompletionsResource;

impl ChatCompletionsResource {
    /// Creates a chat completion: `stream` is not sent.
    pub fn create(&self, params: &ChatCompletionCreateParams) -> (c: CompatCall)
        ensures
            chat_create_call(c, *params, false),
    {
        chat_completion_call(params, false)
    }

    /// Creates a streamed chat completion: `stream` is sent as true.
    pub fn create_stream(&self, params: &ChatCompletionCreateParams) -> (c: CompatCall)
        ensures
            chat_create_call(c, *params, true),
    {
        chat_completion_call(params, true)
    }
}

/// The chat endpoints of the compact client.
#[derive(Debug, Clone, Copy)]
pub struct ChatResource {
    pub completions: ChatCompletionsResource,
}

impl ChatResource {
    /// The chat endpoints.
    pub fn new() -> ChatResource {
        ChatResource { completions: ChatCompletionsResource }
    }
}

/// The value of header `first`, else of header `second`, in a map of
/// lower-case header names.
pub open spec fn header_of(headers: Map<Seq<char>, Seq<char>>, first: Seq<char>, second: Seq<char>) -> Option<Seq<char>> {
    if headers.contains_key(first) {
        Some(headers[first])
    } else if headers.contains_key(second) {
        Some(headers[second])
    } else {
        None
    }
}

fn header_either<'a>(headers: &'a StringMap, first: &str, second: &str) -> (r: Option<&'a str>)
    ensures
        match r {
            Some(v) => header_of(headers@, first@, second@) == Some(v@),
            None => header_of(headers@, first@, second@) is None,
        },
{
    match headers.get(first) {
        Some(v) => Some(v.as_str()),
        None => match headers.get(second) {
            Some(v) => Some(v.as_str()),
            None => None,
        },
    }
}

/// The webhook endpoints of the compact client.
#[derive(Debug, Clone, Copy)]
pub struct WebhooksResource;

impl WebhooksResource {
    /// Checks a webhook delivery against the secret. `headers` holds the
    /// delivery's readable headers under lower-case names; the signature is
    /// taken from `webhook-signature` (else `openai-signature`) and the
    /// timestamp from `webhook-timestamp` (else `openai-timestamp`).
    pub fn verify_signature(&self, secret: &str, payload: &[u8], headers: &StringMap) -> (r: Result<(), Error>)
        ensures
            match (
                header_of(headers@, "webhook-signature"@, "openai-signature"@),
                header_of(headers@, "webhook-timestamp"@, "openai-timestamp"@),
            ) {
                (None, _) => r matches Err(Error::WebhookVerification(m)) && m@
                    == "missing signature header"@,
                (Some(_), None) => r matches Err(Error::WebhookVerification(m)) && m@
                    == "missing timestamp header"@,
                (Some(sig), Some(ts)) => if provided_signature(sig) == spec_webhook_signature(
                    secret@,
                    ts,
                    payload@,
                ) {
                    r is Ok
                } else {
                    r matches Err(Error::WebhookVerification(m)) && m@ == "signature mismatch"@
                },
            },
    {
        let signature = header_either(headers, "webhook-signature", "openai-signature");
        let timestamp = header_either(headers, "webhook-timestamp", "openai-timestamp");
        verify_webhook_signature(secret, payload, signature, timestamp)
    }
}

/// The compact OpenAI client.
#[derive(Debug)]
pub struct OpenAIClient {
    config: OpenAIConfig,
    pub responses: ResponsesResource,
    pub chat: ChatResource,
    pub completions: CompletionsResource,
    pub models: ModelsResource,
    pub files: FilesResource,
    pub uploads: UploadsResource,
    pub images: ImagesResource,
    pub audio: AudioResource,
    pub embeddings: EmbeddingsResource,
    pub moderations: ModerationsResource,
    pub batches: BatchesResource,
    pub fine_tuning: FineTuningResource,
    pub evals: EvalsResource,
    pub containers: ContainersResource,
    pub conversations: ConversationsResource,
    pub vector_stores: VectorStoresResource,
    pub realtime: RealtimeResource,
    pub webhooks: WebhooksResource,
    pub skills: SkillsResource,
    pub beta: BetaResource,
}

impl OpenAIClient {
    /// The client's configuration.
    pub closed spec fn spec_config(&self) -> OpenAIConfig {
        self.config
    }

    /// A client with the given key and the default configuration.
    pub fn new(api_key: &str) -> (c: OpenAIClient)
        ensures
            c.spec_config().api_key@ == api_key@,
            c.spec_config().base_url@ == compat_default_base_url(),
            c.spec_config().max_retries == 2,
            is_config_with(c.spec_config(), api_key@, compat_default_base_url(), None, None),
    {
        OpenAIClient::from_config(OpenAIConfig::new(api_key))
    }

    /// A client configured from the environment.
    pub fn from_env(env: CompatEnv) -> (r: Result<OpenAIClient, Error>)
        ensures
            env.api_key is None ==> (r matches Err(Error::MissingEnv(m)) && m@ == "OPENAI_API_KEY"@),
            env.api_key matches Some(k) ==> (r matches Ok(c) && c.spec_config().api_key@ == k@),
            env.api_key matches Some(k) ==> (r matches Ok(c) && is_config_with(
                c.spec_config(),
                k@,
                env_base_url(env),
                opt_chars(env.org_id),
                opt_chars(env.project_id),
            )),
    {
        match OpenAIConfig::from_env(env) {
            Ok(config) => Ok(OpenAIClient::from_config(config)),
            Err(e) => Err(e),
        }
    }

    /// A client with the given configuration.
    pub fn from_config(config: OpenAIConfig) -> (c: OpenAIClient)
        ensures
            c.spec_config() == config,
    {
        OpenAIClient {
            config,
            responses: ResponsesResource,
            chat: ChatResource::new(),
            completions: CompletionsResource,
            models: ModelsResource,
            files: FilesResource,
            uploads: UploadsResource,
            images: ImagesResource,
            audio: AudioResource,
            embeddings: EmbeddingsResource,
            moderations: ModerationsResource,
            batches: BatchesResource,
            fine_tuning: FineTuningResource,
            evals: EvalsResource,
            containers: ContainersResource,
            conversations: ConversationsResource,
            vector_stores: VectorStoresResource,
            realtime: RealtimeResource,
            webhooks: WebhooksResource,
            skills: SkillsResource,
            beta: BetaResource,
        }
    }

    /// The client's configuration.
    pub fn config(&self) -> (r: &OpenAIConfig)
        ensures
            *r == self.spec_config(),
    {
        &self.config
    }
}

} // verus!
