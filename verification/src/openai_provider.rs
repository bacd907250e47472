//! The OpenAI adapter of the provider layer: request bodies for language,
//! embedding, image and speech models, and the reading of OpenAI responses
//! and stream events into provider-neutral results.

use vstd::prelude::*;
use crate::json::{
    JsonNumber, JsonValue, JsonView, NumberView, jview, members_view, items_view, obj_lookup,
    push_member, json_string, json_string_array, json_clone, json_get, json_get_str, json_as_str,
    lemma_jview_object, lemma_jview_array, number_view, spec_get, spec_get_str, spec_as_str,
};
use crate::provider::{
    AiError, ProviderOptions, ToolChoice, ResponseFormat, Reasoning, LanguageMessage, FunctionTool,
    LanguageModelCallOptions, Warning, Usage, FinishReason, ResponseMetadata, ContentPart,
    GenerateResult, LanguageModelStreamPart, ImageModelCallOptions, SpeechModelCallOptions,
    TranscriptionModelCallOptions, ImageResult, SpeechResult, TranscriptionResult, concat,
};
use crate::provider_utils::{
    is_valid_schema, invalid_schema_message, validate_json_schema, load_api_key, chosen_key,
    is_blank, missing_key_message, user_agent, spec_user_agent, merge_headers,
};
use crate::strmap::StringMap;
use crate::text::{trim_end_char, trim_start_char, trim_end_matches_char, trim_start_matches_char};

verus! {

/// Which OpenAI API serves a language model.
#[derive(Debug, Clone, Copy, PartialEq, Eq)]
pub enum LanguageEndpoint {
    Responses,
    Chat,
}

/// OpenAI-specific options of a language-model call (camel-case keys under
/// `providerOptions.openai`).
#[derive(Debug, Clone, PartialEq, Eq)]
pub struct OpenAIProviderOptions {
    pub parallel_tool_calls: Option<bool>,
    pub user: Option<String>,
    pub service_tier: Option<String>,
    pub reasoning_effort: Option<String>,
}

/// The abstract value of the options.
pub struct OptionsView {
    pub parallel_tool_calls: Option<bool>,
    pub user: Option<Seq<char>>,
    pub service_tier: Option<Seq<char>>,
    pub reasoning_effort: Option<Seq<char>>,
}

impl OpenAIProviderOptions {
    /// The abstract value of the options.
    pub open spec fn view_of(&self) -> OptionsView {
        OptionsView {
            parallel_tool_calls: self.parallel_tool_calls,
            user: crate::text::opt_chars(self.user),
            service_tier: crate::text::opt_chars(self.service_tier),
            reasoning_effort: crate::text::opt_chars(self.reasoning_effort),
        }
    }

    /// Options with nothing set.
    pub fn empty() -> (o: OpenAIProviderOptions)
        ensures
            o.view_of() == (OptionsView {
                parallel_tool_calls: None,
                user: None,
                service_tier: None,
                reasoning_effort: None,
            }),
    {
        OpenAIProviderOptions {
            parallel_tool_calls: None,
            user: None,
            service_tier: None,
            reasoning_effort: None,
        }
    }
}

/// The options given for `provider_name`, as JSON: none when there are no
/// options or none for that provider.
pub open spec fn spec_provider_options_value(po: Option<ProviderOptions>, provider_name: Seq<char>) -> Option<JsonValue> {
    match po {
        None => None,
        Some(p) => p.spec_get(provider_name),
    }
}

/// Looks up the options given for `provider_name`.
pub fn provider_options_value<'a>(provider_options: Option<&'a ProviderOptions>, provider_name: &str) -> (r:
    Option<&'a JsonValue>)
    ensures
        match r {
            Some(v) => spec_provider_options_value(
                match provider_options {
                    Some(p) => Some(*p),
                    None => None,
                },
                provider_name@,
            ) == Some(*v),
            None => spec_provider_options_value(
                match provider_options {
                    Some(p) => Some(*p),
                    None => None,
                },
                provider_name@,
            ) is None,
        },
{
    match provider_options {
        None => None,
        Some(o) => lookup_entry(&o.entries, provider_name),
    }
}

/// The message of options that do not decode: the provider's name and the
/// decoder's message.
pub open spec fn invalid_options_message(provider_name: Seq<char>, reason: Seq<char>) -> Seq<char> {
    "invalid "@ + provider_name + " provider options: "@ + reason
}

/// Reads the outcome of decoding the options given for `provider_name`
/// (`None` when none were given): the decoded options, or an
/// invalid-argument error that names the provider and carries the decoder's
/// message.
pub fn parse_provider_options<T>(provider_name: &str, decoded: Option<Result<T, String>>) -> (r: Result<
    Option<T>,
    AiError,
>)
    ensures
        match decoded {
            None => r matches Ok(None),
            Some(Ok(o)) => r == Ok::<Option<T>, AiError>(Some(o)),
            Some(Err(m)) => r matches Err(AiError::InvalidArgument(x)) && x@ == invalid_options_message(
                provider_name@,
                m@,
            ),
        },
{
    match decoded {
        None => Ok(None),
        Some(Ok(o)) => Ok(Some(o)),
        Some(Err(m)) => {
            let mut x = "invalid ".to_string();
            x.append(provider_name);
            x.append(" provider options: ");
            x.append(m.as_str());
            Err(AiError::InvalidArgument(x))
        },
    }
}

fn lookup_entry<'a>(entries: &'a Vec<(String, JsonValue)>, key: &str) -> (r: Option<&'a JsonValue>)
    ensures
        match r {
            Some(x) => obj_lookup(entries@, key@) == Some(*x),
            None => obj_lookup(entries@, key@) is None,
        },
{
    let mut i = entries.len();
    assert(entries@.take(i as int) =~= entries@);
    while i > 0
        invariant
            i <= entries@.len(),
            obj_lookup(entries@, key@) == obj_lookup(entries@.take(i as int), key@),
        decreases i,
    {
        assert(entries@.take(i as int).drop_last() =~= entries@.take(i - 1));
        assert(entries@.take(i as int).last() == entries@[i - 1]);
        if crate::text::str_eq(entries[i - 1].0.as_str(), key) {
            return Some(&entries[i - 1].1);
        }
        i = i - 1;
    }
    None
}

/// A JSON string's abstract value.
pub open spec fn jstr(s: Seq<char>) -> JsonView {
    JsonView::String(s)
}

/// An optional string's abstract value: the string, or null.
pub open spec fn opt_str_view(o: Option<String>) -> JsonView {
    match o {
        Some(s) => JsonView::String(s@),
        None => JsonView::Null,
    }
}

/// The wire form of a tool choice.
pub open spec fn tool_choice_view(tc: ToolChoice) -> JsonView {
    match tc {
        ToolChoice::Auto => jstr("auto"@),
        ToolChoice::NoTool => jstr("none"@),
        ToolChoice::Required => jstr("required"@),
        ToolChoice::Tool { name } => JsonView::Object(
            seq![
                ("type"@, jstr("function"@)),
                ("function"@, JsonView::Object(seq![("name"@, jstr(name@))])),
            ],
        ),
    }
}

/// An object of one member.
pub fn single_member(key: &str, value: JsonValue) -> (r: JsonValue)
    ensures
        jview(r) == JsonView::Object(seq![(key@, jview(value))]),
{
    let mut ms: Vec<(String, JsonValue)> = Vec::new();
    push_member(&mut ms, key, value);
    proof {
        lemma_jview_object(ms);
        assert(members_view(Seq::<(String, JsonValue)>::empty()) =~= Seq::empty());
        assert(members_view(ms@) =~= seq![(key@, jview(value))]);
    }
    JsonValue::Object(ms)
}

/// An object of two members, in order.
pub fn two_members(k1: &str, v1: JsonValue, k2: &str, v2: JsonValue) -> (r: JsonValue)
    ensures
        jview(r) == JsonView::Object(seq![(k1@, jview(v1)), (k2@, jview(v2))]),
{
    let mut ms: Vec<(String, JsonValue)> = Vec::new();
    push_member(&mut ms, k1, v1);
    push_member(&mut ms, k2, v2);
    proof {
        lemma_jview_object(ms);
        assert(members_view(Seq::<(String, JsonValue)>::empty()) =~= Seq::empty());
        assert(members_view(ms@) =~= seq![(k1@, jview(v1)), (k2@, jview(v2))]);
    }
    JsonValue::Object(ms)
}

/// The wire form of a tool choice.
pub fn convert_tool_choice(tool_choice: &ToolChoice) -> (r: JsonValue)
    ensures
        jview(r) == tool_choice_view(*tool_choice),
{
    match tool_choice {
        ToolChoice::Auto => json_string("auto"),
        ToolChoice::NoTool => json_string("none"),
        ToolChoice::Required => json_string("required"),
        ToolChoice::Tool { name } => {
            let inner = single_member("name", json_string(name.as_str()));
            two_members("type", json_string("function"), "function", inner)
        },
    }
}

/// The name of a JSON schema: the given one, else `response`.
pub open spec fn schema_name(name: Option<String>) -> Seq<char> {
    match name {
        Some(n) => n@,
        None => "response"@,
    }
}

/// The wire form of a response format; `None` when its schema is neither an
/// object nor a boolean.
pub open spec fn response_format_view(rf: ResponseFormat) -> Option<JsonView> {
    match rf {
        ResponseFormat::Text => Some(JsonView::Object(seq![("type"@, jstr("text"@))])),
        ResponseFormat::Json { schema: None, .. } => Some(
            JsonView::Object(seq![("type"@, jstr("json_object"@))]),
        ),
        ResponseFormat::Json { schema: Some(schema), name, description } => if is_valid_schema(
            schema,
        ) {
            Some(
                JsonView::Object(
                    seq![
                        ("type"@, jstr("json_schema"@)),
                        ("json_schema"@, JsonView::Object(
                            seq![
                                ("name"@, jstr(schema_name(name))),
                                ("description"@, opt_str_view(description)),
                                ("schema"@, jview(schema)),
                            ],
                        )),
                    ],
                ),
            )
        } else {
            None
        },
    }
}

fn opt_string_json(o: &Option<String>) -> (r: JsonValue)
    ensures
        jview(r) == opt_str_view(*o),
{
    match o {
        Some(s) => json_string(s.as_str()),
        None => JsonValue::Null,
    }
}

/// The wire form of a response format; a schema that is neither an object
/// nor a boolean is an invalid argument.
pub fn convert_response_format(response_format: &ResponseFormat) -> (r: Result<JsonValue, AiError>)
    ensures
        match response_format_view(*response_format) {
            Some(v) => r matches Ok(x) && jview(x) == v,
            None => r matches Err(AiError::InvalidArgument(m)) && m@ == invalid_schema_message(),
        },
{
    match response_format {
        ResponseFormat::Text => Ok(single_member("type", json_string("text"))),
        ResponseFormat::Json { schema: None, .. } => Ok(
            single_member("type", json_string("json_object")),
        ),
        ResponseFormat::Json { schema: Some(schema), name, description } => {
            match validate_json_schema(schema) {
                Err(e) => {
                    return Err(e);
                },
                Ok(()) => {},
            }
            let name_value = match name {
                Some(n) => json_string(n.as_str()),
                None => json_string("response"),
            };
            let desc = opt_string_json(description);
            let sch = json_clone(schema);
            let mut ms: Vec<(String, JsonValue)> = Vec::new();
            push_member(&mut ms, "name", name_value);
            push_member(&mut ms, "description", desc);
            push_member(&mut ms, "schema", sch);
            proof {
                lemma_jview_object(ms);
                assert(members_view(Seq::<(String, JsonValue)>::empty()) =~= Seq::empty());
                assert(members_view(ms@) =~= seq![
                    ("name"@, jview(name_value)),
                    ("description"@, jview(desc)),
                    ("schema"@, jview(sch)),
                ]);
            }
            let inner = JsonValue::Object(ms);
            let out = two_members("type", json_string("json_schema"), "json_schema", inner);
            assert(jview(name_value) == jstr(schema_name(*name)));
            assert(jview(desc) == opt_str_view(*description));
            assert(jview(sch) == jview(*schema));
            assert(is_valid_schema(*schema));
            assert(response_format_view(*response_format) is Some);
            let ghost inner_view = JsonView::Object(
                seq![
                    ("name"@, jstr(schema_name(*name))),
                    ("description"@, opt_str_view(*description)),
                    ("schema"@, jview(*schema)),
                ],
            );
            assert(jview(inner) == inner_view);
            assert(jview(out) == JsonView::Object(
                seq![("type"@, jstr("json_schema"@)), ("json_schema"@, inner_view)],
            ));
            assert(jview(out) == response_format_view(*response_format).unwrap());
            Ok(out)
        },
    }
}

/// The reasoning effort that OpenAI is sent for a reasoning level.
pub open spec fn effort_of(reasoning: Reasoning) -> Seq<char> {
    match reasoning {
        Reasoning::Minimal | Reasoning::Low => "low"@,
        Reasoning::Medium => "medium"@,
        Reasoning::High | Reasoning::XHigh => "high"@,
        Reasoning::ProviderDefault | Reasoning::Off => "medium"@,
    }
}

/// The reasoning effort that OpenAI is sent for a reasoning level.
pub fn reasoning_to_openai_effort(reasoning: &Reasoning) -> (r: &'static str)
    ensures
        r@ == effort_of(*reasoning),
{
    match reasoning {
        Reasoning::Minimal | Reasoning::Low => "low",
        Reasoning::Medium => "medium",
        Reasoning::High | Reasoning::XHigh => "high",
        Reasoning::ProviderDefault | Reasoning::Off => "medium",
    }
}

/// Whether `w` says that `feature` is unsupported, without details.
pub open spec fn is_unsupported_warning(w: Warning, feature: Seq<char>) -> bool {
    w matches Warning::Unsupported { feature: f, details } && f@ == feature && details is None
}

/// A prompt message on the wire.
pub open spec fn message_view(m: LanguageMessage) -> JsonView {
    JsonView::Object(seq![("role"@, jstr(m.role@)), ("content"@, jstr(m.content@))])
}

/// A prompt on the wire.
pub open spec fn prompt_view(prompt: Seq<LanguageMessage>) -> JsonView {
    JsonView::Array(Seq::new(prompt.len(), |i: int| message_view(prompt[i])))
}

/// A function tool on the wire.
pub open spec fn tool_view(t: FunctionTool) -> JsonView {
    JsonView::Object(
        seq![
            ("type"@, jstr("function"@)),
            ("function"@, JsonView::Object(
                seq![
                    ("name"@, jstr(t.name@)),
                    ("description"@, opt_str_view(t.description)),
                    ("parameters"@, jview(t.parameters)),
                ],
            )),
        ],
    )
}

/// The tools on the wire.
pub open spec fn tools_view(tools: Seq<FunctionTool>) -> JsonView {
    JsonView::Array(Seq::new(tools.len(), |i: int| tool_view(tools[i])))
}

/// A list of strings on the wire.
pub open spec fn strings_view(xs: Seq<String>) -> JsonView {
    JsonView::Array(Seq::new(xs.len(), |i: int| JsonView::String(xs[i]@)))
}

/// One member, or none.
pub open spec fn member_if(present: bool, key: Seq<char>, value: JsonView) -> Seq<(Seq<char>, JsonView)> {
    if present {
        seq![(key, value)]
    } else {
        seq![]
    }
}

/// The OpenAI options in effect for a call, from the outcome of decoding
/// those given under `openai`: the decoded options, none set when none were
/// given, or the decoder's message when they do not decode.
pub open spec fn effective_options(decoded: Option<Result<OpenAIProviderOptions, String>>) -> Result<
    OptionsView,
    Seq<char>,
> {
    match decoded {
        None => Ok(
            OptionsView { parallel_tool_calls: None, user: None, service_tier: None, reasoning_effort: None },
        ),
        Some(Ok(o)) => Ok(o.view_of()),
        Some(Err(m)) => Err(m@),
    }
}

/// The `reasoning` member: present for an explicit level (not for the
/// provider default nor for `Off`), with the effort from the OpenAI options
/// when they name one.
pub open spec fn reasoning_members(reasoning: Option<Reasoning>, opts: OptionsView) -> Seq<
    (Seq<char>, JsonView),
> {
    match reasoning {
        Some(r) => if r == Reasoning::ProviderDefault || r == Reasoning::Off {
            seq![]
        } else {
            seq![
                ("reasoning"@, JsonView::Object(
                    seq![
                        ("effort"@, jstr(
                            match opts.reasoning_effort {
                                Some(e) => e,
                                None => effort_of(r),
                            },
                        )),
                    ],
                )),
            ]
        },
        None => seq![],
    }
}

/// The sampling members of a request body: the token limit (named by the
/// endpoint), temperature, top-p and stop sequences, each when set.
pub open spec fn sampling_members(endpoint: LanguageEndpoint, o: LanguageModelCallOptions) -> Seq<
    (Seq<char>, JsonView),
> {
    let max_key = match endpoint {
        LanguageEndpoint::Responses => "max_output_tokens"@,
        LanguageEndpoint::Chat => "max_tokens"@,
    };
    member_if(
        o.max_output_tokens is Some,
        max_key,
        JsonView::Number(NumberView::PosInt(o.max_output_tokens.unwrap() as u64)),
    ) + member_if(
        o.temperature is Some,
        "temperature"@,
        JsonView::Number(number_view(o.temperature.unwrap())),
    ) + member_if(o.top_p is Some, "top_p"@, JsonView::Number(number_view(o.top_p.unwrap())))
        + member_if(o.stop_sequences is Some, "stop"@, strings_view(o.stop_sequences.unwrap()@))
}

/// The output-shape members of a request body: the converted response
/// format `rf`, the tools and the tool choice, each when set.
pub open spec fn tool_members(o: LanguageModelCallOptions, rf: JsonView) -> Seq<
    (Seq<char>, JsonView),
> {
    member_if(o.response_format is Some, "response_format"@, rf) + member_if(
        o.tools is Some,
        "tools"@,
        tools_view(o.tools.unwrap()@),
    ) + member_if(
        o.tool_choice is Some,
        "tool_choice"@,
        tool_choice_view(o.tool_choice.unwrap()),
    )
}

/// The members set by the OpenAI options, each when set.
pub open spec fn openai_members(opts: OptionsView) -> Seq<(Seq<char>, JsonView)> {
    member_if(
        opts.parallel_tool_calls is Some,
        "parallel_tool_calls"@,
        JsonView::Bool(opts.parallel_tool_calls.unwrap()),
    ) + member_if(opts.user is Some, "user"@, jstr(opts.user.unwrap())) + member_if(
        opts.service_tier is Some,
        "service_tier"@,
        jstr(opts.service_tier.unwrap()),
    )
}

/// The request body of a language-model call: the model, the prompt (as
/// `input` for the Responses API, `messages` for Chat Completions), the
/// stream flag, then the members set by the options: sampling, output shape
/// (with the converted response format `rf`), reasoning, and those set by
/// the OpenAI options.
pub open spec fn language_body_view(
    model_id: Seq<char>,
    endpoint: LanguageEndpoint,
    o: LanguageModelCallOptions,
    stream: bool,
    rf: JsonView,
    opts: OptionsView,
) -> JsonView {
    let input_key = match endpoint {
        LanguageEndpoint::Responses => "input"@,
        LanguageEndpoint::Chat => "messages"@,
    };
    JsonView::Object(
        seq![
            ("model"@, jstr(model_id)),
            (input_key, prompt_view(o.prompt@)),
            ("stream"@, JsonView::Bool(stream)),
        ] + sampling_members(endpoint, o) + tool_members(o, rf) + reasoning_members(o.reasoning, opts)
            + openai_members(opts),
    )
}

/// Whether the response format of the options, if any, converts.
pub open spec fn format_converts(o: LanguageModelCallOptions) -> bool {
    match o.response_format {
        Some(rf) => response_format_view(rf) is Some,
        None => true,
    }
}

/// The converted response format of the options (meaningful when present).
pub open spec fn format_of(o: LanguageModelCallOptions) -> JsonView {
    match o.response_format {
        Some(rf) => response_format_view(rf).unwrap(),
        None => JsonView::Null,
    }
}

fn prompt_json(prompt: &Vec<LanguageMessage>) -> (r: JsonValue)
    ensures
        jview(r) == prompt_view(prompt@),
{
    let mut items: Vec<JsonValue> = Vec::new();
    let mut i: usize = 0;
    while i < prompt.len()
        invariant
            i <= prompt@.len(),
            items_view(items@) =~= Seq::new(i as nat, |j: int| message_view(prompt@[j])),
        decreases prompt@.len() - i,
    {
        let m = &prompt[i];
        let item = two_members(
            "role",
            json_string(m.role.as_str()),
            "content",
            json_string(m.content.as_str()),
        );
        let ghost before = items@;
        items.push(item);
        proof {
            crate::json::lemma_items_view_push(before, item);
            assert(items_view(items@) =~= Seq::new((i + 1) as nat, |j: int| message_view(prompt@[j])));
        }
        i = i + 1;
    }
    proof {
        lemma_jview_array(items);
    }
    JsonValue::Array(items)
}

fn tools_json(tools: &Vec<FunctionTool>) -> (r: JsonValue)
    ensures
        jview(r) == tools_view(tools@),
{
    let mut items: Vec<JsonValue> = Vec::new();
    let mut i: usize = 0;
    while i < tools.len()
        invariant
            i <= tools@.len(),
            items_view(items@) =~= Seq::new(i as nat, |j: int| tool_view(tools@[j])),
        decreases tools@.len() - i,
    {
        let t = &tools[i];
        let name = json_string(t.name.as_str());
        let desc = opt_string_json(&t.description);
        let params = json_clone(&t.parameters);
        let mut fm: Vec<(String, JsonValue)> = Vec::new();
        push_member(&mut fm, "name", name);
        push_member(&mut fm, "description", desc);
        push_member(&mut fm, "parameters", params);
        proof {
            lemma_jview_object(fm);
            assert(members_view(Seq::<(String, JsonValue)>::empty()) =~= Seq::empty());
            assert(members_view(fm@) =~= seq![
                ("name"@, jview(name)),
                ("description"@, jview(desc)),
                ("parameters"@, jview(params)),
            ]);
        }
        let item = two_members("type", json_string("function"), "function", JsonValue::Object(fm));
        let ghost before = items@;
        items.push(item);
        proof {
            crate::json::lemma_items_view_push(before, item);
            assert(items_view(items@) =~= Seq::new((i + 1) as nat, |j: int| tool_view(tools@[j])));
        }
        i = i + 1;
    }
    proof {
        lemma_jview_array(items);
    }
    JsonValue::Array(items)
}

/// A JSON number holding a copy of `n`.
pub fn number_json(n: &JsonNumber) -> (r: JsonValue)
    ensures
        jview(r) == JsonView::Number(number_view(*n)),
{
    JsonValue::Number(
        match n {
            JsonNumber::PosInt(u) => JsonNumber::PosInt(*u),
            JsonNumber::NegInt(i) => JsonNumber::NegInt(*i),
            JsonNumber::Float(t) => JsonNumber::Float(t.clone()),
        },
    )
}

/// Appends member `key` when a value is given.
pub fn push_if(ms: &mut Vec<(String, JsonValue)>, key: &str, value: Option<JsonValue>)
    ensures
        members_view(final(ms)@) == members_view(old(ms)@) + member_if(
            value is Some,
            key@,
            jview(value.unwrap()),
        ),
{
    let ghost before = members_view(ms@);
    match value {
        Some(v) => {
            push_member(ms, key, v);
            assert(before + seq![(key@, jview(v))] =~= before.push((key@, jview(v))));
        },
        None => {
            assert(before + Seq::<(Seq<char>, JsonView)>::empty() =~= before);
        },
    }
}

fn push_sampling_members(
    ms: &mut Vec<(String, JsonValue)>,
    endpoint: LanguageEndpoint,
    options: &LanguageModelCallOptions,
)
    ensures
        members_view(final(ms)@) == members_view(old(ms)@) + sampling_members(endpoint, *options),
{
    let ghost start = members_view(ms@);
    let max = match options.max_output_tokens {
        Some(v) => Some(JsonValue::Number(JsonNumber::PosInt(v as u64))),
        None => None,
    };
    match endpoint {
        LanguageEndpoint::Responses => push_if(ms, "max_output_tokens", max),
        LanguageEndpoint::Chat => push_if(ms, "max_tokens", max),
    }
    let temperature = match &options.temperature {
        Some(t) => Some(number_json(t)),
        None => None,
    };
    push_if(ms, "temperature", temperature);
    let top_p = match &options.top_p {
        Some(t) => Some(number_json(t)),
        None => None,
    };
    push_if(ms, "top_p", top_p);
    let stop = match &options.stop_sequences {
        Some(v) => Some(json_string_array(v)),
        None => None,
    };
    push_if(ms, "stop", stop);
    proof {
        let o = *options;
        assert(members_view(ms@) =~= start + sampling_members(endpoint, o));
    }
}

fn push_tool_members(
    ms: &mut Vec<(String, JsonValue)>,
    options: &LanguageModelCallOptions,
    format: Option<JsonValue>,
)
    requires
        format is Some <==> options.response_format is Some,
    ensures
        members_view(final(ms)@) == members_view(old(ms)@) + tool_members(
            *options,
            jview(format.unwrap()),
        ),
{
    let ghost start = members_view(ms@);
    let ghost rf = jview(format.unwrap());
    push_if(ms, "response_format", format);
    let tools = match &options.tools {
        Some(ts) => Some(tools_json(ts)),
        None => None,
    };
    push_if(ms, "tools", tools);
    let choice = match &options.tool_choice {
        Some(tc) => Some(convert_tool_choice(tc)),
        None => None,
    };
    push_if(ms, "tool_choice", choice);
    proof {
        assert(members_view(ms@) =~= start + tool_members(*options, rf));
    }
}

fn push_reasoning_member(
    ms: &mut Vec<(String, JsonValue)>,
    warnings: &mut Vec<Warning>,
    reasoning: Option<Reasoning>,
    openai_options: &OpenAIProviderOptions,
)
    ensures
        members_view(final(ms)@) == members_view(old(ms)@) + reasoning_members(
            reasoning,
            openai_options.view_of(),
        ),
        reasoning == Some(Reasoning::Off) ==> final(warnings)@.len() == old(warnings)@.len() + 1
            && final(warnings)@.drop_last() == old(warnings)@ && is_unsupported_warning(
            final(warnings)@.last(),
            "reasoning=none"@,
        ),
        reasoning != Some(Reasoning::Off) ==> final(warnings)@ == old(warnings)@,
{
    let ghost start = members_view(ms@);
    match reasoning {
        Some(Reasoning::ProviderDefault) => {
            assert(start + Seq::<(Seq<char>, JsonView)>::empty() =~= start);
        },
        Some(Reasoning::Off) => {
            warnings.push(Warning::unsupported("reasoning=none"));
            assert(warnings@.drop_last() =~= old(warnings)@);
            assert(start + Seq::<(Seq<char>, JsonView)>::empty() =~= start);
        },
        Some(level) => {
            let effort = match &openai_options.reasoning_effort {
                Some(e) => json_string(e.as_str()),
                None => json_string(reasoning_to_openai_effort(&level)),
            };
            let value = single_member("effort", effort);
            push_member(ms, "reasoning", value);
            assert(start + seq![("reasoning"@, jview(value))] =~= start.push(("reasoning"@, jview(value))));
        },
        None => {
            assert(start + Seq::<(Seq<char>, JsonView)>::empty() =~= start);
        },
    }
}

fn push_openai_members(ms: &mut Vec<(String, JsonValue)>, openai_options: &OpenAIProviderOptions)
    ensures
        members_view(final(ms)@) == members_view(old(ms)@) + openai_members(
            openai_options.view_of(),
        ),
{
    let ghost start = members_view(ms@);
    let parallel = match openai_options.parallel_tool_calls {
        Some(b) => Some(JsonValue::Bool(b)),
        None => None,
    };
    push_if(ms, "parallel_tool_calls", parallel);
    let user = match &openai_options.user {
        Some(u) => Some(json_string(u.as_str())),
        None => None,
    };
    push_if(ms, "user", user);
    let tier = match &openai_options.service_tier {
        Some(t) => Some(json_string(t.as_str())),
        None => None,
    };
    push_if(ms, "service_tier", tier);
    proof {
        assert(members_view(ms@) =~= start + openai_members(openai_options.view_of()));
    }
}

/// Builds the request body of a language-model call and the warnings about
/// settings that OpenAI does not support. `openai_options` is the outcome of
/// decoding the options that `provider_options_value` finds under `openai`
/// (`None` when there are none). Options that do not decode, and a
/// JSON-schema response format whose schema is neither an object nor a
/// boolean, are invalid arguments (checked in that order).
pub fn build_language_request_body(
    model_id: &str,
    endpoint: LanguageEndpoint,
    options: &LanguageModelCallOptions,
    stream: bool,
    openai_options: Option<Result<OpenAIProviderOptions, String>>,
) -> (r: Result<(JsonValue, Vec<Warning>), AiError>)
    ensures
        effective_options(openai_options) matches Err(reason) ==> (r matches Err(
            AiError::InvalidArgument(m),
        ) && m@ == invalid_options_message("openai"@, reason)),
        effective_options(openai_options) is Ok && !format_converts(*options) ==> (
        r matches Err(AiError::InvalidArgument(m)) && m@ == invalid_schema_message()),
        effective_options(openai_options) is Ok && format_converts(*options) ==> (
        r matches Ok((body, warnings)) && {
            &&& jview(body) == language_body_view(
                model_id@,
                endpoint,
                *options,
                stream,
                format_of(*options),
                effective_options(openai_options)->Ok_0,
            )
            &&& options.reasoning == Some(Reasoning::Off) ==> warnings@.len() == 1
                && is_unsupported_warning(warnings@[0], "reasoning=none"@)
            &&& options.reasoning != Some(Reasoning::Off) ==> warnings@.len() == 0
        }),
{
    let ghost given = openai_options;
    let parsed = parse_provider_options("openai", openai_options);
    let openai_options = match parsed {
        Err(e) => {
            return Err(e);
        },
        Ok(Some(o)) => o,
        Ok(None) => OpenAIProviderOptions::empty(),
    };
    let ghost opts = openai_options.view_of();
    assert(effective_options(given) == Ok::<OptionsView, Seq<char>>(opts));
    let format = match &options.response_format {
        Some(rf) => match convert_response_format(rf) {
            Err(e) => {
                return Err(e);
            },
            Ok(v) => Some(v),
        },
        None => None,
    };
    assert(format is Some ==> jview(format.unwrap()) == format_of(*options));

    let mut ms: Vec<(String, JsonValue)> = Vec::new();
    let model = json_string(model_id);
    push_member(&mut ms, "model", model);
    let prompt = prompt_json(&options.prompt);
    match endpoint {
        LanguageEndpoint::Responses => push_member(&mut ms, "input", prompt),
        LanguageEndpoint::Chat => push_member(&mut ms, "messages", prompt),
    }
    push_member(&mut ms, "stream", JsonValue::Bool(stream));
    let ghost input_key = match endpoint {
        LanguageEndpoint::Responses => "input"@,
        LanguageEndpoint::Chat => "messages"@,
    };
    let ghost head = seq![
        ("model"@, jstr(model_id@)),
        (input_key, prompt_view(options.prompt@)),
        ("stream"@, JsonView::Bool(stream)),
    ];
    proof {
        assert(members_view(Seq::<(String, JsonValue)>::empty()) =~= Seq::empty());
        assert(members_view(ms@) =~= head);
    }
    let mut warnings: Vec<Warning> = Vec::new();
    push_sampling_members(&mut ms, endpoint, options);
    push_tool_members(&mut ms, options, format);
    push_reasoning_member(&mut ms, &mut warnings, options.reasoning, &openai_options);
    push_openai_members(&mut ms, &openai_options);
    proof {
        lemma_jview_object(ms);
        if options.reasoning == Some(Reasoning::Off) {
            assert(warnings@.drop_last() =~= Seq::<Warning>::empty());
        }
    }
    Ok((JsonValue::Object(ms), warnings))
}

/// A JSON value as an unsigned integer.
pub open spec fn as_u64(v: JsonValue) -> Option<u64> {
    match v {
        JsonValue::Number(JsonNumber::PosInt(n)) => Some(n),
        _ => None,
    }
}

/// A token count: member `primary` when present, else member `fallback`, as
/// an unsigned integer.
pub open spec fn usage_count(v: JsonValue, primary: Seq<char>, fallback: Seq<char>) -> Option<u64> {
    match spec_get(v, primary) {
        Some(x) => as_u64(x),
        None => match spec_get(v, fallback) {
            Some(x) => as_u64(x),
            None => None,
        },
    }
}

fn read_count(v: &JsonValue, primary: &str, fallback: &str) -> (r: Option<u64>)
    ensures
        r == usage_count(*v, primary@, fallback@),
{
    let m = match json_get(v, primary) {
        Some(x) => Some(x),
        None => json_get(v, fallback),
    };
    match m {
        Some(JsonValue::Number(JsonNumber::PosInt(n))) => Some(*n),
        _ => None,
    }
}

/// Whether `u` is the usage reported in `value` (Responses or Chat
/// Completions naming); nothing reported without a value.
pub open spec fn is_usage_of(u: Usage, value: Option<JsonValue>) -> bool {
    match value {
        None => u.input_tokens is None && u.output_tokens is None && u.total_tokens is None,
        Some(v) => {
            &&& u.input_tokens == usage_count(v, "input_tokens"@, "prompt_tokens"@)
            &&& u.output_tokens == usage_count(v, "output_tokens"@, "completion_tokens"@)
            &&& u.total_tokens == usage_count(v, "total_tokens"@, "total_tokens"@)
        },
    }
}

/// Token usage is read under both of OpenAI's namings: `input_tokens` (else
/// the Chat Completions `prompt_tokens`), `output_tokens` (else
/// `completion_tokens`) and `total_tokens`, each an unsigned integer; the
/// first naming wins when both are present.
pub proof fn law_usage_namings(u: Usage, v: JsonValue)
    requires
        is_usage_of(u, Some(v)),
    ensures
        spec_get(v, "input_tokens"@) matches Some(x) ==> u.input_tokens == as_u64(x),
        spec_get(v, "input_tokens"@) is None ==> u.input_tokens == match spec_get(v, "prompt_tokens"@) {
            Some(x) => as_u64(x),
            None => None,
        },
        spec_get(v, "output_tokens"@) matches Some(x) ==> u.output_tokens == as_u64(x),
        spec_get(v, "output_tokens"@) is None ==> u.output_tokens == match spec_get(
            v,
            "completion_tokens"@,
        ) {
            Some(x) => as_u64(x),
            None => None,
        },
        u.total_tokens == match spec_get(v, "total_tokens"@) {
            Some(x) => as_u64(x),
            None => None,
        },
{
}

/// Reads token usage from an OpenAI `usage` object.
pub fn parse_usage(value: Option<&JsonValue>) -> (u: Usage)
    ensures
        is_usage_of(
            u,
            match value {
                Some(v) => Some(*v),
                None => None,
            },
        ),
{
    match value {
        None => Usage::unknown(),
        Some(v) => Usage {
            input_tokens: read_count(v, "input_tokens", "prompt_tokens"),
            output_tokens: read_count(v, "output_tokens", "completion_tokens"),
            total_tokens: read_count(v, "total_tokens", "total_tokens"),
        },
    }
}

/// The finish reason that OpenAI reports by name.
pub open spec fn finish_reason_of(value: Option<Seq<char>>) -> FinishReason {
    match value {
        Some(s) => if s == "stop"@ {
            FinishReason::Stop
        } else if s == "length"@ {
            FinishReason::Length
        } else if s == "tool_calls"@ {
            FinishReason::ToolCalls
        } else if s == "content_filter"@ {
            FinishReason::ContentFilter
        } else {
            FinishReason::Unknown
        },
        None => FinishReason::Unknown,
    }
}

/// OpenAI's finish reasons `stop`, `length`, `tool_calls` and
/// `content_filter` each map to their own provider-neutral reason, and only
/// they do: any other text, or none, is `Unknown`.
pub proof fn law_finish_reasons(value: Option<Seq<char>>)
    ensures
        finish_reason_of(value) == FinishReason::Stop <==> value == Some("stop"@),
        finish_reason_of(value) == FinishReason::Length <==> value == Some("length"@),
        finish_reason_of(value) == FinishReason::ToolCalls <==> value == Some("tool_calls"@),
        finish_reason_of(value) == FinishReason::ContentFilter <==> value == Some("content_filter"@),
        finish_reason_of(value) == FinishReason::Unknown <==> !(value == Some("stop"@) || value == Some(
            "length"@,
        ) || value == Some("tool_calls"@) || value == Some("content_filter"@)),
{
    reveal_strlit("stop");
    reveal_strlit("length");
    reveal_strlit("tool_calls");
    reveal_strlit("content_filter");
    assert("stop"@.len() == 4 && "length"@.len() == 6 && "tool_calls"@.len() == 10
        && "content_filter"@.len() == 14);
}

/// The reasoning effort sent for each level: `low` for minimal and low,
/// `high` for high and extra high, `medium` otherwise.
pub proof fn law_reasoning_efforts(r: Reasoning)
    ensures
        (r == Reasoning::Minimal || r == Reasoning::Low) ==> effort_of(r) == "low"@,
        (r == Reasoning::High || r == Reasoning::XHigh) ==> effort_of(r) == "high"@,
        (r == Reasoning::Medium || r == Reasoning::ProviderDefault || r == Reasoning::Off) ==> effort_of(r)
            == "medium"@,
{
}

/// Maps OpenAI's finish reason to the provider-neutral one.
pub fn parse_finish_reason(value: Option<&str>) -> (r: FinishReason)
    ensures
        r == finish_reason_of(
            match value {
                Some(s) => Some(s@),
                None => None,
            },
        ),
{
    match value {
        Some(s) => {
            if crate::text::str_eq(s, "stop") {
                FinishReason::Stop
            } else if crate::text::str_eq(s, "length") {
                FinishReason::Length
            } else if crate::text::str_eq(s, "tool_calls") {
                FinishReason::ToolCalls
            } else if crate::text::str_eq(s, "content_filter") {
                FinishReason::ContentFilter
            } else {
                FinishReason::Unknown
            }
        },
        None => FinishReason::Unknown,
    }
}

/// Whether `m` is the metadata of `response`: its `id` and `model` strings,
/// no timestamp, no headers.
pub open spec fn is_metadata_of(m: ResponseMetadata, response: JsonValue) -> bool {
    &&& crate::text::opt_chars(m.id) == spec_get_str(response, "id"@)
    &&& crate::text::opt_chars(m.model_id) == spec_get_str(response, "model"@)
    &&& m.timestamp is None
    &&& m.headers is None
}

fn opt_string(o: Option<&str>) -> (r: Option<String>)
    ensures
        crate::text::opt_chars(r) == match o {
            Some(s) => Some(s@),
            None => None,
        },
{
    match o {
        Some(s) => Some(s.to_string()),
        None => None,
    }
}

/// The response metadata of an OpenAI response body.
pub fn response_metadata(response: &JsonValue) -> (r: Option<ResponseMetadata>)
    ensures
        r matches Some(m) && is_metadata_of(m, *response),
{
    Some(
        ResponseMetadata {
            id: opt_string(json_get_str(response, "id")),
            model_id: opt_string(json_get_str(response, "model")),
            timestamp: None,
            headers: None,
        },
    )
}

/// The first `text` string among content parts.
pub open spec fn first_text(parts: Seq<JsonValue>) -> Option<Seq<char>>
    decreases parts.len(),
{
    if parts.len() == 0 {
        None
    } else {
        match first_text(parts.drop_last()) {
            Some(t) => Some(t),
            None => spec_get_str(parts.last(), "text"@),
        }
    }
}

/// The first text of an output item: among the parts of its `content` array.
pub open spec fn item_text(item: JsonValue) -> Option<Seq<char>> {
    match spec_get(item, "content"@) {
        Some(JsonValue::Array(parts)) => first_text(parts@),
        _ => None,
    }
}

/// The first output item that has a text, and that text.
pub open spec fn first_item_text(items: Seq<JsonValue>) -> Option<Seq<char>>
    decreases items.len(),
{
    if items.len() == 0 {
        None
    } else {
        match first_item_text(items.drop_last()) {
            Some(t) => Some(t),
            None => item_text(items.last()),
        }
    }
}

/// The answer text of a Responses API body: `output_text` when it is a
/// string, else the first text among the output items, else empty.
pub open spec fn responses_text(response: JsonValue) -> Seq<char> {
    match spec_get_str(response, "output_text"@) {
        Some(t) => t,
        None => match spec_get(response, "output"@) {
            Some(JsonValue::Array(items)) => match first_item_text(items@) {
                Some(t) => t,
                None => Seq::empty(),
            },
            _ => Seq::empty(),
        },
    }
}

fn find_text(parts: &Vec<JsonValue>) -> (r: Option<&str>)
    ensures
        match r {
            Some(t) => first_text(parts@) == Some(t@),
            None => first_text(parts@) is None,
        },
{
    let mut i: usize = 0;
    while i < parts.len()
        invariant
            i <= parts@.len(),
            first_text(parts@.take(i as int)) is None,
        decreases parts@.len() - i,
    {
        assert(parts@.take(i + 1).drop_last() =~= parts@.take(i as int));
        match json_get_str(&parts[i], "text") {
            Some(t) => {
                proof {
                    lemma_first_text_prefix(parts@, i + 1);
                }
                return Some(t);
            },
            None => {},
        }
        i = i + 1;
    }
    assert(parts@.take(parts@.len() as int) =~= parts@);
    None
}

proof fn lemma_first_text_prefix(parts: Seq<JsonValue>, n: int)
    requires
        0 <= n <= parts.len(),
        first_text(parts.take(n)) is Some,
    ensures
        first_text(parts) == first_text(parts.take(n)),
    decreases parts.len(),
{
    if n < parts.len() {
        assert(parts.drop_last().take(n) =~= parts.take(n));
        lemma_first_text_prefix(parts.drop_last(), n);
    } else {
        assert(parts.take(n) =~= parts);
    }
}

proof fn lemma_first_item_text_prefix(items: Seq<JsonValue>, n: int)
    requires
        0 <= n <= items.len(),
        first_item_text(items.take(n)) is Some,
    ensures
        first_item_text(items) == first_item_text(items.take(n)),
    decreases items.len(),
{
    if n < items.len() {
        assert(items.drop_last().take(n) =~= items.take(n));
        lemma_first_item_text_prefix(items.drop_last(), n);
    } else {
        assert(items.take(n) =~= items);
    }
}

fn find_item_text(items: &Vec<JsonValue>) -> (r: Option<&str>)
    ensures
        match r {
            Some(t) => first_item_text(items@) == Some(t@),
            None => first_item_text(items@) is None,
        },
{
    let mut i: usize = 0;
    while i < items.len()
        invariant
            i <= items@.len(),
            first_item_text(items@.take(i as int)) is None,
        decreases items@.len() - i,
    {
        assert(items@.take(i + 1).drop_last() =~= items@.take(i as int));
        let found = match json_get(&items[i], "content") {
            Some(JsonValue::Array(parts)) => find_text(parts),
            _ => None,
        };
        match found {
            Some(t) => {
                proof {
                    lemma_first_item_text_prefix(items@, i + 1);
                }
                return Some(t);
            },
            None => {},
        }
        i = i + 1;
    }
    assert(items@.take(items@.len() as int) =~= items@);
    None
}

/// Whether `g` is the result read from a body: one text part, the finish
/// reason, the usage of its `usage` member, its metadata, and `warnings`.
pub open spec fn is_result_of(
    g: GenerateResult,
    response: JsonValue,
    text: Seq<char>,
    finish: FinishReason,
    warnings: Seq<Warning>,
) -> bool {
    &&& g.content@.len() == 1
    &&& g.content@[0] matches ContentPart::Text { text: t } && t@ == text
    &&& g.finish_reason == finish
    &&& is_usage_of(g.usage, spec_get(response, "usage"@))
    &&& g.response matches Some(m) && is_metadata_of(m, response)
    &&& g.warnings@ == warnings
}

/// Reads a Responses API body into a result: its text, `Stop`, its usage and
/// metadata.
pub fn parse_responses_generate_response(response: JsonValue, warnings: Vec<Warning>) -> (r: Result<
    GenerateResult,
    AiError,
>)
    ensures
        r matches Ok(g) && is_result_of(
            g,
            response,
            responses_text(response),
            FinishReason::Stop,
            warnings@,
        ),
{
    let text = match json_get_str(&response, "output_text") {
        Some(t) => t.to_string(),
        None => match json_get(&response, "output") {
            Some(JsonValue::Array(items)) => match find_item_text(items) {
                Some(t) => t.to_string(),
                None => String::new(),
            },
            _ => String::new(),
        },
    };
    let mut content: Vec<ContentPart> = Vec::new();
    content.push(ContentPart::Text { text });
    let usage = parse_usage(json_get(&response, "usage"));
    let metadata = response_metadata(&response);
    Ok(
        GenerateResult {
            content,
            finish_reason: FinishReason::Stop,
            usage,
            response: metadata,
            warnings,
        },
    )
}

/// The first choice of a Chat Completions body.
pub open spec fn first_choice(response: JsonValue) -> Option<JsonValue> {
    match spec_get(response, "choices"@) {
        Some(JsonValue::Array(cs)) => if cs@.len() > 0 {
            Some(cs@[0])
        } else {
            None
        },
        _ => None,
    }
}

/// The message text of a choice, or empty.
pub open spec fn choice_text(choice: JsonValue) -> Seq<char> {
    match spec_get(choice, "message"@) {
        Some(m) => match spec_get_str(m, "content"@) {
            Some(t) => t,
            None => Seq::empty(),
        },
        None => Seq::empty(),
    }
}

/// Reads a Chat Completions body into a result: the first choice's message
/// text and finish reason, the usage and metadata. A body without a choice
/// does not parse.
pub fn parse_chat_generate_response(response: JsonValue, warnings: Vec<Warning>) -> (r: Result<
    GenerateResult,
    AiError,
>)
    ensures
        first_choice(response) is None ==> (r matches Err(AiError::ResponseParsing(m)) && m@
            == "missing OpenAI chat choice"@),
        first_choice(response) matches Some(c) ==> (r matches Ok(g) && is_result_of(
            g,
            response,
            choice_text(c),
            finish_reason_of(spec_get_str(c, "finish_reason"@)),
            warnings@,
        )),
{
    let choice = match json_get(&response, "choices") {
        Some(JsonValue::Array(cs)) => {
            if cs.len() > 0 {
                &cs[0]
            } else {
                return Err(AiError::ResponseParsing("missing OpenAI chat choice".to_string()));
            }
        },
        _ => {
            return Err(AiError::ResponseParsing("missing OpenAI chat choice".to_string()));
        },
    };
    let text = match json_get(choice, "message") {
        Some(m) => match json_get_str(m, "content") {
            Some(t) => t.to_string(),
            None => String::new(),
        },
        None => String::new(),
    };
    let finish_reason = parse_finish_reason(json_get_str(choice, "finish_reason"));
    let mut content: Vec<ContentPart> = Vec::new();
    content.push(ContentPart::Text { text });
    let usage = parse_usage(json_get(&response, "usage"));
    let metadata = response_metadata(&response);
    Ok(GenerateResult { content, finish_reason, usage, response: metadata, warnings })
}

/// What a stream event denotes.
pub enum PartView {
    TextDelta(Seq<char>, Seq<char>),
    Finish(FinishReason),
    Raw,
}

/// The delta text of a choice, when its `delta.content` is a string.
pub open spec fn choice_delta(choice: JsonValue) -> Option<Seq<char>> {
    match spec_get(choice, "delta"@) {
        Some(d) => spec_get_str(d, "content"@),
        None => None,
    }
}

/// What an OpenAI stream event denotes: a Responses text delta (with its item
/// id, `0` by default), a bare `delta` string, a Chat Completions delta or
/// finish reason, or else the raw value.
pub open spec fn stream_event_view(v: JsonValue) -> PartView {
    if spec_get_str(v, "type"@) == Some("response.output_text.delta"@) {
        PartView::TextDelta(
            match spec_get_str(v, "item_id"@) {
                Some(i) => i,
                None => "0"@,
            },
            match spec_get_str(v, "delta"@) {
                Some(d) => d,
                None => Seq::empty(),
            },
        )
    } else if spec_get_str(v, "delta"@) is Some {
        PartView::TextDelta("0"@, spec_get_str(v, "delta"@).unwrap())
    } else {
        match first_choice(v) {
            Some(c) => match choice_delta(c) {
                Some(d) => PartView::TextDelta("0"@, d),
                None => match spec_get_str(c, "finish_reason"@) {
                    Some(f) => PartView::Finish(finish_reason_of(Some(f))),
                    None => PartView::Raw,
                },
            },
            None => PartView::Raw,
        }
    }
}

/// Whether `p` is the stream part that `v` denotes.
pub open spec fn is_part_of(p: LanguageModelStreamPart, v: JsonValue) -> bool {
    match stream_event_view(v) {
        PartView::TextDelta(id, delta) => p matches LanguageModelStreamPart::TextDelta {
            id: i,
            delta: d,
        } && i@ == id && d@ == delta,
        PartView::Finish(f) => p matches LanguageModelStreamPart::Finish { usage, finish_reason }
            && finish_reason == f && usage.input_tokens is None && usage.output_tokens is None
            && usage.total_tokens is None,
        PartView::Raw => p matches LanguageModelStreamPart::Raw { value } && value == v,
    }
}

/// Whether an event's data marks the end of the stream.
pub fn is_stream_done(data: &str) -> (r: bool)
    ensures
        r == (data@ == "[DONE]"@),
{
    crate::text::str_eq(data, "[DONE]")
}

/// Reads an OpenAI stream event, given the JSON parse of its data (or the
/// parser's message), into a provider-neutral stream part.
pub fn parse_openai_stream_event(parsed: Result<JsonValue, String>) -> (r: Result<
    LanguageModelStreamPart,
    AiError,
>)
    ensures
        match parsed {
            Err(e) => r matches Err(AiError::ResponseParsing(m)) && m@
                == "invalid OpenAI stream JSON: "@ + e@,
            Ok(v) => r matches Ok(p) && is_part_of(p, v),
        },
{
    let value = match parsed {
        Err(e) => {
            return Err(AiError::ResponseParsing(concat("invalid OpenAI stream JSON: ", e.as_str())));
        },
        Ok(v) => v,
    };
    let is_text_delta = match json_get_str(&value, "type") {
        Some(t) => crate::text::str_eq(t, "response.output_text.delta"),
        None => false,
    };
    if is_text_delta {
        let id = match json_get_str(&value, "item_id") {
            Some(i) => i.to_string(),
            None => "0".to_string(),
        };
        let delta = match json_get_str(&value, "delta") {
            Some(d) => d.to_string(),
            None => String::new(),
        };
        return Ok(LanguageModelStreamPart::TextDelta { id, delta });
    }
    match json_get_str(&value, "delta") {
        Some(d) => {
            return Ok(LanguageModelStreamPart::TextDelta { id: "0".to_string(), delta: d.to_string() });
        },
        None => {},
    }
    let mut part: Option<LanguageModelStreamPart> = None;
    match json_get(&value, "choices") {
        Some(JsonValue::Array(cs)) => {
            if cs.len() > 0 {
                let choice = &cs[0];
                let content = match json_get(choice, "delta") {
                    Some(d) => json_get_str(d, "content"),
                    None => None,
                };
                match content {
                    Some(c) => {
                        part = Some(LanguageModelStreamPart::TextDelta {
                            id: "0".to_string(),
                            delta: c.to_string(),
                        });
                    },
                    None => match json_get_str(choice, "finish_reason") {
                        Some(f) => {
                            part = Some(LanguageModelStreamPart::Finish {
                                usage: Usage::unknown(),
                                finish_reason: parse_finish_reason(Some(f)),
                            });
                        },
                        None => {},
                    },
                }
            }
        },
        _ => {},
    }
    match part {
        Some(p) => Ok(p),
        None => Ok(LanguageModelStreamPart::Raw { value }),
    }
}

/// The request body of an embedding call.
pub open spec fn embedding_body_view(model_id: Seq<char>, values: Seq<String>) -> JsonView {
    JsonView::Object(seq![("model"@, jstr(model_id)), ("input"@, strings_view(values))])
}

/// Builds the request body of an embedding call.
pub fn build_embedding_request_body(model_id: &str, values: &Vec<String>) -> (r: JsonValue)
    ensures
        jview(r) == embedding_body_view(model_id@, values@),
{
    let input = json_string_array(values);
    two_members("model", json_string(model_id), "input", input)
}

/// The request body of an image-generation call: model and prompt, then the
/// count, size and response format when set.
pub open spec fn image_body_view(model_id: Seq<char>, o: ImageModelCallOptions) -> JsonView {
    JsonView::Object(
        seq![("model"@, jstr(model_id)), ("prompt"@, jstr(o.prompt@))] + member_if(
            o.n is Some,
            "n"@,
            JsonView::Number(NumberView::PosInt(o.n.unwrap() as u64)),
        ) + member_if(o.size is Some, "size"@, jstr(o.size.unwrap()@)) + member_if(
            o.response_format is Some,
            "response_format"@,
            jstr(o.response_format.unwrap()@),
        ),
    )
}

/// A JSON string holding a copy of the string, when there is one.
pub fn opt_json_string(o: &Option<String>) -> (r: Option<JsonValue>)
    ensures
        r is Some <==> o is Some,
        r is Some ==> jview(r.unwrap()) == jstr(o.unwrap()@),
{
    match o {
        Some(s) => Some(json_string(s.as_str())),
        None => None,
    }
}

/// Builds the request body of an image-generation call.
pub fn build_image_request_body(model_id: &str, options: &ImageModelCallOptions) -> (r: JsonValue)
    ensures
        jview(r) == image_body_view(model_id@, *options),
{
    let mut ms: Vec<(String, JsonValue)> = Vec::new();
    push_member(&mut ms, "model", json_string(model_id));
    push_member(&mut ms, "prompt", json_string(options.prompt.as_str()));
    let ghost head = seq![("model"@, jstr(model_id@)), ("prompt"@, jstr(options.prompt@))];
    proof {
        assert(members_view(Seq::<(String, JsonValue)>::empty()) =~= Seq::empty());
        assert(members_view(ms@) =~= head);
    }
    let n = match options.n {
        Some(n) => Some(JsonValue::Number(JsonNumber::PosInt(n as u64))),
        None => None,
    };
    push_if(&mut ms, "n", n);
    push_if(&mut ms, "size", opt_json_string(&options.size));
    push_if(&mut ms, "response_format", opt_json_string(&options.response_format));
    proof {
        lemma_jview_object(ms);
    }
    JsonValue::Object(ms)
}

/// The request body of a speech call: model, text as `input`, voice, then the
/// format (as `response_format`) and instructions when set.
pub open spec fn speech_body_view(model_id: Seq<char>, o: SpeechModelCallOptions) -> JsonView {
    JsonView::Object(
        seq![("model"@, jstr(model_id)), ("input"@, jstr(o.text@)), ("voice"@, jstr(o.voice@))]
            + member_if(o.format is Some, "response_format"@, jstr(o.format.unwrap()@))
            + member_if(o.instructions is Some, "instructions"@, jstr(o.instructions.unwrap()@)),
    )
}

/// Builds the request body of a speech call.
pub fn build_speech_request_body(model_id: &str, options: &SpeechModelCallOptions) -> (r: JsonValue)
    ensures
        jview(r) == speech_body_view(model_id@, *options),
{
    let mut ms: Vec<(String, JsonValue)> = Vec::new();
    push_member(&mut ms, "model", json_string(model_id));
    push_member(&mut ms, "input", json_string(options.text.as_str()));
    push_member(&mut ms, "voice", json_string(options.voice.as_str()));
    let ghost head = seq![
        ("model"@, jstr(model_id@)),
        ("input"@, jstr(options.text@)),
        ("voice"@, jstr(options.voice@)),
    ];
    proof {
        assert(members_view(Seq::<(String, JsonValue)>::empty()) =~= Seq::empty());
        assert(members_view(ms@) =~= head);
    }
    push_if(&mut ms, "response_format", opt_json_string(&options.format));
    push_if(&mut ms, "instructions", opt_json_string(&options.instructions));
    proof {
        lemma_jview_object(ms);
    }
    JsonValue::Object(ms)
}

/// The media type of synthesised audio in a format: `audio/mpeg` for MP3
/// (the default), else `audio/` and the format's name.
pub open spec fn media_type_of(format: Option<Seq<char>>) -> Seq<char> {
    match format {
        None => "audio/mpeg"@,
        Some(f) => if f == "mp3"@ {
            "audio/mpeg"@
        } else {
            "audio/"@ + f
        },
    }
}

/// Synthesised audio is labelled `audio/mpeg` when it is MP3 (the format
/// `mp3`, or no format, whose default is MP3); any other format `f` is
/// labelled `audio/` followed by `f`, so a format is never relabelled as
/// another one.
pub proof fn law_speech_media_type(format: Option<Seq<char>>)
    ensures
        format is None ==> media_type_of(format) == "audio/mpeg"@,
        format == Some("mp3"@) ==> media_type_of(format) == "audio/mpeg"@,
        format matches Some(f) ==> (f != "mp3"@ ==> media_type_of(format) == "audio/"@ + f),
{
}

/// The media type of synthesised audio in a format.
pub fn format_to_media_type(format: Option<&str>) -> (r: String)
    ensures
        r@ == media_type_of(
            match format {
                Some(f) => Some(f@),
                None => None,
            },
        ),
{
    match format {
        None => "audio/mpeg".to_string(),
        Some(f) => {
            if crate::text::str_eq(f, "mp3") {
                "audio/mpeg".to_string()
            } else {
                concat("audio/", f)
            }
        },
    }
}

/// The `embedding` array of an item.
pub open spec fn embedding_values(item: JsonValue) -> Option<Seq<JsonValue>> {
    match spec_get(item, "embedding"@) {
        Some(JsonValue::Array(xs)) => Some(xs@),
        _ => None,
    }
}

/// Whether every value is a number.
pub open spec fn all_numbers(xs: Seq<JsonValue>) -> bool {
    forall|j: int| 0 <= j < xs.len() ==> #[trigger] xs[j] is Number
}

/// The first problem among embedding items, in order: an item without an
/// `embedding` array, or one with a value that is not a number.
pub open spec fn embeddings_problem(items: Seq<JsonValue>) -> Option<Seq<char>>
    decreases items.len(),
{
    if items.len() == 0 {
        None
    } else {
        match embeddings_problem(items.drop_last()) {
            Some(m) => Some(m),
            None => match embedding_values(items.last()) {
                None => Some("missing embedding"@),
                Some(xs) => if all_numbers(xs) {
                    None
                } else {
                    Some("embedding value must be a number"@)
                },
            },
        }
    }
}

/// Whether `x` is the number `n`.
pub open spec fn is_number_of(x: JsonValue, n: JsonNumber) -> bool {
    x matches JsonValue::Number(m) && number_view(m) == number_view(n)
}

/// Whether `row` holds exactly the numbers of `xs`.
pub open spec fn is_number_row(row: Seq<JsonNumber>, xs: Seq<JsonValue>) -> bool {
    &&& row.len() == xs.len()
    &&& forall|j: int| 0 <= j < xs.len() ==> is_number_of(#[trigger] xs[j], row[j])
}

fn number_copy(n: &JsonNumber) -> (r: JsonNumber)
    ensures
        number_view(r) == number_view(*n),
{
    match n {
        JsonNumber::PosInt(u) => JsonNumber::PosInt(*u),
        JsonNumber::NegInt(i) => JsonNumber::NegInt(*i),
        JsonNumber::Float(t) => JsonNumber::Float(t.clone()),
    }
}

fn read_embedding(item: &JsonValue) -> (r: Result<Vec<JsonNumber>, &'static str>)
    ensures
        match embedding_values(*item) {
            None => r matches Err(m) && m@ == "missing embedding"@,
            Some(xs) => if all_numbers(xs) {
                r matches Ok(row) && is_number_row(row@, xs)
            } else {
                r matches Err(m) && m@ == "embedding value must be a number"@
            },
        },
{
    let xs = match json_get(item, "embedding") {
        Some(JsonValue::Array(xs)) => xs,
        _ => {
            return Err("missing embedding");
        },
    };
    let mut row: Vec<JsonNumber> = Vec::new();
    let mut j: usize = 0;
    while j < xs.len()
        invariant
            j <= xs@.len(),
            embedding_values(*item) == Some(xs@),
            is_number_row(row@, xs@.take(j as int)),
        decreases xs@.len() - j,
    {
        match &xs[j] {
            JsonValue::Number(n) => {
                row.push(number_copy(n));
                assert(is_number_row(row@, xs@.take(j + 1)));
            },
            _ => {
                assert(!(xs@[j as int] is Number));
                return Err("embedding value must be a number");
            },
        }
        j = j + 1;
    }
    assert(xs@.take(xs@.len() as int) =~= xs@);
    Ok(row)
}

/// Reads the embedding vectors of an embeddings response; the numbers are
/// kept as read. A response without a `data` array, an item without an
/// `embedding` array, or a value that is not a number does not parse.
pub fn parse_embeddings(response: &JsonValue) -> (r: Result<Vec<Vec<JsonNumber>>, AiError>)
    ensures
        match spec_get(*response, "data"@) {
            Some(JsonValue::Array(items)) => match embeddings_problem(items@) {
                Some(m) => r matches Err(AiError::ResponseParsing(e)) && e@ == m,
                None => r matches Ok(rows) && rows@.len() == items@.len() && forall|i: int|
                    0 <= i < items@.len() ==> is_number_row(
                        #[trigger] rows@[i]@,
                        embedding_values(items@[i]).unwrap(),
                    ),
            },
            _ => r matches Err(AiError::ResponseParsing(e)) && e@ == "missing embeddings data"@,
        },
{
    let items = match json_get(response, "data") {
        Some(JsonValue::Array(items)) => items,
        _ => {
            return Err(AiError::ResponseParsing("missing embeddings data".to_string()));
        },
    };
    let mut rows: Vec<Vec<JsonNumber>> = Vec::new();
    let mut i: usize = 0;
    while i < items.len()
        invariant
            i <= items@.len(),
            spec_get(*response, "data"@) == Some(JsonValue::Array(*items)),
            embeddings_problem(items@.take(i as int)) is None,
            rows@.len() == i,
            forall|k: int|
                0 <= k < i ==> is_number_row(
                    #[trigger] rows@[k]@,
                    embedding_values(items@[k]).unwrap(),
                ),
        decreases items@.len() - i,
    {
        assert(items@.take(i + 1).drop_last() =~= items@.take(i as int));
        match read_embedding(&items[i]) {
            Ok(row) => {
                rows.push(row);
            },
            Err(m) => {
                proof {
                    lemma_embeddings_problem_prefix(items@, i + 1);
                }
                return Err(AiError::ResponseParsing(m.to_string()));
            },
        }
        i = i + 1;
    }
    assert(items@.take(items@.len() as int) =~= items@);
    Ok(rows)
}

proof fn lemma_embeddings_problem_prefix(items: Seq<JsonValue>, n: int)
    requires
        0 <= n <= items.len(),
        embeddings_problem(items.take(n)) is Some,
    ensures
        embeddings_problem(items) == embeddings_problem(items.take(n)),
    decreases items.len(),
{
    if n < items.len() {
        assert(items.drop_last().take(n) =~= items.take(n));
        lemma_embeddings_problem_prefix(items.drop_last(), n);
    } else {
        assert(items.take(n) =~= items);
    }
}

/// The image of a data item: its `b64_json` member when present (if it is a
/// string), else its `url` string.
pub open spec fn image_of(item: JsonValue) -> Option<Seq<char>> {
    match spec_get(item, "b64_json"@) {
        Some(x) => spec_as_str(x),
        None => spec_get_str(item, "url"@),
    }
}

/// The images of the data items, in order, skipping items without one.
pub open spec fn images_of(items: Seq<JsonValue>) -> Seq<Seq<char>>
    decreases items.len(),
{
    if items.len() == 0 {
        Seq::empty()
    } else {
        images_of(items.drop_last()) + match image_of(items.last()) {
            Some(s) => seq![s],
            None => Seq::empty(),
        }
    }
}

/// The characters of each string.
pub open spec fn strings_chars(xs: Seq<String>) -> Seq<Seq<char>> {
    Seq::new(xs.len(), |i: int| xs[i]@)
}

/// Reads the generated images of an image response; a response without a
/// `data` array does not parse.
pub fn parse_images(response: &JsonValue) -> (r: Result<Vec<String>, AiError>)
    ensures
        match spec_get(*response, "data"@) {
            Some(JsonValue::Array(items)) => r matches Ok(images) && strings_chars(images@)
                == images_of(items@),
            _ => r matches Err(AiError::ResponseParsing(e)) && e@ == "missing image data"@,
        },
{
    let items = match json_get(response, "data") {
        Some(JsonValue::Array(items)) => items,
        _ => {
            return Err(AiError::ResponseParsing("missing image data".to_string()));
        },
    };
    let mut images: Vec<String> = Vec::new();
    let mut i: usize = 0;
    while i < items.len()
        invariant
            i <= items@.len(),
            strings_chars(images@) =~= images_of(items@.take(i as int)),
        decreases items@.len() - i,
    {
        assert(items@.take(i + 1).drop_last() =~= items@.take(i as int));
        let item = &items[i];
        let found = match json_get(item, "b64_json") {
            Some(x) => json_as_str(x),
            None => json_get_str(item, "url"),
        };
        let ghost before = images@;
        match found {
            Some(s) => {
                images.push(s.to_string());
                assert(strings_chars(images@) =~= strings_chars(before) + seq![s@]);
            },
            None => {
                assert(strings_chars(images@) =~= strings_chars(before) + Seq::<Seq<char>>::empty());
            },
        }
        i = i + 1;
    }
    assert(items@.take(items@.len() as int) =~= items@);
    Ok(images)
}

/// Reads the text of a transcription response; a response without a `text`
/// string does not parse.
pub fn parse_transcription_text(response: &JsonValue) -> (r: Result<String, AiError>)
    ensures
        match spec_get_str(*response, "text"@) {
            Some(t) => r matches Ok(s) && s@ == t,
            None => r matches Err(AiError::ResponseParsing(e)) && e@ == "missing transcription text"@,
        },
{
    match json_get_str(response, "text") {
        Some(t) => Ok(t.to_string()),
        None => Err(AiError::ResponseParsing("missing transcription text".to_string())),
    }
}

/// Settings of the OpenAI provider.
#[derive(Debug)]
pub struct OpenAIProviderSettings {
    pub api_key: Option<String>,
    pub base_url: Option<String>,
    pub headers: StringMap,
}

/// The OpenAI provider: credentials, base URL and extra headers.
#[derive(Debug)]
pub struct OpenAIProvider {
    api_key: String,
    base_url: String,
    headers: StringMap,
}

/// The default base URL of the OpenAI API.
pub open spec fn default_provider_base_url() -> Seq<char> {
    "https://api.openai.com/v1"@
}

/// The base URL chosen: the configured one, else the one from the
/// environment, else the default.
pub open spec fn chosen_base_url(configured: Option<String>, from_env: Option<String>) -> Seq<char> {
    match configured {
        Some(u) => u@,
        None => match from_env {
            Some(u) => u@,
            None => default_provider_base_url(),
        },
    }
}

/// The headers that every call carries before extra headers: the bearer
/// token and the user agent.
pub open spec fn base_headers(api_key: Seq<char>) -> Map<Seq<char>, Seq<char>> {
    Map::<Seq<char>, Seq<char>>::empty().insert("authorization"@, "Bearer "@ + api_key).insert(
        "user-agent"@,
        spec_user_agent(),
    )
}

impl OpenAIProvider {
    /// The API key.
    pub closed spec fn spec_api_key(&self) -> Seq<char> {
        self.api_key@
    }

    /// The base URL, without trailing slashes.
    pub closed spec fn spec_base_url(&self) -> Seq<char> {
        self.base_url@
    }

    /// The extra headers of every call.
    pub closed spec fn spec_headers(&self) -> Map<Seq<char>, Seq<char>> {
        self.headers@
    }

    /// Creates the provider. The API key is the configured one, else that of
    /// `OPENAI_API_KEY` (whose value the caller passes as `env_api_key`); a
    /// missing or blank key is an authentication error. The base URL is the
    /// configured one, else that of `OPENAI_BASE_URL` (`env_base_url`), else
    /// the default, without trailing slashes.
    pub fn new(
        settings: OpenAIProviderSettings,
        env_api_key: Option<String>,
        env_base_url: Option<String>,
    ) -> (r: Result<OpenAIProvider, AiError>)
        ensures
            match chosen_key(settings.api_key, env_api_key) {
                Some(k) if !is_blank(k@) => r matches Ok(p) && p.spec_api_key() == k@
                    && p.spec_base_url() == trim_end_char(
                    chosen_base_url(settings.base_url, env_base_url),
                    '/',
                ) && p.spec_headers() == settings.headers@,
                _ => r matches Err(AiError::Authentication(m)) && m@ == missing_key_message(
                    "OPENAI_API_KEY"@,
                    "OpenAI"@,
                ),
            },
    {
        let OpenAIProviderSettings { api_key, base_url, headers } = settings;
        let api_key = match load_api_key(api_key, env_api_key, "OPENAI_API_KEY", "OpenAI") {
            Ok(k) => k,
            Err(e) => {
                return Err(e);
            },
        };
        let base_url = match base_url {
            Some(u) => u,
            None => match env_base_url {
                Some(u) => u,
                None => "https://api.openai.com/v1".to_string(),
            },
        };
        Ok(OpenAIProvider { api_key, base_url: trim_end_matches_char(base_url.as_str(), '/'), headers })
    }

    /// A copy of the provider.
    pub fn duplicate(&self) -> (r: OpenAIProvider)
        ensures
            r.spec_api_key() == self.spec_api_key(),
            r.spec_base_url() == self.spec_base_url(),
            r.spec_headers() == self.spec_headers(),
    {
        OpenAIProvider {
            api_key: self.api_key.clone(),
            base_url: self.base_url.clone(),
            headers: self.headers.duplicate(),
        }
    }

    /// The base URL, without trailing slashes.
    pub fn base_url(&self) -> (r: &str)
        ensures
            r@ == self.spec_base_url(),
    {
        self.base_url.as_str()
    }

    /// The URL of an API path: the base URL, a slash and the path without its
    /// leading slashes.
    pub fn endpoint(&self, path: &str) -> (r: String)
        ensures
            r@ == self.spec_base_url() + "/"@ + trim_start_char(path@, '/'),
    {
        let mut url = self.base_url.clone();
        url.append("/");
        let tail = trim_start_matches_char(path, '/');
        url.append(tail.as_str());
        url
    }

    /// The headers of a call: bearer token and user agent, then the
    /// provider's extra headers, then the call's, later ones replacing
    /// earlier ones of the same name.
    pub fn request_headers(&self, call_headers: Option<StringMap>) -> (r: StringMap)
        ensures
            r@ == match call_headers {
                Some(c) => base_headers(self.spec_api_key()).union_prefer_right(
                    self.spec_headers(),
                ).union_prefer_right(c@),
                None => base_headers(self.spec_api_key()).union_prefer_right(self.spec_headers()),
            },
    {
        let mut headers = StringMap::new();
        headers.insert("authorization".to_string(), concat("Bearer ", self.api_key.as_str()));
        headers.insert("user-agent".to_string(), user_agent());
        let headers = merge_headers(headers, Some(self.headers.duplicate()));
        merge_headers(headers, call_headers)
    }

    /// A language model on the Responses API.
    pub fn responses(&self, model_id: &str) -> (m: OpenAILanguageModel)
        ensures
            m.model_id@ == model_id@,
            m.endpoint == LanguageEndpoint::Responses,
            m.provider.spec_api_key() == self.spec_api_key(),
            m.provider.spec_base_url() == self.spec_base_url(),
            m.provider.spec_headers() == self.spec_headers(),
    {
        OpenAILanguageModel {
            provider: self.duplicate(),
            model_id: model_id.to_string(),
            endpoint: LanguageEndpoint::Responses,
        }
    }

    /// A language model on the Chat Completions API.
    pub fn chat(&self, model_id: &str) -> (m: OpenAILanguageModel)
        ensures
            m.model_id@ == model_id@,
            m.endpoint == LanguageEndpoint::Chat,
            m.provider.spec_api_key() == self.spec_api_key(),
            m.provider.spec_base_url() == self.spec_base_url(),
            m.provider.spec_headers() == self.spec_headers(),
    {
        OpenAILanguageModel {
            provider: self.duplicate(),
            model_id: model_id.to_string(),
            endpoint: LanguageEndpoint::Chat,
        }
    }

    /// An embedding model.
    pub fn embedding(&self, model_id: &str) -> (m: OpenAIEmbeddingModel)
        ensures
            m.model_id@ == model_id@,
            m.provider.spec_api_key() == self.spec_api_key(),
            m.provider.spec_base_url() == self.spec_base_url(),
            m.provider.spec_headers() == self.spec_headers(),
    {
        OpenAIEmbeddingModel { provider: self.duplicate(), model_id: model_id.to_string() }
    }

    /// An image model.
    pub fn image(&self, model_id: &str) -> (m: OpenAIImageModel)
        ensures
            m.model_id@ == model_id@,
            m.provider.spec_api_key() == self.spec_api_key(),
            m.provider.spec_base_url() == self.spec_base_url(),
            m.provider.spec_headers() == self.spec_headers(),
    {
        OpenAIImageModel { provider: self.duplicate(), model_id: model_id.to_string() }
    }

    /// A speech model.
    pub fn speech(&self, model_id: &str) -> (m: OpenAISpeechModel)
        ensures
            m.model_id@ == model_id@,
            m.provider.spec_api_key() == self.spec_api_key(),
            m.provider.spec_base_url() == self.spec_base_url(),
            m.provider.spec_headers() == self.spec_headers(),
    {
        OpenAISpeechModel { provider: self.duplicate(), model_id: model_id.to_string() }
    }

    /// A transcription model.
    pub fn transcription(&self, model_id: &str) -> (m: OpenAITranscriptionModel)
        ensures
            m.model_id@ == model_id@,
            m.provider.spec_api_key() == self.spec_api_key(),
            m.provider.spec_base_url() == self.spec_base_url(),
            m.provider.spec_headers() == self.spec_headers(),
    {
        OpenAITranscriptionModel { provider: self.duplicate(), model_id: model_id.to_string() }
    }

    /// Reranking models: this adapter offers none.
    pub fn reranking_model(&self, model_id: &str) -> (e: AiError)
        ensures
            e matches AiError::Unsupported(m) && m@ == "OpenAI does not provide reranking model '"@
                + model_id@ + "' in this adapter"@,
    {
        let mut m = "OpenAI does not provide reranking model '".to_string();
        m.append(model_id);
        m.append("' in this adapter");
        AiError::Unsupported(m)
    }

    /// File storage: this adapter offers none.
    pub fn files(&self) -> (e: AiError)
        ensures
            e matches AiError::Unsupported(m) && m@
                == "OpenAI files are not implemented in this adapter"@,
    {
        AiError::Unsupported("OpenAI files are not implemented in this adapter".to_string())
    }

    /// Skills: this adapter offers none.
    pub fn skills(&self) -> (e: AiError)
        ensures
            e matches AiError::Unsupported(m) && m@
                == "OpenAI skills are not implemented in this adapter"@,
    {
        AiError::Unsupported("OpenAI skills are not implemented in this adapter".to_string())
    }
}

/// An OpenAI embedding model.
#[derive(Debug)]
pub struct OpenAIEmbeddingModel {
    pub provider: OpenAIProvider,
    pub model_id: String,
}

/// An OpenAI image model.
#[derive(Debug)]
pub struct OpenAIImageModel {
    pub provider: OpenAIProvider,
    pub model_id: String,
}

/// An OpenAI speech model.
#[derive(Debug)]
pub struct OpenAISpeechModel {
    pub provider: OpenAIProvider,
    pub model_id: String,
}

/// An OpenAI transcription model.
#[derive(Debug)]
pub struct OpenAITranscriptionModel {
    pub provider: OpenAIProvider,
    pub model_id: String,
}

impl OpenAIEmbeddingModel {
    /// The URL of embedding calls.
    pub fn url(&self) -> (r: String)
        ensures
            r@ == self.provider.spec_base_url() + "/"@ + trim_start_char("embeddings"@, '/'),
    {
        self.provider.endpoint("embeddings")
    }
}

impl OpenAIImageModel {
    /// The URL of image calls.
    pub fn url(&self) -> (r: String)
        ensures
            r@ == self.provider.spec_base_url() + "/"@ + trim_start_char("images/generations"@, '/'),
    {
        self.provider.endpoint("images/generations")
    }
}

impl OpenAISpeechModel {
    /// The URL of speech calls.
    pub fn url(&self) -> (r: String)
        ensures
            r@ == self.provider.spec_base_url() + "/"@ + trim_start_char("audio/speech"@, '/'),
    {
        self.provider.endpoint("audio/speech")
    }
}

impl OpenAITranscriptionModel {
    /// The URL of transcription calls.
    pub fn url(&self) -> (r: String)
        ensures
            r@ == self.provider.spec_base_url() + "/"@ + trim_start_char("audio/transcriptions"@, '/'),
    {
        self.provider.endpoint("audio/transcriptions")
    }
}

/// An OpenAI language model.
#[derive(Debug)]
pub struct OpenAILanguageModel {
    pub provider: OpenAIProvider,
    pub model_id: String,
    pub endpoint: LanguageEndpoint,
}

/// The API path of a language endpoint.
pub open spec fn language_path(endpoint: LanguageEndpoint) -> Seq<char> {
    match endpoint {
        LanguageEndpoint::Responses => "responses"@,
        LanguageEndpoint::Chat => "chat/completions"@,
    }
}

impl OpenAILanguageModel {
    /// The provider's name.
    pub fn provider_name(&self) -> (r: &'static str)
        ensures
            r@ == "openai"@,
    {
        "openai"
    }

    /// The URL that calls of this model go to.
    pub fn url(&self) -> (r: String)
        ensures
            r@ == self.provider.spec_base_url() + "/"@ + trim_start_char(
                language_path(self.endpoint),
                '/',
            ),
    {
        match self.endpoint {
            LanguageEndpoint::Responses => self.provider.endpoint("responses"),
            LanguageEndpoint::Chat => self.provider.endpoint("chat/completions"),
        }
    }

    /// Reads a response of this model's endpoint into a result.
    pub fn read_response(&self, response: JsonValue, warnings: Vec<Warning>) -> (r: Result<
        GenerateResult,
        AiError,
    >)
        ensures
            self.endpoint == LanguageEndpoint::Responses ==> (r matches Ok(g) && is_result_of(
                g,
                response,
                responses_text(response),
                FinishReason::Stop,
                warnings@,
            )),
            self.endpoint == LanguageEndpoint::Chat ==> match first_choice(response) {
                None => r matches Err(AiError::ResponseParsing(m)) && m@
                    == "missing OpenAI chat choice"@,
                Some(c) => r matches Ok(g) && is_result_of(
                    g,
                    response,
                    choice_text(c),
                    finish_reason_of(spec_get_str(c, "finish_reason"@)),
                    warnings@,
                ),
            },
    {
        match self.endpoint {
            LanguageEndpoint::Responses => parse_responses_generate_response(response, warnings),
            LanguageEndpoint::Chat => parse_chat_generate_response(response, warnings),
        }
    }
}

/// The outcome of reading a media type (`reqwest::multipart::Part::mime_str`,
/// which parses it with the `mime` crate): accepted, or the error's message.
pub uninterp spec fn media_type_check(media_type: Seq<char>) -> Option<Seq<char>>;

/// Checks that a media type parses; `None` when it does, else the error's
/// message, which for this builder error is always `builder error`.
#[verifier::external_body]
pub(crate) fn check_media_type(media_type: &str) -> (r: Option<String>)
    ensures
        crate::text::opt_chars(r) == media_type_check(media_type@),
        r matches Some(m) ==> m@ == "builder error"@,
{
    match reqwest::multipart::Part::bytes(Vec::new()).mime_str(media_type) {
        Ok(_) => None,
        Err(e) => Some(e.to_string()),
    }
}

/// The multipart form of a transcription call: the model as a text field,
/// the audio as the `file` part (with its name and media type), then the
/// language and prompt fields when set.
#[derive(Debug)]
pub struct TranscriptionForm {
    pub model: String,
    pub file_name: String,
    pub audio: Vec<u8>,
    pub media_type: Option<String>,
    pub language: Option<String>,
    pub prompt: Option<String>,
}

/// Builds the form of a transcription call; a media type that does not parse
/// is an invalid argument.
pub fn build_transcription_form(model_id: &str, options: &TranscriptionModelCallOptions) -> (r: Result<
    TranscriptionForm,
    AiError,
>)
    ensures
        match options.media_type {
            Some(m) if media_type_check(m@) is Some => r matches Err(AiError::InvalidArgument(e))
                && e@ == "invalid transcription media type: "@ + media_type_check(m@).unwrap()
                && e@ == "invalid transcription media type: builder error"@,
            _ => r matches Ok(f) && {
                &&& f.model@ == model_id@
                &&& f.file_name@ == options.file_name@
                &&& f.audio@ == options.audio@
                &&& crate::text::opt_chars(f.media_type) == crate::text::opt_chars(options.media_type)
                &&& crate::text::opt_chars(f.language) == crate::text::opt_chars(options.language)
                &&& crate::text::opt_chars(f.prompt) == crate::text::opt_chars(options.prompt)
            },
        },
{
    match &options.media_type {
        Some(m) => match check_media_type(m.as_str()) {
            Some(e) => {
                proof {
                    reveal_strlit("invalid transcription media type: ");
                    reveal_strlit("builder error");
                    reveal_strlit("invalid transcription media type: builder error");
                    assert("invalid transcription media type: "@ + "builder error"@
                        =~= "invalid transcription media type: builder error"@);
                }
                return Err(AiError::InvalidArgument(concat("invalid transcription media type: ", e.as_str())));
            },
            None => {},
        },
        None => {},
    }
    let mut audio: Vec<u8> = Vec::new();
    let mut i: usize = 0;
    while i < options.audio.len()
        invariant
            i <= options.audio@.len(),
            audio@ =~= options.audio@.take(i as int),
        decreases options.audio@.len() - i,
    {
        audio.push(options.audio[i]);
        i = i + 1;
    }
    Ok(
        TranscriptionForm {
            model: model_id.to_string(),
            file_name: options.file_name.clone(),
            audio,
            media_type: copy_opt(&options.media_type),
            language: copy_opt(&options.language),
            prompt: copy_opt(&options.prompt),
        },
    )
}

fn copy_opt(o: &Option<String>) -> (r: Option<String>)
    ensures
        crate::text::opt_chars(r) == crate::text::opt_chars(*o),
{
    match o {
        Some(s) => Some(s.clone()),
        None => None,
    }
}

/// The result of an image call, read from its response body.
pub fn image_result(response: &JsonValue) -> (r: Result<ImageResult, AiError>)
    ensures
        match spec_get(*response, "data"@) {
            Some(JsonValue::Array(items)) => r matches Ok(res) && strings_chars(res.images@)
                == images_of(items@) && res.warnings@.len() == 0 && (res.response matches Some(
                m,
            ) && is_metadata_of(m, *response)),
            _ => r matches Err(AiError::ResponseParsing(e)) && e@ == "missing image data"@,
        },
{
    match parse_images(response) {
        Err(e) => Err(e),
        Ok(images) => Ok(
            ImageResult { images, response: response_metadata(response), warnings: Vec::new() },
        ),
    }
}

/// The result of a transcription call, read from its response body.
pub fn transcription_result(response: &JsonValue) -> (r: Result<TranscriptionResult, AiError>)
    ensures
        match spec_get_str(*response, "text"@) {
            Some(t) => r matches Ok(res) && res.text@ == t && res.warnings@.len() == 0 && (
            res.response matches Some(m) && is_metadata_of(m, *response)),
            None => r matches Err(AiError::ResponseParsing(e)) && e@ == "missing transcription text"@,
        },
{
    match parse_transcription_text(response) {
        Err(e) => Err(e),
        Ok(text) => Ok(
            TranscriptionResult { text, response: response_metadata(response), warnings: Vec::new() },
        ),
    }
}

/// The result of a speech call: the audio, the media type of the asked
/// format, and metadata naming the model and carrying the response headers.
pub fn speech_result(model_id: &str, format: Option<&str>, audio: Vec<u8>, headers: StringMap) -> (r:
    SpeechResult)
    ensures
        r.audio@ == audio@,
        r.media_type@ == media_type_of(
            match format {
                Some(f) => Some(f@),
                None => None,
            },
        ),
        r.warnings@.len() == 0,
        r.response matches Some(m) && m.id is None && crate::text::opt_chars(m.model_id) == Some(
            model_id@,
        ) && m.timestamp is None && m.headers == Some(headers),
{
    SpeechResult {
        audio,
        media_type: format_to_media_type(format),
        response: Some(
            ResponseMetadata {
                id: None,
                model_id: Some(model_id.to_string()),
                timestamp: None,
                headers: Some(headers),
            },
        ),
        warnings: Vec::new(),
    }
}

} // verus!
