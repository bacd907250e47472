//! Request parameters of the compact client and their JSON bodies: chat
//! messages and completions, Responses API calls, and the simple create
//! calls that send a model, an input and extra fields. Every optional field
//! that is unset is left out of the body; extra fields follow the named ones.

use vstd::prelude::*;
use crate::json::{
    JsonNumber, JsonValue, JsonView, jview, members_view, items_view, number_view, push_member,
    json_string, json_clone, lemma_jview_object, lemma_jview_array, lemma_items_view_push,
};
use crate::openai_compat::{ImageUrl, ChatToolCall, FunctionCall};
use crate::strmap::StringMap;
use crate::openai_provider::{member_if, jstr, strings_view, push_if, number_json};

verus! {

/// A count on the wire.
pub open spec fn count_json_view(n: u32) -> JsonView {
    JsonView::Number(crate::json::NumberView::PosInt(n as u64))
}

/// Appends copies of `extra`'s members, in order, after the members already
/// there.
pub fn append_members(ms: &mut Vec<(String, JsonValue)>, extra: &Vec<(String, JsonValue)>)
    ensures
        members_view(final(ms)@) == members_view(old(ms)@) + members_view(extra@),
{
    let ghost start = members_view(ms@);
    let mut i: usize = 0;
    while i < extra.len()
        invariant
            i <= extra@.len(),
            members_view(ms@) =~= start + members_view(extra@).take(i as int),
        decreases extra@.len() - i,
    {
        let k = extra[i].0.as_str();
        let v = json_clone(&extra[i].1);
        let ghost before = members_view(ms@);
        push_member(ms, k, v);
        proof {
            let xs = members_view(extra@);
            assert(xs.take(i + 1) =~= xs.take(i as int).push((k@, jview(v))));
        }
        i = i + 1;
    }
    assert(members_view(extra@).take(extra@.len() as int) =~= members_view(extra@));
}

fn opt_string_json(o: &Option<String>) -> (r: Option<JsonValue>)
    ensures
        r is Some <==> o is Some,
        r is Some ==> jview(r.unwrap()) == jstr(o.unwrap()@),
{
    match o {
        Some(s) => Some(json_string(s.as_str())),
        None => None,
    }
}

fn opt_clone(o: &Option<JsonValue>) -> (r: Option<JsonValue>)
    ensures
        r is Some <==> o is Some,
        r is Some ==> jview(r.unwrap()) == jview(o.unwrap()),
{
    match o {
        Some(v) => Some(json_clone(v)),
        None => None,
    }
}

fn opt_number(o: &Option<JsonNumber>) -> (r: Option<JsonValue>)
    ensures
        r is Some <==> o is Some,
        r is Some ==> jview(r.unwrap()) == JsonView::Number(number_view(o.unwrap())),
{
    match o {
        Some(n) => Some(number_json(n)),
        None => None,
    }
}

fn opt_count(o: Option<u32>) -> (r: Option<JsonValue>)
    ensures
        r is Some <==> o is Some,
        r is Some ==> jview(r.unwrap()) == count_json_view(o.unwrap()),
{
    match o {
        Some(n) => Some(JsonValue::Number(JsonNumber::PosInt(n as u64))),
        None => None,
    }
}

fn opt_bool(o: Option<bool>) -> (r: Option<JsonValue>)
    ensures
        r is Some <==> o is Some,
        r is Some ==> jview(r.unwrap()) == JsonView::Bool(o.unwrap()),
{
    match o {
        Some(b) => Some(JsonValue::Bool(b)),
        None => None,
    }
}

fn object_of(ms: Vec<(String, JsonValue)>) -> (r: JsonValue)
    ensures
        jview(r) == JsonView::Object(members_view(ms@)),
{
    proof {
        lemma_jview_object(ms);
    }
    JsonValue::Object(ms)
}

/// A part of a message's content.
#[derive(Debug)]
pub enum ContentPart {
    Text { text: String },
    ImageUrl { image_url: ImageUrl },
    InputAudio { input_audio: JsonValue },
}

/// Content of a chat message: plain text, or a list of parts.
#[derive(Debug)]
pub enum MessageContent {
    Text(String),
    Parts(Vec<ContentPart>),
}

/// An image URL on the wire: `url`, then `detail` when set.
pub open spec fn image_url_view(u: ImageUrl) -> JsonView {
    JsonView::Object(
        seq![("url"@, jstr(u.url@))] + member_if(u.detail is Some, "detail"@, jstr(u.detail.unwrap()@)),
    )
}

/// A content part on the wire, tagged by `type`.
pub open spec fn content_part_view(p: ContentPart) -> JsonView {
    match p {
        ContentPart::Text { text } => JsonView::Object(
            seq![("type"@, jstr("text"@)), ("text"@, jstr(text@))],
        ),
        ContentPart::ImageUrl { image_url } => JsonView::Object(
            seq![("type"@, jstr("image_url"@)), ("image_url"@, image_url_view(image_url))],
        ),
        ContentPart::InputAudio { input_audio } => JsonView::Object(
            seq![("type"@, jstr("input_audio"@)), ("input_audio"@, jview(input_audio))],
        ),
    }
}

/// A list of content parts on the wire.
pub open spec fn parts_view(ps: Seq<ContentPart>) -> JsonView {
    JsonView::Array(Seq::new(ps.len(), |i: int| content_part_view(ps[i])))
}

/// Message content on the wire: a string, or the array of its parts.
pub open spec fn message_content_view(c: MessageContent) -> JsonView {
    match c {
        MessageContent::Text(s) => jstr(s@),
        MessageContent::Parts(ps) => parts_view(ps@),
    }
}

fn image_url_json(u: &ImageUrl) -> (r: JsonValue)
    ensures
        jview(r) == image_url_view(*u),
{
    let mut ms: Vec<(String, JsonValue)> = Vec::new();
    push_member(&mut ms, "url", json_string(u.url.as_str()));
    proof {
        assert(members_view(Seq::<(String, JsonValue)>::empty()) =~= Seq::empty());
    }
    push_if(&mut ms, "detail", opt_string_json(&u.detail));
    object_of(ms)
}

fn two(k1: &str, v1: JsonValue, k2: &str, v2: JsonValue) -> (r: JsonValue)
    ensures
        jview(r) == JsonView::Object(seq![(k1@, jview(v1)), (k2@, jview(v2))]),
{
    let mut ms: Vec<(String, JsonValue)> = Vec::new();
    push_member(&mut ms, k1, v1);
    push_member(&mut ms, k2, v2);
    proof {
        assert(members_view(Seq::<(String, JsonValue)>::empty()) =~= Seq::empty());
        assert(members_view(ms@) =~= seq![(k1@, jview(v1)), (k2@, jview(v2))]);
    }
    object_of(ms)
}

fn content_part_json(p: &ContentPart) -> (r: JsonValue)
    ensures
        jview(r) == content_part_view(*p),
{
    match p {
        ContentPart::Text { text } => two("type", json_string("text"), "text", json_string(text.as_str())),
        ContentPart::ImageUrl { image_url } => two(
            "type",
            json_string("image_url"),
            "image_url",
            image_url_json(image_url),
        ),
        ContentPart::InputAudio { input_audio } => two(
            "type",
            json_string("input_audio"),
            "input_audio",
            json_clone(input_audio),
        ),
    }
}

fn parts_json(ps: &Vec<ContentPart>) -> (r: JsonValue)
    ensures
        jview(r) == parts_view(ps@),
{
    let mut items: Vec<JsonValue> = Vec::new();
    let mut i: usize = 0;
    while i < ps.len()
        invariant
            i <= ps@.len(),
            items_view(items@) =~= Seq::new(i as nat, |j: int| content_part_view(ps@[j])),
        decreases ps@.len() - i,
    {
        let item = content_part_json(&ps[i]);
        let ghost before = items@;
        items.push(item);
        proof {
            lemma_items_view_push(before, item);
            assert(items_view(items@) =~= Seq::new((i + 1) as nat, |j: int| content_part_view(ps@[j])));
        }
        i = i + 1;
    }
    proof {
        lemma_jview_array(items);
    }
    JsonValue::Array(items)
}

fn message_content_json(c: &MessageContent) -> (r: JsonValue)
    ensures
        jview(r) == message_content_view(*c),
{
    match c {
        MessageContent::Text(s) => json_string(s.as_str()),
        MessageContent::Parts(ps) => parts_json(ps),
    }
}

/// A function call on the wire: `name` and `arguments`.
pub open spec fn function_call_view(f: FunctionCall) -> JsonView {
    JsonView::Object(seq![("name"@, jstr(f.name@)), ("arguments"@, jstr(f.arguments@))])
}

/// A tool call on the wire: `id`, `type`, then `function`.
pub open spec fn tool_call_view(c: ChatToolCall) -> JsonView {
    JsonView::Object(
        seq![
            ("id"@, jstr(c.id@)),
            ("type"@, jstr(c.call_type@)),
            ("function"@, function_call_view(c.function)),
        ],
    )
}

/// A list of tool calls on the wire.
pub open spec fn tool_calls_view(cs: Seq<ChatToolCall>) -> JsonView {
    JsonView::Array(Seq::new(cs.len(), |i: int| tool_call_view(cs[i])))
}

fn tool_call_json(c: &ChatToolCall) -> (r: JsonValue)
    ensures
        jview(r) == tool_call_view(*c),
{
    let function = two(
        "name",
        json_string(c.function.name.as_str()),
        "arguments",
        json_string(c.function.arguments.as_str()),
    );
    let mut ms: Vec<(String, JsonValue)> = Vec::new();
    push_member(&mut ms, "id", json_string(c.id.as_str()));
    push_member(&mut ms, "type", json_string(c.call_type.as_str()));
    push_member(&mut ms, "function", function);
    proof {
        assert(members_view(Seq::<(String, JsonValue)>::empty()) =~= Seq::empty());
        assert(members_view(ms@) =~= seq![
            ("id"@, jstr(c.id@)),
            ("type"@, jstr(c.call_type@)),
            ("function"@, function_call_view(c.function)),
        ]);
    }
    object_of(ms)
}

fn tool_calls_json(cs: &Vec<ChatToolCall>) -> (r: JsonValue)
    ensures
        jview(r) == tool_calls_view(cs@),
{
    let mut items: Vec<JsonValue> = Vec::new();
    let mut i: usize = 0;
    while i < cs.len()
        invariant
            i <= cs@.len(),
            items_view(items@) =~= Seq::new(i as nat, |j: int| tool_call_view(cs@[j])),
        decreases cs@.len() - i,
    {
        let item = tool_call_json(&cs[i]);
        let ghost before = items@;
        items.push(item);
        proof {
            lemma_items_view_push(before, item);
            assert(items_view(items@) =~= Seq::new((i + 1) as nat, |j: int| tool_call_view(cs@[j])));
        }
        i = i + 1;
    }
    proof {
        lemma_jview_array(items);
    }
    JsonValue::Array(items)
}

/// A function the model may call.
#[derive(Debug)]
pub struct FunctionDefinition {
    pub name: String,
    pub description: Option<String>,
    pub parameters: Option<JsonValue>,
    pub strict: Option<bool>,
}

/// A tool of a chat completion.
#[derive(Debug)]
pub enum ChatTool {
    Function { function: FunctionDefinition },
}

/// A function definition on the wire: `name`, then `description`,
/// `parameters` and `strict` when set.
pub open spec fn function_definition_view(f: FunctionDefinition) -> JsonView {
    JsonView::Object(
        seq![("name"@, jstr(f.name@))] + member_if(
            f.description is Some,
            "description"@,
            jstr(f.description.unwrap()@),
        ) + member_if(f.parameters is Some, "parameters"@, jview(f.parameters.unwrap()))
            + member_if(f.strict is Some, "strict"@, JsonView::Bool(f.strict.unwrap())),
    )
}

/// A chat tool on the wire, tagged by `type`.
pub open spec fn chat_tool_view(t: ChatTool) -> JsonView {
    match t {
        ChatTool::Function { function } => JsonView::Object(
            seq![("type"@, jstr("function"@)), ("function"@, function_definition_view(function))],
        ),
    }
}

/// A list of chat tools on the wire.
pub open spec fn chat_tools_view(ts: Seq<ChatTool>) -> JsonView {
    JsonView::Array(Seq::new(ts.len(), |i: int| chat_tool_view(ts[i])))
}

fn function_definition_json(f: &FunctionDefinition) -> (r: JsonValue)
    ensures
        jview(r) == function_definition_view(*f),
{
    let mut ms: Vec<(String, JsonValue)> = Vec::new();
    push_member(&mut ms, "name", json_string(f.name.as_str()));
    proof {
        assert(members_view(Seq::<(String, JsonValue)>::empty()) =~= Seq::empty());
    }
    push_if(&mut ms, "description", opt_string_json(&f.description));
    push_if(&mut ms, "parameters", opt_clone(&f.parameters));
    push_if(&mut ms, "strict", opt_bool(f.strict));
    object_of(ms)
}

fn chat_tool_json(t: &ChatTool) -> (r: JsonValue)
    ensures
        jview(r) == chat_tool_view(*t),
{
    match t {
        ChatTool::Function { function } => two(
            "type",
            json_string("function"),
            "function",
            function_definition_json(function),
        ),
    }
}

fn chat_tools_json(ts: &Vec<ChatTool>) -> (r: JsonValue)
    ensures
        jview(r) == chat_tools_view(ts@),
{
    let mut items: Vec<JsonValue> = Vec::new();
    let mut i: usize = 0;
    while i < ts.len()
        invariant
            i <= ts@.len(),
            items_view(items@) =~= Seq::new(i as nat, |j: int| chat_tool_view(ts@[j])),
        decreases ts@.len() - i,
    {
        let item = chat_tool_json(&ts[i]);
        let ghost before = items@;
        items.push(item);
        proof {
            lemma_items_view_push(before, item);
            assert(items_view(items@) =~= Seq::new((i + 1) as nat, |j: int| chat_tool_view(ts@[j])));
        }
        i = i + 1;
    }
    proof {
        lemma_jview_array(items);
    }
    JsonValue::Array(items)
}

/// A message of a chat completion, by role; `extra` fields are sent after
/// the named ones.
#[derive(Debug)]
pub enum ChatMessage {
    Developer { content: MessageContent, extra: Vec<(String, JsonValue)> },
    System { content: MessageContent, extra: Vec<(String, JsonValue)> },
    User { content: MessageContent, extra: Vec<(String, JsonValue)> },
    Assistant {
        content: Option<MessageContent>,
        tool_calls: Option<Vec<ChatToolCall>>,
        extra: Vec<(String, JsonValue)>,
    },
    Tool { content: MessageContent, tool_call_id: String, extra: Vec<(String, JsonValue)> },
}

impl ChatMessage {
    /// A user message with text content.
    pub fn user(content: &str) -> (m: ChatMessage)
        ensures
            m matches ChatMessage::User { content: MessageContent::Text(t), extra } && t@ == content@
                && extra@.len() == 0,
    {
        ChatMessage::User { content: MessageContent::Text(content.to_string()), extra: Vec::new() }
    }

    /// A developer message with text content.
    pub fn developer(content: &str) -> (m: ChatMessage)
        ensures
            m matches ChatMessage::Developer { content: MessageContent::Text(t), extra } && t@
                == content@ && extra@.len() == 0,
    {
        ChatMessage::Developer {
            content: MessageContent::Text(content.to_string()),
            extra: Vec::new(),
        }
    }
}

/// A message on the wire: `role` first, then its fields, then the extra
/// fields.
pub open spec fn chat_message_view(m: ChatMessage) -> JsonView {
    match m {
        ChatMessage::Developer { content, extra } => JsonView::Object(
            seq![("role"@, jstr("developer"@)), ("content"@, message_content_view(content))]
                + members_view(extra@),
        ),
        ChatMessage::System { content, extra } => JsonView::Object(
            seq![("role"@, jstr("system"@)), ("content"@, message_content_view(content))]
                + members_view(extra@),
        ),
        ChatMessage::User { content, extra } => JsonView::Object(
            seq![("role"@, jstr("user"@)), ("content"@, message_content_view(content))]
                + members_view(extra@),
        ),
        ChatMessage::Assistant { content, tool_calls, extra } => JsonView::Object(
            seq![("role"@, jstr("assistant"@))] + member_if(
                content is Some,
                "content"@,
                message_content_view(content.unwrap()),
            ) + member_if(tool_calls is Some, "tool_calls"@, tool_calls_view(tool_calls.unwrap()@))
                + members_view(extra@),
        ),
        ChatMessage::Tool { content, tool_call_id, extra } => JsonView::Object(
            seq![
                ("role"@, jstr("tool"@)),
                ("content"@, message_content_view(content)),
                ("tool_call_id"@, jstr(tool_call_id@)),
            ] + members_view(extra@),
        ),
    }
}

fn role_and_content(role: &str, content: &MessageContent, extra: &Vec<(String, JsonValue)>) -> (r: JsonValue)
    ensures
        jview(r) == JsonView::Object(
            seq![("role"@, jstr(role@)), ("content"@, message_content_view(*content))]
                + members_view(extra@),
        ),
{
    let mut ms: Vec<(String, JsonValue)> = Vec::new();
    push_member(&mut ms, "role", json_string(role));
    push_member(&mut ms, "content", message_content_json(content));
    proof {
        assert(members_view(Seq::<(String, JsonValue)>::empty()) =~= Seq::empty());
        assert(members_view(ms@) =~= seq![
            ("role"@, jstr(role@)),
            ("content"@, message_content_view(*content)),
        ]);
    }
    append_members(&mut ms, extra);
    object_of(ms)
}

fn opt_content_json(c: &Option<MessageContent>) -> (r: Option<JsonValue>)
    ensures
        r is Some <==> c is Some,
        r is Some ==> jview(r.unwrap()) == message_content_view(c.unwrap()),
{
    match c {
        Some(x) => Some(message_content_json(x)),
        None => None,
    }
}

fn opt_tool_calls_json(c: &Option<Vec<ChatToolCall>>) -> (r: Option<JsonValue>)
    ensures
        r is Some <==> c is Some,
        r is Some ==> jview(r.unwrap()) == tool_calls_view(c.unwrap()@),
{
    match c {
        Some(x) => Some(tool_calls_json(x)),
        None => None,
    }
}

fn chat_message_json(m: &ChatMessage) -> (r: JsonValue)
    ensures
        jview(r) == chat_message_view(*m),
{
    proof {
        reveal_strlit("developer");
        reveal_strlit("system");
        reveal_strlit("user");
    }
    match m {
        ChatMessage::Developer { content, extra } => role_and_content("developer", content, extra),
        ChatMessage::System { content, extra } => role_and_content("system", content, extra),
        ChatMessage::User { content, extra } => role_and_content("user", content, extra),
        ChatMessage::Assistant { content, tool_calls, extra } => {
            let mut ms: Vec<(String, JsonValue)> = Vec::new();
            push_member(&mut ms, "role", json_string("assistant"));
            proof {
                assert(members_view(Seq::<(String, JsonValue)>::empty()) =~= Seq::empty());
            }
            push_if(&mut ms, "content", opt_content_json(content));
            push_if(&mut ms, "tool_calls", opt_tool_calls_json(tool_calls));
            append_members(&mut ms, extra);
            object_of(ms)
        },
        ChatMessage::Tool { content, tool_call_id, extra } => {
            let mut ms: Vec<(String, JsonValue)> = Vec::new();
            push_member(&mut ms, "role", json_string("tool"));
            push_member(&mut ms, "content", message_content_json(content));
            push_member(&mut ms, "tool_call_id", json_string(tool_call_id.as_str()));
            proof {
                assert(members_view(Seq::<(String, JsonValue)>::empty()) =~= Seq::empty());
                assert(members_view(ms@) =~= seq![
                    ("role"@, jstr("tool"@)),
                    ("content"@, message_content_view(*content)),
                    ("tool_call_id"@, jstr(tool_call_id@)),
                ]);
            }
            append_members(&mut ms, extra);
            object_of(ms)
        },
    }
}

/// Parameters of a chat completion of the compact client. Sampling
/// parameters are kept as JSON numbers, in the form in which they are sent.
#[derive(Debug)]
pub struct ChatCompletionCreateParams {
    pub model: String,
    pub messages: Vec<ChatMessage>,
    pub temperature: Option<JsonNumber>,
    pub top_p: Option<JsonNumber>,
    pub max_completion_tokens: Option<u32>,
    pub response_format: Option<JsonValue>,
    pub reasoning_effort: Option<String>,
    pub tools: Option<Vec<ChatTool>>,
    pub tool_choice: Option<JsonValue>,
    pub stream: bool,
    pub extra: Vec<(String, JsonValue)>,
}

impl ChatCompletionCreateParams {
    /// Parameters with a model and messages, nothing else set.
    pub fn new(model: &str, messages: Vec<ChatMessage>) -> (p: ChatCompletionCreateParams)
        ensures
            p.model@ == model@,
            p.messages == messages,
            p.temperature is None,
            p.top_p is None,
            p.max_completion_tokens is None,
            p.response_format is None,
            p.reasoning_effort is None,
            p.tools is None,
            p.tool_choice is None,
            !p.stream,
            p.extra@.len() == 0,
    {
        ChatCompletionCreateParams {
            model: model.to_string(),
            messages,
            temperature: None,
            top_p: None,
            max_completion_tokens: None,
            response_format: None,
            reasoning_effort: None,
            tools: None,
            tool_choice: None,
            stream: false,
            extra: Vec::new(),
        }
    }
}

/// The messages on the wire.
pub open spec fn chat_messages_view(ms: Seq<ChatMessage>) -> JsonView {
    JsonView::Array(Seq::new(ms.len(), |i: int| chat_message_view(ms[i])))
}

/// The body of a chat completion with the `stream` flag given: the named
/// fields in order (those unset left out, `stream` only when true), then the
/// extra fields.
pub open spec fn chat_body_view(p: ChatCompletionCreateParams, stream: bool) -> JsonView {
    JsonView::Object(
        seq![("model"@, jstr(p.model@)), ("messages"@, chat_messages_view(p.messages@))]
            + member_if(p.temperature is Some, "temperature"@, JsonView::Number(number_view(p.temperature.unwrap())))
            + member_if(p.top_p is Some, "top_p"@, JsonView::Number(number_view(p.top_p.unwrap())))
            + member_if(
            p.max_completion_tokens is Some,
            "max_completion_tokens"@,
            count_json_view(p.max_completion_tokens.unwrap()),
        ) + member_if(p.response_format is Some, "response_format"@, jview(p.response_format.unwrap()))
            + member_if(p.reasoning_effort is Some, "reasoning_effort"@, jstr(p.reasoning_effort.unwrap()@))
            + member_if(p.tools is Some, "tools"@, chat_tools_view(p.tools.unwrap()@))
            + member_if(p.tool_choice is Some, "tool_choice"@, jview(p.tool_choice.unwrap()))
            + member_if(stream, "stream"@, JsonView::Bool(true)) + members_view(p.extra@),
    )
}

fn chat_messages_json(ms: &Vec<ChatMessage>) -> (r: JsonValue)
    ensures
        jview(r) == chat_messages_view(ms@),
{
    let mut items: Vec<JsonValue> = Vec::new();
    let mut i: usize = 0;
    while i < ms.len()
        invariant
            i <= ms@.len(),
            items_view(items@) =~= Seq::new(i as nat, |j: int| chat_message_view(ms@[j])),
        decreases ms@.len() - i,
    {
        let item = chat_message_json(&ms[i]);
        let ghost before = items@;
        items.push(item);
        proof {
            lemma_items_view_push(before, item);
            assert(items_view(items@) =~= Seq::new((i + 1) as nat, |j: int| chat_message_view(ms@[j])));
        }
        i = i + 1;
    }
    proof {
        lemma_jview_array(items);
    }
    JsonValue::Array(items)
}

fn opt_tools_json(t: &Option<Vec<ChatTool>>) -> (r: Option<JsonValue>)
    ensures
        r is Some <==> t is Some,
        r is Some ==> jview(r.unwrap()) == chat_tools_view(t.unwrap()@),
{
    match t {
        Some(x) => Some(chat_tools_json(x)),
        None => None,
    }
}

fn stream_flag(stream: bool) -> (r: Option<JsonValue>)
    ensures
        r is Some <==> stream,
        r is Some ==> jview(r.unwrap()) == JsonView::Bool(true),
{
    if stream {
        Some(JsonValue::Bool(true))
    } else {
        None
    }
}

/// The body of a chat completion with the given `stream` flag.
pub fn chat_body(params: &ChatCompletionCreateParams, stream: bool) -> (r: JsonValue)
    ensures
        jview(r) == chat_body_view(*params, stream),
{
    let mut ms: Vec<(String, JsonValue)> = Vec::new();
    let messages = chat_messages_json(&params.messages);
    push_member(&mut ms, "model", json_string(params.model.as_str()));
    push_member(&mut ms, "messages", messages);
    proof {
        assert(members_view(Seq::<(String, JsonValue)>::empty()) =~= Seq::empty());
        assert(members_view(ms@) =~= seq![
            ("model"@, jstr(params.model@)),
            ("messages"@, chat_messages_view(params.messages@)),
        ]);
    }
    push_if(&mut ms, "temperature", opt_number(&params.temperature));
    push_if(&mut ms, "top_p", opt_number(&params.top_p));
    push_if(&mut ms, "max_completion_tokens", opt_count(params.max_completion_tokens));
    push_if(&mut ms, "response_format", opt_clone(&params.response_format));
    push_if(&mut ms, "reasoning_effort", opt_string_json(&params.reasoning_effort));
    push_if(&mut ms, "tools", opt_tools_json(&params.tools));
    push_if(&mut ms, "tool_choice", opt_clone(&params.tool_choice));
    let flag = stream_flag(stream);
    push_if(&mut ms, "stream", flag);
    proof {
        assert(member_if(flag is Some, "stream"@, jview(flag.unwrap())) == member_if(
            stream,
            "stream"@,
            JsonView::Bool(true),
        ));
    }
    append_members(&mut ms, &params.extra);
    object_of(ms)
}

/// The input of a Responses API call: text, or a list of items.
#[derive(Debug)]
pub enum ResponseInput {
    Text(String),
    Items(Vec<ResponseInputItem>),
}

/// An item of a Responses API input, tagged by `type`.
#[derive(Debug)]
pub enum ResponseInputItem {
    Message { role: String, content: Vec<ContentPart> },
    FunctionCallOutput { call_id: String, output: String },
}

/// A tool of a Responses API call, tagged by `type`; `extra` fields are sent
/// after the named ones.
#[derive(Debug)]
pub enum ResponseTool {
    Function {
        name: String,
        description: Option<String>,
        parameters: Option<JsonValue>,
        strict: Option<bool>,
    },
    WebSearchPreview,
    FileSearch { vector_store_ids: Vec<String>, extra: Vec<(String, JsonValue)> },
    ComputerUsePreview { extra: Vec<(String, JsonValue)> },
}

/// An input item on the wire.
pub open spec fn input_item_view(item: ResponseInputItem) -> JsonView {
    match item {
        ResponseInputItem::Message { role, content } => JsonView::Object(
            seq![
                ("type"@, jstr("message"@)),
                ("role"@, jstr(role@)),
                ("content"@, parts_view(content@)),
            ],
        ),
        ResponseInputItem::FunctionCallOutput { call_id, output } => JsonView::Object(
            seq![
                ("type"@, jstr("function_call_output"@)),
                ("call_id"@, jstr(call_id@)),
                ("output"@, jstr(output@)),
            ],
        ),
    }
}

/// A Responses API input on the wire: a string, or the array of its items.
pub open spec fn response_input_view(input: ResponseInput) -> JsonView {
    match input {
        ResponseInput::Text(t) => jstr(t@),
        ResponseInput::Items(items) => JsonView::Array(
            Seq::new(items@.len(), |i: int| input_item_view(items@[i])),
        ),
    }
}

/// A Responses API tool on the wire.
pub open spec fn response_tool_view(t: ResponseTool) -> JsonView {
    match t {
        ResponseTool::Function { name, description, parameters, strict } => JsonView::Object(
            seq![("type"@, jstr("function"@)), ("name"@, jstr(name@))] + member_if(
                description is Some,
                "description"@,
                jstr(description.unwrap()@),
            ) + member_if(parameters is Some, "parameters"@, jview(parameters.unwrap()))
                + member_if(strict is Some, "strict"@, JsonView::Bool(strict.unwrap())),
        ),
        ResponseTool::WebSearchPreview => JsonView::Object(
            seq![("type"@, jstr("web_search_preview"@))],
        ),
        ResponseTool::FileSearch { vector_store_ids, extra } => JsonView::Object(
            seq![
                ("type"@, jstr("file_search"@)),
                ("vector_store_ids"@, strings_view(vector_store_ids@)),
            ] + members_view(extra@),
        ),
        ResponseTool::ComputerUsePreview { extra } => JsonView::Object(
            seq![("type"@, jstr("computer_use_preview"@))] + members_view(extra@),
        ),
    }
}

/// A list of Responses API tools on the wire.
pub open spec fn response_tools_view(ts: Seq<ResponseTool>) -> JsonView {
    JsonView::Array(Seq::new(ts.len(), |i: int| response_tool_view(ts[i])))
}

fn input_item_json(item: &ResponseInputItem) -> (r: JsonValue)
    ensures
        jview(r) == input_item_view(*item),
{
    let mut ms: Vec<(String, JsonValue)> = Vec::new();
    match item {
        ResponseInputItem::Message { role, content } => {
            push_member(&mut ms, "type", json_string("message"));
            push_member(&mut ms, "role", json_string(role.as_str()));
            push_member(&mut ms, "content", parts_json(content));
            proof {
                assert(members_view(Seq::<(String, JsonValue)>::empty()) =~= Seq::empty());
                assert(members_view(ms@) =~= seq![
                    ("type"@, jstr("message"@)),
                    ("role"@, jstr(role@)),
                    ("content"@, parts_view(content@)),
                ]);
            }
        },
        ResponseInputItem::FunctionCallOutput { call_id, output } => {
            push_member(&mut ms, "type", json_string("function_call_output"));
            push_member(&mut ms, "call_id", json_string(call_id.as_str()));
            push_member(&mut ms, "output", json_string(output.as_str()));
            proof {
                assert(members_view(Seq::<(String, JsonValue)>::empty()) =~= Seq::empty());
                assert(members_view(ms@) =~= seq![
                    ("type"@, jstr("function_call_output"@)),
                    ("call_id"@, jstr(call_id@)),
                    ("output"@, jstr(output@)),
                ]);
            }
        },
    }
    object_of(ms)
}

fn response_input_json(input: &ResponseInput) -> (r: JsonValue)
    ensures
        jview(r) == response_input_view(*input),
{
    match input {
        ResponseInput::Text(t) => json_string(t.as_str()),
        ResponseInput::Items(items) => {
            let mut out: Vec<JsonValue> = Vec::new();
            let mut i: usize = 0;
            while i < items.len()
                invariant
                    i <= items@.len(),
                    items_view(out@) =~= Seq::new(i as nat, |j: int| input_item_view(items@[j])),
                decreases items@.len() - i,
            {
                let item = input_item_json(&items[i]);
                let ghost before = out@;
                out.push(item);
                proof {
                    lemma_items_view_push(before, item);
                    assert(items_view(out@) =~= Seq::new(
                        (i + 1) as nat,
                        |j: int| input_item_view(items@[j]),
                    ));
                }
                i = i + 1;
            }
            proof {
                lemma_jview_array(out);
            }
            JsonValue::Array(out)
        },
    }
}

fn response_tool_json(t: &ResponseTool) -> (r: JsonValue)
    ensures
        jview(r) == response_tool_view(*t),
{
    let mut ms: Vec<(String, JsonValue)> = Vec::new();
    proof {
        assert(members_view(Seq::<(String, JsonValue)>::empty()) =~= Seq::empty());
    }
    match t {
        ResponseTool::Function { name, description, parameters, strict } => {
            push_member(&mut ms, "type", json_string("function"));
            push_member(&mut ms, "name", json_string(name.as_str()));
            proof {
                assert(members_view(ms@) =~= seq![("type"@, jstr("function"@)), ("name"@, jstr(name@))]);
            }
            push_if(&mut ms, "description", opt_string_json(description));
            push_if(&mut ms, "parameters", opt_clone(parameters));
            push_if(&mut ms, "strict", opt_bool(*strict));
        },
        ResponseTool::WebSearchPreview => {
            push_member(&mut ms, "type", json_string("web_search_preview"));
            proof {
                assert(members_view(ms@) =~= seq![("type"@, jstr("web_search_preview"@))]);
            }
        },
        ResponseTool::FileSearch { vector_store_ids, extra } => {
            push_member(&mut ms, "type", json_string("file_search"));
            push_member(&mut ms, "vector_store_ids", crate::json::json_string_array(vector_store_ids));
            proof {
                assert(strings_view(vector_store_ids@) == JsonView::Array(
                    Seq::new(vector_store_ids@.len(), |i: int| JsonView::String(vector_store_ids@[i]@)),
                ));
                assert(members_view(ms@) =~= seq![
                    ("type"@, jstr("file_search"@)),
                    ("vector_store_ids"@, strings_view(vector_store_ids@)),
                ]);
            }
            append_members(&mut ms, extra);
        },
        ResponseTool::ComputerUsePreview { extra } => {
            push_member(&mut ms, "type", json_string("computer_use_preview"));
            proof {
                assert(members_view(ms@) =~= seq![("type"@, jstr("computer_use_preview"@))]);
            }
            append_members(&mut ms, extra);
        },
    }
    object_of(ms)
}

fn response_tools_json(ts: &Vec<ResponseTool>) -> (r: JsonValue)
    ensures
        jview(r) == response_tools_view(ts@),
{
    let mut items: Vec<JsonValue> = Vec::new();
    let mut i: usize = 0;
    while i < ts.len()
        invariant
            i <= ts@.len(),
            items_view(items@) =~= Seq::new(i as nat, |j: int| response_tool_view(ts@[j])),
        decreases ts@.len() - i,
    {
        let item = response_tool_json(&ts[i]);
        let ghost before = items@;
        items.push(item);
        proof {
            lemma_items_view_push(before, item);
            assert(items_view(items@) =~= Seq::new((i + 1) as nat, |j: int| response_tool_view(ts@[j])));
        }
        i = i + 1;
    }
    proof {
        lemma_jview_array(items);
    }
    JsonValue::Array(items)
}

/// Parameters of a Responses API call of the compact client. Sampling
/// parameters are kept as JSON numbers; `metadata` is sent in its pairs'
/// order.
#[derive(Debug)]
pub struct ResponseCreateParams {
    pub model: String,
    pub input: Option<ResponseInput>,
    pub instructions: Option<String>,
    pub previous_response_id: Option<String>,
    pub tools: Option<Vec<ResponseTool>>,
    pub tool_choice: Option<JsonValue>,
    pub temperature: Option<JsonNumber>,
    pub top_p: Option<JsonNumber>,
    pub max_output_tokens: Option<u32>,
    pub reasoning: Option<JsonValue>,
    pub text: Option<JsonValue>,
    pub metadata: Option<StringMap>,
    pub store: Option<bool>,
    pub stream: bool,
    pub extra: Vec<(String, JsonValue)>,
}

impl ResponseCreateParams {
    /// Parameters with a model and an input, nothing else set.
    pub fn new(model: &str, input: ResponseInput) -> (p: ResponseCreateParams)
        ensures
            p.model@ == model@,
            p.input == Some(input),
            p.instructions is None,
            p.previous_response_id is None,
            p.tools is None,
            p.tool_choice is None,
            p.temperature is None,
            p.top_p is None,
            p.max_output_tokens is None,
            p.reasoning is None,
            p.text is None,
            p.metadata is None,
            p.store is None,
            !p.stream,
            p.extra@.len() == 0,
    {
        ResponseCreateParams {
            model: model.to_string(),
            input: Some(input),
            instructions: None,
            previous_response_id: None,
            tools: None,
            tool_choice: None,
            temperature: None,
            top_p: None,
            max_output_tokens: None,
            reasoning: None,
            text: None,
            metadata: None,
            store: None,
            stream: false,
            extra: Vec::new(),
        }
    }
}

/// String pairs on the wire, as an object in the pairs' order.
pub open spec fn string_pairs_view(pairs: Seq<(String, String)>) -> JsonView {
    JsonView::Object(Seq::new(pairs.len(), |i: int| (pairs[i].0@, jstr(pairs[i].1@))))
}

/// The body of a Responses API call with the `stream` flag given: the named
/// fields in order (those unset left out, `stream` only when true), then the
/// extra fields.
pub open spec fn response_body_view(p: ResponseCreateParams, stream: bool) -> JsonView {
    JsonView::Object(
        seq![("model"@, jstr(p.model@))]
            + member_if(p.input is Some, "input"@, response_input_view(p.input.unwrap()))
            + member_if(p.instructions is Some, "instructions"@, jstr(p.instructions.unwrap()@))
            + member_if(
            p.previous_response_id is Some,
            "previous_response_id"@,
            jstr(p.previous_response_id.unwrap()@),
        ) + member_if(p.tools is Some, "tools"@, response_tools_view(p.tools.unwrap()@))
            + member_if(p.tool_choice is Some, "tool_choice"@, jview(p.tool_choice.unwrap()))
            + member_if(p.temperature is Some, "temperature"@, JsonView::Number(number_view(p.temperature.unwrap())))
            + member_if(p.top_p is Some, "top_p"@, JsonView::Number(number_view(p.top_p.unwrap())))
            + member_if(
            p.max_output_tokens is Some,
            "max_output_tokens"@,
            count_json_view(p.max_output_tokens.unwrap()),
        ) + member_if(p.reasoning is Some, "reasoning"@, jview(p.reasoning.unwrap()))
            + member_if(p.text is Some, "text"@, jview(p.text.unwrap()))
            + member_if(p.metadata is Some, "metadata"@, string_pairs_view(p.metadata.unwrap().pairs@))
            + member_if(p.store is Some, "store"@, JsonView::Bool(p.store.unwrap()))
            + member_if(stream, "stream"@, JsonView::Bool(true)) + members_view(p.extra@),
    )
}

fn string_pairs_json(pairs: &Vec<(String, String)>) -> (r: JsonValue)
    ensures
        jview(r) == string_pairs_view(pairs@),
{
    let mut ms: Vec<(String, JsonValue)> = Vec::new();
    let mut i: usize = 0;
    while i < pairs.len()
        invariant
            i <= pairs@.len(),
            members_view(ms@) =~= Seq::new(i as nat, |j: int| (pairs@[j].0@, jstr(pairs@[j].1@))),
        decreases pairs@.len() - i,
    {
        let v = json_string(pairs[i].1.as_str());
        push_member(&mut ms, pairs[i].0.as_str(), v);
        proof {
            assert(members_view(ms@) =~= Seq::new(
                (i + 1) as nat,
                |j: int| (pairs@[j].0@, jstr(pairs@[j].1@)),
            ));
        }
        i = i + 1;
    }
    object_of(ms)
}

fn opt_input_json(o: &Option<ResponseInput>) -> (r: Option<JsonValue>)
    ensures
        r is Some <==> o is Some,
        r is Some ==> jview(r.unwrap()) == response_input_view(o.unwrap()),
{
    match o {
        Some(x) => Some(response_input_json(x)),
        None => None,
    }
}

fn opt_response_tools_json(o: &Option<Vec<ResponseTool>>) -> (r: Option<JsonValue>)
    ensures
        r is Some <==> o is Some,
        r is Some ==> jview(r.unwrap()) == response_tools_view(o.unwrap()@),
{
    match o {
        Some(x) => Some(response_tools_json(x)),
        None => None,
    }
}

fn opt_metadata_json(o: &Option<StringMap>) -> (r: Option<JsonValue>)
    ensures
        r is Some <==> o is Some,
        r is Some ==> jview(r.unwrap()) == string_pairs_view(o.unwrap().pairs@),
{
    match o {
        Some(m) => Some(string_pairs_json(&m.pairs)),
        None => None,
    }
}

/// The body of a Responses API call with the given `stream` flag.
pub fn response_body(params: &ResponseCreateParams, stream: bool) -> (r: JsonValue)
    ensures
        jview(r) == response_body_view(*params, stream),
{
    let mut ms: Vec<(String, JsonValue)> = Vec::new();
    push_member(&mut ms, "model", json_string(params.model.as_str()));
    proof {
        assert(members_view(Seq::<(String, JsonValue)>::empty()) =~= Seq::empty());
        assert(members_view(ms@) =~= seq![("model"@, jstr(params.model@))]);
    }
    push_if(&mut ms, "input", opt_input_json(&params.input));
    push_if(&mut ms, "instructions", opt_string_json(&params.instructions));
    push_if(&mut ms, "previous_response_id", opt_string_json(&params.previous_response_id));
    push_if(&mut ms, "tools", opt_response_tools_json(&params.tools));
    push_if(&mut ms, "tool_choice", opt_clone(&params.tool_choice));
    push_if(&mut ms, "temperature", opt_number(&params.temperature));
    push_if(&mut ms, "top_p", opt_number(&params.top_p));
    push_if(&mut ms, "max_output_tokens", opt_count(params.max_output_tokens));
    push_if(&mut ms, "reasoning", opt_clone(&params.reasoning));
    push_if(&mut ms, "text", opt_clone(&params.text));
    push_if(&mut ms, "metadata", opt_metadata_json(&params.metadata));
    push_if(&mut ms, "store", opt_bool(params.store));
    let flag = stream_flag(stream);
    push_if(&mut ms, "stream", flag);
    proof {
        assert(member_if(flag is Some, "stream"@, jview(flag.unwrap())) == member_if(
            stream,
            "stream"@,
            JsonView::Bool(true),
        ));
    }
    append_members(&mut ms, &params.extra);
    object_of(ms)
}

/// Parameters of a legacy completion: a model, a prompt and extra fields.
#[derive(Debug)]
pub struct CompletionCreateParams {
    pub model: String,
    pub prompt: JsonValue,
    pub extra: Vec<(String, JsonValue)>,
}

/// Parameters of an embeddings call of the compact client.
#[derive(Debug)]
pub struct EmbeddingCreateParams {
    pub model: String,
    pub input: JsonValue,
    pub extra: Vec<(String, JsonValue)>,
}

/// Parameters of a moderations call of the compact client.
#[derive(Debug)]
pub struct ModerationCreateParams {
    pub model: String,
    pub input: JsonValue,
    pub extra: Vec<(String, JsonValue)>,
}

/// Parameters sent as they are: the body is exactly these fields.
#[derive(Debug)]
pub struct GenericCreateParams {
    pub extra: Vec<(String, JsonValue)>,
}

/// A body made of `model`, one more named field, then the extra fields.
pub open spec fn model_body_view(model: Seq<char>, key: Seq<char>, value: JsonView, extra: Seq<(String, JsonValue)>) -> JsonView {
    JsonView::Object(seq![("model"@, jstr(model)), (key, value)] + members_view(extra))
}

fn model_body(model: &str, key: &str, value: &JsonValue, extra: &Vec<(String, JsonValue)>) -> (r: JsonValue)
    ensures
        jview(r) == model_body_view(model@, key@, jview(*value), extra@),
{
    let mut ms: Vec<(String, JsonValue)> = Vec::new();
    push_member(&mut ms, "model", json_string(model));
    push_member(&mut ms, key, json_clone(value));
    proof {
        assert(members_view(Seq::<(String, JsonValue)>::empty()) =~= Seq::empty());
        assert(members_view(ms@) =~= seq![("model"@, jstr(model@)), (key@, jview(*value))]);
    }
    append_members(&mut ms, extra);
    object_of(ms)
}

impl CompletionCreateParams {
    /// The request body: `model`, `prompt`, then the extra fields.
    pub fn to_json(&self) -> (r: JsonValue)
        ensures
            jview(r) == model_body_view(self.model@, "prompt"@, jview(self.prompt), self.extra@),
    {
        model_body(self.model.as_str(), "prompt", &self.prompt, &self.extra)
    }
}

impl EmbeddingCreateParams {
    /// The request body: `model`, `input`, then the extra fields.
    pub fn to_json(&self) -> (r: JsonValue)
        ensures
            jview(r) == model_body_view(self.model@, "input"@, jview(self.input), self.extra@),
    {
        model_body(self.model.as_str(), "input", &self.input, &self.extra)
    }
}

impl ModerationCreateParams {
    /// The request body: `model`, `input`, then the extra fields.
    pub fn to_json(&self) -> (r: JsonValue)
        ensures
            jview(r) == model_body_view(self.model@, "input"@, jview(self.input), self.extra@),
    {
        model_body(self.model.as_str(), "input", &self.input, &self.extra)
    }
}

impl GenericCreateParams {
    /// The request body: the fields as given.
    pub fn to_json(&self) -> (r: JsonValue)
        ensures
            jview(r) == JsonView::Object(members_view(self.extra@)),
    {
        let mut ms: Vec<(String, JsonValue)> = Vec::new();
        append_members(&mut ms, &self.extra);
        proof {
            assert(members_view(Seq::<(String, JsonValue)>::empty()) + members_view(self.extra@)
                =~= members_view(self.extra@));
        }
        object_of(ms)
    }
}

} // verus!
