//! Request parameters of the chat, responses, embeddings and moderations
//! endpoints, and their JSON request bodies.

use vstd::prelude::*;
use crate::json::{
    JsonNumber, JsonValue, JsonView, NumberView, jview, members_view, items_view, number_view,
    push_member, json_string, json_string_array, json_clone, lemma_jview_object,
    lemma_jview_array, lemma_items_view_push, view_insert, view_insert_all, insert_members,
    object_insert, lemma_members_view_insert,
};
use crate::openai_provider::{
    member_if, jstr, strings_view, push_if, number_json, opt_json_string, single_member,
    two_members,
};

verus! {

/// The role of a chat message.
#[derive(Debug, Clone, Copy, PartialEq, Eq)]
pub enum ChatRole {
    System,
    Developer,
    User,
    Assistant,
    Tool,
}

/// The wire name of a role.
pub open spec fn role_name(r: ChatRole) -> Seq<char> {
    match r {
        ChatRole::System => "system"@,
        ChatRole::Developer => "developer"@,
        ChatRole::User => "user"@,
        ChatRole::Assistant => "assistant"@,
        ChatRole::Tool => "tool"@,
    }
}

impl ChatRole {
    /// The wire name of the role.
    pub fn wire_name(&self) -> (r: &'static str)
        ensures
            r@ == role_name(*self),
    {
        match self {
            ChatRole::System => "system",
            ChatRole::Developer => "developer",
            ChatRole::User => "user",
            ChatRole::Assistant => "assistant",
            ChatRole::Tool => "tool",
        }
    }
}

/// A chat message: role, content, and extra fields sent alongside.
#[derive(Debug)]
pub struct ChatMessage {
    pub role: ChatRole,
    pub content: JsonValue,
    pub extra: Vec<(String, JsonValue)>,
}

impl ChatMessage {
    /// A user message with text content.
    pub fn user(content: &str) -> (m: ChatMessage)
        ensures
            m.role == ChatRole::User,
            jview(m.content) == JsonView::String(content@),
            m.extra@.len() == 0,
    {
        ChatMessage { role: ChatRole::User, content: json_string(content), extra: Vec::new() }
    }

    /// A developer message with text content.
    pub fn developer(content: &str) -> (m: ChatMessage)
        ensures
            m.role == ChatRole::Developer,
            jview(m.content) == JsonView::String(content@),
            m.extra@.len() == 0,
    {
        ChatMessage { role: ChatRole::Developer, content: json_string(content), extra: Vec::new() }
    }
}

/// A chat message on the wire: role and content, then the extra fields.
pub open spec fn chat_message_view(m: ChatMessage) -> JsonView {
    JsonView::Object(
        view_insert_all(
            seq![("role"@, jstr(role_name(m.role))), ("content"@, jview(m.content))],
            members_view(m.extra@),
        ),
    )
}

fn chat_message_json(m: &ChatMessage) -> (r: JsonValue)
    ensures
        jview(r) == chat_message_view(*m),
{
    let mut ms: Vec<(String, JsonValue)> = Vec::new();
    let role = json_string(m.role.wire_name());
    let content = json_clone(&m.content);
    push_member(&mut ms, "role", role);
    push_member(&mut ms, "content", content);
    proof {
        assert(members_view(Seq::<(String, JsonValue)>::empty()) =~= Seq::empty());
        assert(members_view(ms@) =~= seq![
            ("role"@, jstr(role_name(m.role))),
            ("content"@, jview(m.content)),
        ]);
    }
    let all = insert_members(ms, &m.extra);
    proof {
        lemma_jview_object(all);
    }
    JsonValue::Object(all)
}

/// Parameters of a chat completion. Sampling parameters are kept as JSON
/// numbers, in the form in which they are sent.
#[derive(Debug)]
pub struct ChatCompletionCreateParams {
    pub model: String,
    pub messages: Vec<ChatMessage>,
    pub temperature: Option<JsonNumber>,
    pub top_p: Option<JsonNumber>,
    pub max_completion_tokens: Option<u32>,
    pub max_tokens: Option<u32>,
    pub stream_options: Option<JsonValue>,
    pub store: Option<bool>,
    pub extra: Vec<(String, JsonValue)>,
}

impl ChatCompletionCreateParams {
    /// Parameters with a model and messages, nothing else set.
    pub fn new(model: &str, messages: Vec<ChatMessage>) -> (p: ChatCompletionCreateParams)
        ensures
            p.model@ == model@,
            p.messages == messages,
            p.temperature is None,
            p.top_p is None,
            p.max_completion_tokens is None,
            p.max_tokens is None,
            p.stream_options is None,
            p.store is None,
            p.extra@.len() == 0,
    {
        ChatCompletionCreateParams {
            model: model.to_string(),
            messages,
            temperature: None,
            top_p: None,
            max_completion_tokens: None,
            max_tokens: None,
            stream_options: None,
            store: None,
            extra: Vec::new(),
        }
    }
}

/// A count on the wire.
pub open spec fn count_view(n: u32) -> JsonView {
    JsonView::Number(NumberView::PosInt(n as u64))
}

/// The members of chat parameters, before the extra fields.
pub open spec fn chat_params_members(p: ChatCompletionCreateParams) -> Seq<(Seq<char>, JsonView)> {
    seq![
        ("model"@, jstr(p.model@)),
        ("messages"@, JsonView::Array(
            Seq::new(p.messages@.len(), |i: int| chat_message_view(p.messages@[i])),
        )),
    ] + member_if(
        p.temperature is Some,
        "temperature"@,
        JsonView::Number(number_view(p.temperature.unwrap())),
    ) + member_if(p.top_p is Some, "top_p"@, JsonView::Number(number_view(p.top_p.unwrap())))
        + member_if(
        p.max_completion_tokens is Some,
        "max_completion_tokens"@,
        count_view(p.max_completion_tokens.unwrap()),
    ) + member_if(p.max_tokens is Some, "max_tokens"@, count_view(p.max_tokens.unwrap()))
        + member_if(p.stream_options is Some, "stream_options"@, jview(p.stream_options.unwrap()))
        + member_if(p.store is Some, "store"@, JsonView::Bool(p.store.unwrap()))
}

/// The request body of a chat completion: the parameters, the extra fields
/// (which replace parameters of the same name), then `stream`.
pub open spec fn chat_request_view(p: ChatCompletionCreateParams, stream: bool) -> JsonView {
    JsonView::Object(
        view_insert(
            view_insert_all(chat_params_members(p), members_view(p.extra@)),
            "stream"@,
            JsonView::Bool(stream),
        ),
    )
}

fn count_json(n: Option<u32>) -> (r: Option<JsonValue>)
    ensures
        r is Some <==> n is Some,
        r is Some ==> jview(r.unwrap()) == count_view(n.unwrap()),
{
    match n {
        Some(v) => Some(JsonValue::Number(JsonNumber::PosInt(v as u64))),
        None => None,
    }
}

fn opt_number_json(n: &Option<JsonNumber>) -> (r: Option<JsonValue>)
    ensures
        r is Some <==> n is Some,
        r is Some ==> jview(r.unwrap()) == JsonView::Number(number_view(n.unwrap())),
{
    match n {
        Some(v) => Some(number_json(v)),
        None => None,
    }
}

fn opt_json_clone(v: &Option<JsonValue>) -> (r: Option<JsonValue>)
    ensures
        r is Some <==> v is Some,
        r is Some ==> jview(r.unwrap()) == jview(v.unwrap()),
{
    match v {
        Some(x) => Some(json_clone(x)),
        None => None,
    }
}

fn opt_bool_json(b: Option<bool>) -> (r: Option<JsonValue>)
    ensures
        r is Some <==> b is Some,
        r is Some ==> jview(r.unwrap()) == JsonView::Bool(b.unwrap()),
{
    match b {
        Some(x) => Some(JsonValue::Bool(x)),
        None => None,
    }
}

/// Builds the request body of a chat completion.
pub fn chat_request_body(params: &ChatCompletionCreateParams, stream: bool) -> (r: JsonValue)
    ensures
        jview(r) == chat_request_view(*params, stream),
{
    let mut items: Vec<JsonValue> = Vec::new();
    let mut i: usize = 0;
    while i < params.messages.len()
        invariant
            i <= params.messages@.len(),
            items_view(items@) =~= Seq::new(i as nat, |j: int| chat_message_view(params.messages@[j])),
        decreases params.messages@.len() - i,
    {
        let item = chat_message_json(&params.messages[i]);
        let ghost before = items@;
        items.push(item);
        proof {
            lemma_items_view_push(before, item);
            assert(items_view(items@) =~= Seq::new(
                (i + 1) as nat,
                |j: int| chat_message_view(params.messages@[j]),
            ));
        }
        i = i + 1;
    }
    proof {
        lemma_jview_array(items);
    }
    let mut ms: Vec<(String, JsonValue)> = Vec::new();
    push_member(&mut ms, "model", json_string(params.model.as_str()));
    push_member(&mut ms, "messages", JsonValue::Array(items));
    proof {
        assert(members_view(Seq::<(String, JsonValue)>::empty()) =~= Seq::empty());
    }
    push_if(&mut ms, "temperature", opt_number_json(&params.temperature));
    push_if(&mut ms, "top_p", opt_number_json(&params.top_p));
    push_if(&mut ms, "max_completion_tokens", count_json(params.max_completion_tokens));
    push_if(&mut ms, "max_tokens", count_json(params.max_tokens));
    push_if(&mut ms, "stream_options", opt_json_clone(&params.stream_options));
    push_if(&mut ms, "store", opt_bool_json(params.store));
    assert(members_view(ms@) =~= chat_params_members(*params));
    let merged = insert_members(ms, &params.extra);
    let k = "stream".to_string();
    let v = JsonValue::Bool(stream);
    proof {
        lemma_members_view_insert(merged@, k, v);
    }
    let body = object_insert(merged, k, v);
    proof {
        lemma_jview_object(body);
    }
    JsonValue::Object(body)
}

/// Parameters of a Responses API call. Sampling parameters are kept as JSON
/// numbers, in the form in which they are sent.
#[derive(Debug)]
pub struct ResponseCreateParams {
    pub model: String,
    pub input: Option<JsonValue>,
    pub instructions: Option<String>,
    pub max_output_tokens: Option<u32>,
    pub metadata: Option<Vec<(String, JsonValue)>>,
    pub temperature: Option<JsonNumber>,
    pub top_p: Option<JsonNumber>,
    pub store: Option<bool>,
    pub stream_options: Option<JsonValue>,
    pub extra: Vec<(String, JsonValue)>,
}

impl ResponseCreateParams {
    /// Parameters with a model, nothing else set.
    pub fn new(model: &str) -> (p: ResponseCreateParams)
        ensures
            p.model@ == model@,
            p.input is None,
            p.instructions is None,
            p.max_output_tokens is None,
            p.metadata is None,
            p.temperature is None,
            p.top_p is None,
            p.store is None,
            p.stream_options is None,
            p.extra@.len() == 0,
    {
        ResponseCreateParams {
            model: model.to_string(),
            input: None,
            instructions: None,
            max_output_tokens: None,
            metadata: None,
            temperature: None,
            top_p: None,
            store: None,
            stream_options: None,
            extra: Vec::new(),
        }
    }

    /// The parameters with an input.
    pub fn input(self, input: JsonValue) -> (p: ResponseCreateParams)
        ensures
            p.input == Some(input),
            p.model == self.model,
            p.instructions == self.instructions,
            p.max_output_tokens == self.max_output_tokens,
            p.metadata == self.metadata,
            p.temperature == self.temperature,
            p.top_p == self.top_p,
            p.store == self.store,
            p.stream_options == self.stream_options,
            p.extra == self.extra,
    {
        let mut p = self;
        p.input = Some(input);
        p
    }
}

/// The members of Responses parameters, before the extra fields.
pub open spec fn response_params_members(p: ResponseCreateParams) -> Seq<(Seq<char>, JsonView)> {
    seq![("model"@, jstr(p.model@))] + member_if(p.input is Some, "input"@, jview(p.input.unwrap()))
        + member_if(p.instructions is Some, "instructions"@, jstr(p.instructions.unwrap()@))
        + member_if(
        p.max_output_tokens is Some,
        "max_output_tokens"@,
        count_view(p.max_output_tokens.unwrap()),
    ) + member_if(
        p.metadata is Some,
        "metadata"@,
        JsonView::Object(members_view(p.metadata.unwrap()@)),
    ) + member_if(
        p.temperature is Some,
        "temperature"@,
        JsonView::Number(number_view(p.temperature.unwrap())),
    ) + member_if(p.top_p is Some, "top_p"@, JsonView::Number(number_view(p.top_p.unwrap())))
        + member_if(p.store is Some, "store"@, JsonView::Bool(p.store.unwrap())) + member_if(
        p.stream_options is Some,
        "stream_options"@,
        jview(p.stream_options.unwrap()),
    )
}

/// The request body of a Responses API call: the parameters, the extra
/// fields (which replace parameters of the same name), then `stream`.
pub open spec fn response_request_view(p: ResponseCreateParams, stream: bool) -> JsonView {
    JsonView::Object(
        view_insert(
            view_insert_all(response_params_members(p), members_view(p.extra@)),
            "stream"@,
            JsonView::Bool(stream),
        ),
    )
}

fn members_clone(ms: &Vec<(String, JsonValue)>) -> (r: JsonValue)
    ensures
        jview(r) == JsonView::Object(members_view(ms@)),
{
    let mut out: Vec<(String, JsonValue)> = Vec::new();
    let mut i: usize = 0;
    while i < ms.len()
        invariant
            i <= ms@.len(),
            members_view(out@) =~= members_view(ms@).take(i as int),
        decreases ms@.len() - i,
    {
        let k = ms[i].0.clone();
        let v = json_clone(&ms[i].1);
        let ghost before = out@;
        out.push((k, v));
        proof {
            crate::json::lemma_members_view_push(before, (k, v));
            assert(members_view(out@) =~= members_view(ms@).take(i + 1));
        }
        i = i + 1;
    }
    proof {
        assert(members_view(ms@).take(ms@.len() as int) =~= members_view(ms@));
        lemma_jview_object(out);
    }
    JsonValue::Object(out)
}

/// Builds the request body of a Responses API call.
pub fn response_request_body(params: &ResponseCreateParams, stream: bool) -> (r: JsonValue)
    ensures
        jview(r) == response_request_view(*params, stream),
{
    let mut ms: Vec<(String, JsonValue)> = Vec::new();
    push_member(&mut ms, "model", json_string(params.model.as_str()));
    proof {
        assert(members_view(Seq::<(String, JsonValue)>::empty()) =~= Seq::empty());
    }
    push_if(&mut ms, "input", opt_json_clone(&params.input));
    push_if(&mut ms, "instructions", opt_json_string(&params.instructions));
    push_if(&mut ms, "max_output_tokens", count_json(params.max_output_tokens));
    let metadata = match &params.metadata {
        Some(m) => Some(members_clone(m)),
        None => None,
    };
    push_if(&mut ms, "metadata", metadata);
    push_if(&mut ms, "temperature", opt_number_json(&params.temperature));
    push_if(&mut ms, "top_p", opt_number_json(&params.top_p));
    push_if(&mut ms, "store", opt_bool_json(params.store));
    push_if(&mut ms, "stream_options", opt_json_clone(&params.stream_options));
    assert(members_view(ms@) =~= response_params_members(*params));
    let merged = insert_members(ms, &params.extra);
    let k = "stream".to_string();
    let v = JsonValue::Bool(stream);
    proof {
        lemma_members_view_insert(merged@, k, v);
    }
    let body = object_insert(merged, k, v);
    proof {
        lemma_jview_object(body);
    }
    JsonValue::Object(body)
}

/// The input of an embedding call: one text, several, a token list, or
/// several token lists.
#[derive(Debug, Clone, PartialEq, Eq)]
pub enum EmbeddingInput {
    Text(String),
    Texts(Vec<String>),
    Tokens(Vec<u32>),
    TokenBatches(Vec<Vec<u32>>),
}

/// A token list on the wire.
pub open spec fn tokens_view(ts: Seq<u32>) -> JsonView {
    JsonView::Array(Seq::new(ts.len(), |i: int| count_view(ts[i])))
}

/// An embedding input on the wire (untagged).
pub open spec fn embedding_input_view(input: EmbeddingInput) -> JsonView {
    match input {
        EmbeddingInput::Text(s) => jstr(s@),
        EmbeddingInput::Texts(xs) => strings_view(xs@),
        EmbeddingInput::Tokens(ts) => tokens_view(ts@),
        EmbeddingInput::TokenBatches(bs) => JsonView::Array(
            Seq::new(bs@.len(), |i: int| tokens_view(bs@[i]@)),
        ),
    }
}

fn tokens_json(ts: &Vec<u32>) -> (r: JsonValue)
    ensures
        jview(r) == tokens_view(ts@),
{
    let mut items: Vec<JsonValue> = Vec::new();
    let mut i: usize = 0;
    while i < ts.len()
        invariant
            i <= ts@.len(),
            items_view(items@) =~= Seq::new(i as nat, |j: int| count_view(ts@[j])),
        decreases ts@.len() - i,
    {
        let item = JsonValue::Number(JsonNumber::PosInt(ts[i] as u64));
        let ghost before = items@;
        items.push(item);
        proof {
            lemma_items_view_push(before, item);
            assert(items_view(items@) =~= Seq::new((i + 1) as nat, |j: int| count_view(ts@[j])));
        }
        i = i + 1;
    }
    proof {
        lemma_jview_array(items);
    }
    JsonValue::Array(items)
}

fn embedding_input_json(input: &EmbeddingInput) -> (r: JsonValue)
    ensures
        jview(r) == embedding_input_view(*input),
{
    match input {
        EmbeddingInput::Text(s) => json_string(s.as_str()),
        EmbeddingInput::Texts(xs) => json_string_array(xs),
        EmbeddingInput::Tokens(ts) => tokens_json(ts),
        EmbeddingInput::TokenBatches(bs) => {
            let mut items: Vec<JsonValue> = Vec::new();
            let mut i: usize = 0;
            while i < bs.len()
                invariant
                    i <= bs@.len(),
                    items_view(items@) =~= Seq::new(i as nat, |j: int| tokens_view(bs@[j]@)),
                decreases bs@.len() - i,
            {
                let item = tokens_json(&bs[i]);
                let ghost before = items@;
                items.push(item);
                proof {
                    lemma_items_view_push(before, item);
                    assert(items_view(items@) =~= Seq::new(
                        (i + 1) as nat,
                        |j: int| tokens_view(bs@[j]@),
                    ));
                }
                i = i + 1;
            }
            proof {
                lemma_jview_array(items);
            }
            JsonValue::Array(items)
        },
    }
}

/// The encoding of returned embeddings.
#[derive(Debug, Clone, Copy, PartialEq, Eq)]
pub enum EncodingFormat {
    Float,
    Base64,
}

/// The wire name of an encoding.
pub open spec fn encoding_name(e: EncodingFormat) -> Seq<char> {
    match e {
        EncodingFormat::Float => "float"@,
        EncodingFormat::Base64 => "base64"@,
    }
}

/// Token counts of an embedding call.
#[derive(Debug, Clone, Copy, PartialEq, Eq)]
pub struct EmbeddingUsage {
    pub prompt_tokens: u32,
    pub total_tokens: u32,
}

/// Parameters of an embedding call.
#[derive(Debug)]
pub struct EmbeddingCreateParams {
    pub model: String,
    pub input: EmbeddingInput,
    pub dimensions: Option<u32>,
    pub encoding_format: Option<EncodingFormat>,
    pub user: Option<String>,
    pub extra: Vec<(String, JsonValue)>,
}

impl EmbeddingCreateParams {
    /// Parameters with a model and an input, nothing else set.
    pub fn new(model: &str, input: EmbeddingInput) -> (p: EmbeddingCreateParams)
        ensures
            p.model@ == model@,
            p.input == input,
            p.dimensions is None,
            p.encoding_format is None,
            p.user is None,
            p.extra@.len() == 0,
    {
        EmbeddingCreateParams {
            model: model.to_string(),
            input,
            dimensions: None,
            encoding_format: None,
            user: None,
            extra: Vec::new(),
        }
    }
}

/// The request body of an embedding call: model, input, dimensions when set,
/// the encoding (`float` unless another is asked for), the user when set,
/// then the extra fields (which replace parameters of the same name).
pub open spec fn embedding_request_view(p: EmbeddingCreateParams) -> JsonView {
    JsonView::Object(view_insert_all(embedding_params_members(p), members_view(p.extra@)))
}

/// The members of embedding parameters, before the extra fields.
pub open spec fn embedding_params_members(p: EmbeddingCreateParams) -> Seq<(Seq<char>, JsonView)> {
    let encoding = match p.encoding_format {
        Some(e) => e,
        None => EncodingFormat::Float,
    };
    seq![("model"@, jstr(p.model@)), ("input"@, embedding_input_view(p.input))] + member_if(
        p.dimensions is Some,
        "dimensions"@,
        count_view(p.dimensions.unwrap()),
    ) + seq![("encoding_format"@, jstr(encoding_name(encoding)))] + member_if(
        p.user is Some,
        "user"@,
        jstr(p.user.unwrap()@),
    )
}

/// Builds the request body of an embedding call.
pub fn embedding_request_body(params: &EmbeddingCreateParams) -> (r: JsonValue)
    ensures
        jview(r) == embedding_request_view(*params),
{
    let mut ms: Vec<(String, JsonValue)> = Vec::new();
    push_member(&mut ms, "model", json_string(params.model.as_str()));
    push_member(&mut ms, "input", embedding_input_json(&params.input));
    proof {
        assert(members_view(Seq::<(String, JsonValue)>::empty()) =~= Seq::empty());
    }
    push_if(&mut ms, "dimensions", count_json(params.dimensions));
    let encoding = match params.encoding_format {
        Some(EncodingFormat::Base64) => "base64",
        _ => "float",
    };
    let ghost before = members_view(ms@);
    push_member(&mut ms, "encoding_format", json_string(encoding));
    assert(members_view(ms@) =~= before + seq![(
        "encoding_format"@,
        jstr(encoding_name(match params.encoding_format {
            Some(e) => e,
            None => EncodingFormat::Float,
        })),
    )]);
    push_if(&mut ms, "user", opt_json_string(&params.user));
    assert(members_view(ms@) =~= embedding_params_members(*params));
    let merged = insert_members(ms, &params.extra);
    proof {
        lemma_jview_object(merged);
    }
    JsonValue::Object(merged)
}

/// An image given by URL for moderation.
#[derive(Debug, Clone, PartialEq, Eq)]
pub struct ModerationImageUrl {
    pub url: String,
}

/// One item of a multi-modal moderation input.
#[derive(Debug, Clone, PartialEq, Eq)]
pub enum ModerationInputItem {
    Text { text: String },
    ImageUrl { image_url: ModerationImageUrl },
}

impl ModerationInputItem {
    /// A text item.
    pub fn text(text: &str) -> (item: ModerationInputItem)
        ensures
            item matches ModerationInputItem::Text { text: t } && t@ == text@,
    {
        ModerationInputItem::Text { text: text.to_string() }
    }

    /// An image item.
    pub fn image_url(url: &str) -> (item: ModerationInputItem)
        ensures
            item matches ModerationInputItem::ImageUrl { image_url } && image_url.url@ == url@,
    {
        ModerationInputItem::ImageUrl { image_url: ModerationImageUrl { url: url.to_string() } }
    }
}

/// The input of a moderation call: one text, several, or multi-modal items.
#[derive(Debug, Clone, PartialEq, Eq)]
pub enum ModerationInput {
    Text(String),
    Texts(Vec<String>),
    Items(Vec<ModerationInputItem>),
}

/// Which kind of input a moderation category was applied to.
#[derive(Debug, Clone, Copy, PartialEq, Eq)]
pub enum ModerationAppliedInputType {
    Text,
    Image,
}

/// A moderation item on the wire (tagged by `type`).
pub open spec fn moderation_item_view(item: ModerationInputItem) -> JsonView {
    match item {
        ModerationInputItem::Text { text } => JsonView::Object(
            seq![("type"@, jstr("text"@)), ("text"@, jstr(text@))],
        ),
        ModerationInputItem::ImageUrl { image_url } => JsonView::Object(
            seq![
                ("type"@, jstr("image_url"@)),
                ("image_url"@, JsonView::Object(seq![("url"@, jstr(image_url.url@))])),
            ],
        ),
    }
}

/// A moderation input on the wire (untagged).
pub open spec fn moderation_input_view(input: ModerationInput) -> JsonView {
    match input {
        ModerationInput::Text(s) => jstr(s@),
        ModerationInput::Texts(xs) => strings_view(xs@),
        ModerationInput::Items(items) => JsonView::Array(
            Seq::new(items@.len(), |i: int| moderation_item_view(items@[i])),
        ),
    }
}

fn moderation_item_json(item: &ModerationInputItem) -> (r: JsonValue)
    ensures
        jview(r) == moderation_item_view(*item),
{
    match item {
        ModerationInputItem::Text { text } => two_members(
            "type",
            json_string("text"),
            "text",
            json_string(text.as_str()),
        ),
        ModerationInputItem::ImageUrl { image_url } => {
            let inner = single_member("url", json_string(image_url.url.as_str()));
            two_members("type", json_string("image_url"), "image_url", inner)
        },
    }
}

fn moderation_input_json(input: &ModerationInput) -> (r: JsonValue)
    ensures
        jview(r) == moderation_input_view(*input),
{
    match input {
        ModerationInput::Text(s) => json_string(s.as_str()),
        ModerationInput::Texts(xs) => json_string_array(xs),
        ModerationInput::Items(items) => {
            let mut out: Vec<JsonValue> = Vec::new();
            let mut i: usize = 0;
            while i < items.len()
                invariant
                    i <= items@.len(),
                    items_view(out@) =~= Seq::new(i as nat, |j: int| moderation_item_view(items@[j])),
                decreases items@.len() - i,
            {
                let item = moderation_item_json(&items[i]);
                let ghost before = out@;
                out.push(item);
                proof {
                    lemma_items_view_push(before, item);
                    assert(items_view(out@) =~= Seq::new(
                        (i + 1) as nat,
                        |j: int| moderation_item_view(items@[j]),
                    ));
                }
                i = i + 1;
            }
            proof {
                lemma_jview_array(out);
            }
            JsonValue::Array(out)
        },
    }
}

/// Parameters of a moderation call.
#[derive(Debug)]
pub struct ModerationCreateParams {
    pub input: ModerationInput,
    pub model: Option<String>,
    pub extra: Vec<(String, JsonValue)>,
}

impl ModerationCreateParams {
    /// Parameters with an input, nothing else set.
    pub fn new(input: ModerationInput) -> (p: ModerationCreateParams)
        ensures
            p.input == input,
            p.model is None,
            p.extra@.len() == 0,
    {
        ModerationCreateParams { input, model: None, extra: Vec::new() }
    }

    /// The parameters with a model.
    pub fn model(self, model: &str) -> (p: ModerationCreateParams)
        ensures
            crate::text::opt_chars(p.model) == Some(model@),
            p.input == self.input,
            p.extra == self.extra,
    {
        let mut p = self;
        p.model = Some(model.to_string());
        p
    }
}

/// The request body of a moderation call: the input, the model when set,
/// then the extra fields (which replace parameters of the same name).
pub open spec fn moderation_request_view(p: ModerationCreateParams) -> JsonView {
    JsonView::Object(
        view_insert_all(
            seq![("input"@, moderation_input_view(p.input))] + member_if(
                p.model is Some,
                "model"@,
                jstr(p.model.unwrap()@),
            ),
            members_view(p.extra@),
        ),
    )
}

/// Builds the request body of a moderation call.
pub fn moderation_request_body(params: &ModerationCreateParams) -> (r: JsonValue)
    ensures
        jview(r) == moderation_request_view(*params),
{
    let mut ms: Vec<(String, JsonValue)> = Vec::new();
    push_member(&mut ms, "input", moderation_input_json(&params.input));
    proof {
        assert(members_view(Seq::<(String, JsonValue)>::empty()) =~= Seq::empty());
    }
    push_if(&mut ms, "model", opt_json_string(&params.model));
    let merged = insert_members(ms, &params.extra);
    proof {
        lemma_jview_object(merged);
    }
    JsonValue::Object(merged)
}

} // verus!
