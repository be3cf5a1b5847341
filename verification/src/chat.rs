//! OpenAI-compatible chat API types.
//!
//! These types match the OpenAI API schema: they work with OpenAI,
//! Anthropic (via adapter), Groq, OpenRouter and other providers.

use vstd::prelude::*;

use serde_json::Value;

use crate::interop::{current_time, is_v4_bits, random_uuid_v4_bits, uuid_hyphenated, uuid_text};
use crate::text::owned;

verus! {

broadcast use vstd::seq_lib::group_seq_properties;

// ============================================================================
// Defaults
// ============================================================================

/// The default number of completions to generate.
pub fn default_n() -> (r: u32)
    ensures
        r == 1,
{
    1
}

// ============================================================================
// Message types
// ============================================================================

/// Role of a message sender.
#[derive(Debug, Clone, PartialEq, Eq, Hash, Structural)]
pub enum Role {
    System,
    User,
    Assistant,
    Tool,
}

/// Content part for multimodal messages.
#[derive(Debug, Clone)]
pub enum ContentPart {
    Text { text: String },
    ImageUrl { image_url: ImageUrl },
}

#[derive(Debug, Clone)]
pub struct ImageUrl {
    pub url: String,
    pub detail: Option<String>,
}

/// Message content: a string, or an array of content parts.
#[derive(Debug, Clone)]
pub enum MessageContent {
    Text(String),
    Parts(Vec<ContentPart>),
}

/// The text of the first text part of `parts`, if there is one.
pub open spec fn first_text(parts: Seq<ContentPart>) -> Option<Seq<char>>
    decreases parts.len(),
{
    if parts.len() == 0 {
        None
    } else {
        match parts[0] {
            ContentPart::Text { text } => Some(text@),
            ContentPart::ImageUrl { .. } => first_text(parts.drop_first()),
        }
    }
}

impl MessageContent {
    /// The content read as text: the string itself, or the text of the
    /// first text part.
    pub open spec fn text_view(self) -> Option<Seq<char>> {
        match self {
            MessageContent::Text(s) => Some(s@),
            MessageContent::Parts(parts) => first_text(parts@),
        }
    }

    /// Get content as text (extracts first text from parts if needed).
    pub fn as_text(&self) -> (r: Option<&str>)
        ensures
            r.deep_view() == self.text_view(),
    {
        match self {
            MessageContent::Text(s) => Some(s.as_str()),
            MessageContent::Parts(parts) => {
                let n = parts.len();
                let mut i: usize = 0;
                while i < n
                    invariant
                        n == parts@.len(),
                        i <= n,
                        first_text(parts@) == first_text(parts@.skip(i as int)),
                        self.text_view() == first_text(parts@),
                    decreases n - i,
                {
                    assert(parts@.skip(i as int)[0] == parts@[i as int]);
                    if let ContentPart::Text { text } = &parts[i] {
                        assert(parts@.skip(i as int).len() > 0);
                        assert(first_text(parts@.skip(i as int)) == Some(text@));
                        return Some(text.as_str());
                    }
                    assert(parts@.skip(i as int).drop_first() =~= parts@.skip(i + 1));
                    i += 1;
                }
                assert(parts@.skip(n as int).len() == 0);
                None
            },
        }
    }

    /// Convert to an owned string (the first text part if needed).
    pub fn into_text(self) -> (r: Option<String>)
        ensures
            r.deep_view() == self.text_view(),
    {
        match self {
            MessageContent::Text(s) => Some(s),
            MessageContent::Parts(parts) => {
                let ghost all = parts@;
                let mut parts = parts;
                let n = parts.len();
                let mut i: usize = 0;
                while i < n
                    invariant
                        parts@ == all,
                        n == all.len(),
                        i <= n,
                        first_text(all) == first_text(all.skip(i as int)),
                        self.text_view() == first_text(all),
                    decreases n - i,
                {
                    assert(all.skip(i as int)[0] == all[i as int]);
                    if let ContentPart::Text { .. } = &parts[i] {
                        let part = parts.swap_remove(i);
                        assert(part == all[i as int]);
                        if let ContentPart::Text { text } = part {
                            assert(all.skip(i as int).len() > 0);
                            assert(first_text(all.skip(i as int)) == Some(text@));
                            return Some(text);
                        }
                    }
                    assert(all.skip(i as int).drop_first() =~= all.skip(i + 1));
                    i += 1;
                }
                assert(all.skip(n as int).len() == 0);
                None
            },
        }
    }
}

impl From<String> for MessageContent {
    fn from(s: String) -> (r: MessageContent) {
        MessageContent::Text(s)
    }
}

impl vstd::std_specs::convert::FromSpecImpl<String> for MessageContent {
    open spec fn obeys_from_spec() -> bool {
        true
    }

    open spec fn from_spec(s: String) -> MessageContent {
        MessageContent::Text(s)
    }
}

impl From<&str> for MessageContent {
    fn from(s: &str) -> (r: MessageContent)
        ensures
            r matches MessageContent::Text(t) && t@ == s@,
    {
        MessageContent::Text(owned(s))
    }
}

/// `from` is not claimed to equal the spec value: a `String` is not determined
/// by its characters in a specification, so the conversion's own `ensures`
/// above states its result instead.
impl vstd::std_specs::convert::FromSpecImpl<&str> for MessageContent {
    open spec fn obeys_from_spec() -> bool {
        false
    }

    open spec fn from_spec(s: &str) -> MessageContent {
        choose|c: MessageContent| c is Text && #[trigger] c.text_view() == Some(s@)
    }
}

/// Message in a chat conversation.
#[derive(Debug, Clone)]
pub struct Message {
    pub role: Role,
    pub content: Option<MessageContent>,
    pub name: Option<String>,
    pub tool_calls: Option<Vec<ToolCall>>,
    pub tool_call_id: Option<String>,
}

impl Message {
    /// The message's text: that of its content, if it has content.
    pub open spec fn text_view(self) -> Option<Seq<char>> {
        match self.content {
            Some(c) => c.text_view(),
            None => None,
        }
    }

    /// The message is a plain text message from `role` with text `text`:
    /// no name and no tool calls.
    pub open spec fn is_text_message(self, role: Role, text: Seq<char>) -> bool {
        &&& self.role == role
        &&& self.content matches Some(MessageContent::Text(t)) && t@ == text
        &&& self.name is None
        &&& self.tool_calls is None
    }

    fn text_message(role: Role, content: &str) -> (m: Message)
        ensures
            m.is_text_message(role, content@),
            m.tool_call_id is None,
    {
        Message {
            role,
            content: Some(MessageContent::Text(owned(content))),
            name: None,
            tool_calls: None,
            tool_call_id: None,
        }
    }

    /// Create a system message.
    pub fn system(content: &str) -> (m: Message)
        ensures
            m.is_text_message(Role::System, content@),
            m.tool_call_id is None,
    {
        Self::text_message(Role::System, content)
    }

    /// Create a user message.
    pub fn user(content: &str) -> (m: Message)
        ensures
            m.is_text_message(Role::User, content@),
            m.tool_call_id is None,
    {
        Self::text_message(Role::User, content)
    }

    /// Create an assistant message.
    pub fn assistant(content: &str) -> (m: Message)
        ensures
            m.is_text_message(Role::Assistant, content@),
            m.tool_call_id is None,
    {
        Self::text_message(Role::Assistant, content)
    }

    /// Create a tool result message answering the call `tool_call_id`.
    pub fn tool(tool_call_id: &str, content: &str) -> (m: Message)
        ensures
            m.is_text_message(Role::Tool, content@),
            m.tool_call_id.deep_view() == Some(tool_call_id@),
    {
        let mut m = Self::text_message(Role::Tool, content);
        m.tool_call_id = Some(owned(tool_call_id));
        m
    }

    /// Get content as text (extracts from parts if needed).
    pub fn text(&self) -> (r: Option<&str>)
        ensures
            r.deep_view() == self.text_view(),
            self.content matches Some(c) ==> r.deep_view() == c.text_view(),
            self.content is None ==> r is None,
    {
        match &self.content {
            Some(c) => c.as_text(),
            None => None,
        }
    }
}

/// Reading content parts as text takes the text of the first text part:
/// when part `i` is a text part and no part before it is, that text.
proof fn lemma_first_text_part(parts: Seq<ContentPart>, i: int)
    requires
        0 <= i < parts.len(),
        parts[i] is Text,
        forall|j: int| 0 <= j < i ==> !(#[trigger] parts[j] is Text),
    ensures
        first_text(parts) == Some(parts[i]->text@),
    decreases i,
{
    if i > 0 {
        assert(!(parts[0] is Text));
        assert forall|j: int| 0 <= j < i - 1 implies !(#[trigger] parts.drop_first()[j] is Text) by {
            assert(parts.drop_first()[j] == parts[j + 1]);
        }
        lemma_first_text_part(parts.drop_first(), i - 1);
    }
}

/// Parts with no text part read as no text.
proof fn lemma_no_text_part(parts: Seq<ContentPart>)
    requires
        forall|j: int| 0 <= j < parts.len() ==> !(#[trigger] parts[j] is Text),
    ensures
        first_text(parts) is None,
    decreases parts.len(),
{
    if parts.len() > 0 {
        assert(!(parts[0] is Text));
        assert forall|j: int| 0 <= j < parts.len() - 1 implies !(
        #[trigger] parts.drop_first()[j] is Text) by {
            assert(parts.drop_first()[j] == parts[j + 1]);
        }
        lemma_no_text_part(parts.drop_first());
    }
}

/// What content reads as, as text (`as_text` and `into_text`): a plain
/// string is itself; parts read as the text of the first part that is a
/// text part, whatever parts come before or after it; parts with no text
/// part read as no text.
pub proof fn lemma_content_text_is_first_text_part(c: MessageContent)
    ensures
        c matches MessageContent::Text(s) ==> c.text_view() == Some(s@),
        c matches MessageContent::Parts(p) ==> forall|i: int|
            0 <= i < p@.len() && #[trigger] p@[i] is Text && (forall|j: int|
                0 <= j < i ==> !(#[trigger] p@[j] is Text)) ==> c.text_view() == Some(
                p@[i]->text@,
            ),
        c matches MessageContent::Parts(p) ==> ((forall|j: int|
            0 <= j < p@.len() ==> !(#[trigger] p@[j] is Text)) ==> c.text_view() is None),
        c matches MessageContent::Parts(p) ==> (c.text_view() is None <==> forall|j: int|
            0 <= j < p@.len() ==> !(#[trigger] p@[j] is Text)),
{
    if let MessageContent::Parts(p) = c {
        assert forall|i: int|
            0 <= i < p@.len() && #[trigger] p@[i] is Text && (forall|j: int|
                0 <= j < i ==> !(#[trigger] p@[j] is Text)) implies c.text_view() == Some(
            p@[i]->text@,
        ) by {
            lemma_first_text_part(p@, i);
        }
        if forall|j: int| 0 <= j < p@.len() ==> !(#[trigger] p@[j] is Text) {
            lemma_no_text_part(p@);
        } else {
            let k = choose|k: int| 0 <= k < p@.len() && p@[k] is Text;
            let i = first_text_index(p@, k);
            lemma_first_text_part(p@, i);
        }
    }
}

/// The index of the first text part at or before `k`, where part `k` is one.
proof fn first_text_index(parts: Seq<ContentPart>, k: int) -> (i: int)
    requires
        0 <= k < parts.len(),
        parts[k] is Text,
    ensures
        0 <= i <= k,
        parts[i] is Text,
        forall|j: int| 0 <= j < i ==> !(#[trigger] parts[j] is Text),
    decreases k,
{
    if exists|j: int| 0 <= j < k && #[trigger] parts[j] is Text {
        let j = choose|j: int| 0 <= j < k && #[trigger] parts[j] is Text;
        first_text_index(parts, j)
    } else {
        k
    }
}

/// A message's text is that of its content, read as text; a message with
/// no content has no text.
pub proof fn lemma_message_text_is_content_text(m: Message)
    ensures
        m.content matches Some(c) ==> m.text_view() == c.text_view(),
        m.content is None ==> m.text_view() is None,
{
}

/// A text message reads back the text it was made with.
pub proof fn lemma_text_message_reads_back(m: Message, role: Role, text: Seq<char>)
    requires
        m.is_text_message(role, text),
    ensures
        m.text_view() == Some(text),
{
}

/// Content converted from a string reads back that string as its text.
pub proof fn lemma_content_from_string_reads_back(s: String)
    ensures
        <MessageContent as vstd::std_specs::convert::FromSpec<String>>::from_spec(s).text_view()
            == Some(s@),
{
}

// ============================================================================
// Tool types
// ============================================================================

/// Response format specification.
#[derive(Debug, Clone)]
pub struct ResponseFormat {
    pub format_type: String,
}

impl ResponseFormat {
    /// The JSON-object response format.
    pub fn json() -> (r: ResponseFormat)
        ensures
            r.format_type@ == "json_object"@,
    {
        ResponseFormat { format_type: owned("json_object") }
    }

    /// The plain-text response format.
    pub fn text() -> (r: ResponseFormat)
        ensures
            r.format_type@ == "text"@,
    {
        ResponseFormat { format_type: owned("text") }
    }
}

/// Tool definition.
#[derive(Debug, Clone)]
pub struct Tool {
    pub tool_type: String,
    pub function: FunctionDefinition,
}

#[derive(Debug, Clone)]
pub struct FunctionDefinition {
    pub name: String,
    pub description: Option<String>,
    pub parameters: Option<Value>,
}

impl Tool {
    /// Create a function tool.
    pub fn function(name: &str, description: Option<String>, parameters: Option<Value>) -> (r: Tool)
        ensures
            r.tool_type@ == "function"@,
            r.function.name@ == name@,
            r.function.description == description,
            r.function.parameters == parameters,
    {
        Tool {
            tool_type: owned("function"),
            function: FunctionDefinition { name: owned(name), description, parameters },
        }
    }
}

/// Tool call in an assistant message.
#[derive(Debug, Clone)]
pub struct ToolCall {
    pub id: String,
    pub tool_type: String,
    pub function: FunctionCall,
}

#[derive(Debug, Clone)]
pub struct FunctionCall {
    pub name: String,
    pub arguments: String,
}

/// How to select tools: a mode ("none", "auto", "required") or one function.
#[derive(Debug, Clone)]
pub enum ToolChoice {
    Mode(String),
    Specific { tool_type: String, function: FunctionName },
}

#[derive(Debug, Clone)]
pub struct FunctionName {
    pub name: String,
}

impl ToolChoice {
    /// The choice is the mode named `mode`.
    pub open spec fn is_mode(self, mode: Seq<char>) -> bool {
        self matches ToolChoice::Mode(m) && m@ == mode
    }

    /// The choice is the function named `name`.
    pub open spec fn is_function(self, name: Seq<char>) -> bool {
        self matches ToolChoice::Specific { tool_type, function } && tool_type@ == "function"@
            && function.name@ == name
    }

    /// Never call a tool.
    pub fn none() -> (r: ToolChoice)
        ensures
            r.is_mode("none"@),
    {
        ToolChoice::Mode(owned("none"))
    }

    /// Let the model decide.
    pub fn auto() -> (r: ToolChoice)
        ensures
            r.is_mode("auto"@),
    {
        ToolChoice::Mode(owned("auto"))
    }

    /// Require some tool call.
    pub fn required() -> (r: ToolChoice)
        ensures
            r.is_mode("required"@),
    {
        ToolChoice::Mode(owned("required"))
    }

    /// Require a call of the function `name`.
    pub fn function(name: &str) -> (r: ToolChoice)
        ensures
            r.is_function(name@),
    {
        ToolChoice::Specific {
            tool_type: owned("function"),
            function: FunctionName { name: owned(name) },
        }
    }
}

// ============================================================================
// Response types
// ============================================================================

#[derive(Debug, Clone)]
pub struct Choice {
    pub index: u32,
    pub message: Message,
    pub finish_reason: Option<String>,
    pub logprobs: Option<Value>,
}

#[derive(Debug, Clone)]
pub struct Usage {
    pub prompt_tokens: u32,
    pub completion_tokens: u32,
    pub total_tokens: u32,
}

impl Default for Usage {
    fn default() -> (r: Usage)
        ensures
            r.prompt_tokens == 0,
            r.completion_tokens == 0,
            r.total_tokens == 0,
    {
        Usage { prompt_tokens: 0, completion_tokens: 0, total_tokens: 0 }
    }
}

/// Chat completion response (non-streaming).
#[derive(Debug, Clone)]
pub struct ChatCompletionResponse {
    pub id: String,
    pub object: String,
    pub created: i64,
    pub model: String,
    pub choices: Vec<Choice>,
    pub usage: Usage,
    pub system_fingerprint: Option<String>,
}

impl ChatCompletionResponse {
    /// The response is a simple completion by `model` whose one choice is
    /// an assistant message with text `content` that stopped normally.
    pub open spec fn is_reply(self, model: Seq<char>, content: Seq<char>) -> bool {
        &&& self.object@ == "chat.completion"@
        &&& self.model@ == model
        &&& self.choices@.len() == 1
        &&& self.choices@[0].index == 0
        &&& self.choices@[0].message.is_text_message(Role::Assistant, content)
        &&& self.choices@[0].message.tool_call_id is None
        &&& self.choices@[0].finish_reason.deep_view() == Some("stop"@)
        &&& self.choices@[0].logprobs is None
        &&& self.usage.prompt_tokens == 0
        &&& self.usage.completion_tokens == 0
        &&& self.usage.total_tokens == 0
        &&& self.system_fingerprint is None
    }

    /// The text of the first choice's message, if there is a choice.
    pub open spec fn text_view(self) -> Option<Seq<char>> {
        if self.choices@.len() == 0 {
            None
        } else {
            self.choices@[0].message.text_view()
        }
    }

    /// A simple text response with a fresh id and the current time.
    pub fn new(model: &str, content: &str) -> (r: ChatCompletionResponse)
        ensures
            r.is_reply(model@, content@),
            exists|bits: u128| is_v4_bits(bits) && r.id@ == "chatcmpl-"@ + uuid_text(bits),
    {
        let bits = random_uuid_v4_bits();
        let now = current_time();
        Self::from_parts(bits, now.secs, model, content)
    }

    /// A simple text response whose id is made from the UUID with bits
    /// `uuid` and whose creation time is `created`.
    pub fn from_parts(uuid: u128, created: i64, model: &str, content: &str) -> (r:
        ChatCompletionResponse)
        ensures
            r.is_reply(model@, content@),
            r.id@ == "chatcmpl-"@ + uuid_text(uuid),
            r.created == created,
    {
        let mut id = owned("chatcmpl-");
        let text = uuid_hyphenated(uuid);
        id.append(text.as_str());
        let mut choices: Vec<Choice> = Vec::new();
        choices.push(
            Choice {
                index: 0,
                message: Message::assistant(content),
                finish_reason: Some(owned("stop")),
                logprobs: None,
            },
        );
        ChatCompletionResponse {
            id,
            object: owned("chat.completion"),
            created,
            model: owned(model),
            choices,
            usage: Usage::default(),
            system_fingerprint: None,
        }
    }

    /// Get the first choice's message content as text.
    pub fn text(&self) -> (r: Option<&str>)
        ensures
            r.deep_view() == self.text_view(),
            self.choices@.len() > 0 ==> r.deep_view() == self.choices@[0].message.text_view(),
            self.choices@.len() == 0 ==> r is None,
    {
        if self.choices.len() == 0 {
            None
        } else {
            self.choices[0].message.text()
        }
    }
}

/// A response's text is that of its first choice's message, however many
/// choices it has; a response with no choices has no text.
pub proof fn lemma_response_text_is_first_choice(r: ChatCompletionResponse)
    ensures
        r.choices@.len() > 0 ==> r.text_view() == r.choices@[0].message.text_view(),
        r.choices@.len() == 0 ==> r.text_view() is None,
{
}

/// A simple reply reads back, as its text, the content it was made with.
pub proof fn lemma_reply_reads_back(r: ChatCompletionResponse, model: Seq<char>, content: Seq<char>)
    requires
        r.is_reply(model, content),
    ensures
        r.text_view() == Some(content),
{
}

#[derive(Debug, Clone)]
pub struct ChunkChoice {
    pub index: u32,
    pub delta: ChunkDelta,
    pub finish_reason: Option<String>,
    pub logprobs: Option<Value>,
}

#[derive(Debug, Clone)]
pub struct ChunkDelta {
    pub role: Option<Role>,
    pub content: Option<String>,
    pub tool_calls: Option<Vec<ToolCallChunk>>,
}

impl Default for ChunkDelta {
    fn default() -> (r: ChunkDelta)
        ensures
            r.role is None,
            r.content is None,
            r.tool_calls is None,
    {
        ChunkDelta { role: None, content: None, tool_calls: None }
    }
}

#[derive(Debug, Clone)]
pub struct ToolCallChunk {
    pub index: u32,
    pub id: Option<String>,
    pub tool_type: Option<String>,
    pub function: Option<FunctionCallChunk>,
}

#[derive(Debug, Clone)]
pub struct FunctionCallChunk {
    pub name: Option<String>,
    pub arguments: Option<String>,
}

/// Streaming chunk response.
#[derive(Debug, Clone)]
pub struct ChatCompletionChunk {
    pub id: String,
    pub object: String,
    pub created: i64,
    pub model: String,
    pub choices: Vec<ChunkChoice>,
    pub system_fingerprint: Option<String>,
}

impl ChatCompletionChunk {
    /// The chunk carries, for completion `id` by `model`, one choice at index
    /// 0 with `delta` and `finish_reason`.
    pub open spec fn is_chunk_of(
        self,
        id: Seq<char>,
        model: Seq<char>,
        delta: ChunkDelta,
        finish_reason: Option<String>,
    ) -> bool {
        &&& self.id@ == id
        &&& self.object@ == "chat.completion.chunk"@
        &&& self.model@ == model
        &&& self.choices@.len() == 1
        &&& self.choices@[0].index == 0
        &&& self.choices@[0].delta == delta
        &&& self.choices@[0].finish_reason == finish_reason
        &&& self.choices@[0].logprobs is None
        &&& self.system_fingerprint is None
    }

    /// A chunk stamped with the current time.
    pub fn new(id: &str, model: &str, delta: ChunkDelta, finish_reason: Option<String>) -> (r:
        ChatCompletionChunk)
        ensures
            r.is_chunk_of(id@, model@, delta, finish_reason),
    {
        let now = current_time();
        Self::from_parts(now.secs, id, model, delta, finish_reason)
    }

    /// A chunk stamped with the time `created`.
    pub fn from_parts(
        created: i64,
        id: &str,
        model: &str,
        delta: ChunkDelta,
        finish_reason: Option<String>,
    ) -> (r: ChatCompletionChunk)
        ensures
            r.is_chunk_of(id@, model@, delta, finish_reason),
            r.created == created,
    {
        let mut choices: Vec<ChunkChoice> = Vec::new();
        choices.push(ChunkChoice { index: 0, delta, finish_reason, logprobs: None });
        ChatCompletionChunk {
            id: owned(id),
            object: owned("chat.completion.chunk"),
            created,
            model: owned(model),
            choices,
            system_fingerprint: None,
        }
    }
}

// ============================================================================
// Models endpoint
// ============================================================================

#[derive(Debug, Clone)]
pub struct ModelsResponse {
    pub object: String,
    pub data: Vec<ModelInfo>,
}

#[derive(Debug, Clone)]
pub struct ModelInfo {
    pub id: String,
    pub object: String,
    pub created: i64,
    pub owned_by: String,
    pub context_window: Option<u32>,
    pub max_completion_tokens: Option<u32>,
}

// ============================================================================
// Error response
// ============================================================================

#[derive(Debug, Clone)]
pub struct ErrorResponse {
    pub error: ErrorDetail,
}

#[derive(Debug, Clone)]
pub struct ErrorDetail {
    pub message: String,
    pub error_type: String,
    pub param: Option<String>,
    pub code: Option<String>,
}

impl ErrorResponse {
    /// An error with `message` of kind `error_type`, with no parameter or code.
    pub fn new(message: &str, error_type: &str) -> (r: ErrorResponse)
        ensures
            r.error.message@ == message@,
            r.error.error_type@ == error_type@,
            r.error.param is None,
            r.error.code is None,
    {
        ErrorResponse {
            error: ErrorDetail {
                message: owned(message),
                error_type: owned(error_type),
                param: None,
                code: None,
            },
        }
    }
}

} // verus!
