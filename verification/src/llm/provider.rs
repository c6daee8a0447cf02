//! Messages exchanged with a language model, and what it answers.
use vstd::prelude::*;
use crate::text::push_str;

verus! {

/// Role of a message in the conversation.
#[derive(Debug, Clone, Copy, PartialEq, Eq, Structural)]
pub enum Role {
    System,
    User,
    Assistant,
    Tool,
}

/// Content block for messages (text, or an image for vision models).
#[derive(Debug, Clone)]
pub enum ContentBlock {
    /// Text content
    Text(String),
    /// Image content
    Image(ImageContent),
}

/// Image content for vision models.
#[derive(Debug, Clone)]
pub struct ImageContent {
    /// Image source (URL or base64 data)
    pub image_url: ImageSource,
}

/// Where an image comes from.
#[derive(Debug, Clone)]
pub enum ImageSource {
    /// Image URL
    Url(String),
    /// Base64 encoded image data
    Base64 {
        /// MIME type (e.g., "image/jpeg", "image/png")
        media_type: String,
        /// Base64 encoded data
        data: String,
    },
}

/// A message in the conversation (text-only or with vision content).
#[derive(Debug, Clone)]
pub struct Message {
    pub role: Role,
    pub content: MessageContent,
    pub name: Option<String>,
    pub tool_calls: Option<Vec<ToolCall>>,
    pub tool_call_id: Option<String>,
}

/// Message content: a plain string, or content blocks for vision models.
#[derive(Debug, Clone)]
pub enum MessageContent {
    /// Simple text content
    Text(String),
    /// Content blocks (for vision models)
    Blocks(Vec<ContentBlock>),
}

/// Function call parameters.
#[derive(Debug, Clone)]
pub struct FunctionCall {
    pub name: String,
    /// JSON-encoded arguments
    pub arguments: String,
}

/// Tool call made by the LLM.
#[derive(Debug, Clone)]
pub struct ToolCall {
    pub id: String,
    pub tool_type: String,
    pub function: FunctionCall,
}

/// What a provider answered.
#[derive(Debug, Clone)]
pub struct LLMResponse {
    pub content: String,
    pub tool_calls: Option<Vec<ToolCall>>,
    pub finish_reason: String,
    pub usage: TokenUsage,
}

/// Token usage statistics.
#[derive(Debug, Clone)]
pub struct TokenUsage {
    pub prompt_tokens: usize,
    pub completion_tokens: usize,
    pub total_tokens: usize,
}

impl Default for TokenUsage {
    fn default() -> (r: Self)
        ensures
            r.prompt_tokens == 0 && r.completion_tokens == 0 && r.total_tokens == 0,
    {
        TokenUsage { prompt_tokens: 0, completion_tokens: 0, total_tokens: 0 }
    }
}

/// A value that can be turned into an owned `String` (a `&str`, a `&String` or a `String`).
pub trait IntoText {
    /// The characters of the text.
    spec fn text_of(&self) -> Seq<char>;

    /// The text as an owned `String`.
    fn into_text(self) -> (r: String)
        ensures
            r@ == self.text_of(),
    ;
}

impl IntoText for String {
    open spec fn text_of(&self) -> Seq<char> {
        self@
    }

    fn into_text(self) -> (r: String) {
        self
    }
}

impl<'a> IntoText for &'a str {
    open spec fn text_of(&self) -> Seq<char> {
        (*self)@
    }

    fn into_text(self) -> (r: String) {
        self.to_owned()
    }
}

impl<'a> IntoText for &'a String {
    open spec fn text_of(&self) -> Seq<char> {
        (*self)@
    }

    fn into_text(self) -> (r: String) {
        self.clone()
    }
}

/// `m` is a message of role `role` holding the plain text `text`, with no name,
/// tool calls or tool call id.
pub open spec fn is_text_message(m: Message, role: Role, text: Seq<char>) -> bool {
    &&& m.role == role
    &&& m.content matches MessageContent::Text(t) && t@ == text
    &&& m.name is None
    &&& m.tool_calls is None
    &&& m.tool_call_id is None
}

/// `m` is a user message made of the content blocks `blocks`.
pub open spec fn is_vision_message(m: Message, blocks: Seq<ContentBlock>) -> bool {
    &&& m.role == Role::User
    &&& m.content matches MessageContent::Blocks(b) && b@ == blocks
    &&& m.name is None
    &&& m.tool_calls is None
    &&& m.tool_call_id is None
}

/// How a content block is shown as text.
pub open spec fn block_text(b: ContentBlock) -> Seq<char> {
    match b {
        ContentBlock::Text(t) => t@,
        ContentBlock::Image(_) => "[Image]"@,
    }
}

/// The texts of `bs`, one per line.
pub open spec fn joined_blocks(bs: Seq<ContentBlock>) -> Seq<char>
    decreases bs.len(),
{
    if bs.len() == 0 {
        Seq::empty()
    } else if bs.len() == 1 {
        block_text(bs[0])
    } else {
        joined_blocks(bs.drop_last()) + seq!['\n'] + block_text(bs.last())
    }
}

/// How message content is shown as text.
pub open spec fn content_text(c: MessageContent) -> Seq<char> {
    match c {
        MessageContent::Text(t) => t@,
        MessageContent::Blocks(bs) => joined_blocks(bs@),
    }
}

impl MessageContent {
    /// The content as text: the string itself, or each block on a line of its own
    /// with `[Image]` standing for an image.
    pub fn to_string(&self) -> (r: String)
        ensures
            r@ == content_text(*self),
    {
        match self {
            MessageContent::Text(text) => text.clone(),
            MessageContent::Blocks(blocks) => {
                let mut out = String::new();
                let mut i: usize = 0;
                while i < blocks.len()
                    invariant
                        i <= blocks@.len(),
                        out@ == joined_blocks(blocks@.take(i as int)),
                    decreases blocks.len() - i,
                {
                    if i > 0 {
                        out.push('\n');
                    }
                    match &blocks[i] {
                        ContentBlock::Text(text) => push_str(&mut out, text.as_str()),
                        ContentBlock::Image(_) => push_str(&mut out, "[Image]"),
                    }
                    proof {
                        let s = blocks@.take(i + 1);
                        assert(s.drop_last() =~= blocks@.take(i as int));
                        assert(s.last() == blocks@[i as int]);
                    }
                    i = i + 1;
                }
                assert(blocks@.take(blocks@.len() as int) =~= blocks@);
                out
            },
        }
    }
}

impl Message {
    /// A system message with text content.
    pub fn system<T: IntoText>(content: T) -> (r: Self)
        ensures
            is_text_message(r, Role::System, content.text_of()),
    {
        Message {
            role: Role::System,
            content: MessageContent::Text(content.into_text()),
            name: None,
            tool_calls: None,
            tool_call_id: None,
        }
    }

    /// A user message with text content.
    pub fn user<T: IntoText>(content: T) -> (r: Self)
        ensures
            is_text_message(r, Role::User, content.text_of()),
    {
        Message {
            role: Role::User,
            content: MessageContent::Text(content.into_text()),
            name: None,
            tool_calls: None,
            tool_call_id: None,
        }
    }

    /// An assistant message with text content.
    pub fn assistant<T: IntoText>(content: T) -> (r: Self)
        ensures
            is_text_message(r, Role::Assistant, content.text_of()),
    {
        Message {
            role: Role::Assistant,
            content: MessageContent::Text(content.into_text()),
            name: None,
            tool_calls: None,
            tool_call_id: None,
        }
    }

    /// A tool response message answering the tool call `tool_call_id`.
    pub fn tool_response<T: IntoText>(content: T, tool_call_id: String) -> (r: Self)
        ensures
            r.role == Role::Tool,
            r.content matches MessageContent::Text(t) && t@ == content.text_of(),
            r.name is None,
            r.tool_calls is None,
            r.tool_call_id == Some(tool_call_id),
    {
        Message {
            role: Role::Tool,
            content: MessageContent::Text(content.into_text()),
            name: None,
            tool_calls: None,
            tool_call_id: Some(tool_call_id),
        }
    }

    /// A user message with vision content (text and images).
    pub fn user_vision(content_blocks: Vec<ContentBlock>) -> (r: Self)
        ensures
            is_vision_message(r, content_blocks@),
    {
        Message {
            role: Role::User,
            content: MessageContent::Blocks(content_blocks),
            name: None,
            tool_calls: None,
            tool_call_id: None,
        }
    }

    /// A user message with a text and one image given by URL.
    pub fn user_with_image<T: IntoText, U: IntoText>(text: T, image_url: U) -> (r: Self)
        ensures
            r.content matches MessageContent::Blocks(b) && b@.len() == 2
                && (b@[0] matches ContentBlock::Text(t) && t@ == text.text_of())
                && (b@[1] matches ContentBlock::Image(img)
                    && (img.image_url matches ImageSource::Url(u) && u@ == image_url.text_of())),
            is_vision_message(r, r.content->Blocks_0@),
    {
        let blocks = vec![
            ContentBlock::Text(text.into_text()),
            ContentBlock::Image(ImageContent { image_url: ImageSource::Url(image_url.into_text()) }),
        ];
        Self::user_vision(blocks)
    }

    /// A user message with one image given by URL.
    pub fn user_image<T: IntoText>(image_url: T) -> (r: Self)
        ensures
            r.content matches MessageContent::Blocks(b) && b@.len() == 1
                && (b@[0] matches ContentBlock::Image(img)
                    && (img.image_url matches ImageSource::Url(u) && u@ == image_url.text_of())),
            is_vision_message(r, r.content->Blocks_0@),
    {
        let blocks = vec![
            ContentBlock::Image(ImageContent { image_url: ImageSource::Url(image_url.into_text()) }),
        ];
        Self::user_vision(blocks)
    }

    /// A user message with one base64-encoded image.
    pub fn user_image_base64<T: IntoText, U: IntoText>(media_type: T, data: U) -> (r: Self)
        ensures
            r.content matches MessageContent::Blocks(b) && b@.len() == 1
                && (b@[0] matches ContentBlock::Image(img)
                    && (img.image_url matches ImageSource::Base64 { media_type: m, data: d }
                        && m@ == media_type.text_of() && d@ == data.text_of())),
            is_vision_message(r, r.content->Blocks_0@),
    {
        let blocks = vec![
            ContentBlock::Image(ImageContent {
                image_url: ImageSource::Base64 { media_type: media_type.into_text(), data: data.into_text() },
            }),
        ];
        Self::user_vision(blocks)
    }

    /// Whether the message holds content blocks (vision content).
    pub fn has_vision_content(&self) -> (r: bool)
        ensures
            r == (self.content is Blocks),
    {
        match self.content {
            MessageContent::Blocks(_) => true,
            MessageContent::Text(_) => false,
        }
    }

    /// The text of a text-only message.
    pub fn text_content(&self) -> (r: Option<&str>)
        ensures
            match self.content {
                MessageContent::Text(t) => r matches Some(s) && s@ == t@,
                MessageContent::Blocks(_) => r is None,
            },
    {
        match &self.content {
            MessageContent::Text(text) => Some(text.as_str()),
            MessageContent::Blocks(_) => None,
        }
    }
}

} // verus!
