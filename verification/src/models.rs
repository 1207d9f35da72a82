//! The canonical (caller-side) request and response schema, the adapter's
//! error taxonomy, and the credential shape read from the external token
//! store, together with the mathematical views the contracts speak of.

use vstd::prelude::*;

verus! {

// ---------------------------------------------------------------------------
// Content blocks
// ---------------------------------------------------------------------------

/// Source of an image block: both fields are optional on the wire, and an
/// image is forwarded only when both are present.
pub struct ImageSource {
    pub media_type: Option<String>,
    pub data: Option<String>,
}

#[verifier::ext_equal]
pub struct ImageSourceView {
    pub media_type: Option<Seq<char>>,
    pub data: Option<Seq<char>>,
}

impl View for ImageSource {
    type V = ImageSourceView;

    open spec fn view(&self) -> ImageSourceView {
        ImageSourceView { media_type: self.media_type.deep_view(), data: self.data.deep_view() }
    }
}

impl DeepView for ImageSource {
    type V = ImageSourceView;

    open spec fn deep_view(&self) -> ImageSourceView {
        self.view()
    }
}

/// One typed unit of message content in the canonical schema.
pub enum ContentBlock {
    Text { text: String },
    Image { source: ImageSource },
    Thinking { thinking: String },
    ToolUse { id: String, name: String, input: String },
    ToolResult { tool_use_id: String, content: String },
}

#[verifier::ext_equal]
pub enum ContentBlockView {
    Text { text: Seq<char> },
    Image { source: ImageSourceView },
    Thinking { thinking: Seq<char> },
    ToolUse { id: Seq<char>, name: Seq<char>, input: Seq<char> },
    ToolResult { tool_use_id: Seq<char>, content: Seq<char> },
}

impl View for ContentBlock {
    type V = ContentBlockView;

    open spec fn view(&self) -> ContentBlockView {
        match self {
            ContentBlock::Text { text } => ContentBlockView::Text { text: text@ },
            ContentBlock::Image { source } => ContentBlockView::Image { source: source@ },
            ContentBlock::Thinking { thinking } => ContentBlockView::Thinking {
                thinking: thinking@,
            },
            ContentBlock::ToolUse { id, name, input } => ContentBlockView::ToolUse {
                id: id@,
                name: name@,
                input: input@,
            },
            ContentBlock::ToolResult { tool_use_id, content } => ContentBlockView::ToolResult {
                tool_use_id: tool_use_id@,
                content: content@,
            },
        }
    }
}

impl DeepView for ContentBlock {
    type V = ContentBlockView;

    open spec fn deep_view(&self) -> ContentBlockView {
        self.view()
    }
}

// ---------------------------------------------------------------------------
// Messages and the system prompt
// ---------------------------------------------------------------------------

/// Message content: either one plain text or an ordered block sequence.
pub enum MessageContent {
    Text(String),
    Blocks(Vec<ContentBlock>),
}

#[verifier::ext_equal]
pub enum MessageContentView {
    Text(Seq<char>),
    Blocks(Seq<ContentBlockView>),
}

impl View for MessageContent {
    type V = MessageContentView;

    open spec fn view(&self) -> MessageContentView {
        match self {
            MessageContent::Text(t) => MessageContentView::Text(t@),
            MessageContent::Blocks(bs) => MessageContentView::Blocks(bs.deep_view()),
        }
    }
}

impl DeepView for MessageContent {
    type V = MessageContentView;

    open spec fn deep_view(&self) -> MessageContentView {
        self.view()
    }
}

pub struct Message {
    pub role: String,
    pub content: MessageContent,
}

#[verifier::ext_equal]
pub struct MessageView {
    pub role: Seq<char>,
    pub content: MessageContentView,
}

impl View for Message {
    type V = MessageView;

    open spec fn view(&self) -> MessageView {
        MessageView { role: self.role@, content: self.content@ }
    }
}

impl DeepView for Message {
    type V = MessageView;

    open spec fn deep_view(&self) -> MessageView {
        self.view()
    }
}

/// One block of a structured system prompt; its view is its text.
pub struct SystemBlock {
    pub text: String,
}

impl View for SystemBlock {
    type V = Seq<char>;

    open spec fn view(&self) -> Seq<char> {
        self.text@
    }
}

impl DeepView for SystemBlock {
    type V = Seq<char>;

    open spec fn deep_view(&self) -> Seq<char> {
        self.view()
    }
}

/// System prompt: plain text, or ordered blocks joined lossily on transform.
pub enum SystemPrompt {
    Text(String),
    Blocks(Vec<SystemBlock>),
}

#[verifier::ext_equal]
pub enum SystemPromptView {
    Text(Seq<char>),
    Blocks(Seq<Seq<char>>),
}

impl View for SystemPrompt {
    type V = SystemPromptView;

    open spec fn view(&self) -> SystemPromptView {
        match self {
            SystemPrompt::Text(t) => SystemPromptView::Text(t@),
            SystemPrompt::Blocks(bs) => SystemPromptView::Blocks(bs.deep_view()),
        }
    }
}

impl DeepView for SystemPrompt {
    type V = SystemPromptView;

    open spec fn deep_view(&self) -> SystemPromptView {
        self.view()
    }
}

// ---------------------------------------------------------------------------
// Tool declarations
// ---------------------------------------------------------------------------

/// A canonical tool declaration. The JSON input schema is carried as JSON
/// text; the adapter never reads inside it.
pub struct Tool {
    pub name: Option<String>,
    pub description: Option<String>,
    pub input_schema: Option<String>,
}

#[verifier::ext_equal]
pub struct ToolView {
    pub name: Option<Seq<char>>,
    pub description: Option<Seq<char>>,
    pub input_schema: Option<Seq<char>>,
}

impl View for Tool {
    type V = ToolView;

    open spec fn view(&self) -> ToolView {
        ToolView {
            name: self.name.deep_view(),
            description: self.description.deep_view(),
            input_schema: self.input_schema.deep_view(),
        }
    }
}

impl DeepView for Tool {
    type V = ToolView;

    open spec fn deep_view(&self) -> ToolView {
        self.view()
    }
}

// ---------------------------------------------------------------------------
// The canonical request and response
// ---------------------------------------------------------------------------

/// The canonical request accepted from the adapter's caller.
///
/// `temperature` and `top_p` carry the caller's numeric values as raw bit
/// patterns: the adapter never interprets them, it only passes them through.
pub struct AnthropicRequest {
    pub model: String,
    pub messages: Vec<Message>,
    pub system: Option<SystemPrompt>,
    pub temperature: Option<u32>,
    pub top_p: Option<u32>,
    pub max_tokens: u32,
    pub stop_sequences: Option<Vec<String>>,
    pub tools: Option<Vec<Tool>>,
}

#[verifier::ext_equal]
pub struct RequestView {
    pub model: Seq<char>,
    pub messages: Seq<MessageView>,
    pub system: Option<SystemPromptView>,
    pub temperature: Option<u32>,
    pub top_p: Option<u32>,
    pub max_tokens: u32,
    pub stop_sequences: Option<Seq<Seq<char>>>,
    pub tools: Option<Seq<ToolView>>,
}

impl View for AnthropicRequest {
    type V = RequestView;

    open spec fn view(&self) -> RequestView {
        RequestView {
            model: self.model@,
            messages: self.messages.deep_view(),
            system: self.system.deep_view(),
            temperature: self.temperature,
            top_p: self.top_p,
            max_tokens: self.max_tokens,
            stop_sequences: self.stop_sequences.deep_view(),
            tools: self.tools.deep_view(),
        }
    }
}

/// Token usage reported back to the caller; absent provider fields become 0.
pub struct Usage {
    pub input_tokens: u32,
    pub output_tokens: u32,
}

impl View for Usage {
    type V = Usage;

    open spec fn view(&self) -> Usage {
        *self
    }
}

impl Clone for Usage {
    fn clone(&self) -> (r: Usage)
        ensures
            r == *self,
    {
        Usage { input_tokens: self.input_tokens, output_tokens: self.output_tokens }
    }
}

impl Copy for Usage {

}

/// The canonical response handed back to the adapter's caller.
pub struct ProviderResponse {
    pub id: String,
    pub response_type: String,
    pub role: String,
    pub content: Vec<ContentBlock>,
    pub model: String,
    pub stop_reason: Option<String>,
    pub stop_sequence: Option<String>,
    pub usage: Usage,
}

#[verifier::ext_equal]
pub struct ResponseView {
    pub id: Seq<char>,
    pub response_type: Seq<char>,
    pub role: Seq<char>,
    pub content: Seq<ContentBlockView>,
    pub model: Seq<char>,
    pub stop_reason: Option<Seq<char>>,
    pub stop_sequence: Option<Seq<char>>,
    pub usage: Usage,
}

impl View for ProviderResponse {
    type V = ResponseView;

    open spec fn view(&self) -> ResponseView {
        ResponseView {
            id: self.id@,
            response_type: self.response_type@,
            role: self.role@,
            content: self.content.deep_view(),
            model: self.model@,
            stop_reason: self.stop_reason.deep_view(),
            stop_sequence: self.stop_sequence.deep_view(),
            usage: self.usage,
        }
    }
}

// ---------------------------------------------------------------------------
// Errors
// ---------------------------------------------------------------------------

/// The adapter's error taxonomy. Every internal failure is wrapped into one
/// of these kinds and surfaced to the caller at once; nothing is retried.
#[derive(Debug)]
pub enum ProviderError {
    /// Missing credential or failed refresh; fatal to the dispatch.
    AuthError(String),
    /// Malformed canonical input or an empty upstream candidate list.
    TransformError(String),
    /// A non-success HTTP status, with the raw response body.
    ApiError { status: u16, message: String },
    /// An operation this provider does not implement.
    ConfigError(String),
    /// The transport failed or the response body could not be decoded.
    NetworkError(String),
}

#[verifier::ext_equal]
pub enum ProviderErrorView {
    AuthError(Seq<char>),
    TransformError(Seq<char>),
    ApiError { status: u16, message: Seq<char> },
    ConfigError(Seq<char>),
    NetworkError(Seq<char>),
}

impl View for ProviderError {
    type V = ProviderErrorView;

    open spec fn view(&self) -> ProviderErrorView {
        match self {
            ProviderError::AuthError(m) => ProviderErrorView::AuthError(m@),
            ProviderError::TransformError(m) => ProviderErrorView::TransformError(m@),
            ProviderError::ApiError { status, message } => ProviderErrorView::ApiError {
                status: *status,
                message: message@,
            },
            ProviderError::ConfigError(m) => ProviderErrorView::ConfigError(m@),
            ProviderError::NetworkError(m) => ProviderErrorView::NetworkError(m@),
        }
    }
}

// ---------------------------------------------------------------------------
// Credentials
// ---------------------------------------------------------------------------

/// A credential as read from the external token store: the access token and
/// whether the store considers it near expiry.
pub struct Credential {
    pub access_token: String,
    pub needs_refresh: bool,
}

#[verifier::ext_equal]
pub struct CredentialView {
    pub access_token: Seq<char>,
    pub needs_refresh: bool,
}

impl View for Credential {
    type V = CredentialView;

    open spec fn view(&self) -> CredentialView {
        CredentialView { access_token: self.access_token@, needs_refresh: self.needs_refresh }
    }
}

impl DeepView for Credential {
    type V = CredentialView;

    open spec fn deep_view(&self) -> CredentialView {
        self.view()
    }
}

// ---------------------------------------------------------------------------
// Token counting (not implemented by this provider)
// ---------------------------------------------------------------------------

pub struct CountTokensRequest {
    pub model: String,
    pub messages: Vec<Message>,
}

pub struct CountTokensResponse {
    pub input_tokens: u32,
}

} // verus!
