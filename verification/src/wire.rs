//! The provider's wire schema: the request shape sent to the generative
//! service and the response shape received from it, with their views.

use vstd::prelude::*;

verus! {

/// An inline-data part: a media type and base64-encoded payload.
pub struct GeminiInlineData {
    pub mime_type: String,
    pub data: String,
}

#[verifier::ext_equal]
pub struct GeminiInlineDataView {
    pub mime_type: Seq<char>,
    pub data: Seq<char>,
}

impl View for GeminiInlineData {
    type V = GeminiInlineDataView;

    open spec fn view(&self) -> GeminiInlineDataView {
        GeminiInlineDataView { mime_type: self.mime_type@, data: self.data@ }
    }
}

impl DeepView for GeminiInlineData {
    type V = GeminiInlineDataView;

    open spec fn deep_view(&self) -> GeminiInlineDataView {
        self.view()
    }
}

/// One part of a provider message: plain text or inline data. On the wire
/// the two are distinguished structurally, not by a tag.
pub enum GeminiPart {
    Text { text: String },
    InlineData { inline_data: GeminiInlineData },
}

#[verifier::ext_equal]
pub enum GeminiPartView {
    Text { text: Seq<char> },
    InlineData { inline_data: GeminiInlineDataView },
}

impl View for GeminiPart {
    type V = GeminiPartView;

    open spec fn view(&self) -> GeminiPartView {
        match self {
            GeminiPart::Text { text } => GeminiPartView::Text { text: text@ },
            GeminiPart::InlineData { inline_data } => GeminiPartView::InlineData {
                inline_data: inline_data@,
            },
        }
    }
}

impl DeepView for GeminiPart {
    type V = GeminiPartView;

    open spec fn deep_view(&self) -> GeminiPartView {
        self.view()
    }
}

/// One (role, parts) pair of the provider conversation.
pub struct GeminiContent {
    pub role: String,
    pub parts: Vec<GeminiPart>,
}

#[verifier::ext_equal]
pub struct GeminiContentView {
    pub role: Seq<char>,
    pub parts: Seq<GeminiPartView>,
}

impl View for GeminiContent {
    type V = GeminiContentView;

    open spec fn view(&self) -> GeminiContentView {
        GeminiContentView { role: self.role@, parts: self.parts.deep_view() }
    }
}

impl DeepView for GeminiContent {
    type V = GeminiContentView;

    open spec fn deep_view(&self) -> GeminiContentView {
        self.view()
    }
}

pub struct GeminiSystemInstruction {
    pub parts: Vec<GeminiPart>,
}

#[verifier::ext_equal]
pub struct GeminiSystemInstructionView {
    pub parts: Seq<GeminiPartView>,
}

impl View for GeminiSystemInstruction {
    type V = GeminiSystemInstructionView;

    open spec fn view(&self) -> GeminiSystemInstructionView {
        GeminiSystemInstructionView { parts: self.parts.deep_view() }
    }
}

impl DeepView for GeminiSystemInstruction {
    type V = GeminiSystemInstructionView;

    open spec fn deep_view(&self) -> GeminiSystemInstructionView {
        self.view()
    }
}

/// Provider generation parameters. `temperature` and `top_p` are the
/// caller's values carried through as raw bit patterns, uninterpreted.
pub struct GeminiGenerationConfig {
    pub temperature: Option<u32>,
    pub top_p: Option<u32>,
    pub top_k: Option<i32>,
    pub max_output_tokens: Option<i32>,
    pub stop_sequences: Option<Vec<String>>,
}

#[verifier::ext_equal]
pub struct GeminiGenerationConfigView {
    pub temperature: Option<u32>,
    pub top_p: Option<u32>,
    pub top_k: Option<i32>,
    pub max_output_tokens: Option<i32>,
    pub stop_sequences: Option<Seq<Seq<char>>>,
}

impl View for GeminiGenerationConfig {
    type V = GeminiGenerationConfigView;

    open spec fn view(&self) -> GeminiGenerationConfigView {
        GeminiGenerationConfigView {
            temperature: self.temperature,
            top_p: self.top_p,
            top_k: self.top_k,
            max_output_tokens: self.max_output_tokens,
            stop_sequences: self.stop_sequences.deep_view(),
        }
    }
}

impl DeepView for GeminiGenerationConfig {
    type V = GeminiGenerationConfigView;

    open spec fn deep_view(&self) -> GeminiGenerationConfigView {
        self.view()
    }
}

/// A provider function declaration; `parameters` carries the JSON schema
/// as JSON text, uninterpreted.
pub struct GeminiFunctionDeclaration {
    pub name: String,
    pub description: String,
    pub parameters: String,
}

#[verifier::ext_equal]
pub struct GeminiFunctionDeclarationView {
    pub name: Seq<char>,
    pub description: Seq<char>,
    pub parameters: Seq<char>,
}

impl View for GeminiFunctionDeclaration {
    type V = GeminiFunctionDeclarationView;

    open spec fn view(&self) -> GeminiFunctionDeclarationView {
        GeminiFunctionDeclarationView {
            name: self.name@,
            description: self.description@,
            parameters: self.parameters@,
        }
    }
}

impl DeepView for GeminiFunctionDeclaration {
    type V = GeminiFunctionDeclarationView;

    open spec fn deep_view(&self) -> GeminiFunctionDeclarationView {
        self.view()
    }
}

pub struct GeminiTool {
    pub function_declarations: Vec<GeminiFunctionDeclaration>,
}

#[verifier::ext_equal]
pub struct GeminiToolView {
    pub function_declarations: Seq<GeminiFunctionDeclarationView>,
}

impl View for GeminiTool {
    type V = GeminiToolView;

    open spec fn view(&self) -> GeminiToolView {
        GeminiToolView { function_declarations: self.function_declarations.deep_view() }
    }
}

impl DeepView for GeminiTool {
    type V = GeminiToolView;

    open spec fn deep_view(&self) -> GeminiToolView {
        self.view()
    }
}

/// The full provider request, built fresh for each dispatch.
pub struct GeminiRequest {
    pub contents: Vec<GeminiContent>,
    pub system_instruction: Option<GeminiSystemInstruction>,
    pub generation_config: Option<GeminiGenerationConfig>,
    pub tools: Option<Vec<GeminiTool>>,
}

#[verifier::ext_equal]
pub struct GeminiRequestView {
    pub contents: Seq<GeminiContentView>,
    pub system_instruction: Option<GeminiSystemInstructionView>,
    pub generation_config: Option<GeminiGenerationConfigView>,
    pub tools: Option<Seq<GeminiToolView>>,
}

impl View for GeminiRequest {
    type V = GeminiRequestView;

    open spec fn view(&self) -> GeminiRequestView {
        GeminiRequestView {
            contents: self.contents.deep_view(),
            system_instruction: self.system_instruction.deep_view(),
            generation_config: self.generation_config.deep_view(),
            tools: self.tools.deep_view(),
        }
    }
}

impl DeepView for GeminiRequest {
    type V = GeminiRequestView;

    open spec fn deep_view(&self) -> GeminiRequestView {
        self.view()
    }
}

/// Provider token-usage metadata; every count is independently optional.
pub struct GeminiUsageMetadata {
    pub prompt_token_count: Option<i32>,
    pub candidates_token_count: Option<i32>,
    pub total_token_count: Option<i32>,
}

impl View for GeminiUsageMetadata {
    type V = GeminiUsageMetadata;

    open spec fn view(&self) -> GeminiUsageMetadata {
        *self
    }
}

impl DeepView for GeminiUsageMetadata {
    type V = GeminiUsageMetadata;

    open spec fn deep_view(&self) -> GeminiUsageMetadata {
        self.view()
    }
}

impl Clone for GeminiUsageMetadata {
    fn clone(&self) -> (r: GeminiUsageMetadata)
        ensures
            r == *self,
    {
        GeminiUsageMetadata {
            prompt_token_count: self.prompt_token_count,
            candidates_token_count: self.candidates_token_count,
            total_token_count: self.total_token_count,
        }
    }
}

impl Copy for GeminiUsageMetadata {

}

/// One alternative generated answer; only the first is used.
pub struct GeminiCandidate {
    pub content: GeminiContent,
    pub finish_reason: Option<String>,
}

#[verifier::ext_equal]
pub struct GeminiCandidateView {
    pub content: GeminiContentView,
    pub finish_reason: Option<Seq<char>>,
}

impl View for GeminiCandidate {
    type V = GeminiCandidateView;

    open spec fn view(&self) -> GeminiCandidateView {
        GeminiCandidateView {
            content: self.content@,
            finish_reason: self.finish_reason.deep_view(),
        }
    }
}

impl DeepView for GeminiCandidate {
    type V = GeminiCandidateView;

    open spec fn deep_view(&self) -> GeminiCandidateView {
        self.view()
    }
}

/// The full provider response.
pub struct GeminiResponse {
    pub candidates: Vec<GeminiCandidate>,
    pub usage_metadata: Option<GeminiUsageMetadata>,
}

#[verifier::ext_equal]
pub struct GeminiResponseView {
    pub candidates: Seq<GeminiCandidateView>,
    pub usage_metadata: Option<GeminiUsageMetadata>,
}

impl View for GeminiResponse {
    type V = GeminiResponseView;

    open spec fn view(&self) -> GeminiResponseView {
        GeminiResponseView {
            candidates: self.candidates.deep_view(),
            usage_metadata: self.usage_metadata.deep_view(),
        }
    }
}

impl DeepView for GeminiResponse {
    type V = GeminiResponseView;

    open spec fn deep_view(&self) -> GeminiResponseView {
        self.view()
    }
}

} // verus!
