//! The bidirectional schema mapping: canonical requests to the provider's
//! wire shape, and provider responses back to the canonical shape.

use vstd::prelude::*;

use crate::digits::spec_dec_int;
use crate::digits::dec_i64;
use crate::models::AnthropicRequest;
use crate::models::ContentBlock;
use crate::models::ContentBlockView;
use crate::models::Message;
use crate::models::MessageContent;
use crate::models::MessageContentView;
use crate::models::MessageView;
use crate::models::ProviderError;
use crate::models::ProviderErrorView;
use crate::models::ProviderResponse;
use crate::models::ResponseView;
use crate::models::SystemPrompt;
use crate::models::SystemPromptView;
use crate::models::Tool;
use crate::models::ToolView;
use crate::models::Usage;
use crate::wire::GeminiContent;
use crate::wire::GeminiContentView;
use crate::wire::GeminiFunctionDeclaration;
use crate::wire::GeminiFunctionDeclarationView;
use crate::wire::GeminiGenerationConfig;
use crate::wire::GeminiGenerationConfigView;
use crate::wire::GeminiInlineData;
use crate::wire::GeminiInlineDataView;
use crate::wire::GeminiPart;
use crate::wire::GeminiPartView;
use crate::wire::GeminiRequest;
use crate::wire::GeminiRequestView;
use crate::wire::GeminiResponse;
use crate::wire::GeminiResponseView;
use crate::wire::GeminiSystemInstruction;
use crate::wire::GeminiSystemInstructionView;
use crate::wire::GeminiTool;
use crate::wire::GeminiToolView;
use crate::wire::GeminiUsageMetadata;

verus! {

// ---------------------------------------------------------------------------
// Narrowing and widening of token counts
// ---------------------------------------------------------------------------

/// The canonical max-token count narrowed to the provider's signed width,
/// with two's-complement wrap-around above the signed maximum.
pub open spec fn spec_wrap_to_i32(v: u32) -> i32 {
    if v <= 0x7fff_ffff {
        v as i32
    } else {
        ((v as int) - 0x1_0000_0000) as i32
    }
}

/// A provider token count widened to the canonical unsigned width, with
/// two's-complement wrap-around below zero.
pub open spec fn spec_wrap_to_u32(v: i32) -> u32 {
    if v >= 0 {
        v as u32
    } else {
        ((v as int) + 0x1_0000_0000) as u32
    }
}

fn narrow_to_i32(v: u32) -> (r: i32)
    ensures
        r == spec_wrap_to_i32(v),
{
    if v <= 0x7fff_ffff {
        v as i32
    } else {
        ((v as i64) - 0x1_0000_0000i64) as i32
    }
}

fn widen_count(v: i32) -> (r: u32)
    ensures
        r == spec_wrap_to_u32(v),
{
    if v >= 0 {
        v as u32
    } else {
        ((v as i64) + 0x1_0000_0000i64) as u32
    }
}

// ---------------------------------------------------------------------------
// System prompt flattening
// ---------------------------------------------------------------------------

/// Texts joined in order with a newline between neighbours.
pub open spec fn spec_join_newline(parts: Seq<Seq<char>>) -> Seq<char>
    decreases parts.len(),
{
    if parts.len() == 0 {
        Seq::empty()
    } else if parts.len() == 1 {
        parts[0]
    } else {
        spec_join_newline(parts.drop_last()) + seq!['\n'] + parts.last()
    }
}

/// A system prompt flattened to one text: plain text passes through, blocks
/// are joined with newlines in their original order.
pub open spec fn spec_flatten_system(s: SystemPromptView) -> Seq<char> {
    match s {
        SystemPromptView::Text(t) => t,
        SystemPromptView::Blocks(bs) => spec_join_newline(bs),
    }
}

fn join_newline(blocks: &Vec<crate::models::SystemBlock>) -> (t: String)
    ensures
        t@ == spec_join_newline(blocks.deep_view()),
{
    let ghost bs: Seq<Seq<char>> = blocks.deep_view();
    let mut acc = String::new();
    let mut i: usize = 0;
    while i < blocks.len()
        invariant
            0 <= i <= blocks@.len(),
            bs == blocks.deep_view(),
            acc@ == spec_join_newline(bs.take(i as int)),
        decreases blocks@.len() - i,
    {
        if i > 0 {
            acc.append("\n");
            proof {
                reveal_strlit("\n");
                assert("\n"@ =~= seq!['\n']);
            }
        }
        acc.append(blocks[i].text.as_str());
        proof {
            let j = i + 1;
            assert(bs.take(j as int).drop_last() =~= bs.take(i as int));
            assert(bs.take(j as int).last() == bs[i as int]);
        }
        i += 1;
    }
    proof {
        assert(bs.take(blocks@.len() as int) =~= bs);
    }
    acc
}

fn flatten_system(s: &SystemPrompt) -> (t: String)
    ensures
        t@ == spec_flatten_system(s@),
{
    match s {
        SystemPrompt::Text(t) => t.clone(),
        SystemPrompt::Blocks(bs) => join_newline(bs),
    }
}

// ---------------------------------------------------------------------------
// Message content mapping
// ---------------------------------------------------------------------------

/// The provider parts produced by one canonical content block: text passes
/// through, an image is forwarded only when both its media type and its data
/// are present, a thinking block is downgraded to plain text, and tool-use
/// and tool-result blocks are dropped.
pub open spec fn spec_block_parts(b: ContentBlockView) -> Seq<GeminiPartView> {
    match b {
        ContentBlockView::Text { text } => seq![GeminiPartView::Text { text }],
        ContentBlockView::Image { source } => if source.media_type is Some && source.data is Some {
            seq![
                GeminiPartView::InlineData {
                    inline_data: GeminiInlineDataView {
                        mime_type: source.media_type->0,
                        data: source.data->0,
                    },
                },
            ]
        } else {
            Seq::empty()
        },
        ContentBlockView::Thinking { thinking } => seq![GeminiPartView::Text { text: thinking }],
        ContentBlockView::ToolUse { .. } => Seq::empty(),
        ContentBlockView::ToolResult { .. } => Seq::empty(),
    }
}

/// The concatenation of the parts of each block, in order.
pub open spec fn spec_blocks_parts(bs: Seq<ContentBlockView>) -> Seq<GeminiPartView>
    decreases bs.len(),
{
    if bs.len() == 0 {
        Seq::empty()
    } else {
        spec_blocks_parts(bs.drop_last()) + spec_block_parts(bs.last())
    }
}

/// The provider parts of one message's content: one text part for plain
/// text, else the flattened block parts.
pub open spec fn spec_content_parts(c: MessageContentView) -> Seq<GeminiPartView> {
    match c {
        MessageContentView::Text(t) => seq![GeminiPartView::Text { text: t }],
        MessageContentView::Blocks(bs) => spec_blocks_parts(bs),
    }
}

fn blocks_to_parts(blocks: &Vec<ContentBlock>) -> (parts: Vec<GeminiPart>)
    ensures
        parts.deep_view() == spec_blocks_parts(blocks.deep_view()),
{
    let ghost bs: Seq<ContentBlockView> = blocks.deep_view();
    let mut parts: Vec<GeminiPart> = Vec::new();
    let mut i: usize = 0;
    while i < blocks.len()
        invariant
            0 <= i <= blocks@.len(),
            bs == blocks.deep_view(),
            parts.deep_view() == spec_blocks_parts(bs.take(i as int)),
        decreases blocks@.len() - i,
    {
        let ghost before: Seq<GeminiPartView> = parts.deep_view();
        match &blocks[i] {
            ContentBlock::Text { text } => {
                parts.push(GeminiPart::Text { text: text.clone() });
            },
            ContentBlock::Image { source } => {
                if source.media_type.is_some() && source.data.is_some() {
                    let media_type = source.media_type.as_ref().unwrap().clone();
                    let data = source.data.as_ref().unwrap().clone();
                    parts.push(
                        GeminiPart::InlineData {
                            inline_data: GeminiInlineData { mime_type: media_type, data },
                        },
                    );
                }
            },
            ContentBlock::Thinking { thinking } => {
                parts.push(GeminiPart::Text { text: thinking.clone() });
            },
            ContentBlock::ToolUse { .. } => {},
            ContentBlock::ToolResult { .. } => {},
        }
        proof {
            let j = i + 1;
            assert(bs.take(j as int).drop_last() =~= bs.take(i as int));
            assert(bs.take(j as int).last() == bs[i as int]);
            assert(parts.deep_view() =~= before + spec_block_parts(bs[i as int]));
        }
        i += 1;
    }
    proof {
        assert(bs.take(blocks@.len() as int) =~= bs);
    }
    parts
}

fn content_to_parts(content: &MessageContent) -> (parts: Vec<GeminiPart>)
    ensures
        parts.deep_view() == spec_content_parts(content@),
{
    match content {
        MessageContent::Text(t) => {
            let mut parts: Vec<GeminiPart> = Vec::new();
            parts.push(GeminiPart::Text { text: t.clone() });
            proof {
                assert(parts.deep_view() =~= seq![GeminiPartView::Text { text: t@ }]);
            }
            parts
        },
        MessageContent::Blocks(bs) => blocks_to_parts(bs),
    }
}

// ---------------------------------------------------------------------------
// Message sequence mapping
// ---------------------------------------------------------------------------

/// Whether a canonical role survives the transform.
pub open spec fn spec_role_kept(role: Seq<char>) -> bool {
    role == "user"@ || role == "assistant"@
}

/// The provider role for a kept canonical role.
pub open spec fn spec_provider_role(role: Seq<char>) -> Seq<char> {
    if role == "user"@ {
        "user"@
    } else {
        "model"@
    }
}

/// The provider conversation: user and assistant messages in their original
/// order with mapped roles and parts; every other role is silently dropped.
pub open spec fn spec_contents(ms: Seq<MessageView>) -> Seq<GeminiContentView>
    decreases ms.len(),
{
    if ms.len() == 0 {
        Seq::empty()
    } else {
        spec_contents(ms.drop_last()) + if spec_role_kept(ms.last().role) {
            seq![
                GeminiContentView {
                    role: spec_provider_role(ms.last().role),
                    parts: spec_content_parts(ms.last().content),
                },
            ]
        } else {
            Seq::empty()
        }
    }
}

fn messages_to_contents(messages: &Vec<Message>) -> (contents: Vec<GeminiContent>)
    ensures
        contents.deep_view() == spec_contents(messages.deep_view()),
{
    let ghost ms: Seq<MessageView> = messages.deep_view();
    let mut contents: Vec<GeminiContent> = Vec::new();
    let mut i: usize = 0;
    while i < messages.len()
        invariant
            0 <= i <= messages@.len(),
            ms == messages.deep_view(),
            contents.deep_view() == spec_contents(ms.take(i as int)),
        decreases messages@.len() - i,
    {
        let ghost before: Seq<GeminiContentView> = contents.deep_view();
        let msg = &messages[i];
        let is_user = msg.role == "user".to_owned();
        let is_assistant = msg.role == "assistant".to_owned();
        if is_user || is_assistant {
            let role: String = if is_user {
                "user".to_owned()
            } else {
                "model".to_owned()
            };
            let parts = content_to_parts(&msg.content);
            contents.push(GeminiContent { role, parts });
        }
        proof {
            let j = i + 1;
            assert(ms.take(j as int).drop_last() =~= ms.take(i as int));
            assert(ms.take(j as int).last() == ms[i as int]);
            if spec_role_kept(ms[i as int].role) {
                assert(contents.deep_view() =~= before + seq![
                    GeminiContentView {
                        role: spec_provider_role(ms[i as int].role),
                        parts: spec_content_parts(ms[i as int].content),
                    },
                ]);
            }
        }
        i += 1;
    }
    proof {
        assert(ms.take(messages@.len() as int) =~= ms);
    }
    contents
}

// ---------------------------------------------------------------------------
// Tool declarations
// ---------------------------------------------------------------------------

/// The provider function declarations: one per named canonical tool, in
/// order; a tool without a name is skipped. A missing description becomes
/// the empty string and a missing input schema the empty JSON object.
pub open spec fn spec_tool_declarations(ts: Seq<ToolView>) -> Seq<GeminiFunctionDeclarationView>
    decreases ts.len(),
{
    if ts.len() == 0 {
        Seq::empty()
    } else {
        spec_tool_declarations(ts.drop_last()) + match ts.last().name {
            Some(name) => seq![
                GeminiFunctionDeclarationView {
                    name,
                    description: match ts.last().description {
                        Some(d) => d,
                        None => Seq::empty(),
                    },
                    parameters: match ts.last().input_schema {
                        Some(p) => p,
                        None => "{}"@,
                    },
                },
            ],
            None => Seq::empty(),
        }
    }
}

fn tools_to_declarations(tools: &Vec<Tool>) -> (decls: Vec<GeminiFunctionDeclaration>)
    ensures
        decls.deep_view() == spec_tool_declarations(tools.deep_view()),
{
    let ghost ts: Seq<ToolView> = tools.deep_view();
    let mut decls: Vec<GeminiFunctionDeclaration> = Vec::new();
    let mut i: usize = 0;
    while i < tools.len()
        invariant
            0 <= i <= tools@.len(),
            ts == tools.deep_view(),
            decls.deep_view() == spec_tool_declarations(ts.take(i as int)),
        decreases tools@.len() - i,
    {
        let ghost before: Seq<GeminiFunctionDeclarationView> = decls.deep_view();
        let tool = &tools[i];
        if tool.name.is_some() {
            let name = tool.name.as_ref().unwrap().clone();
            let description = match &tool.description {
                Some(d) => d.clone(),
                None => String::new(),
            };
            let parameters = match &tool.input_schema {
                Some(p) => p.clone(),
                None => "{}".to_owned(),
            };
            decls.push(GeminiFunctionDeclaration { name, description, parameters });
        }
        proof {
            let j = i + 1;
            assert(ts.take(j as int).drop_last() =~= ts.take(i as int));
            assert(ts.take(j as int).last() == ts[i as int]);
            match ts[i as int].name {
                Some(name) => {
                    assert(decls.deep_view() =~= before + seq![
                        GeminiFunctionDeclarationView {
                            name,
                            description: match ts[i as int].description {
                                Some(d) => d,
                                None => Seq::empty(),
                            },
                            parameters: match ts[i as int].input_schema {
                                Some(p) => p,
                                None => "{}"@,
                            },
                        },
                    ]);
                },
                None => {},
            }
        }
        i += 1;
    }
    proof {
        assert(ts.take(tools@.len() as int) =~= ts);
    }
    decls
}

// ---------------------------------------------------------------------------
// The whole request transform
// ---------------------------------------------------------------------------

/// The provider's fixed default for top-k: the canonical schema has no
/// top-k concept, so the adapter always sends this value.
pub open spec fn spec_default_top_k() -> i32 {
    40
}

/// The full request mapping described piecewise by the spec functions above.
pub open spec fn spec_transform_request(r: crate::models::RequestView) -> GeminiRequestView {
    GeminiRequestView {
        contents: spec_contents(r.messages),
        system_instruction: match r.system {
            Some(s) => Some(
                GeminiSystemInstructionView {
                    parts: seq![GeminiPartView::Text { text: spec_flatten_system(s) }],
                },
            ),
            None => None,
        },
        generation_config: Some(
            GeminiGenerationConfigView {
                temperature: r.temperature,
                top_p: r.top_p,
                top_k: Some(spec_default_top_k()),
                max_output_tokens: Some(spec_wrap_to_i32(r.max_tokens)),
                stop_sequences: r.stop_sequences,
            },
        ),
        tools: match r.tools {
            Some(ts) => Some(
                seq![GeminiToolView { function_declarations: spec_tool_declarations(ts) }],
            ),
            None => None,
        },
    }
}

fn clone_string_vec(v: &Vec<String>) -> (r: Vec<String>)
    ensures
        r.deep_view() == v.deep_view(),
{
    let mut r: Vec<String> = Vec::new();
    let mut i: usize = 0;
    while i < v.len()
        invariant
            0 <= i <= v@.len(),
            r.deep_view() == v.deep_view().take(i as int),
        decreases v@.len() - i,
    {
        let x = v[i].clone();
        proof {
            assert(x@ == v@[i as int]@);
        }
        let ghost before: Seq<Seq<char>> = r.deep_view();
        r.push(x);
        proof {
            assert(r.deep_view() =~~= before.push(x@));
            assert(v.deep_view().take(i + 1) =~~= v.deep_view().take(i as int).push(v@[i as int]@));
            assert(r.deep_view() =~~= v.deep_view().take(i + 1));
        }
        i += 1;
    }
    proof {
        assert(v.deep_view().take(v@.len() as int) =~= v.deep_view());
    }
    r
}

/// Maps a canonical request into the provider's request shape. The mapping
/// is total: it succeeds on every input.
pub fn transform_request(request: &AnthropicRequest) -> (r: Result<
    GeminiRequest,
    ProviderError,
>)
    ensures
        r is Ok,
        r matches Ok(g) ==> g@ == spec_transform_request(request@),
{
    let system_instruction: Option<GeminiSystemInstruction> = match &request.system {
        Some(s) => {
            let text = flatten_system(s);
            let mut parts: Vec<GeminiPart> = Vec::new();
            parts.push(GeminiPart::Text { text });
            proof {
                assert(parts.deep_view() =~= seq![
                    GeminiPartView::Text { text: spec_flatten_system(s@) },
                ]);
            }
            Some(GeminiSystemInstruction { parts })
        },
        None => None,
    };
    let contents = messages_to_contents(&request.messages);
    let stop_sequences: Option<Vec<String>> = match &request.stop_sequences {
        Some(v) => Some(clone_string_vec(v)),
        None => None,
    };
    let generation_config = GeminiGenerationConfig {
        temperature: request.temperature,
        top_p: request.top_p,
        top_k: Some(40),
        max_output_tokens: Some(narrow_to_i32(request.max_tokens)),
        stop_sequences,
    };
    let tools: Option<Vec<GeminiTool>> = match &request.tools {
        Some(ts) => {
            let declarations = tools_to_declarations(ts);
            let mut groups: Vec<GeminiTool> = Vec::new();
            groups.push(GeminiTool { function_declarations: declarations });
            proof {
                assert(groups.deep_view() =~= seq![
                    GeminiToolView { function_declarations: spec_tool_declarations(ts.deep_view()) },
                ]);
            }
            Some(groups)
        },
        None => None,
    };
    let g = GeminiRequest { contents, system_instruction, generation_config: Some(
        generation_config,
    ), tools };
    proof {
        assert(g@ =~~= spec_transform_request(request@));
    }
    Ok(g)
}

// ---------------------------------------------------------------------------
// The response transform
// ---------------------------------------------------------------------------

/// The canonical content block for one provider response part: a text part
/// passes through, any other part degrades to an empty text block so that
/// the part count is preserved.
pub open spec fn spec_part_block(p: GeminiPartView) -> ContentBlockView {
    match p {
        GeminiPartView::Text { text } => ContentBlockView::Text { text },
        GeminiPartView::InlineData { .. } => ContentBlockView::Text { text: Seq::empty() },
    }
}

/// The canonical stop reason for a provider finish reason: "STOP" becomes
/// "end_turn", "MAX_TOKENS" becomes "max_tokens", anything else (absence
/// included) becomes no stop reason.
pub open spec fn spec_stop_reason(finish: Option<Seq<char>>) -> Option<Seq<char>> {
    match finish {
        Some(f) => if f == "STOP"@ {
            Some("end_turn"@)
        } else if f == "MAX_TOKENS"@ {
            Some("max_tokens"@)
        } else {
            None
        },
        None => None,
    }
}

/// A usage count read from an optional provider field of optional metadata,
/// zero whenever either is absent.
pub open spec fn spec_usage_count(meta: Option<GeminiUsageMetadata>, prompt_side: bool) -> u32 {
    match meta {
        Some(m) => {
            let field = if prompt_side {
                m.prompt_token_count
            } else {
                m.candidates_token_count
            };
            match field {
                Some(v) => spec_wrap_to_u32(v),
                None => 0,
            }
        },
        None => 0,
    }
}

/// The synthesized response identifier for a call at the given wall-clock
/// millisecond.
pub open spec fn spec_response_id(ts: i64) -> Seq<char> {
    "gemini-"@ + spec_dec_int(ts as int)
}

/// The full response mapping for a response with at least one candidate:
/// only the first candidate is used.
pub open spec fn spec_transform_response(
    r: GeminiResponseView,
    model: Seq<char>,
    ts: i64,
) -> ResponseView
    recommends
        r.candidates.len() > 0,
{
    ResponseView {
        id: spec_response_id(ts),
        response_type: "message"@,
        role: "assistant"@,
        content: r.candidates[0].content.parts.map_values(|p: GeminiPartView| spec_part_block(p)),
        model,
        stop_reason: spec_stop_reason(r.candidates[0].finish_reason),
        stop_sequence: None,
        usage: Usage {
            input_tokens: spec_usage_count(r.usage_metadata, true),
            output_tokens: spec_usage_count(r.usage_metadata, false),
        },
    }
}

/// The message of the one hard failure of the response transform.
pub open spec fn spec_no_candidates_message() -> Seq<char> {
    "No candidates in response"@
}

fn parts_to_blocks(parts: &Vec<GeminiPart>) -> (blocks: Vec<ContentBlock>)
    ensures
        blocks.deep_view() == parts.deep_view().map_values(
            |p: GeminiPartView| spec_part_block(p),
        ),
{
    let ghost ps: Seq<GeminiPartView> = parts.deep_view();
    let mut blocks: Vec<ContentBlock> = Vec::new();
    let mut i: usize = 0;
    while i < parts.len()
        invariant
            0 <= i <= parts@.len(),
            ps == parts.deep_view(),
            blocks.deep_view() == ps.take(i as int).map_values(
                |p: GeminiPartView| spec_part_block(p),
            ),
        decreases parts@.len() - i,
    {
        let ghost before: Seq<ContentBlockView> = blocks.deep_view();
        match &parts[i] {
            GeminiPart::Text { text } => {
                blocks.push(ContentBlock::Text { text: text.clone() });
            },
            GeminiPart::InlineData { .. } => {
                blocks.push(ContentBlock::Text { text: String::new() });
            },
        }
        proof {
            assert(blocks.deep_view() =~~= before.push(spec_part_block(ps[i as int])));
            assert(ps.take(i + 1).map_values(|p: GeminiPartView| spec_part_block(p)) =~~= ps.take(
                i as int,
            ).map_values(|p: GeminiPartView| spec_part_block(p)).push(
                spec_part_block(ps[i as int]),
            ));
            assert(blocks.deep_view() =~~= ps.take(i + 1).map_values(
                |p: GeminiPartView| spec_part_block(p),
            ));
        }
        i += 1;
    }
    proof {
        assert(ps.take(parts@.len() as int) =~= ps);
    }
    blocks
}

fn stop_reason_of(finish: &Option<String>) -> (r: Option<String>)
    ensures
        r.deep_view() == spec_stop_reason(finish.deep_view()),
{
    match finish {
        Some(f) => {
            let stop = "STOP".to_owned();
            let max = "MAX_TOKENS".to_owned();
            if *f == stop {
                Some("end_turn".to_owned())
            } else if *f == max {
                Some("max_tokens".to_owned())
            } else {
                None
            }
        },
        None => None,
    }
}

fn usage_count_of(meta: &Option<GeminiUsageMetadata>, prompt_side: bool) -> (r: u32)
    ensures
        r == spec_usage_count(meta.deep_view(), prompt_side),
{
    match meta {
        Some(m) => {
            let field = if prompt_side {
                m.prompt_token_count
            } else {
                m.candidates_token_count
            };
            match field {
                Some(v) => widen_count(v),
                None => 0,
            }
        },
        None => 0,
    }
}

/// Maps a provider response taken at the given wall-clock millisecond back
/// into the canonical shape. Fails exactly when the candidate list is empty.
pub fn transform_response_at(
    response: &GeminiResponse,
    model: String,
    ts: i64,
) -> (r: Result<ProviderResponse, ProviderError>)
    ensures
        r is Ok <==> response@.candidates.len() > 0,
        r matches Ok(out) ==> out@ == spec_transform_response(response@, model@, ts),
        r matches Err(e) ==> e@ == ProviderErrorView::TransformError(spec_no_candidates_message()),
{
    if response.candidates.len() == 0 {
        proof {
            reveal_strlit("No candidates in response");
        }
        return Err(ProviderError::TransformError("No candidates in response".to_owned()));
    }
    let candidate = &response.candidates[0];
    let content = parts_to_blocks(&candidate.content.parts);
    let stop_reason = stop_reason_of(&candidate.finish_reason);
    let usage = Usage {
        input_tokens: usage_count_of(&response.usage_metadata, true),
        output_tokens: usage_count_of(&response.usage_metadata, false),
    };
    let id = String::from_str("gemini-").concat(dec_i64(ts).as_str());
    let out = ProviderResponse {
        id,
        response_type: "message".to_owned(),
        role: "assistant".to_owned(),
        content,
        model,
        stop_reason,
        stop_sequence: None,
        usage,
    };
    proof {
        assert(out@ =~~= spec_transform_response(response@, model@, ts));
    }
    Ok(out)
}

/// Maps a provider response into the canonical shape, stamping the
/// synthesized identifier from the wall clock at the moment of the call.
/// Fails exactly when the candidate list is empty.
pub fn transform_response(response: &GeminiResponse, model: String) -> (r: Result<
    ProviderResponse,
    ProviderError,
>)
    ensures
        r is Ok <==> response@.candidates.len() > 0,
        r matches Ok(out) ==> exists|ts: i64| out@ == #[trigger] spec_transform_response(
            response@,
            model@,
            ts,
        ),
        r matches Err(e) ==> e@ == ProviderErrorView::TransformError(spec_no_candidates_message()),
{
    let ts = crate::clock::now_millis();
    transform_response_at(response, model, ts)
}

} // verus!


