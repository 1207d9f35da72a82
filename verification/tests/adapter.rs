use gemini_adapter::auth::auth_after_lookup;
use gemini_adapter::auth::auth_after_refresh;
use gemini_adapter::auth::AuthStep;
use gemini_adapter::auth::AuthStrategy;
use gemini_adapter::dispatch::DispatchAction;
use gemini_adapter::dispatch::DispatchEvent;
use gemini_adapter::models::AnthropicRequest;
use gemini_adapter::models::ContentBlock;
use gemini_adapter::models::Credential;
use gemini_adapter::models::ImageSource;
use gemini_adapter::models::Message;
use gemini_adapter::models::MessageContent;
use gemini_adapter::models::ProviderError;
use gemini_adapter::models::SystemBlock;
use gemini_adapter::models::SystemPrompt;
use gemini_adapter::models::Tool;
use gemini_adapter::provider::GeminiProvider;
use gemini_adapter::transform::transform_request;
use gemini_adapter::transform::transform_response_at;
use gemini_adapter::wire::GeminiCandidate;
use gemini_adapter::wire::GeminiContent;
use gemini_adapter::wire::GeminiPart;
use gemini_adapter::wire::GeminiResponse;
use gemini_adapter::wire::GeminiUsageMetadata;

fn simple_request(messages: Vec<Message>) -> AnthropicRequest {
    AnthropicRequest {
        model: "gemini-pro".to_string(),
        messages,
        system: None,
        temperature: None,
        top_p: None,
        max_tokens: 1024,
        stop_sequences: None,
        tools: None,
    }
}

fn text_message(role: &str, text: &str) -> Message {
    Message { role: role.to_string(), content: MessageContent::Text(text.to_string()) }
}

fn vertex_provider() -> GeminiProvider {
    GeminiProvider::new(
        "gemini".to_string(),
        vec!["gemini-pro".to_string()],
        None,
        Vec::new(),
        AuthStrategy::VertexAI { project_id: "p1".to_string(), location: "us-central1".to_string() },
    )
}

fn empty_response_with(candidates: Vec<GeminiCandidate>) -> GeminiResponse {
    GeminiResponse { candidates, usage_metadata: None }
}

fn text_candidate(texts: &[&str], finish_reason: Option<&str>) -> GeminiCandidate {
    GeminiCandidate {
        content: GeminiContent {
            role: "model".to_string(),
            parts: texts
                .iter()
                .map(|t| GeminiPart::Text { text: t.to_string() })
                .collect(),
        },
        finish_reason: finish_reason.map(|f| f.to_string()),
    }
}

#[test]
fn message_order_and_roles_preserved() {
    let request = simple_request(vec![
        text_message("user", "first"),
        text_message("system", "dropped"),
        text_message("assistant", "second"),
        text_message("tool", "also dropped"),
        text_message("user", "third"),
    ]);
    let out = transform_request(&request).unwrap();
    assert_eq!(out.contents.len(), 3);
    assert_eq!(out.contents[0].role, "user");
    assert_eq!(out.contents[1].role, "model");
    assert_eq!(out.contents[2].role, "user");
    match &out.contents[0].parts[0] {
        GeminiPart::Text { text } => assert_eq!(text, "first"),
        _ => panic!("expected a text part"),
    }
    match &out.contents[1].parts[0] {
        GeminiPart::Text { text } => assert_eq!(text, "second"),
        _ => panic!("expected a text part"),
    }
    match &out.contents[2].parts[0] {
        GeminiPart::Text { text } => assert_eq!(text, "third"),
        _ => panic!("expected a text part"),
    }
}

#[test]
fn system_blocks_joined_with_newline() {
    let mut request = simple_request(vec![text_message("user", "hi")]);
    request.system = Some(SystemPrompt::Blocks(vec![
        SystemBlock { text: "Be terse.".to_string() },
        SystemBlock { text: "Answer in English.".to_string() },
    ]));
    let out = transform_request(&request).unwrap();
    let instruction = out.system_instruction.expect("system instruction expected");
    assert_eq!(instruction.parts.len(), 1);
    match &instruction.parts[0] {
        GeminiPart::Text { text } => assert_eq!(text, "Be terse.\nAnswer in English."),
        _ => panic!("expected a text part"),
    }
}

#[test]
fn plain_text_system_passes_through() {
    let mut request = simple_request(vec![text_message("user", "hi")]);
    request.system = Some(SystemPrompt::Text("You are helpful.".to_string()));
    let out = transform_request(&request).unwrap();
    match &out.system_instruction.unwrap().parts[0] {
        GeminiPart::Text { text } => assert_eq!(text, "You are helpful."),
        _ => panic!("expected a text part"),
    }
}

#[test]
fn text_blocks_round_trip() {
    let request = simple_request(vec![Message {
        role: "user".to_string(),
        content: MessageContent::Blocks(vec![
            ContentBlock::Text { text: "alpha".to_string() },
            ContentBlock::Text { text: "beta".to_string() },
        ]),
    }]);
    let provider_request = transform_request(&request).unwrap();
    let mut echoed_parts = Vec::new();
    for part in &provider_request.contents[0].parts {
        match part {
            GeminiPart::Text { text } => {
                echoed_parts.push(GeminiPart::Text { text: text.clone() })
            },
            _ => panic!("expected only text parts"),
        }
    }
    let echoed = GeminiResponse {
        candidates: vec![GeminiCandidate {
            content: GeminiContent { role: "model".to_string(), parts: echoed_parts },
            finish_reason: None,
        }],
        usage_metadata: None,
    };
    let back = transform_response_at(&echoed, "gemini-pro".to_string(), 1).unwrap();
    assert_eq!(back.content.len(), 2);
    match (&back.content[0], &back.content[1]) {
        (ContentBlock::Text { text: a }, ContentBlock::Text { text: b }) => {
            assert_eq!(a, "alpha");
            assert_eq!(b, "beta");
        },
        _ => panic!("expected text blocks"),
    }
}

#[test]
fn zero_candidates_is_an_error() {
    let response = empty_response_with(Vec::new());
    let out = transform_response_at(&response, "gemini-pro".to_string(), 0);
    match out {
        Err(ProviderError::TransformError(message)) => {
            assert_eq!(message, "No candidates in response");
        },
        _ => panic!("expected the no-candidates error"),
    }
}

#[test]
fn only_first_candidate_used() {
    let response = empty_response_with(vec![
        text_candidate(&["kept"], None),
        text_candidate(&["discarded"], None),
    ]);
    let out = transform_response_at(&response, "gemini-pro".to_string(), 0).unwrap();
    assert_eq!(out.content.len(), 1);
    match &out.content[0] {
        ContentBlock::Text { text } => assert_eq!(text, "kept"),
        _ => panic!("expected a text block"),
    }
}

#[test]
fn absent_usage_defaults_to_zero() {
    let response = empty_response_with(vec![text_candidate(&["ok"], None)]);
    let out = transform_response_at(&response, "gemini-pro".to_string(), 0).unwrap();
    assert_eq!(out.usage.input_tokens, 0);
    assert_eq!(out.usage.output_tokens, 0);
}

#[test]
fn partial_usage_defaults_missing_field_to_zero() {
    let mut response = empty_response_with(vec![text_candidate(&["ok"], None)]);
    response.usage_metadata = Some(GeminiUsageMetadata {
        prompt_token_count: Some(12),
        candidates_token_count: None,
        total_token_count: None,
    });
    let out = transform_response_at(&response, "gemini-pro".to_string(), 0).unwrap();
    assert_eq!(out.usage.input_tokens, 12);
    assert_eq!(out.usage.output_tokens, 0);
}

#[test]
fn negative_usage_count_wraps() {
    let mut response = empty_response_with(vec![text_candidate(&["ok"], None)]);
    response.usage_metadata = Some(GeminiUsageMetadata {
        prompt_token_count: Some(-1),
        candidates_token_count: Some(7),
        total_token_count: Some(6),
    });
    let out = transform_response_at(&response, "gemini-pro".to_string(), 0).unwrap();
    assert_eq!(out.usage.input_tokens, u32::MAX);
    assert_eq!(out.usage.output_tokens, 7);
}

#[test]
fn finish_reason_mapping() {
    let stop = empty_response_with(vec![text_candidate(&["a"], Some("STOP"))]);
    let out = transform_response_at(&stop, "m".to_string(), 0).unwrap();
    assert_eq!(out.stop_reason.as_deref(), Some("end_turn"));

    let max = empty_response_with(vec![text_candidate(&["a"], Some("MAX_TOKENS"))]);
    let out = transform_response_at(&max, "m".to_string(), 0).unwrap();
    assert_eq!(out.stop_reason.as_deref(), Some("max_tokens"));

    let other = empty_response_with(vec![text_candidate(&["a"], Some("SAFETY"))]);
    let out = transform_response_at(&other, "m".to_string(), 0).unwrap();
    assert_eq!(out.stop_reason, None);

    let absent = empty_response_with(vec![text_candidate(&["a"], None)]);
    let out = transform_response_at(&absent, "m".to_string(), 0).unwrap();
    assert_eq!(out.stop_reason, None);
}

#[test]
fn response_shape_and_id() {
    let response = empty_response_with(vec![text_candidate(&["a"], None)]);
    let out = transform_response_at(&response, "gemini-pro".to_string(), 1234567).unwrap();
    assert_eq!(out.id, "gemini-1234567");
    assert_eq!(out.response_type, "message");
    assert_eq!(out.role, "assistant");
    assert_eq!(out.model, "gemini-pro");
    assert_eq!(out.stop_sequence, None);
}

#[test]
fn non_text_parts_become_empty_text_blocks() {
    let mut candidate = text_candidate(&["before"], None);
    candidate.content.parts.push(GeminiPart::InlineData {
        inline_data: gemini_adapter::wire::GeminiInlineData {
            mime_type: "image/png".to_string(),
            data: "QUJD".to_string(),
        },
    });
    let response = empty_response_with(vec![candidate]);
    let out = transform_response_at(&response, "m".to_string(), 0).unwrap();
    assert_eq!(out.content.len(), 2);
    match &out.content[1] {
        ContentBlock::Text { text } => assert_eq!(text, ""),
        _ => panic!("expected an empty text block"),
    }
}

#[test]
fn vertex_url_shape() {
    let provider = vertex_provider();
    let url = provider.build_url("gemini-pro");
    assert_eq!(
        url,
        "https://us-central1-aiplatform.googleapis.com/v1/projects/p1/locations/us-central1/publishers/google/models/gemini-pro:generateContent"
    );
}

#[test]
fn api_key_url_carries_the_key() {
    let provider = GeminiProvider::new(
        "gemini".to_string(),
        vec!["gemini-pro".to_string()],
        None,
        Vec::new(),
        AuthStrategy::ApiKey { key: "k123".to_string() },
    );
    let url = provider.build_url("gemini-pro");
    assert_eq!(
        url,
        "https://generativelanguage.googleapis.com/v1beta/models/gemini-pro:generateContent?key=k123"
    );
}

#[test]
fn oauth_url_has_no_key() {
    let provider = GeminiProvider::new(
        "gemini".to_string(),
        vec!["gemini-pro".to_string()],
        None,
        Vec::new(),
        AuthStrategy::OAuth { provider_id: "google".to_string() },
    );
    let url = provider.build_url("gemini-pro");
    assert_eq!(
        url,
        "https://generativelanguage.googleapis.com/v1beta/models/gemini-pro:generateContent"
    );
}

#[test]
fn explicit_base_url_override_wins() {
    let provider = GeminiProvider::new(
        "gemini".to_string(),
        Vec::new(),
        Some("https://proxy.example/v1".to_string()),
        Vec::new(),
        AuthStrategy::VertexAI { project_id: "p1".to_string(), location: "us-central1".to_string() },
    );
    assert_eq!(provider.base_url, "https://proxy.example/v1");
}

#[test]
fn supports_model_is_exact_match() {
    let provider = vertex_provider();
    assert!(provider.supports_model("gemini-pro"));
    assert!(!provider.supports_model("gemini-pro-vision"));
    assert!(!provider.supports_model(""));
}

#[test]
fn unnamed_tools_are_skipped_and_defaults_filled() {
    let mut request = simple_request(vec![text_message("user", "hi")]);
    request.tools = Some(vec![
        Tool { name: None, description: Some("nameless".to_string()), input_schema: None },
        Tool {
            name: Some("lookup".to_string()),
            description: None,
            input_schema: None,
        },
        Tool {
            name: Some("fetch".to_string()),
            description: Some("fetches".to_string()),
            input_schema: Some("{\"type\":\"object\"}".to_string()),
        },
    ]);
    let out = transform_request(&request).unwrap();
    let groups = out.tools.expect("one tool group expected");
    assert_eq!(groups.len(), 1);
    let decls = &groups[0].function_declarations;
    assert_eq!(decls.len(), 2);
    assert_eq!(decls[0].name, "lookup");
    assert_eq!(decls[0].description, "");
    assert_eq!(decls[0].parameters, "{}");
    assert_eq!(decls[1].name, "fetch");
    assert_eq!(decls[1].description, "fetches");
    assert_eq!(decls[1].parameters, "{\"type\":\"object\"}");
}

#[test]
fn content_block_mapping() {
    let request = simple_request(vec![Message {
        role: "user".to_string(),
        content: MessageContent::Blocks(vec![
            ContentBlock::Text { text: "t".to_string() },
            ContentBlock::Image {
                source: ImageSource {
                    media_type: Some("image/png".to_string()),
                    data: Some("QUJD".to_string()),
                },
            },
            ContentBlock::Image {
                source: ImageSource { media_type: Some("image/png".to_string()), data: None },
            },
            ContentBlock::Thinking { thinking: "hmm".to_string() },
            ContentBlock::ToolUse {
                id: "1".to_string(),
                name: "f".to_string(),
                input: "{}".to_string(),
            },
            ContentBlock::ToolResult {
                tool_use_id: "1".to_string(),
                content: "ok".to_string(),
            },
        ]),
    }]);
    let out = transform_request(&request).unwrap();
    let parts = &out.contents[0].parts;
    assert_eq!(parts.len(), 3);
    match &parts[0] {
        GeminiPart::Text { text } => assert_eq!(text, "t"),
        _ => panic!("expected text"),
    }
    match &parts[1] {
        GeminiPart::InlineData { inline_data } => {
            assert_eq!(inline_data.mime_type, "image/png");
            assert_eq!(inline_data.data, "QUJD");
        },
        _ => panic!("expected inline data"),
    }
    match &parts[2] {
        GeminiPart::Text { text } => assert_eq!(text, "hmm"),
        _ => panic!("expected downgraded thinking text"),
    }
}

#[test]
fn generation_config_fixed_and_copied() {
    let mut request = simple_request(vec![text_message("user", "hi")]);
    request.temperature = Some(0.5f32.to_bits());
    request.top_p = Some(0.9f32.to_bits());
    request.max_tokens = 1024;
    request.stop_sequences = Some(vec!["END".to_string()]);
    let out = transform_request(&request).unwrap();
    let config = out.generation_config.unwrap();
    assert_eq!(config.temperature, Some(0.5f32.to_bits()));
    assert_eq!(config.top_p, Some(0.9f32.to_bits()));
    assert_eq!(config.top_k, Some(40));
    assert_eq!(config.max_output_tokens, Some(1024));
    assert_eq!(config.stop_sequences, Some(vec!["END".to_string()]));
}

#[test]
fn max_tokens_narrowing_wraps_at_signed_width() {
    let mut request = simple_request(vec![text_message("user", "hi")]);
    request.max_tokens = u32::MAX;
    let out = transform_request(&request).unwrap();
    assert_eq!(out.generation_config.unwrap().max_output_tokens, Some(-1));
}

#[test]
fn auth_missing_credential_fails() {
    let out = auth_after_lookup("google", None);
    match out {
        Err(ProviderError::AuthError(message)) => {
            assert_eq!(message, "No OAuth token found for provider 'google'");
        },
        _ => panic!("expected the missing-credential error"),
    }
}

#[test]
fn auth_fresh_credential_yields_bearer_header() {
    let credential = Credential { access_token: "tok".to_string(), needs_refresh: false };
    match auth_after_lookup("google", Some(&credential)) {
        Ok(AuthStep::UseHeader { header }) => assert_eq!(header.as_deref(), Some("Bearer tok")),
        _ => panic!("expected an immediate header"),
    }
}

#[test]
fn auth_near_expiry_demands_refresh() {
    let credential = Credential { access_token: "tok".to_string(), needs_refresh: true };
    match auth_after_lookup("google", Some(&credential)) {
        Ok(AuthStep::NeedsRefresh) => {},
        _ => panic!("expected a refresh demand"),
    }
}

#[test]
fn auth_refresh_outcomes() {
    let fresh = Credential { access_token: "new".to_string(), needs_refresh: false };
    assert_eq!(auth_after_refresh(Ok(fresh)).unwrap(), "Bearer new");
    match auth_after_refresh(Err("expired grant".to_string())) {
        Err(ProviderError::AuthError(message)) => {
            assert_eq!(message, "Failed to refresh OAuth token: expired grant");
        },
        _ => panic!("expected the refresh failure error"),
    }
}

#[test]
fn failed_refresh_aborts_without_http() {
    let provider = GeminiProvider::new(
        "gemini".to_string(),
        vec!["gemini-pro".to_string()],
        None,
        Vec::new(),
        AuthStrategy::OAuth { provider_id: "google".to_string() },
    );
    let request = simple_request(vec![text_message("user", "hi")]);
    let (state, action) = provider.begin_dispatch(&request);
    let provider_id = match action {
        DispatchAction::LookupCredential { provider_id } => provider_id,
        _ => panic!("an oauth dispatch must look the credential up first"),
    };
    assert_eq!(provider_id, "google");
    let stale = Credential { access_token: "old".to_string(), needs_refresh: true };
    let (state, action) = provider.dispatch_step(
        state,
        DispatchEvent::CredentialLookedUp { credential: Some(stale) },
    );
    match &action {
        DispatchAction::RefreshCredential { provider_id } => assert_eq!(provider_id, "google"),
        _ => panic!("a stale credential must trigger a refresh"),
    }
    let (_, action) = provider.dispatch_step(
        state,
        DispatchEvent::CredentialRefreshed { outcome: Err("boom".to_string()) },
    );
    match action {
        DispatchAction::Finish { outcome: Err(ProviderError::AuthError(message)) } => {
            assert_eq!(message, "Failed to refresh OAuth token: boom");
        },
        _ => panic!("a failed refresh must abort the dispatch"),
    }
}

#[test]
fn successful_dispatch_reaches_http_then_finishes() {
    let provider = GeminiProvider::new(
        "gemini".to_string(),
        vec!["gemini-pro".to_string()],
        None,
        vec![("x-team".to_string(), "research".to_string())],
        AuthStrategy::ApiKey { key: "k".to_string() },
    );
    let request = simple_request(vec![text_message("user", "hi")]);
    let (state, action) = provider.begin_dispatch(&request);
    let (url, headers) = match action {
        DispatchAction::SendHttp { url, headers, .. } => (url, headers),
        _ => panic!("an api-key dispatch sends at once"),
    };
    assert!(url.ends_with(":generateContent?key=k"));
    assert_eq!(headers[0], ("Content-Type".to_string(), "application/json".to_string()));
    assert_eq!(headers[1], ("x-team".to_string(), "research".to_string()));
    let response = empty_response_with(vec![text_candidate(&["pong"], Some("STOP"))]);
    let (_, action) = provider.dispatch_step(state, DispatchEvent::HttpSucceeded { response });
    match action {
        DispatchAction::Finish { outcome: Ok(out) } => {
            assert!(out.id.starts_with("gemini-"));
            assert!(out.id["gemini-".len()..].chars().all(|c| c.is_ascii_digit()));
            assert_eq!(out.stop_reason.as_deref(), Some("end_turn"));
        },
        _ => panic!("a success response must finish the dispatch"),
    }
}

#[test]
fn http_failure_maps_to_api_error() {
    let provider = vertex_provider();
    let request = simple_request(vec![text_message("user", "hi")]);
    let (state, _) = provider.begin_dispatch(&request);
    let (_, action) = provider.dispatch_step(
        state,
        DispatchEvent::HttpFailed { status: 429, body: Some("quota".to_string()) },
    );
    match action {
        DispatchAction::Finish { outcome: Err(ProviderError::ApiError { status, message }) } => {
            assert_eq!(status, 429);
            assert_eq!(message, "quota");
        },
        _ => panic!("a failed status must become an api error"),
    }
}

#[test]
fn unreadable_failure_body_gets_placeholder() {
    let provider = vertex_provider();
    let request = simple_request(vec![text_message("user", "hi")]);
    let (state, _) = provider.begin_dispatch(&request);
    let (_, action) = provider.dispatch_step(
        state,
        DispatchEvent::HttpFailed { status: 500, body: None },
    );
    match action {
        DispatchAction::Finish { outcome: Err(ProviderError::ApiError { message, .. }) } => {
            assert_eq!(message, "Unknown error");
        },
        _ => panic!("expected an api error"),
    }
}

#[test]
fn unimplemented_operations_fail_fast() {
    let provider = vertex_provider();
    match provider.send_message_stream() {
        Err(ProviderError::ConfigError(message)) => {
            assert_eq!(message, "Streaming not yet implemented for Gemini");
        },
        _ => panic!("streaming must fail"),
    }
    let count_request = gemini_adapter::models::CountTokensRequest {
        model: "gemini-pro".to_string(),
        messages: Vec::new(),
    };
    match provider.count_tokens(&count_request) {
        Err(ProviderError::ConfigError(message)) => {
            assert_eq!(message, "Token counting not yet implemented for Gemini");
        },
        _ => panic!("token counting must fail"),
    }
}

#[test]
fn clock_stamped_response_id() {
    let response = empty_response_with(vec![text_candidate(&["a"], None)]);
    let out =
        gemini_adapter::transform::transform_response(&response, "m".to_string()).unwrap();
    assert!(out.id.starts_with("gemini-"));
    let rest = &out.id["gemini-".len()..];
    assert!(!rest.is_empty());
    assert!(rest.chars().all(|c| c.is_ascii_digit() || c == '-'));
}

#[test]
fn single_system_block_has_no_separator() {
    let mut request = simple_request(vec![text_message("user", "hi")]);
    request.system = Some(SystemPrompt::Blocks(vec![SystemBlock { text: "Only.".to_string() }]));
    let out = transform_request(&request).unwrap();
    match &out.system_instruction.unwrap().parts[0] {
        GeminiPart::Text { text } => assert_eq!(text, "Only."),
        _ => panic!("expected a text part"),
    }
}

#[test]
fn empty_message_list_gives_empty_contents() {
    let request = simple_request(Vec::new());
    let out = transform_request(&request).unwrap();
    assert!(out.contents.is_empty());
    assert!(out.system_instruction.is_none());
    assert!(out.tools.is_none());
}
