use panw_api_ollama::handlers::chat::{apply_chat_prompt_assessment, apply_chat_response_assessment, PromptGate};
use panw_api_ollama::handlers::generate::{apply_generate_prompt_assessment, apply_generate_response_assessment};
use panw_api_ollama::handlers::security_utils::{format_security_violation_message, log_security_failure};
use panw_api_ollama::handlers::utils;
use panw_api_ollama::handlers::ApiError;
use panw_api_ollama::jsonrec::encode_chat_record;
use panw_api_ollama::ollama::OllamaError;
use panw_api_ollama::security::{Assessment, SecurityClient, SecurityError};
use panw_api_ollama::types::{ChatRequest, ChatResponse, GenerateRequest, Message, ScanResponse};

fn client() -> SecurityClient {
    SecurityClient::new("https://inspector.example", "key", "profile", "app", "user")
}

fn safe_assessment() -> Assessment {
    client().process_scan_result(ScanResponse::default_safe_response()).unwrap()
}

fn blocking_assessment(tune: impl FnOnce(&mut ScanResponse)) -> Assessment {
    let mut scan = ScanResponse::default_safe_response();
    scan.category = "malicious".to_string();
    scan.action = "block".to_string();
    tune(&mut scan);
    client().process_scan_result(scan).unwrap()
}

fn masked_assessment(rewrite: &str) -> Assessment {
    let mut scan = ScanResponse::default_safe_response();
    scan.action = "mask".to_string();
    scan.prompt_masked_data.data = rewrite.to_string();
    client().process_scan_result(scan).unwrap()
}

fn chat_request(content: &str) -> ChatRequest {
    ChatRequest {
        model: "m".to_string(),
        messages: vec![Message { role: "user".to_string(), content: content.to_string() }],
        stream: Some(false),
        format: None,
    }
}

// Allow-through, non-streaming chat: a passing prompt and a passing
// response leave the body untouched, and the serialized reply has the
// backend's exact wire shape.
#[test]
fn chat_allow_through() {
    let mut request = chat_request("hello");
    let gate = apply_chat_prompt_assessment(&mut request, 0, &safe_assessment(), "t0");
    assert!(matches!(gate, PromptGate::Proceed));
    assert_eq!(request.messages[0].content, "hello");

    let body = ChatResponse {
        model: "m".to_string(),
        created_at: "2025-01-01T00:00:00Z".to_string(),
        message: Message { role: "assistant".to_string(), content: "hi there".to_string() },
        done: true,
    };
    let out = apply_chat_response_assessment(body, &safe_assessment());
    assert_eq!(out.message.content, "hi there");
    let wire = encode_chat_record(
        &out.model,
        &out.created_at,
        &out.message.role,
        &out.message.content,
        out.done,
    );
    assert_eq!(
        wire,
        "{\"model\":\"m\",\"created_at\":\"2025-01-01T00:00:00Z\",\"message\":{\"role\":\"assistant\",\"content\":\"hi there\"},\"done\":true}"
    );
}

// Prompt blocked: the backend is never consulted; the reply is a blocked
// envelope whose content carries the banner and lists the detection.
#[test]
fn chat_prompt_blocked_lists_injection() {
    let mut request = chat_request("do something bad");
    let a = blocking_assessment(|scan| scan.prompt_detected.injection = true);
    match apply_chat_prompt_assessment(&mut request, 0, &a, "t0") {
        PromptGate::Blocked(resp) => {
            assert_eq!(resp.model, "m");
            assert_eq!(resp.created_at, "t0");
            assert_eq!(resp.message.role, "assistant");
            assert!(resp.done);
            assert!(resp.message.content.starts_with(
                "\n\n\u{26a0}\u{fe0f} This content was blocked due to security policy violations:"
            ));
            assert!(resp.message.content.contains("\u{2022} Category: malicious"));
            assert!(resp.message.content.contains("\u{2022} Action: block"));
            assert!(resp.message.content.contains("Prompt contains injection threats"));
        },
        PromptGate::Proceed => panic!("blocking verdict must not proceed"),
    }
    assert_eq!(request.messages[0].content, "do something bad");
}

#[test]
fn chat_prompt_mask_substitutes_rewrite() {
    let mut request = chat_request("my card is 4111");
    let a = masked_assessment("my card is ****");
    let gate = apply_chat_prompt_assessment(&mut request, 0, &a, "t0");
    assert!(matches!(gate, PromptGate::Proceed));
    assert_eq!(request.messages[0].content, "my card is ****");
    assert_eq!(request.messages[0].role, "user");
}

#[test]
fn chat_response_block_replaces_content() {
    let body = ChatResponse {
        model: "m".to_string(),
        created_at: "t".to_string(),
        message: Message { role: "assistant".to_string(), content: "bad stuff".to_string() },
        done: true,
    };
    let a = blocking_assessment(|scan| scan.response_detected.toxic_content = true);
    let out = apply_chat_response_assessment(body, &a);
    assert!(out.message.content.contains("Response contains harmful content"));
    assert_eq!(out.model, "m");
}

#[test]
fn generate_prompt_blocked_uses_short_message() {
    let request = GenerateRequest {
        model: "g".to_string(),
        prompt: "bad".to_string(),
        system: None,
        template: None,
        context: None,
        stream: Some(false),
        raw: None,
        format: None,
    };
    let a = blocking_assessment(|_| ());
    let resp = apply_generate_prompt_assessment(&request, &a, "t1").unwrap();
    assert_eq!(resp.model, "g");
    assert_eq!(resp.created_at, "t1");
    assert!(resp.done);
    assert_eq!(
        resp.response,
        "\u{26a0}\u{fe0f} This response was blocked due to security policy violations:\n\n\u{2022} Category: malicious\n\u{2022} Action: block\n\nPlease reformulate your request to comply with security policies."
    );
    assert!(apply_generate_prompt_assessment(&request, &safe_assessment(), "t1").is_none());
}

#[test]
fn generate_response_gate() {
    let body = panw_api_ollama::types::GenerateResponse {
        model: "g".to_string(),
        created_at: "t".to_string(),
        response: "fine".to_string(),
        context: None,
        done: true,
    };
    let out = apply_generate_response_assessment(body.clone(), &safe_assessment());
    assert_eq!(out.response, "fine");
    let out = apply_generate_response_assessment(body, &blocking_assessment(|_| ()));
    assert!(out.response.contains("blocked due to security policy violations"));
}

#[test]
fn violation_message_without_detections() {
    let a = blocking_assessment(|_| ());
    let msg = utils::format_security_violation_message(&a);
    assert!(msg.contains("\u{2022} Reasons: \n- Unspecified security concern"));
}

#[test]
fn violation_message_joins_reasons_in_order() {
    let a = blocking_assessment(|scan| {
        scan.prompt_detected.dlp = true;
        scan.response_detected.malicious_code = true;
        scan.response_detected.ungrounded = true;
    });
    let msg = utils::format_security_violation_message(&a);
    assert!(msg.contains(
        "- Prompt contains sensitive information\n - Response contains malicious code\n - Response contains any ungrounded content\n"
    ));
}

#[test]
fn short_violation_message_shape() {
    let msg = format_security_violation_message("malicious", "block");
    assert_eq!(
        msg,
        "\u{26a0}\u{fe0f} This response was blocked due to security policy violations:\n\n\u{2022} Category: malicious\n\u{2022} Action: block\n\nPlease reformulate your request to comply with security policies."
    );
}

#[test]
fn security_failure_line_shape() {
    let line = log_security_failure("prompt", "malicious", "block");
    assert_eq!(line, "Security issue detected in prompt: category=malicious, action=block");
}

#[test]
fn api_error_status_codes() {
    let backend = ApiError::OllamaError(OllamaError::ApiError {
        status: 500,
        message: "down".to_string(),
    });
    assert_eq!(backend.status_code(), 502);
    assert_eq!(ApiError::SecurityError(SecurityError::Unauthenticated).status_code(), 401);
    assert_eq!(ApiError::SecurityError(SecurityError::Forbidden).status_code(), 403);
    assert_eq!(
        ApiError::SecurityError(SecurityError::RateLimited { retry_after: Some(5) }).status_code(),
        429
    );
    assert_eq!(
        ApiError::SecurityError(SecurityError::Transport("x".to_string())).status_code(),
        500
    );
    assert_eq!(ApiError::InternalError("x".to_string()).status_code(), 500);
}
