use panw_api_ollama::security::{AssessmentPlan, SecurityClient, SecurityError};
use panw_api_ollama::types::ScanResponse;

fn client() -> SecurityClient {
    SecurityClient::new("https://inspector.example", "key", "profile", "app", "user")
}

#[test]
fn benign_allow_is_safe() {
    let c = client();
    let a = c.process_scan_result(ScanResponse::default_safe_response()).unwrap();
    assert!(a.is_safe);
    assert_eq!(a.category, "benign");
    assert_eq!(a.action, "allow");
    assert!(!a.is_masked);
}

#[test]
fn malicious_block_is_unsafe() {
    let c = client();
    let mut scan = ScanResponse::default_safe_response();
    scan.category = "malicious".to_string();
    scan.action = "block".to_string();
    scan.prompt_detected.injection = true;
    let a = c.process_scan_result(scan).unwrap();
    assert!(!a.is_safe);
    assert_eq!(a.category, "malicious");
    assert_eq!(a.action, "block");
    assert!(a.details.prompt_detected.injection);
}

#[test]
fn benign_block_action_is_unsafe() {
    let c = client();
    let mut scan = ScanResponse::default_safe_response();
    scan.action = "block".to_string();
    let a = c.process_scan_result(scan).unwrap();
    assert!(!a.is_safe);
}

#[test]
fn masked_reply_carries_the_rewrite() {
    let c = client();
    let mut scan = ScanResponse::default_safe_response();
    scan.action = "mask".to_string();
    scan.response_masked_data.data = "my card is ****".to_string();
    let a = c.process_scan_result(scan).unwrap();
    assert!(a.is_safe);
    assert!(a.is_masked);
    assert_eq!(a.final_content, "my card is ****");
}

#[test]
fn status_401_maps_to_unauthenticated() {
    let c = client();
    let r = c.parse_api_response(401, None, "no".to_string(), None);
    assert!(matches!(r, Err(SecurityError::Unauthenticated)));
}

#[test]
fn status_403_maps_to_forbidden() {
    let c = client();
    let r = c.parse_api_response(403, None, "no".to_string(), None);
    assert!(matches!(r, Err(SecurityError::Forbidden)));
}

#[test]
fn status_429_keeps_retry_after() {
    let c = client();
    let r = c.parse_api_response(429, Some(5), "slow down".to_string(), None);
    match r {
        Err(SecurityError::RateLimited { retry_after }) => assert_eq!(retry_after, Some(5)),
        other => panic!("unexpected: {:?}", other),
    }
}

#[test]
fn other_failure_keeps_status_and_body() {
    let c = client();
    let r = c.parse_api_response(500, None, "oops".to_string(), None);
    match r {
        Err(SecurityError::AssessmentFailed { status, body }) => {
            assert_eq!(status, 500);
            assert_eq!(body, "oops");
        },
        other => panic!("unexpected: {:?}", other),
    }
}

#[test]
fn success_without_parse_is_decode_error() {
    let c = client();
    let r = c.parse_api_response(200, None, "not json".to_string(), None);
    assert!(matches!(r, Err(SecurityError::Decode(_))));
}

#[test]
fn success_with_parse_passes_through() {
    let c = client();
    let scan = ScanResponse::default_safe_response();
    let r = c.parse_api_response(200, None, String::new(), Some(scan)).unwrap();
    assert_eq!(r.category, "benign");
}

// Whitespace-only content is answered safe without any scan request.
#[test]
fn blank_content_short_circuits() {
    let c = client();
    match c.assess_content("  \t\n ", "m", true).unwrap() {
        AssessmentPlan::Safe(a) => {
            assert!(a.is_safe);
            assert_eq!(a.category, "benign");
            assert_eq!(a.action, "allow");
        },
        AssessmentPlan::Submit(_) => panic!("blank content must not be submitted"),
    }
}

#[test]
fn blank_text_and_code_short_circuit() {
    let c = client();
    match c.assess_content_with_code("   ", "\n\t", "m", false).unwrap() {
        AssessmentPlan::Safe(a) => assert!(a.is_safe),
        AssessmentPlan::Submit(_) => panic!("blank content must not be submitted"),
    }
}

#[test]
fn content_with_fences_is_split_for_submission() {
    let c = client();
    let input = "please check\n```py\nimport os\n```\nthanks";
    match c.assess_content(input, "model-x", true).unwrap() {
        AssessmentPlan::Submit(req) => {
            assert_eq!(req.contents.len(), 1);
            let env = &req.contents[0];
            assert_eq!(env.prompt.as_deref(), Some("please check\nthanks\n"));
            assert_eq!(env.code_prompt.as_deref(), Some("import os\n"));
            assert_eq!(env.response, None);
            assert_eq!(env.code_response, None);
            assert_eq!(req.metadata.ai_model, "model-x");
            assert_eq!(req.metadata.app_name, "app");
            assert_eq!(req.metadata.app_user, "user");
            assert_eq!(req.ai_profile.profile_name, "profile");
        },
        AssessmentPlan::Safe(_) => panic!("non-blank content must be submitted"),
    }
}

#[test]
fn response_direction_uses_response_fields() {
    let c = client();
    match c.assess_content_with_code("an answer", "print(1)", "m", false).unwrap() {
        AssessmentPlan::Submit(req) => {
            let env = &req.contents[0];
            assert_eq!(env.response.as_deref(), Some("an answer"));
            assert_eq!(env.code_response.as_deref(), Some("print(1)"));
            assert_eq!(env.prompt, None);
            assert_eq!(env.code_prompt, None);
        },
        AssessmentPlan::Safe(_) => panic!("non-blank content must be submitted"),
    }
}

#[test]
fn grounding_context_is_attached() {
    let mut c = client();
    c.with_grounding("the docs".to_string());
    match c.assess_content("question", "m", true).unwrap() {
        AssessmentPlan::Submit(req) => {
            assert_eq!(req.contents[0].context.as_deref(), Some("the docs"));
        },
        AssessmentPlan::Safe(_) => panic!("non-blank content must be submitted"),
    }
}

#[test]
fn blank_envelope_short_circuits() {
    let mut c = client();
    c.with_grounding("the docs".to_string());
    let blank = panw_api_ollama::types::Content {
        prompt: None,
        response: Some(" \n ".to_string()),
        code_prompt: None,
        code_response: Some("\t".to_string()),
        context: None,
    };
    match c.assess_envelope(blank, "m") {
        AssessmentPlan::Safe(a) => assert!(a.is_safe),
        AssessmentPlan::Submit(_) => panic!("blank envelope must not be submitted"),
    }
    let real = panw_api_ollama::types::Content {
        prompt: None,
        response: Some("an answer".to_string()),
        code_prompt: None,
        code_response: None,
        context: None,
    };
    match c.assess_envelope(real, "m") {
        AssessmentPlan::Submit(req) => {
            assert_eq!(req.contents[0].response.as_deref(), Some("an answer"));
            assert_eq!(req.contents[0].context.as_deref(), Some("the docs"));
        },
        AssessmentPlan::Safe(_) => panic!("non-blank envelope must be submitted"),
    }
}

#[test]
fn scan_requests_get_distinct_transaction_ids() {
    let mut c = client();
    c.with_user_ip("10.0.0.7".to_string());
    let env = panw_api_ollama::types::Content {
        prompt: Some("q".to_string()),
        response: None,
        code_prompt: None,
        code_response: None,
        context: None,
    };
    let r1 = c.create_scan_request(env.clone(), "m");
    let r2 = c.create_scan_request(env, "m");
    assert_ne!(r1.tr_id, r2.tr_id);
    assert_eq!(r1.metadata.user_ip.as_deref(), Some("10.0.0.7"));
}
