//! Wire-level data types: the backend's request and response shapes and the
//! inspection service's scan request and scan response shapes.
//!
//! Every field is held as a plain value so that contracts can speak of it
//! directly; the surrounding program owns the serialized forms.

use vstd::prelude::*;

verus! {

/// Request body for the backend's text-generation endpoint.
#[derive(Debug, Clone)]
pub struct GenerateRequest {
    pub model: String,
    pub prompt: String,
    pub system: Option<String>,
    pub template: Option<String>,
    pub context: Option<Vec<u32>>,
    pub stream: Option<bool>,
    pub raw: Option<bool>,
    pub format: Option<String>,
}

/// Response body of the backend's text-generation endpoint.
#[derive(Debug, Clone)]
pub struct GenerateResponse {
    pub model: String,
    pub created_at: String,
    pub response: String,
    pub context: Option<Vec<u32>>,
    pub done: bool,
}

/// Request body for the backend's chat endpoint.
#[derive(Debug, Clone)]
pub struct ChatRequest {
    pub model: String,
    pub messages: Vec<Message>,
    pub stream: Option<bool>,
    pub format: Option<String>,
}

/// One message of a chat conversation.
#[derive(Debug, Clone)]
pub struct Message {
    pub role: String,
    pub content: String,
}

/// Response body of the backend's chat endpoint.
#[derive(Debug, Clone)]
pub struct ChatResponse {
    pub model: String,
    pub created_at: String,
    pub message: Message,
    pub done: bool,
}

/// Request body for the backend's embeddings endpoint.
#[derive(Debug, Clone)]
pub struct EmbeddingsRequest {
    pub model: String,
    pub prompt: String,
}

/// Response listing the models the backend offers.
#[derive(Debug, Clone)]
pub struct ListModelsResponse {
    pub models: Vec<ModelInfo>,
}

/// Catalog entry for one backend model.
#[derive(Debug, Clone)]
pub struct ModelInfo {
    pub name: String,
    pub modified_at: String,
    pub size: u64,
    pub digest: String,
    pub details: ModelDetails,
}

/// Technical details of one backend model.
#[derive(Debug, Clone)]
pub struct ModelDetails {
    pub format: String,
    pub family: String,
    pub families: Vec<String>,
    pub parameter_size: String,
    pub quantization_level: String,
}

/// The backend's version report.
#[derive(Debug, Clone)]
pub struct VersionResponse {
    pub version: String,
}

/// Payload submitted to the inspection service for one scan.
#[derive(Debug, Clone)]
pub struct ScanRequest {
    pub tr_id: String,
    pub ai_profile: AiProfile,
    pub metadata: Metadata,
    pub contents: Vec<Content>,
}

/// The inspection profile a scan is evaluated against.
#[derive(Debug, Clone)]
pub struct AiProfile {
    pub profile_name: String,
}

/// Audit metadata sent with every scan.
#[derive(Debug, Clone)]
pub struct Metadata {
    pub app_name: String,
    pub app_user: String,
    pub ai_model: String,
    pub user_ip: Option<String>,
}

/// The content envelope of a scan: up to five optional text fields.
///
/// Text and code are separated so the inspector can apply language-aware
/// detectors to code; `context` carries optional grounding text.
#[derive(Debug, Clone)]
pub struct Content {
    pub prompt: Option<String>,
    pub response: Option<String>,
    pub code_prompt: Option<String>,
    pub code_response: Option<String>,
    pub context: Option<String>,
}

/// The inspection service's reply to one scan.
#[derive(Debug, Clone)]
pub struct ScanResponse {
    pub report_id: String,
    pub scan_id: String,
    pub tr_id: Option<String>,
    pub profile_id: Option<String>,
    pub profile_name: Option<String>,
    /// Security category assigned to the content, e.g. `benign` or `malicious`.
    pub category: String,
    /// Recommended action, e.g. `allow`, `block` or `mask`.
    pub action: String,
    pub prompt_detected: PromptDetected,
    pub response_detected: ResponseDetected,
    pub prompt_masked_data: MaskedData,
    pub response_masked_data: MaskedData,
    pub prompt_detection_details: PromptDetectionDetails,
    pub response_detection_details: ResponseDetectionDetails,
    pub created_at: Option<String>,
    pub completed_at: Option<String>,
}

/// Detection flags the inspector can raise against a prompt.
#[derive(Debug, Clone, Copy, PartialEq, Eq, Structural)]
pub struct PromptDetected {
    pub url_cats: bool,
    pub dlp: bool,
    pub injection: bool,
    pub toxic_content: bool,
    pub malicious_code: bool,
    pub agent: bool,
    pub topic_violation: bool,
}

/// Detection flags the inspector can raise against a response.
#[derive(Debug, Clone, Copy, PartialEq, Eq, Structural)]
pub struct ResponseDetected {
    pub url_cats: bool,
    pub dlp: bool,
    pub db_security: bool,
    pub toxic_content: bool,
    pub malicious_code: bool,
    pub agent: bool,
    pub ungrounded: bool,
    pub topic_violation: bool,
}

/// Locations of detected patterns inside masked data.
#[derive(Debug, Clone)]
pub struct OffsetObject(pub Vec<Vec<i32>>);

/// One detected pattern inside masked data, with its locations.
#[derive(Debug, Clone)]
pub struct PatternDetections {
    pub pattern: String,
    pub locations: OffsetObject,
}

/// A sanitized rewrite produced by the inspector, with what was masked.
#[derive(Debug, Clone)]
pub struct MaskedData {
    pub data: String,
    pub pattern_detections: Vec<PatternDetections>,
}

/// Topic guardrail findings.
#[derive(Debug, Clone)]
pub struct TopicGuardRails {
    pub allowed_topics: Vec<String>,
    pub blocked_topics: Vec<String>,
}

/// Detailed findings against the prompt.
#[derive(Debug, Clone)]
pub struct PromptDetectionDetails {
    pub topic_guardrails_details: Option<TopicGuardRails>,
}

/// Detailed findings against the response.
#[derive(Debug, Clone)]
pub struct ResponseDetectionDetails {
    pub topic_guardrails_details: Option<TopicGuardRails>,
}

/// Errors surfaced by the assessed stream.
#[derive(Debug, Clone)]
pub enum StreamError {
    /// The inspection of streamed content failed.
    SecurityError(String),
    /// The upstream byte stream failed.
    NetworkError(String),
}

/// The detection-flag value in which nothing fired.
pub open spec fn no_prompt_detections() -> PromptDetected {
    PromptDetected {
        url_cats: false,
        dlp: false,
        injection: false,
        toxic_content: false,
        malicious_code: false,
        agent: false,
        topic_violation: false,
    }
}

/// The detection-flag value in which nothing fired.
pub open spec fn no_response_detections() -> ResponseDetected {
    ResponseDetected {
        url_cats: false,
        dlp: false,
        db_security: false,
        toxic_content: false,
        malicious_code: false,
        agent: false,
        ungrounded: false,
        topic_violation: false,
    }
}

impl ScanResponse {
    /// A reply meaning "safe" that is used where no scan is needed, such as
    /// for whitespace-only content: category `benign`, action `allow`, and no
    /// detection raised.
    pub fn default_safe_response() -> (r: Self)
        ensures
            r.category@ == "benign"@,
            r.action@ == "allow"@,
            r.prompt_detected == no_prompt_detections(),
            r.response_detected == no_response_detections(),
            r.prompt_masked_data.data@.len() == 0,
            r.response_masked_data.data@.len() == 0,
    {
        ScanResponse {
            report_id: String::new(),
            scan_id: String::new(),
            tr_id: None,
            profile_id: None,
            profile_name: None,
            category: "benign".to_owned(),
            action: "allow".to_owned(),
            prompt_detected: PromptDetected {
                url_cats: false,
                dlp: false,
                injection: false,
                toxic_content: false,
                malicious_code: false,
                agent: false,
                topic_violation: false,
            },
            response_detected: ResponseDetected {
                url_cats: false,
                dlp: false,
                db_security: false,
                toxic_content: false,
                malicious_code: false,
                agent: false,
                ungrounded: false,
                topic_violation: false,
            },
            prompt_masked_data: MaskedData { data: String::new(), pattern_detections: Vec::new() },
            response_masked_data: MaskedData { data: String::new(), pattern_detections: Vec::new() },
            prompt_detection_details: PromptDetectionDetails { topic_guardrails_details: None },
            response_detection_details: ResponseDetectionDetails { topic_guardrails_details: None },
            created_at: None,
            completed_at: None,
        }
    }
}

} // verus!
