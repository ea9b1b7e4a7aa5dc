//! Content assessment against the external inspection service.
//!
//! This module holds the verified side of the inspector client: envelope
//! construction, the whitespace short-circuit, the scan-request payload, the
//! classification of the service's HTTP replies, and the mapping from a scan
//! reply to an assessment. The HTTP transfer itself is performed by the
//! surrounding program.

use vstd::prelude::*;
use vstd::string::StrSliceExecFns;
use crate::fences::{code_lines, join_nl, lines_of, split_code_text, text_lines};
use crate::types::{AiProfile, Content, MaskedData, Metadata, ScanRequest, ScanResponse};
use crate::util::{all_blank, is_blank, opt_all_blank, opt_blank, opt_nonempty, str_eq};

verus! {

/// The code side of `content` under the line-based fence split, rejoined
/// with newlines.
pub open spec fn extracted_code(content: Seq<char>) -> Seq<char> {
    join_nl(code_lines(lines_of(content), false))
}

/// The text side of `content` under the line-based fence split, rejoined
/// with newlines.
pub open spec fn retained_text(content: Seq<char>) -> Seq<char> {
    join_nl(text_lines(lines_of(content), false))
}

/// The text field an envelope prepared from `content` carries: the text side
/// when code was extracted, the whole content otherwise.
pub open spec fn prepared_text(content: Seq<char>) -> Seq<char> {
    if extracted_code(content).len() > 0 {
        retained_text(content)
    } else {
        content
    }
}

/// Errors of a security assessment, mirroring the inspection service's
/// failure modes.
#[derive(Debug)]
pub enum SecurityError {
    /// The service answered 401.
    Unauthenticated,
    /// The service answered 403.
    Forbidden,
    /// The service answered 429; carries the advertised retry delay in
    /// seconds when one was given.
    RateLimited { retry_after: Option<u64> },
    /// The service answered another non-success status.
    AssessmentFailed { status: u16, body: String },
    /// The request could not be transported at all.
    Transport(String),
    /// The service's reply body could not be decoded.
    Decode(String),
    /// A fault on this side, such as an envelope with nothing to scan.
    Internal(String),
}

/// The outcome of evaluating one scan reply.
#[derive(Debug, Clone)]
pub struct Assessment {
    /// Whether the content may pass: category `benign` and action not `block`.
    pub is_safe: bool,
    /// The category the inspector assigned.
    pub category: String,
    /// The action the inspector recommended.
    pub action: String,
    /// Whether the inspector returned a sanitized rewrite.
    pub is_masked: bool,
    /// The sanitized rewrite when `is_masked`.
    pub final_content: String,
    /// The complete scan reply.
    pub details: ScanResponse,
}

/// What to do for one piece of content: answer with a synthetic safe
/// assessment, or submit the given scan request to the service.
#[derive(Debug, Clone)]
pub enum AssessmentPlan {
    Safe(Assessment),
    Submit(ScanRequest),
}

/// Client-side state of the inspection service: connection settings and the
/// audit metadata sent with every scan.
#[derive(Debug, Clone)]
pub struct SecurityClient {
    pub base_url: String,
    pub api_key: String,
    pub profile_name: String,
    pub app_name: String,
    pub app_user: String,
    /// End-user address propagated for audit, when known.
    pub user_ip: Option<String>,
    /// Grounding context added to every envelope, when configured.
    pub grounding: Option<String>,
}

/// Whether a scan reply means the content may pass.
pub open spec fn spec_is_safe(scan: ScanResponse) -> bool {
    scan.category@ == "benign"@ && scan.action@ != "block"@
}

/// The synthetic assessment used where no scan is needed.
pub open spec fn spec_safe_assessment(a: Assessment) -> bool {
    &&& a.is_safe
    &&& a.category@ == "benign"@
    &&& a.action@ == "allow"@
    &&& !a.is_masked
    &&& a.final_content@.len() == 0
}

/// Whether `c` is the envelope prepared from `content` for the direction
/// named by `is_prompt`: the split's text side (or the whole content where
/// no code was found) on the text field, the split's code side on the code
/// field when non-empty, nothing on the opposite direction, and `grounding`
/// as context.
pub open spec fn spec_prepared_envelope(
    c: Content,
    content: Seq<char>,
    is_prompt: bool,
    grounding: Option<String>,
) -> bool {
    &&& c.context == grounding
    &&& (is_prompt ==> {
        &&& opt_is(c.prompt, prepared_text(content))
        &&& (extracted_code(content).len() > 0 ==> opt_is(c.code_prompt, extracted_code(content)))
        &&& (extracted_code(content).len() == 0 ==> c.code_prompt is None)
        &&& c.response is None
        &&& c.code_response is None
    })
    &&& (!is_prompt ==> {
        &&& opt_is(c.response, prepared_text(content))
        &&& (extracted_code(content).len() > 0 ==> opt_is(c.code_response, extracted_code(content)))
        &&& (extracted_code(content).len() == 0 ==> c.code_response is None)
        &&& c.prompt is None
        &&& c.code_prompt is None
    })
}

/// Whether the optional field holds exactly the text `s`.
pub open spec fn opt_is(o: Option<String>, s: Seq<char>) -> bool {
    match o {
        Some(v) => v@ == s,
        None => false,
    }
}

/// Whether the envelope carries prompt-side fields only or response-side
/// fields only: the direction invariant of contents sent to the inspector.
pub open spec fn spec_direction_pure(c: Content) -> bool {
    (c.response is None && c.code_response is None) || (c.prompt is None && c.code_prompt is None)
}

/// The sanitized rewrite of a scan reply: the prompt-side rewrite when one
/// was returned, otherwise the response-side rewrite.
pub open spec fn spec_masked_content(scan: ScanResponse) -> Seq<char> {
    if scan.prompt_masked_data.data@.len() > 0 {
        scan.prompt_masked_data.data@
    } else {
        scan.response_masked_data.data@
    }
}

/// Whether a scan reply carries a sanitized rewrite for passing content.
pub open spec fn spec_is_masked(scan: ScanResponse) -> bool {
    spec_is_safe(scan) && spec_masked_content(scan).len() > 0
}

impl Content {
    /// Starts a builder with every field unset.
    pub fn builder() -> (r: ContentBuilder)
        ensures
            r.prompt is None,
            r.response is None,
            r.code_prompt is None,
            r.code_response is None,
    {
        ContentBuilder { prompt: None, response: None, code_prompt: None, code_response: None }
    }

    /// Builds an envelope from its four content fields. Construction fails
    /// exactly when no field holds a non-empty text.
    pub fn new(
        prompt: Option<String>,
        response: Option<String>,
        code_prompt: Option<String>,
        code_response: Option<String>,
    ) -> (r: Result<Self, &'static str>)
        ensures
            r is Ok <==> (opt_nonempty(prompt) || opt_nonempty(response) || opt_nonempty(code_prompt)
                || opt_nonempty(code_response)),
            r matches Ok(c) ==> c == (Content {
                prompt,
                response,
                code_prompt,
                code_response,
                context: None,
            }),
            r matches Err(e) ==> e@ == "Content must have at least one field populated"@,
    {
        let some_content = opt_has_text(&prompt) || opt_has_text(&response)
            || opt_has_text(&code_prompt) || opt_has_text(&code_response);
        if !some_content {
            return Err("Content must have at least one field populated");
        }
        Ok(Content { prompt, response, code_prompt, code_response, context: None })
    }
}

fn opt_has_text(o: &Option<String>) -> (r: bool)
    ensures
        r == opt_nonempty(*o),
{
    match o {
        None => false,
        Some(s) => s.as_str().unicode_len() > 0,
    }
}

/// Fluent builder for a content envelope.
#[derive(Debug, Clone)]
pub struct ContentBuilder {
    pub prompt: Option<String>,
    pub response: Option<String>,
    pub code_prompt: Option<String>,
    pub code_response: Option<String>,
}

impl ContentBuilder {
    /// Sets the prompt text.
    pub fn with_prompt(self, prompt: String) -> (r: Self)
        ensures
            r.prompt == Some(prompt),
            r.response == self.response,
            r.code_prompt == self.code_prompt,
            r.code_response == self.code_response,
    {
        ContentBuilder { prompt: Some(prompt), ..self }
    }

    /// Sets the response text.
    pub fn with_response(self, response: String) -> (r: Self)
        ensures
            r.response == Some(response),
            r.prompt == self.prompt,
            r.code_prompt == self.code_prompt,
            r.code_response == self.code_response,
    {
        ContentBuilder { response: Some(response), ..self }
    }

    /// Sets the code extracted from the prompt.
    pub fn with_code_prompt(self, code: String) -> (r: Self)
        ensures
            r.code_prompt == Some(code),
            r.prompt == self.prompt,
            r.response == self.response,
            r.code_response == self.code_response,
    {
        ContentBuilder { code_prompt: Some(code), ..self }
    }

    /// Sets the code extracted from the response.
    pub fn with_code_response(self, code: String) -> (r: Self)
        ensures
            r.code_response == Some(code),
            r.prompt == self.prompt,
            r.response == self.response,
            r.code_prompt == self.code_prompt,
    {
        ContentBuilder { code_response: Some(code), ..self }
    }

    /// Builds the envelope; fails exactly when no field holds a non-empty
    /// text.
    pub fn build(self) -> (r: Result<Content, &'static str>)
        ensures
            r is Ok <==> (opt_nonempty(self.prompt) || opt_nonempty(self.response)
                || opt_nonempty(self.code_prompt) || opt_nonempty(self.code_response)),
            r matches Ok(c) ==> c == (Content {
                prompt: self.prompt,
                response: self.response,
                code_prompt: self.code_prompt,
                code_response: self.code_response,
                context: None,
            }),
            r matches Err(e) ==> e@ == "Content must have at least one field populated"@,
    {
        Content::new(self.prompt, self.response, self.code_prompt, self.code_response)
    }
}

/// Relies on `uuid::Uuid::new_v4`, formatted through its display form: a
/// freshly generated random transaction identifier. Nothing is promised of
/// its value.
#[verifier::external_body]
fn new_transaction_id() -> String {
    uuid::Uuid::new_v4().to_string()
}

impl SecurityClient {
    /// Creates a client from the service's connection settings and the audit
    /// metadata to send with every scan.
    pub fn new(
        base_url: &str,
        api_key: &str,
        profile_name: &str,
        app_name: &str,
        app_user: &str,
    ) -> (r: Self)
        ensures
            r.base_url@ == base_url@,
            r.api_key@ == api_key@,
            r.profile_name@ == profile_name@,
            r.app_name@ == app_name@,
            r.app_user@ == app_user@,
            r.user_ip is None,
            r.grounding is None,
    {
        SecurityClient {
            base_url: base_url.to_owned(),
            api_key: api_key.to_owned(),
            profile_name: profile_name.to_owned(),
            app_name: app_name.to_owned(),
            app_user: app_user.to_owned(),
            user_ip: None,
            grounding: None,
        }
    }

    /// Records the end user's address for audit metadata.
    pub fn with_user_ip(&mut self, ip: String)
        ensures
            final(self).user_ip == Some(ip),
            final(self).base_url == old(self).base_url,
            final(self).api_key == old(self).api_key,
            final(self).profile_name == old(self).profile_name,
            final(self).app_name == old(self).app_name,
            final(self).app_user == old(self).app_user,
            final(self).grounding == old(self).grounding,
    {
        self.user_ip = Some(ip);
    }

    /// Records the grounding context to add to every envelope.
    pub fn with_grounding(&mut self, context: String)
        ensures
            final(self).grounding == Some(context),
            final(self).base_url == old(self).base_url,
            final(self).api_key == old(self).api_key,
            final(self).profile_name == old(self).profile_name,
            final(self).app_name == old(self).app_name,
            final(self).app_user == old(self).app_user,
            final(self).user_ip == old(self).user_ip,
    {
        self.grounding = Some(context);
    }

    /// The synthetic assessment for content that needs no scan.
    pub fn create_safe_assessment(&self) -> (r: Assessment)
        ensures
            spec_safe_assessment(r),
            r.details.category@ == "benign"@,
            r.details.action@ == "allow"@,
    {
        Assessment {
            is_safe: true,
            category: "benign".to_owned(),
            action: "allow".to_owned(),
            is_masked: false,
            final_content: String::new(),
            details: ScanResponse::default_safe_response(),
        }
    }

    /// Builds the scan-request payload for one envelope: a fresh transaction
    /// identifier, the configured profile, the audit metadata, and the
    /// envelope as the single content entry.
    pub fn create_scan_request(&self, content_obj: Content, model_name: &str) -> (r: ScanRequest)
        ensures
            r.ai_profile.profile_name == self.profile_name,
            r.metadata.app_name == self.app_name,
            r.metadata.app_user == self.app_user,
            r.metadata.ai_model@ == model_name@,
            r.metadata.user_ip == self.user_ip,
            r.contents@.len() == 1,
            r.contents@[0] == content_obj,
    {
        ScanRequest {
            tr_id: new_transaction_id(),
            ai_profile: AiProfile { profile_name: self.profile_name.clone() },
            metadata: Metadata {
                app_name: self.app_name.clone(),
                app_user: self.app_user.clone(),
                ai_model: model_name.to_owned(),
                user_ip: self.user_ip.clone(),
            },
            contents: vec![content_obj],
        }
    }

    /// Maps one scan reply to an assessment. Always succeeds: safety is
    /// category `benign` with an action other than `block`, and a passing
    /// reply with a sanitized rewrite is reported as masked.
    pub fn process_scan_result(&self, scan_result: ScanResponse) -> (r: Result<
        Assessment,
        SecurityError,
    >)
        ensures
            r matches Ok(a) && a.is_safe == spec_is_safe(scan_result)
                && a.category@ == scan_result.category@ && a.action@ == scan_result.action@
                && a.is_masked == spec_is_masked(scan_result)
                && (a.is_masked ==> a.final_content@ == spec_masked_content(scan_result))
                && (!a.is_masked ==> a.final_content@.len() == 0) && a.details == scan_result,
    {
        let is_safe = str_eq(scan_result.category.as_str(), "benign")
            && !str_eq(scan_result.action.as_str(), "block");
        let masked_source: &MaskedData = if scan_result.prompt_masked_data.data.as_str().unicode_len()
            > 0 {
            &scan_result.prompt_masked_data
        } else {
            &scan_result.response_masked_data
        };
        let is_masked = is_safe && masked_source.data.as_str().unicode_len() > 0;
        let final_content = if is_masked {
            masked_source.data.clone()
        } else {
            String::new()
        };
        Ok(Assessment {
            is_safe,
            category: scan_result.category.clone(),
            action: scan_result.action.clone(),
            is_masked,
            final_content,
            details: scan_result,
        })
    }

    /// Classifies the service's HTTP reply: 401, 403 and 429 map to their
    /// dedicated errors, any other non-success status fails the assessment
    /// with the body, and a success without a decodable body is a decode
    /// error.
    pub fn parse_api_response(
        &self,
        status: u16,
        retry_after: Option<u64>,
        body: String,
        parsed: Option<ScanResponse>,
    ) -> (r: Result<ScanResponse, SecurityError>)
        ensures
            status == 401 ==> (r matches Err(e) && e is Unauthenticated),
            status == 403 ==> (r matches Err(e) && e is Forbidden),
            status == 429 ==> (r matches Err(e) && (e matches SecurityError::RateLimited {
                retry_after: ra,
            } && ra == retry_after)),
            (!(200 <= status < 300) && status != 401 && status != 403 && status != 429) ==> (
            r matches Err(e) && e matches SecurityError::AssessmentFailed { status: s, body: b }
                && s == status && b == body),
            (200 <= status < 300 && parsed is Some) ==> r == Ok::<ScanResponse, SecurityError>(
                parsed->Some_0,
            ),
            (200 <= status < 300 && parsed is None) ==> (r matches Err(e)
                && (e matches SecurityError::Decode(b) && b == body)),
    {
        if status == 401 {
            return Err(SecurityError::Unauthenticated);
        }
        if status == 403 {
            return Err(SecurityError::Forbidden);
        }
        if status == 429 {
            return Err(SecurityError::RateLimited { retry_after });
        }
        if !(200 <= status && status < 300) {
            return Err(SecurityError::AssessmentFailed { status, body });
        }
        match parsed {
            Some(scan) => Ok(scan),
            None => Err(SecurityError::Decode(body)),
        }
    }

    /// Plans the assessment of one envelope, as used on the streaming path:
    /// an envelope whose every content field is whitespace-only gets the
    /// synthetic safe assessment without any service call, any other
    /// envelope becomes a scan request carrying it, with the configured
    /// grounding context attached.
    pub fn assess_envelope(&self, envelope: Content, model_name: &str) -> (r: AssessmentPlan)
        ensures
            (opt_blank(envelope.prompt) && opt_blank(envelope.response)
                && opt_blank(envelope.code_prompt) && opt_blank(
                envelope.code_response,
            )) ==> (r matches AssessmentPlan::Safe(a) && spec_safe_assessment(a)),
            !(opt_blank(envelope.prompt) && opt_blank(envelope.response)
                && opt_blank(envelope.code_prompt) && opt_blank(
                envelope.code_response,
            )) ==> (r matches AssessmentPlan::Submit(req) && req.contents@.len() == 1
                && req.contents@[0] == (Content { context: self.grounding, ..envelope })
                && req.metadata.ai_model@ == model_name@ && req.metadata.app_name == self.app_name
                && req.metadata.app_user == self.app_user && req.metadata.user_ip == self.user_ip
                && req.ai_profile.profile_name == self.profile_name),
    {
        let blank = opt_all_blank(&envelope.prompt)
            && opt_all_blank(&envelope.response)
            && opt_all_blank(&envelope.code_prompt)
            && opt_all_blank(&envelope.code_response);
        if blank {
            AssessmentPlan::Safe(self.create_safe_assessment())
        } else {
            let enriched = Content { context: self.grounding.clone(), ..envelope };
            AssessmentPlan::Submit(self.create_scan_request(enriched, model_name))
        }
    }

    /// Plans the assessment of separate text and code content, as submitted
    /// for a stream's buffers: whitespace-only text and code get the
    /// synthetic safe assessment without any service call; otherwise both
    /// fields are placed on the side named by `is_prompt` and submitted.
    pub fn assess_content_with_code(
        &self,
        text_content: &str,
        code_content: &str,
        model_name: &str,
        is_prompt: bool,
    ) -> (r: Result<AssessmentPlan, SecurityError>)
        ensures
            (is_blank(text_content@) && is_blank(code_content@)) ==> (r matches Ok(p)
                && p matches AssessmentPlan::Safe(a) && spec_safe_assessment(a)),
            !(is_blank(text_content@) && is_blank(code_content@)) ==> (r matches Ok(p)
                && p matches AssessmentPlan::Submit(req) && req.contents@.len() == 1
                && spec_direction_pure(req.contents@[0]) && req.metadata.ai_model@ == model_name@
                && (is_prompt ==> opt_is(req.contents@[0].prompt, text_content@))
                && (is_prompt ==> opt_is(req.contents@[0].code_prompt, code_content@))
                && (!is_prompt ==> opt_is(req.contents@[0].response, text_content@))
                && (!is_prompt ==> opt_is(req.contents@[0].code_response, code_content@))
                && req.contents@[0].context == self.grounding),
    {
        if all_blank(text_content) && all_blank(code_content) {
            return Ok(AssessmentPlan::Safe(self.create_safe_assessment()));
        }
        let built = if is_prompt {
            Content::builder().with_prompt(text_content.to_owned()).with_code_prompt(
                code_content.to_owned(),
            ).build()
        } else {
            Content::builder().with_response(text_content.to_owned()).with_code_response(
                code_content.to_owned(),
            ).build()
        };
        match built {
            Ok(content_obj) => {
                proof {
                    assert(!(is_blank(text_content@) && is_blank(code_content@)));
                }
                let enriched = Content { context: self.grounding.clone(), ..content_obj };
                Ok(AssessmentPlan::Submit(self.create_scan_request(enriched, model_name)))
            },
            Err(_) => {
                proof {
                    assert(text_content@.len() == 0 && code_content@.len() == 0);
                    assert(is_blank(text_content@) && is_blank(code_content@));
                    assert(false);
                }
                Err(SecurityError::Internal("envelope had no content to scan".to_owned()))
            },
        }
    }
}

impl SecurityClient {
    /// Extracts the code blocks of `content`: every line inside a
    /// triple-backtick fence, rejoined with newlines. Fence lines and their
    /// language tags are dropped; an unterminated fence attributes the rest
    /// to code.
    pub fn extract_code_blocks(&self, content: &str) -> (r: String)
        ensures
            r@ == extracted_code(content@),
    {
        let split = split_code_text(content);
        split.1
    }

    /// Removes the code blocks of `content`: every line outside a
    /// triple-backtick fence, rejoined with newlines, with the fence lines
    /// themselves dropped.
    pub fn remove_code_blocks(&self, content: &str) -> (r: String)
        ensures
            r@ == retained_text(content@),
    {
        let split = split_code_text(content);
        split.0
    }

    /// Prepares the envelope for one free-text blob: code fences are split
    /// out into the code field of the direction named by `is_prompt`, and
    /// the remaining text (or the whole blob where no code was found) goes
    /// to its text field. Fails exactly when the blob is empty and carries
    /// no code.
    pub fn prepare_content(&self, content: &str, is_prompt: bool) -> (r: Result<
        Content,
        SecurityError,
    >)
        ensures
            r is Ok <==> (extracted_code(content@).len() > 0 || content@.len() > 0),
            r matches Ok(c) ==> spec_prepared_envelope(c, content@, is_prompt, None),
            r matches Err(e) ==> e is Internal,
    {
        let code_blocks = self.extract_code_blocks(content);
        let has_code = code_blocks.as_str().unicode_len() > 0;
        let text_content = if has_code {
            self.remove_code_blocks(content)
        } else {
            content.to_owned()
        };
        let base = Content::builder();
        let content_builder = if is_prompt {
            let b = base.with_prompt(text_content);
            if has_code {
                b.with_code_prompt(code_blocks)
            } else {
                b
            }
        } else {
            let b = base.with_response(text_content);
            if has_code {
                b.with_code_response(code_blocks)
            } else {
                b
            }
        };
        match content_builder.build() {
            Ok(c) => Ok(c),
            Err(e) => Err(SecurityError::Internal(e.to_owned())),
        }
    }

    /// Plans the assessment of one free-text blob: whitespace-only content
    /// gets the synthetic safe assessment without any service call; anything
    /// else is prepared into an envelope, enriched with the configured
    /// grounding context, and submitted as a scan request.
    pub fn assess_content(&self, content: &str, model_name: &str, is_prompt: bool) -> (r: Result<
        AssessmentPlan,
        SecurityError,
    >)
        ensures
            is_blank(content@) ==> (r matches Ok(p) && p matches AssessmentPlan::Safe(a)
                && spec_safe_assessment(a)),
            !is_blank(content@) ==> (r matches Ok(p) && p matches AssessmentPlan::Submit(req)
                && req.contents@.len() == 1 && spec_prepared_envelope(
                req.contents@[0],
                content@,
                is_prompt,
                self.grounding,
            ) && req.metadata.ai_model@ == model_name@ && req.metadata.app_name == self.app_name
                && req.metadata.app_user == self.app_user && req.metadata.user_ip == self.user_ip
                && req.ai_profile.profile_name == self.profile_name),
    {
        if all_blank(content) {
            return Ok(AssessmentPlan::Safe(self.create_safe_assessment()));
        }
        proof {
            assert(content@.len() > 0);
        }
        match self.prepare_content(content, is_prompt) {
            Ok(prepared) => {
                let enriched = Content { context: self.grounding.clone(), ..prepared };
                Ok(AssessmentPlan::Submit(self.create_scan_request(enriched, model_name)))
            },
            Err(_) => {
                proof {
                    assert(false);
                }
                Err(SecurityError::Internal("envelope had no content to scan".to_owned()))
            },
        }
    }
}

} // verus!
