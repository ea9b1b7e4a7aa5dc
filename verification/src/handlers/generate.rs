//! Gating decisions of the generate endpoint: what becomes of a generation
//! request after its prompt verdict, and of a generation response after its
//! verdict.

use vstd::prelude::*;
use crate::handlers::security_utils::{format_security_violation_message, short_violation_message};
use crate::security::Assessment;
use crate::types::{GenerateRequest, GenerateResponse};

verus! {

/// Applies the prompt verdict for a generation request: a blocking verdict
/// yields the blocked envelope to answer with instead of calling the
/// backend; a passing verdict yields nothing.
pub fn apply_generate_prompt_assessment(
    request: &GenerateRequest,
    assessment: &Assessment,
    created_at: &str,
) -> (r: Option<GenerateResponse>)
    ensures
        assessment.is_safe <==> r is None,
        !assessment.is_safe ==> (r matches Some(resp) && resp.model@ == request.model@
            && resp.created_at@ == created_at@ && resp.response@ == short_violation_message(
            assessment.category@,
            assessment.action@,
        ) && resp.context is None && resp.done),
{
    if assessment.is_safe {
        return None;
    }
    let blocked_message = format_security_violation_message(
        assessment.category.as_str(),
        assessment.action.as_str(),
    );
    Some(
        GenerateResponse {
            model: request.model.clone(),
            created_at: created_at.to_owned(),
            response: blocked_message,
            context: None,
            done: true,
        },
    )
}

/// Applies the response verdict for a generation response: a blocking
/// verdict replaces the generated text with the short violation message; a
/// passing verdict changes nothing.
pub fn apply_generate_response_assessment(response: GenerateResponse, assessment: &Assessment) -> (r:
    GenerateResponse)
    ensures
        r.model == response.model,
        r.created_at == response.created_at,
        r.context == response.context,
        r.done == response.done,
        !assessment.is_safe ==> r.response@ == short_violation_message(
            assessment.category@,
            assessment.action@,
        ),
        assessment.is_safe ==> r.response == response.response,
{
    if !assessment.is_safe {
        let content = format_security_violation_message(
            assessment.category.as_str(),
            assessment.action.as_str(),
        );
        GenerateResponse { response: content, ..response }
    } else {
        response
    }
}

} // verus!
