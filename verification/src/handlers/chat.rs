//! Gating decisions of the chat endpoint: what becomes of a chat request
//! after each prompt verdict, and of a chat response after its verdict.

use vstd::prelude::*;
use crate::handlers::utils::{format_security_violation_message, violation_message};
use crate::security::Assessment;
use crate::types::{ChatRequest, ChatResponse, Message};

verus! {

/// The outcome of gating one prompt message: go on (possibly with a masked
/// rewrite substituted), or answer with a blocked envelope instead of
/// calling the backend.
#[derive(Debug)]
pub enum PromptGate {
    Proceed,
    Blocked(ChatResponse),
}

/// Applies the verdict for message `index` of a chat request: a blocking
/// verdict yields the blocked envelope and leaves the request unchanged, a
/// masked verdict substitutes the sanitized rewrite into the message, and a
/// plain pass changes nothing.
pub fn apply_chat_prompt_assessment(
    request: &mut ChatRequest,
    index: usize,
    assessment: &Assessment,
    created_at: &str,
) -> (r: PromptGate)
    requires
        index < old(request).messages@.len(),
    ensures
        !assessment.is_safe ==> (r matches PromptGate::Blocked(resp)
            && resp.model@ == old(request).model@
            && resp.created_at@ == created_at@
            && resp.message.role@ == "assistant"@
            && resp.message.content@ == violation_message(
                assessment.category@,
                assessment.action@,
                assessment.details.prompt_detected,
                assessment.details.response_detected,
            )
            && resp.done
            && *final(request) == *old(request)),
        (assessment.is_safe && assessment.is_masked) ==> (r is Proceed
            && final(request).messages@ == old(request).messages@.update(
                index as int,
                (Message {
                    role: old(request).messages@[index as int].role,
                    content: assessment.final_content,
                }),
            )
            && final(request).model == old(request).model
            && final(request).stream == old(request).stream
            && final(request).format == old(request).format),
        (assessment.is_safe && !assessment.is_masked) ==> (r is Proceed
            && *final(request) == *old(request)),
{
    if !assessment.is_safe {
        let blocked_message = format_security_violation_message(assessment);
        return PromptGate::Blocked(
            ChatResponse {
                model: request.model.clone(),
                created_at: created_at.to_owned(),
                message: Message { role: "assistant".to_owned(), content: blocked_message },
                done: true,
            },
        );
    }
    if assessment.is_masked {
        let role = request.messages[index].role.clone();
        request.messages[index] = Message { role, content: assessment.final_content.clone() };
    }
    PromptGate::Proceed
}

/// Applies the verdict for a chat response: a blocking verdict replaces the
/// content with the violation message, a masked verdict substitutes the
/// sanitized rewrite, and a plain pass changes nothing.
pub fn apply_chat_response_assessment(response: ChatResponse, assessment: &Assessment) -> (r:
    ChatResponse)
    ensures
        r.model == response.model,
        r.created_at == response.created_at,
        r.done == response.done,
        r.message.role == response.message.role,
        !assessment.is_safe ==> r.message.content@ == violation_message(
            assessment.category@,
            assessment.action@,
            assessment.details.prompt_detected,
            assessment.details.response_detected,
        ),
        (assessment.is_safe && assessment.is_masked) ==> r.message.content
            == assessment.final_content,
        (assessment.is_safe && !assessment.is_masked) ==> r.message.content
            == response.message.content,
{
    if !assessment.is_safe {
        let content = format_security_violation_message(assessment);
        ChatResponse {
            message: Message { role: response.message.role, content },
            ..response
        }
    } else if assessment.is_masked {
        ChatResponse {
            message: Message {
                role: response.message.role,
                content: assessment.final_content.clone(),
            },
            ..response
        }
    } else {
        response
    }
}

} // verus!
