//! Request-handling decisions shared by the endpoints.
//!
//! The HTTP framing lives in the surrounding program; here stand the error
//! taxonomy of a request and the per-endpoint gating decisions.

pub mod chat;
pub mod generate;
pub mod security_utils;
pub mod utils;

use vstd::prelude::*;
use crate::ollama::OllamaError;
use crate::security::SecurityError;

verus! {

/// Errors of one proxied request, unifying backend, inspector and internal
/// failures.
#[derive(Debug)]
pub enum ApiError {
    /// The model backend failed.
    OllamaError(OllamaError),
    /// The inspection service failed.
    SecurityError(SecurityError),
    /// A fault within the proxy itself.
    InternalError(String),
}

impl ApiError {
    /// The HTTP status this error surfaces as: backend failures are a bad
    /// gateway, inspector authentication, permission and rate failures keep
    /// their status, and everything else is an internal fault.
    pub fn status_code(&self) -> (r: u16)
        ensures
            self is OllamaError ==> r == 502,
            (self matches ApiError::SecurityError(e) && e is Unauthenticated) ==> r == 401,
            (self matches ApiError::SecurityError(e) && e is Forbidden) ==> r == 403,
            (self matches ApiError::SecurityError(e) && e is RateLimited) ==> r == 429,
            (self matches ApiError::SecurityError(e) && !(e is Unauthenticated) && !(e is Forbidden)
                && !(e is RateLimited)) ==> r == 500,
            self is InternalError ==> r == 500,
    {
        match self {
            ApiError::OllamaError(_) => 502,
            ApiError::SecurityError(e) => match e {
                SecurityError::Unauthenticated => 401,
                SecurityError::Forbidden => 403,
                SecurityError::RateLimited { .. } => 429,
                SecurityError::AssessmentFailed { .. } => 500,
                SecurityError::Transport(_) => 500,
                SecurityError::Decode(_) => 500,
                SecurityError::Internal(_) => 500,
            },
            ApiError::InternalError(_) => 500,
        }
    }
}

} // verus!
