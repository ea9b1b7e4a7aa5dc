//! Error shapes of the model backend.
//!
//! The HTTP client that talks to the backend lives in the surrounding
//! program; this module holds the typed failures it reports, so that the
//! verified request handling can classify them.

use vstd::prelude::*;

verus! {

/// Failures while talking to the model backend.
#[derive(Debug)]
pub enum OllamaError {
    /// The request could not be transported at all.
    RequestError(String),
    /// The backend answered a non-success status with a message.
    ApiError { status: u16, message: String },
    /// The backend client was misconfigured.
    ConfigError(String),
}

} // verus!
