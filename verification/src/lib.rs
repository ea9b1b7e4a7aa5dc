//! Security-filtering reverse proxy core for a local LLM backend.
//!
//! The library holds the verified logic of the proxy: configuration
//! validation, the content envelope submitted to the external inspection
//! service, incremental parsing of the backend's streamed records with
//! code-fence separation, the assessment state machine that gates chunk
//! release on inspection verdicts, and the construction of the synthesized
//! wire records (blocked, masked and error envelopes).

pub mod config;
pub mod fences;
pub mod handlers;
pub mod jsonrec;
pub mod ollama;
pub mod security;
pub mod stream;
pub mod types;
pub mod util;
