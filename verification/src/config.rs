//! Application configuration and its validation rules.
//!
//! The settings are loaded from a file or from the environment by the
//! surrounding program; this module holds the typed settings and the
//! validation that must pass before the proxy may start.

use vstd::prelude::*;
use vstd::string::StrSliceExecFns;

verus! {

/// Errors raised while loading or validating configuration.
#[derive(Debug)]
pub enum ConfigError {
    /// The configuration file could not be read.
    IoError(String),
    /// The configuration file could not be parsed.
    ParseError(String),
    /// A setting is missing or malformed.
    ValidationError(String),
}

/// Root configuration: all settings of the proxy.
#[derive(Debug, Clone)]
pub struct Config {
    pub server: ServerConfig,
    pub ollama: OllamaConfig,
    pub security: SecurityConfig,
}

/// Bind address and log verbosity of the proxy server.
#[derive(Debug, Clone)]
pub struct ServerConfig {
    pub host: String,
    pub port: u16,
    pub debug_level: String,
}

/// Connection settings for the model backend.
#[derive(Debug, Clone)]
pub struct OllamaConfig {
    pub base_url: String,
}

/// Connection and audit settings for the content-inspection service.
#[derive(Debug, Clone)]
pub struct SecurityConfig {
    pub base_url: String,
    pub api_key: String,
    pub profile_name: String,
    pub app_name: String,
    pub app_user: String,
    /// When non-empty, sent as grounding context in every envelope.
    pub contextual_grounding: String,
}

/// Whether `s` begins with the four characters of `http`, the shape check
/// applied to both base URLs.
pub open spec fn spec_starts_with_http(s: Seq<char>) -> bool {
    s.len() >= 4 && s[0] == 'h' && s[1] == 't' && s[2] == 't' && s[3] == 'p'
}

/// The first validation failure of `c`, if any: the diagnostic message that
/// `Config::validate` reports, or `None` when every rule passes.
pub open spec fn invalid_reason(c: Config) -> Option<Seq<char>> {
    if c.server.host@.len() == 0 {
        Some("Server host cannot be empty"@)
    } else if c.ollama.base_url@.len() == 0 {
        Some("Ollama base URL cannot be empty"@)
    } else if !spec_starts_with_http(c.ollama.base_url@) {
        Some("Ollama base URL must start with http:// or https://"@)
    } else if c.security.base_url@.len() == 0 || c.security.api_key@.len() == 0 {
        Some("Security credentials missing (base_url or api_key)"@)
    } else if !spec_starts_with_http(c.security.base_url@) {
        Some("Security base URL must start with http:// or https://"@)
    } else if c.security.profile_name@.len() == 0 {
        Some("Security profile_name is required"@)
    } else if c.security.app_name@.len() == 0 {
        Some("Security app_name is required"@)
    } else if c.security.app_user@.len() == 0 {
        Some("Security app_user is required"@)
    } else {
        None
    }
}

fn starts_with_http(s: &str) -> (b: bool)
    ensures
        b == spec_starts_with_http(s@),
{
    let n = s.unicode_len();
    if n < 4 {
        return false;
    }
    s.get_char(0) == 'h' && s.get_char(1) == 't' && s.get_char(2) == 't' && s.get_char(3) == 'p'
}

fn is_blank(s: &String) -> (b: bool)
    ensures
        b == (s@.len() == 0),
{
    s.as_str().unicode_len() == 0
}

impl Config {
    /// Checks every required setting; returns the first failure as a
    /// `ValidationError` carrying its diagnostic, and `Ok` only when all
    /// rules hold.
    pub fn validate(&self) -> (r: Result<(), ConfigError>)
        ensures
            r is Ok <==> invalid_reason(*self) is None,
            r is Err ==> (r->Err_0 matches ConfigError::ValidationError(m)
                && invalid_reason(*self) matches Some(reason) && m@ == reason),
    {
        if is_blank(&self.server.host) {
            return Err(ConfigError::ValidationError("Server host cannot be empty".to_owned()));
        }
        if is_blank(&self.ollama.base_url) {
            return Err(ConfigError::ValidationError("Ollama base URL cannot be empty".to_owned()));
        }
        if !starts_with_http(self.ollama.base_url.as_str()) {
            return Err(ConfigError::ValidationError(
                "Ollama base URL must start with http:// or https://".to_owned(),
            ));
        }
        if is_blank(&self.security.base_url) || is_blank(&self.security.api_key) {
            return Err(ConfigError::ValidationError(
                "Security credentials missing (base_url or api_key)".to_owned(),
            ));
        }
        if !starts_with_http(self.security.base_url.as_str()) {
            return Err(ConfigError::ValidationError(
                "Security base URL must start with http:// or https://".to_owned(),
            ));
        }
        if is_blank(&self.security.profile_name) {
            return Err(ConfigError::ValidationError(
                "Security profile_name is required".to_owned(),
            ));
        }
        if is_blank(&self.security.app_name) {
            return Err(ConfigError::ValidationError("Security app_name is required".to_owned()));
        }
        if is_blank(&self.security.app_user) {
            return Err(ConfigError::ValidationError("Security app_user is required".to_owned()));
        }
        Ok(())
    }
}

} // verus!
