//! Sensitive data redaction for logs.

use vstd::prelude::*;
use crate::matcher::{compile, is_match, regex_compiles, regex_is_match, regex_replace_all, replace_all};

verus! {

/// Matches an API key, token, secret or password assignment; the first
/// group is the name, the second the value.
pub const SENSITIVE_PATTERN: &'static str = r#"(api[_-]?key|token|secret|password|passwd)[\s:=]+["']?([a-zA-Z0-9_-]+)["']?"#;

/// What a sensitive assignment is replaced with: its name and a marker.
pub const REDACTED_REPLACEMENT: &'static str = "$1=***REDACTED***";

/// Redaction utilities.
#[derive(Debug)]
pub struct Redaction;

impl Redaction {
    /// Redact sensitive data from a string: each sensitive assignment keeps
    /// its name and loses its value.
    pub fn redact(text: &str) -> (r: String)
        ensures
            regex_compiles(SENSITIVE_PATTERN@) ==> r@ == regex_replace_all(
                SENSITIVE_PATTERN@,
                text@,
                REDACTED_REPLACEMENT@,
            ),
            !regex_compiles(SENSITIVE_PATTERN@) ==> r@ == text@,
    {
        match compile(SENSITIVE_PATTERN) {
            Ok(re) => replace_all(&re, text, REDACTED_REPLACEMENT),
            Err(_) => text.to_owned(),
        }
    }

    /// Check if text contains sensitive data.
    pub fn contains_sensitive(text: &str) -> (r: bool)
        ensures
            r == (regex_compiles(SENSITIVE_PATTERN@) && regex_is_match(SENSITIVE_PATTERN@, text@)),
    {
        match compile(SENSITIVE_PATTERN) {
            Ok(re) => is_match(&re, text),
            Err(_) => false,
        }
    }
}

} // verus!
