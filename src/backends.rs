//! Values exchanged with command generation backends.

use vstd::prelude::*;

pub use crate::models::BackendInfo;

verus! {

/// Errors that can occur during command generation.
#[derive(Debug, Clone, PartialEq, Eq)]
pub enum GeneratorError {
    BackendUnavailable { reason: String },
    /// The request took longer than the given number of milliseconds.
    Timeout { timeout_ms: u64 },
    InvalidRequest { message: String },
    GenerationFailed { details: String },
    ParseError { content: String },
    ConfigError { message: String },
    Internal { message: String },
}

} // verus!
