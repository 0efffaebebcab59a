//! Logging configuration and sensitive-data redaction.

use vstd::prelude::*;
use vstd::string::*;

pub use crate::models::LogLevel;
pub use crate::redaction::Redaction;

verus! {

/// Logging errors.
#[derive(Debug, Clone, PartialEq, Eq)]
pub enum LogError {
    AlreadyInitialized,
    IoError(String),
    InvalidConfig(String),
}

/// Log output destination.
#[derive(Debug, Clone, PartialEq, Eq)]
pub enum LogOutput {
    Stdout,
    Stderr,
    /// A log file, by path.
    File(String),
}

/// Log format.
#[derive(Debug, Clone, Copy, PartialEq, Eq, Structural)]
pub enum LogFormat {
    Json,
    Pretty,
    Compact,
}

/// Log rotation settings.
#[derive(Debug, Clone, Copy, PartialEq, Eq, Structural)]
pub struct LogRotation {
    pub max_files: u32,
    pub max_size_mb: u64,
}

/// Logging configuration.
#[derive(Debug, Clone)]
pub struct LogConfig {
    pub log_level: LogLevel,
    pub format: LogFormat,
    pub output: LogOutput,
    pub redaction_enabled: bool,
    pub rotation: Option<LogRotation>,
}

impl Default for LogConfig {
    fn default() -> (r: LogConfig)
        ensures
            r.log_level == LogLevel::Info,
            r.format == LogFormat::Json,
            r.output == LogOutput::Stderr,
            r.redaction_enabled,
            r.rotation is None,
    {
        LogConfig {
            log_level: LogLevel::Info,
            format: LogFormat::Json,
            output: LogOutput::Stderr,
            redaction_enabled: true,
            rotation: None,
        }
    }
}

impl LogConfig {
    /// Debug-level, human-readable logging to standard error, unredacted.
    pub fn development() -> (r: LogConfig)
        ensures
            r.log_level == LogLevel::Debug,
            r.format == LogFormat::Pretty,
            r.output == LogOutput::Stderr,
            !r.redaction_enabled,
            r.rotation is None,
    {
        LogConfig {
            log_level: LogLevel::Debug,
            format: LogFormat::Pretty,
            output: LogOutput::Stderr,
            redaction_enabled: false,
            rotation: None,
        }
    }

    /// Info-level JSON logging to the system log file, redacted, rotated
    /// over seven files of at most 100 MB.
    pub fn production() -> (r: LogConfig)
        ensures
            r.log_level == LogLevel::Info,
            r.format == LogFormat::Json,
            r.output matches LogOutput::File(p) && p@ == "/var/log/cmdai/cmdai.log"@,
            r.redaction_enabled,
            r.rotation == Some(LogRotation { max_files: 7, max_size_mb: 100 }),
    {
        LogConfig {
            log_level: LogLevel::Info,
            format: LogFormat::Json,
            output: LogOutput::File("/var/log/cmdai/cmdai.log".to_owned()),
            redaction_enabled: true,
            rotation: Some(LogRotation { max_files: 7, max_size_mb: 100 }),
        }
    }
}

/// Log configuration builder.
#[derive(Debug)]
pub struct LogConfigBuilder {
    config: LogConfig,
}

impl LogConfigBuilder {
    /// The configuration the builder would produce.
    pub closed spec fn spec_pending(&self) -> LogConfig {
        self.config
    }

    /// A builder holding the default configuration.
    pub fn new() -> (r: LogConfigBuilder)
        ensures
            r.spec_pending().log_level == LogLevel::Info,
            r.spec_pending().format == LogFormat::Json,
            r.spec_pending().output == LogOutput::Stderr,
            r.spec_pending().redaction_enabled,
            r.spec_pending().rotation is None,
    {
        LogConfigBuilder { config: LogConfig::default() }
    }

    pub fn log_level(self, level: LogLevel) -> (r: LogConfigBuilder)
        ensures
            r.spec_pending() == (LogConfig { log_level: level, ..self.spec_pending() }),
    {
        LogConfigBuilder { config: LogConfig { log_level: level, ..self.config } }
    }

    pub fn format(self, format: LogFormat) -> (r: LogConfigBuilder)
        ensures
            r.spec_pending() == (LogConfig { format: format, ..self.spec_pending() }),
    {
        LogConfigBuilder { config: LogConfig { format, ..self.config } }
    }

    pub fn output(self, output: LogOutput) -> (r: LogConfigBuilder)
        ensures
            r.spec_pending() == (LogConfig { output: output, ..self.spec_pending() }),
    {
        LogConfigBuilder { config: LogConfig { output, ..self.config } }
    }

    pub fn redaction_enabled(self, enabled: bool) -> (r: LogConfigBuilder)
        ensures
            r.spec_pending() == (LogConfig { redaction_enabled: enabled, ..self.spec_pending() }),
    {
        LogConfigBuilder { config: LogConfig { redaction_enabled: enabled, ..self.config } }
    }

    pub fn rotation(self, rotation: LogRotation) -> (r: LogConfigBuilder)
        ensures
            r.spec_pending() == (LogConfig { rotation: Some(rotation), ..self.spec_pending() }),
    {
        LogConfigBuilder { config: LogConfig { rotation: Some(rotation), ..self.config } }
    }

    pub fn build(self) -> (r: LogConfig)
        ensures
            r == self.spec_pending(),
    {
        self.config
    }
}

/// Handle for the process-wide logger, which is installed by the program
/// around the library.
#[derive(Debug)]
pub struct Logger;

/// Operation span for tracking operations.
#[derive(Debug)]
pub struct OperationSpan {
    name: String,
}

impl OperationSpan {
    /// The name of the operation.
    pub closed spec fn spec_name(&self) -> Seq<char> {
        self.name@
    }

    /// A span for the operation `name`.
    pub fn new(name: &str) -> (r: OperationSpan)
        ensures
            r.spec_name() == name@,
    {
        OperationSpan { name: name.to_owned() }
    }

    /// The name of the operation.
    pub fn name(&self) -> (r: &str)
        ensures
            r@ == self.spec_name(),
    {
        self.name.as_str()
    }
}

} // verus!
