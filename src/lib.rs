//! Natural-language shell command assistant: data model, configuration and
//! the safety validation engine that classifies shell commands by risk.

pub mod backends;
pub mod cache;
pub mod cli;
pub mod config;
pub mod execution;
pub mod logging;
pub mod matcher;
pub mod models;
pub mod patterns;
pub mod redaction;
pub mod safety;
pub mod text;

pub use models::{
    BackendInfo, BackendType, CommandRequest, ConfigSchema, LogLevel, Platform, RiskLevel,
    SafetyLevel, ShellType, UserConfiguration, UserConfigurationBuilder,
};
pub use cache::{CacheError, CacheStats, IntegrityReport};
pub use config::{ConfigError, ConfigManager};
pub use execution::{ExecutionError, PlatformDetector, ShellDetector};
pub use logging::{LogConfig, LogConfigBuilder, LogError, LogFormat, LogOutput, Logger, Redaction};
