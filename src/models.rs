//! Core data types shared by the command assistant.

use vstd::prelude::*;
use vstd::string::*;
use vstd::utf8::encode_utf8;
use crate::text::{
    contains_bytes, decimal, ends_with, opt_view, ends_with_bytes, has_sub, lower_of, lowercase, same_text, trim_of, trimmed,
    u64_text,
};

verus! {

#[verifier::external_type_specification]
#[verifier::external_body]
pub struct ExTracingLevel(tracing::Level);

/// Relies on the constant `tracing::Level::DEBUG`.
#[verifier::external_body]
fn tracing_debug() -> tracing::Level {
    tracing::Level::DEBUG
}

/// Relies on the constant `tracing::Level::INFO`.
#[verifier::external_body]
fn tracing_info() -> tracing::Level {
    tracing::Level::INFO
}

/// Relies on the constant `tracing::Level::WARN`.
#[verifier::external_body]
fn tracing_warn() -> tracing::Level {
    tracing::Level::WARN
}

/// Relies on the constant `tracing::Level::ERROR`.
#[verifier::external_body]
fn tracing_error() -> tracing::Level {
    tracing::Level::ERROR
}

/// Severity of a shell command, totally ordered `Safe < Moderate < High < Critical`.
#[derive(Debug, Clone, Copy, PartialEq, Eq, Structural, PartialOrd, Ord, Hash)]
pub enum RiskLevel {
    Safe,
    Moderate,
    High,
    Critical,
}

/// Policy preset deciding which risk levels need confirmation or are blocked.
#[derive(Debug, Clone, Copy, PartialEq, Eq, Structural, Hash)]
pub enum SafetyLevel {
    /// Blocks High and Critical commands, confirms Moderate.
    Strict,
    /// Blocks Critical commands, confirms High.
    Moderate,
    /// Never blocks; confirms Critical.
    Permissive,
}

impl RiskLevel {
    /// Position of the level in the order `Safe < Moderate < High < Critical`.
    pub open spec fn spec_rank(self) -> nat {
        match self {
            RiskLevel::Safe => 0,
            RiskLevel::Moderate => 1,
            RiskLevel::High => 2,
            RiskLevel::Critical => 3,
        }
    }

    /// Rank of the level; comparing ranks compares severities.
    pub fn rank(&self) -> (r: u8)
        ensures
            r as nat == self.spec_rank(),
    {
        match self {
            RiskLevel::Safe => 0,
            RiskLevel::Moderate => 1,
            RiskLevel::High => 2,
            RiskLevel::Critical => 3,
        }
    }

    /// The more severe of two levels.
    pub open spec fn spec_max(self, other: RiskLevel) -> RiskLevel {
        if other.spec_rank() > self.spec_rank() {
            other
        } else {
            self
        }
    }

    /// Whether a command at this level needs confirmation under `level`.
    pub open spec fn spec_requires_confirmation(self, level: SafetyLevel) -> bool {
        match level {
            SafetyLevel::Strict => self.spec_rank() >= 1,
            SafetyLevel::Moderate => self.spec_rank() >= 2,
            SafetyLevel::Permissive => self.spec_rank() >= 3,
        }
    }

    /// Whether a command at this level is refused outright under `level`.
    pub open spec fn spec_is_blocked(self, level: SafetyLevel) -> bool {
        match level {
            SafetyLevel::Strict => self.spec_rank() >= 2,
            SafetyLevel::Moderate => self.spec_rank() >= 3,
            SafetyLevel::Permissive => false,
        }
    }

    /// Check if this risk level requires user confirmation at the given safety level.
    pub fn requires_confirmation(&self, safety_level: SafetyLevel) -> (r: bool)
        ensures
            r == self.spec_requires_confirmation(safety_level),
    {
        match safety_level {
            SafetyLevel::Strict => matches!(self, RiskLevel::Moderate | RiskLevel::High | RiskLevel::Critical),
            SafetyLevel::Moderate => matches!(self, RiskLevel::High | RiskLevel::Critical),
            SafetyLevel::Permissive => matches!(self, RiskLevel::Critical),
        }
    }

    /// Check if this risk level should be blocked at the given safety level.
    pub fn is_blocked(&self, safety_level: SafetyLevel) -> (r: bool)
        ensures
            r == self.spec_is_blocked(safety_level),
    {
        match safety_level {
            SafetyLevel::Strict => matches!(self, RiskLevel::High | RiskLevel::Critical),
            SafetyLevel::Moderate => matches!(self, RiskLevel::Critical),
            SafetyLevel::Permissive => false,
        }
    }
}

impl RiskLevel {
    /// Name of the level as shown to users.
    pub open spec fn spec_name(self) -> Seq<char> {
        match self {
            RiskLevel::Safe => "Safe"@,
            RiskLevel::Moderate => "Moderate"@,
            RiskLevel::High => "High"@,
            RiskLevel::Critical => "Critical"@,
        }
    }

    /// Name of the level as shown to users.
    pub fn name(&self) -> (r: &'static str)
        ensures
            r@ == self.spec_name(),
    {
        match self {
            RiskLevel::Safe => "Safe",
            RiskLevel::Moderate => "Moderate",
            RiskLevel::High => "High",
            RiskLevel::Critical => "Critical",
        }
    }
}

impl SafetyLevel {
    /// The level a lower-case name stands for.
    pub open spec fn spec_named(s: Seq<char>) -> Option<SafetyLevel> {
        if s == "strict"@ {
            Some(SafetyLevel::Strict)
        } else if s == "moderate"@ {
            Some(SafetyLevel::Moderate)
        } else if s == "permissive"@ {
            Some(SafetyLevel::Permissive)
        } else {
            None
        }
    }

    /// Parses a level name, ignoring case.
    pub fn parse(s: &str) -> (r: Result<SafetyLevel, String>)
        ensures
            r matches Ok(l) ==> Self::spec_named(lower_of(s@)) == Some(l),
            r is Err ==> Self::spec_named(lower_of(s@)) is None,
            r matches Err(msg) ==> msg@ == "Invalid safety level '"@ + s@
                + "'. Valid values: strict, moderate, permissive"@,
    {
        let l = lowercase(s);
        match Self::from_lower(l.as_str()) {
            Some(level) => Ok(level),
            None => {
                let mut msg = String::new();
                msg.append("Invalid safety level '");
                msg.append(s);
                msg.append("'. Valid values: strict, moderate, permissive");
                Err(msg)
            },
        }
    }

    /// The level an already lower-cased name stands for.
    pub fn from_lower(l: &str) -> (r: Option<SafetyLevel>)
        ensures
            r == Self::spec_named(l@),
    {
        if same_text(l, "strict") {
            Some(SafetyLevel::Strict)
        } else if same_text(l, "moderate") {
            Some(SafetyLevel::Moderate)
        } else if same_text(l, "permissive") {
            Some(SafetyLevel::Permissive)
        } else {
            None
        }
    }

    /// Lower-case name of the level.
    pub fn name(&self) -> (r: &'static str)
        ensures
            self is Strict ==> r@ == "strict"@,
            self is Moderate ==> r@ == "moderate"@,
            self is Permissive ==> r@ == "permissive"@,
    {
        match self {
            SafetyLevel::Strict => "strict",
            SafetyLevel::Moderate => "moderate",
            SafetyLevel::Permissive => "permissive",
        }
    }
}

impl Default for SafetyLevel {
    fn default() -> (r: SafetyLevel)
        ensures
            r == SafetyLevel::Moderate,
    {
        SafetyLevel::Moderate
    }
}

/// Inference backends a command can be generated by.
#[derive(Debug, Clone, Copy, PartialEq, Eq, Structural, Hash)]
pub enum BackendType {
    /// Mock backend for testing
    Mock,
    /// Ollama local LLM backend
    Ollama,
    /// vLLM HTTP API backend
    VLlm,
    /// Apple Silicon MLX backend
    Mlx,
}

impl BackendType {
    /// The backend a lower-case name stands for.
    pub open spec fn spec_named(s: Seq<char>) -> Option<BackendType> {
        if s == "mock"@ {
            Some(BackendType::Mock)
        } else if s == "ollama"@ {
            Some(BackendType::Ollama)
        } else if s == "vllm"@ {
            Some(BackendType::VLlm)
        } else if s == "mlx"@ {
            Some(BackendType::Mlx)
        } else {
            None
        }
    }

    /// Parses a backend name, ignoring case.
    pub fn parse(s: &str) -> (r: Result<BackendType, String>)
        ensures
            r matches Ok(b) ==> Self::spec_named(lower_of(s@)) == Some(b),
            r is Err ==> Self::spec_named(lower_of(s@)) is None,
            r matches Err(msg) ==> msg@ == "Unknown backend type: "@ + s@,
    {
        let l = lowercase(s);
        match Self::from_lower(l.as_str()) {
            Some(b) => Ok(b),
            None => {
                let mut msg = String::new();
                msg.append("Unknown backend type: ");
                msg.append(s);
                Err(msg)
            },
        }
    }

    /// The backend an already lower-cased name stands for.
    pub fn from_lower(l: &str) -> (r: Option<BackendType>)
        ensures
            r == Self::spec_named(l@),
    {
        if same_text(l, "mock") {
            Some(BackendType::Mock)
        } else if same_text(l, "ollama") {
            Some(BackendType::Ollama)
        } else if same_text(l, "vllm") {
            Some(BackendType::VLlm)
        } else if same_text(l, "mlx") {
            Some(BackendType::Mlx)
        } else {
            None
        }
    }

    /// Lower-case name of the backend.
    pub fn name(&self) -> (r: &'static str)
        ensures
            self is Mock ==> r@ == "mock"@,
            self is Ollama ==> r@ == "ollama"@,
            self is VLlm ==> r@ == "vllm"@,
            self is Mlx ==> r@ == "mlx"@,
    {
        match self {
            BackendType::Mock => "mock",
            BackendType::Ollama => "ollama",
            BackendType::VLlm => "vllm",
            BackendType::Mlx => "mlx",
        }
    }
}

/// Shell dialects a command can be written for.
#[derive(Debug, Clone, Copy, PartialEq, Eq, Structural, Hash)]
pub enum ShellType {
    Bash,
    Zsh,
    Fish,
    Sh,
    PowerShell,
    Cmd,
    Unknown,
}

impl ShellType {
    /// The shell a lower-case name stands for; other names mean `Unknown`.
    pub open spec fn spec_named(s: Seq<char>) -> ShellType {
        if s == "bash"@ {
            ShellType::Bash
        } else if s == "zsh"@ {
            ShellType::Zsh
        } else if s == "fish"@ {
            ShellType::Fish
        } else if s == "sh"@ {
            ShellType::Sh
        } else if s == "powershell"@ || s == "pwsh"@ {
            ShellType::PowerShell
        } else if s == "cmd"@ {
            ShellType::Cmd
        } else {
            ShellType::Unknown
        }
    }

    /// Parses a shell name, ignoring case; an unrecognised name gives `Unknown`.
    pub fn parse(s: &str) -> (r: ShellType)
        ensures
            r == Self::spec_named(lower_of(s@)),
    {
        let l = lowercase(s);
        Self::from_lower(l.as_str())
    }

    /// The shell an already lower-cased name stands for.
    pub fn from_lower(t: &str) -> (r: ShellType)
        ensures
            r == Self::spec_named(t@),
    {
        if same_text(t, "bash") {
            ShellType::Bash
        } else if same_text(t, "zsh") {
            ShellType::Zsh
        } else if same_text(t, "fish") {
            ShellType::Fish
        } else if same_text(t, "sh") {
            ShellType::Sh
        } else if same_text(t, "powershell") || same_text(t, "pwsh") {
            ShellType::PowerShell
        } else if same_text(t, "cmd") {
            ShellType::Cmd
        } else {
            ShellType::Unknown
        }
    }

    /// The shell a `SHELL` environment value names: the first of bash, zsh
    /// and fish it mentions, else `Sh` for a path ending in `/sh`, else
    /// `Unknown`; `Unknown` as well when the variable is unset.
    pub open spec fn spec_from_shell_var(value: Option<Seq<char>>) -> ShellType {
        match value {
            None => ShellType::Unknown,
            Some(v) => {
                let b = encode_utf8(v);
                if has_sub(b, encode_utf8("bash"@)) {
                    ShellType::Bash
                } else if has_sub(b, encode_utf8("zsh"@)) {
                    ShellType::Zsh
                } else if has_sub(b, encode_utf8("fish"@)) {
                    ShellType::Fish
                } else if ends_with(b, encode_utf8("/sh"@)) {
                    ShellType::Sh
                } else {
                    ShellType::Unknown
                }
            },
        }
    }

    /// Detect the shell from the value of the `SHELL` environment variable.
    pub fn detect(shell_var: Option<&str>) -> (r: ShellType)
        ensures
            r == Self::spec_from_shell_var(opt_view(shell_var)),
    {
        match shell_var {
            None => ShellType::Unknown,
            Some(v) => {
                let b = v.as_bytes();
                if contains_bytes(b, "bash".as_bytes()) {
                    ShellType::Bash
                } else if contains_bytes(b, "zsh".as_bytes()) {
                    ShellType::Zsh
                } else if contains_bytes(b, "fish".as_bytes()) {
                    ShellType::Fish
                } else if ends_with_bytes(b, "/sh".as_bytes()) {
                    ShellType::Sh
                } else {
                    ShellType::Unknown
                }
            },
        }
    }

    /// Lower-case name of the shell.
    pub open spec fn spec_name(self) -> Seq<char> {
        match self {
            ShellType::Bash => "bash"@,
            ShellType::Zsh => "zsh"@,
            ShellType::Fish => "fish"@,
            ShellType::Sh => "sh"@,
            ShellType::PowerShell => "powershell"@,
            ShellType::Cmd => "cmd"@,
            ShellType::Unknown => "unknown"@,
        }
    }

    /// Lower-case name of the shell.
    pub fn name(&self) -> (r: &'static str)
        ensures
            r@ == self.spec_name(),
    {
        match self {
            ShellType::Bash => "bash",
            ShellType::Zsh => "zsh",
            ShellType::Fish => "fish",
            ShellType::Sh => "sh",
            ShellType::PowerShell => "powershell",
            ShellType::Cmd => "cmd",
            ShellType::Unknown => "unknown",
        }
    }

    pub open spec fn spec_is_posix(self) -> bool {
        self is Bash || self is Zsh || self is Fish || self is Sh
    }

    /// Check if this is a POSIX-compatible shell.
    pub fn is_posix(&self) -> (r: bool)
        ensures
            r == self.spec_is_posix(),
    {
        matches!(self, ShellType::Bash | ShellType::Zsh | ShellType::Fish | ShellType::Sh)
    }

    /// Check if this is a Windows shell.
    pub fn is_windows(&self) -> (r: bool)
        ensures
            r == (self is PowerShell || self is Cmd),
    {
        matches!(self, ShellType::PowerShell | ShellType::Cmd)
    }
}

/// Operating system families the assistant runs on.
#[derive(Debug, Clone, Copy, PartialEq, Eq, Structural, Hash)]
pub enum Platform {
    Linux,
    MacOS,
    Windows,
}

impl Platform {
    /// The platform an operating-system name (as Rust's target names it) stands for.
    pub open spec fn spec_of_os(os: Seq<char>) -> Option<Platform> {
        if os == "linux"@ {
            Some(Platform::Linux)
        } else if os == "macos"@ {
            Some(Platform::MacOS)
        } else if os == "windows"@ {
            Some(Platform::Windows)
        } else {
            None
        }
    }

    /// The platform for an operating-system name such as `"linux"`; `None`
    /// for systems the assistant does not support.
    pub fn detect(os: &str) -> (r: Option<Platform>)
        ensures
            r == Self::spec_of_os(os@),
    {
        if same_text(os, "linux") {
            Some(Platform::Linux)
        } else if same_text(os, "macos") {
            Some(Platform::MacOS)
        } else if same_text(os, "windows") {
            Some(Platform::Windows)
        } else {
            None
        }
    }

    /// Check if platform is POSIX-compliant.
    pub fn is_posix(&self) -> (r: bool)
        ensures
            r == (self is Linux || self is MacOS),
    {
        matches!(self, Platform::Linux | Platform::MacOS)
    }

    /// Display name of the platform.
    pub open spec fn spec_name(self) -> Seq<char> {
        match self {
            Platform::Linux => "Linux"@,
            Platform::MacOS => "macOS"@,
            Platform::Windows => "Windows"@,
        }
    }

    /// Display name of the platform.
    pub fn name(&self) -> (r: &'static str)
        ensures
            r@ == self.spec_name(),
    {
        match self {
            Platform::Linux => "Linux",
            Platform::MacOS => "macOS",
            Platform::Windows => "Windows",
        }
    }
}

/// Log severity, ordered `Debug < Info < Warn < Error`.
#[derive(Debug, Clone, Copy, PartialEq, Eq, Structural, PartialOrd, Ord, Hash)]
pub enum LogLevel {
    Debug,
    Info,
    Warn,
    Error,
}

impl LogLevel {
    /// The level a lower-case name stands for.
    pub open spec fn spec_named(s: Seq<char>) -> Option<LogLevel> {
        if s == "debug"@ {
            Some(LogLevel::Debug)
        } else if s == "info"@ {
            Some(LogLevel::Info)
        } else if s == "warn"@ || s == "warning"@ {
            Some(LogLevel::Warn)
        } else if s == "error"@ || s == "err"@ {
            Some(LogLevel::Error)
        } else {
            None
        }
    }

    /// Parses a level name, ignoring case.
    pub fn parse(s: &str) -> (r: Result<LogLevel, String>)
        ensures
            r matches Ok(l) ==> Self::spec_named(lower_of(s@)) == Some(l),
            r is Err ==> Self::spec_named(lower_of(s@)) is None,
            r matches Err(msg) ==> msg@ == "Invalid log level '"@ + s@
                + "'. Valid options: debug, info, warn, error"@,
    {
        let l = lowercase(s);
        match Self::from_lower(l.as_str()) {
            Some(level) => Ok(level),
            None => {
                let mut msg = String::new();
                msg.append("Invalid log level '");
                msg.append(s);
                msg.append("'. Valid options: debug, info, warn, error");
                Err(msg)
            },
        }
    }

    /// The level an already lower-cased name stands for.
    pub fn from_lower(t: &str) -> (r: Option<LogLevel>)
        ensures
            r == Self::spec_named(t@),
    {
        if same_text(t, "debug") {
            Some(LogLevel::Debug)
        } else if same_text(t, "info") {
            Some(LogLevel::Info)
        } else if same_text(t, "warn") || same_text(t, "warning") {
            Some(LogLevel::Warn)
        } else if same_text(t, "error") || same_text(t, "err") {
            Some(LogLevel::Error)
        } else {
            None
        }
    }

    /// The corresponding `tracing` level.
    pub fn to_tracing_level(&self) -> tracing::Level {
        match self {
            LogLevel::Debug => tracing_debug(),
            LogLevel::Info => tracing_info(),
            LogLevel::Warn => tracing_warn(),
            LogLevel::Error => tracing_error(),
        }
    }

    /// Upper-case name of the level.
    pub fn name(&self) -> (r: &'static str)
        ensures
            self is Debug ==> r@ == "DEBUG"@,
            self is Info ==> r@ == "INFO"@,
            self is Warn ==> r@ == "WARN"@,
            self is Error ==> r@ == "ERROR"@,
    {
        match self {
            LogLevel::Debug => "DEBUG",
            LogLevel::Info => "INFO",
            LogLevel::Warn => "WARN",
            LogLevel::Error => "ERROR",
        }
    }
}

/// Request for command generation from natural language.
#[derive(Debug, Clone)]
pub struct CommandRequest {
    /// Natural language description of desired command.
    pub input: String,
    /// Target shell type for command generation.
    pub shell: ShellType,
    /// User's safety preference level.
    pub safety_level: SafetyLevel,
    /// Optional additional context (current directory, environment info).
    pub context: Option<String>,
    /// Optional backend preference.
    pub backend_preference: Option<String>,
}

impl CommandRequest {
    /// A request for `input` with surrounding white space removed, at the
    /// default safety level.
    pub fn new(input: &str, shell: ShellType) -> (r: CommandRequest)
        ensures
            r.input@ == trim_of(input@),
            r.shell == shell,
            r.safety_level == SafetyLevel::Moderate,
            r.context is None,
            r.backend_preference is None,
    {
        CommandRequest {
            input: trimmed(input),
            shell,
            safety_level: SafetyLevel::Moderate,
            context: None,
            backend_preference: None,
        }
    }

    /// Set the safety level (builder pattern).
    pub fn with_safety(self, level: SafetyLevel) -> (r: CommandRequest)
        ensures
            r == (CommandRequest { safety_level: level, ..self }),
    {
        CommandRequest { safety_level: level, ..self }
    }

    /// Set the context (builder pattern).
    pub fn with_context(self, ctx: &str) -> (r: CommandRequest)
        ensures
            r.input == self.input,
            r.shell == self.shell,
            r.safety_level == self.safety_level,
            r.backend_preference == self.backend_preference,
            r.context matches Some(c) && c@ == ctx@,
    {
        CommandRequest { context: Some(ctx.to_owned()), ..self }
    }

    /// Set the backend preference (builder pattern).
    pub fn with_backend(self, backend: &str) -> (r: CommandRequest)
        ensures
            r.input == self.input,
            r.shell == self.shell,
            r.safety_level == self.safety_level,
            r.context == self.context,
            r.backend_preference matches Some(b) && b@ == backend@,
    {
        CommandRequest { backend_preference: Some(backend.to_owned()), ..self }
    }

    /// Validate that the request is well-formed: the input is not empty.
    pub fn validate(&self) -> (r: Result<(), String>)
        ensures
            r is Ok <==> self.input@.len() > 0,
            r matches Err(m) ==> m@ == "Input cannot be empty"@,
    {
        if self.input.as_str().is_empty() {
            return Err("Input cannot be empty".to_owned());
        }
        Ok(())
    }
}

/// Backend metadata for diagnostics and selection.
#[derive(Debug, Clone)]
pub struct BackendInfo {
    /// Type of backend.
    pub backend_type: BackendType,
    /// Name of the model being used.
    pub model_name: String,
    /// Whether this backend supports streaming responses.
    pub supports_streaming: bool,
    /// Maximum number of tokens the model can generate.
    pub max_tokens: u32,
    /// Typical latency in milliseconds.
    pub typical_latency_ms: u64,
    /// Memory usage in megabytes.
    pub memory_usage_mb: u64,
    /// Backend version string.
    pub version: String,
}

impl BackendInfo {
    /// Validate that backend info has reasonable values; the first failed
    /// check, in the order model name, token limit, version, is reported.
    pub fn validate(&self) -> (r: Result<(), String>)
        ensures
            r is Ok <==> self.model_name@.len() > 0 && self.max_tokens > 0 && self.version@.len() > 0,
            r matches Err(m) ==> (self.model_name@.len() == 0 ==> m@ == "Model name cannot be empty"@),
            r matches Err(m) ==> (self.model_name@.len() > 0 && self.max_tokens == 0 ==> m@
                == "Max tokens must be positive"@),
            r matches Err(m) ==> (self.model_name@.len() > 0 && self.max_tokens > 0 ==> m@
                == "Version cannot be empty"@),
    {
        if self.model_name.as_str().is_empty() {
            return Err("Model name cannot be empty".to_owned());
        }
        if self.max_tokens == 0 {
            return Err("Max tokens must be positive".to_owned());
        }
        if self.version.as_str().is_empty() {
            return Err("Version cannot be empty".to_owned());
        }
        Ok(())
    }
}

/// User configuration with preferences.
#[derive(Debug, Clone, PartialEq, Eq)]
pub struct UserConfiguration {
    pub default_shell: Option<ShellType>,
    pub safety_level: SafetyLevel,
    pub default_model: Option<String>,
    pub log_level: LogLevel,
    pub cache_max_size_gb: u64,
    pub log_rotation_days: u32,
}

impl UserConfiguration {
    /// The defaults: auto-detected shell, Moderate safety, Info logging,
    /// a 10 GB cache and weekly log rotation.
    pub open spec fn spec_is_default(c: UserConfiguration) -> bool {
        &&& c.default_shell is None
        &&& c.safety_level == SafetyLevel::Moderate
        &&& c.default_model is None
        &&& c.log_level == LogLevel::Info
        &&& c.cache_max_size_gb == 10
        &&& c.log_rotation_days == 7
    }

    /// The values lie in their ranges.
    pub open spec fn spec_valid(&self) -> bool {
        1 <= self.cache_max_size_gb <= 1000 && 1 <= self.log_rotation_days <= 365
    }

    /// Create a builder for UserConfiguration.
    pub fn builder() -> (r: UserConfigurationBuilder)
        ensures
            UserConfiguration::spec_is_default(r.spec_pending()),
    {
        UserConfigurationBuilder::new()
    }

    /// Validate configuration values: the cache size first, then the
    /// rotation period.
    pub fn validate(&self) -> (r: Result<(), String>)
        ensures
            r is Ok <==> self.spec_valid(),
            r matches Err(m) ==> (!(1 <= self.cache_max_size_gb <= 1000) ==> m@
                == "cache_max_size_gb must be between 1 and 1000, got "@ + decimal(
                self.cache_max_size_gb as nat,
            )),
            r matches Err(m) ==> ((1 <= self.cache_max_size_gb <= 1000) ==> m@
                == "log_rotation_days must be between 1 and 365, got "@ + decimal(
                self.log_rotation_days as nat,
            )),
    {
        if self.cache_max_size_gb < 1 || self.cache_max_size_gb > 1000 {
            let mut m = String::new();
            m.append("cache_max_size_gb must be between 1 and 1000, got ");
            m.append(u64_text(self.cache_max_size_gb).as_str());
            return Err(m);
        }
        if self.log_rotation_days < 1 || self.log_rotation_days > 365 {
            let mut m = String::new();
            m.append("log_rotation_days must be between 1 and 365, got ");
            m.append(u64_text(self.log_rotation_days as u64).as_str());
            return Err(m);
        }
        Ok(())
    }
}

impl Default for UserConfiguration {
    fn default() -> (r: UserConfiguration)
        ensures
            UserConfiguration::spec_is_default(r),
    {
        UserConfiguration {
            default_shell: None,
            safety_level: SafetyLevel::Moderate,
            default_model: None,
            log_level: LogLevel::Info,
            cache_max_size_gb: 10,
            log_rotation_days: 7,
        }
    }
}

/// Builder for UserConfiguration.
#[derive(Debug)]
pub struct UserConfigurationBuilder {
    default_shell: Option<ShellType>,
    safety_level: SafetyLevel,
    default_model: Option<String>,
    log_level: LogLevel,
    cache_max_size_gb: u64,
    log_rotation_days: u32,
}

impl UserConfigurationBuilder {
    /// The configuration the builder would produce.
    pub closed spec fn spec_pending(&self) -> UserConfiguration {
        UserConfiguration {
            default_shell: self.default_shell,
            safety_level: self.safety_level,
            default_model: self.default_model,
            log_level: self.log_level,
            cache_max_size_gb: self.cache_max_size_gb,
            log_rotation_days: self.log_rotation_days,
        }
    }

    /// A builder holding the default configuration.
    pub fn new() -> (r: UserConfigurationBuilder)
        ensures
            UserConfiguration::spec_is_default(r.spec_pending()),
    {
        let defaults = UserConfiguration::default();
        UserConfigurationBuilder {
            default_shell: defaults.default_shell,
            safety_level: defaults.safety_level,
            default_model: defaults.default_model,
            log_level: defaults.log_level,
            cache_max_size_gb: defaults.cache_max_size_gb,
            log_rotation_days: defaults.log_rotation_days,
        }
    }

    pub fn default_shell(self, shell: ShellType) -> (r: UserConfigurationBuilder)
        ensures
            r.spec_pending() == (UserConfiguration { default_shell: Some(shell), ..self.spec_pending() }),
    {
        UserConfigurationBuilder { default_shell: Some(shell), ..self }
    }

    pub fn safety_level(self, level: SafetyLevel) -> (r: UserConfigurationBuilder)
        ensures
            r.spec_pending() == (UserConfiguration { safety_level: level, ..self.spec_pending() }),
    {
        UserConfigurationBuilder { safety_level: level, ..self }
    }

    pub fn default_model(self, model: &str) -> (r: UserConfigurationBuilder)
        ensures
            r.spec_pending().default_model matches Some(m) && m@ == model@,
            r.spec_pending().default_shell == self.spec_pending().default_shell,
            r.spec_pending().safety_level == self.spec_pending().safety_level,
            r.spec_pending().log_level == self.spec_pending().log_level,
            r.spec_pending().cache_max_size_gb == self.spec_pending().cache_max_size_gb,
            r.spec_pending().log_rotation_days == self.spec_pending().log_rotation_days,
    {
        UserConfigurationBuilder { default_model: Some(model.to_owned()), ..self }
    }

    pub fn log_level(self, level: LogLevel) -> (r: UserConfigurationBuilder)
        ensures
            r.spec_pending() == (UserConfiguration { log_level: level, ..self.spec_pending() }),
    {
        UserConfigurationBuilder { log_level: level, ..self }
    }

    pub fn cache_max_size_gb(self, size: u64) -> (r: UserConfigurationBuilder)
        ensures
            r.spec_pending() == (UserConfiguration { cache_max_size_gb: size, ..self.spec_pending() }),
    {
        UserConfigurationBuilder { cache_max_size_gb: size, ..self }
    }

    pub fn log_rotation_days(self, days: u32) -> (r: UserConfigurationBuilder)
        ensures
            r.spec_pending() == (UserConfiguration { log_rotation_days: days, ..self.spec_pending() }),
    {
        UserConfigurationBuilder { log_rotation_days: days, ..self }
    }

    /// The configuration, if its values are valid.
    pub fn build(self) -> (r: Result<UserConfiguration, String>)
        ensures
            r is Ok <==> self.spec_pending().spec_valid(),
            r matches Ok(c) ==> c == self.spec_pending(),
    {
        let config = UserConfiguration {
            default_shell: self.default_shell,
            safety_level: self.safety_level,
            default_model: self.default_model,
            log_level: self.log_level,
            cache_max_size_gb: self.cache_max_size_gb,
            log_rotation_days: self.log_rotation_days,
        };
        match config.validate() {
            Ok(()) => Ok(config),
            Err(m) => Err(m),
        }
    }
}

impl Default for UserConfigurationBuilder {
    fn default() -> (r: UserConfigurationBuilder)
        ensures
            UserConfiguration::spec_is_default(r.spec_pending()),
    {
        UserConfigurationBuilder::new()
    }
}

/// The sections and keys a configuration file may hold.
#[derive(Debug)]
pub struct ConfigSchema {
    pub known_sections: Vec<String>,
    /// Known keys, each with a description of its type; keys are unique.
    pub known_keys: Vec<(String, String)>,
    /// Deprecated keys, each with the key that replaces it; keys are unique.
    pub deprecated_keys: Vec<(String, String)>,
}

/// The views of a list of key/value pairs.
pub open spec fn pair_views(v: Seq<(String, String)>) -> Seq<(Seq<char>, Seq<char>)> {
    v.map_values(|p: (String, String)| (p.0@, p.1@))
}

impl ConfigSchema {
    /// The sections of a configuration file.
    pub open spec fn spec_sections() -> Seq<Seq<char>> {
        seq!["general"@, "logging"@, "cache"@]
    }

    /// The known keys and their types.
    pub open spec fn spec_keys() -> Seq<(Seq<char>, Seq<char>)> {
        seq![
            ("general.safety_level"@, "SafetyLevel enum"@),
            ("general.default_shell"@, "ShellType enum"@),
            ("general.default_model"@, "String"@),
            ("logging.log_level"@, "LogLevel enum"@),
            ("logging.log_rotation_days"@, "u32"@),
            ("cache.max_size_gb"@, "u64"@),
        ]
    }

    /// The schema of the configuration file: three sections, six keys, and
    /// no deprecated keys.
    pub fn new() -> (r: ConfigSchema)
        ensures
            crate::text::views(r.known_sections@) == Self::spec_sections(),
            pair_views(r.known_keys@) == Self::spec_keys(),
            r.deprecated_keys@.len() == 0,
    {
        let mut keys: Vec<(String, String)> = Vec::new();
        keys.push(("general.safety_level".to_owned(), "SafetyLevel enum".to_owned()));
        keys.push(("general.default_shell".to_owned(), "ShellType enum".to_owned()));
        keys.push(("general.default_model".to_owned(), "String".to_owned()));
        keys.push(("logging.log_level".to_owned(), "LogLevel enum".to_owned()));
        keys.push(("logging.log_rotation_days".to_owned(), "u32".to_owned()));
        keys.push(("cache.max_size_gb".to_owned(), "u64".to_owned()));
        let mut sections: Vec<String> = Vec::new();
        sections.push("general".to_owned());
        sections.push("logging".to_owned());
        sections.push("cache".to_owned());
        assert(pair_views(keys@) =~= Self::spec_keys());
        assert(crate::text::views(sections@) =~= Self::spec_sections());
        ConfigSchema { known_sections: sections, known_keys: keys, deprecated_keys: Vec::new() }
    }

    /// Checks a configuration against the schema. Typed fields leave
    /// nothing to check here: value ranges are checked by
    /// [`UserConfiguration::validate`].
    pub fn validate(&self, config: &UserConfiguration) -> (r: Result<(), String>)
        ensures
            r is Ok,
    {
        Ok(())
    }
}

impl Default for ConfigSchema {
    fn default() -> (r: ConfigSchema)
        ensures
            crate::text::views(r.known_sections@) == Self::spec_sections(),
            pair_views(r.known_keys@) == Self::spec_keys(),
            r.deprecated_keys@.len() == 0,
    {
        ConfigSchema::new()
    }
}

impl std::str::FromStr for SafetyLevel {
    type Err = String;

    fn from_str(s: &str) -> Result<SafetyLevel, String> {
        SafetyLevel::parse(s)
    }
}

impl std::str::FromStr for BackendType {
    type Err = String;

    fn from_str(s: &str) -> Result<BackendType, String> {
        BackendType::parse(s)
    }
}

impl std::str::FromStr for LogLevel {
    type Err = String;

    fn from_str(s: &str) -> Result<LogLevel, String> {
        LogLevel::parse(s)
    }
}

impl std::str::FromStr for ShellType {
    type Err = String;

    fn from_str(s: &str) -> Result<ShellType, String> {
        Ok(ShellType::parse(s))
    }
}

} // verus!
