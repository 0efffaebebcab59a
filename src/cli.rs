//! The decisions of the command-line front end: option resolution, the
//! safety verdict on a generated command, and the mock generator's choice
//! of command. Argument parsing, generation and output are done by the
//! program around the library.

use vstd::prelude::*;
use vstd::string::*;
use vstd::utf8::encode_utf8;
use crate::models::{CommandRequest, SafetyLevel, ShellType};
use crate::safety::ValidationResult;
use crate::text::{contains_bytes, has_sub, join, join_strings, lower_of, lowercase, opt_view, same_text, views};

verus! {

/// Supported output formats.
#[derive(Debug, Clone, Copy, PartialEq, Eq, Structural)]
pub enum OutputFormat {
    Json,
    Yaml,
    Plain,
}

impl OutputFormat {
    /// The format a lower-case name stands for.
    pub open spec fn spec_named(s: Seq<char>) -> Option<OutputFormat> {
        if s == "json"@ {
            Some(OutputFormat::Json)
        } else if s == "yaml"@ {
            Some(OutputFormat::Yaml)
        } else if s == "plain"@ {
            Some(OutputFormat::Plain)
        } else {
            None
        }
    }

    /// Parses a format name, ignoring case.
    pub fn parse(s: &str) -> (r: Result<OutputFormat, String>)
        ensures
            r matches Ok(f) ==> Self::spec_named(lower_of(s@)) == Some(f),
            r is Err ==> Self::spec_named(lower_of(s@)) is None,
            r matches Err(m) ==> m@ == "Unknown output format: "@ + s@,
    {
        let l = lowercase(s);
        match Self::from_lower(l.as_str()) {
            Some(f) => Ok(f),
            None => {
                let mut m = String::new();
                m.append("Unknown output format: ");
                m.append(s);
                Err(m)
            },
        }
    }

    /// The format an already lower-cased name stands for.
    pub fn from_lower(t: &str) -> (r: Option<OutputFormat>)
        ensures
            r == Self::spec_named(t@),
    {
        if same_text(t, "json") {
            Some(OutputFormat::Json)
        } else if same_text(t, "yaml") {
            Some(OutputFormat::Yaml)
        } else if same_text(t, "plain") {
            Some(OutputFormat::Plain)
        } else {
            None
        }
    }
}

/// CLI configuration.
#[derive(Debug, Clone, Copy, PartialEq, Eq, Structural)]
pub struct CliConfig {
    pub default_shell: ShellType,
    pub safety_level: SafetyLevel,
    pub output_format: OutputFormat,
    pub auto_confirm: bool,
}

impl Default for CliConfig {
    fn default() -> (r: CliConfig)
        ensures
            r == (CliConfig {
                default_shell: ShellType::Bash,
                safety_level: SafetyLevel::Moderate,
                output_format: OutputFormat::Plain,
                auto_confirm: false,
            }),
    {
        CliConfig {
            default_shell: ShellType::Bash,
            safety_level: SafetyLevel::Moderate,
            output_format: OutputFormat::Plain,
            auto_confirm: false,
        }
    }
}

/// Timing information for performance tracking.
#[derive(Debug, Clone, Copy, PartialEq, Eq, Structural)]
pub struct TimingInfo {
    pub generation_time_ms: u64,
    pub execution_time_ms: u64,
    pub total_time_ms: u64,
}

impl Default for TimingInfo {
    fn default() -> (r: TimingInfo)
        ensures
            r == (TimingInfo { generation_time_ms: 0, execution_time_ms: 0, total_time_ms: 0 }),
    {
        TimingInfo { generation_time_ms: 0, execution_time_ms: 0, total_time_ms: 0 }
    }
}

/// Result of CLI command execution.
#[derive(Debug, Clone)]
pub struct CliResult {
    pub generated_command: String,
    pub explanation: String,
    pub executed: bool,
    pub blocked_reason: Option<String>,
    pub requires_confirmation: bool,
    pub confirmation_prompt: String,
    pub alternatives: Vec<String>,
    pub shell_used: ShellType,
    pub output_format: OutputFormat,
    pub debug_info: Option<String>,
    pub generation_details: String,
    pub timing_info: TimingInfo,
    pub warnings: Vec<String>,
    pub detected_context: String,
}

/// Parsed CLI arguments.
#[derive(Debug, Clone)]
pub struct ParsedArgs {
    pub prompt: Option<String>,
    pub shell: Option<String>,
    pub safety: Option<String>,
    pub output: Option<String>,
    pub confirm: bool,
    pub verbose: bool,
    pub config_file: Option<String>,
}

/// Types that can be read as CLI arguments.
pub trait IntoCliArgs {
    fn prompt(&self) -> Option<String>;

    fn shell(&self) -> Option<String>;

    fn safety(&self) -> Option<String>;

    fn output(&self) -> Option<String>;

    fn confirm(&self) -> bool;

    fn verbose(&self) -> bool;

    fn config_file(&self) -> Option<String>;
}

impl IntoCliArgs for ParsedArgs {
    fn prompt(&self) -> Option<String> {
        self.prompt.clone()
    }

    fn shell(&self) -> Option<String> {
        self.shell.clone()
    }

    fn safety(&self) -> Option<String> {
        self.safety.clone()
    }

    fn output(&self) -> Option<String> {
        self.output.clone()
    }

    fn confirm(&self) -> bool {
        self.confirm
    }

    fn verbose(&self) -> bool {
        self.verbose
    }

    fn config_file(&self) -> Option<String> {
        self.config_file.clone()
    }
}

/// Errors that can occur during CLI operations.
#[derive(Debug, Clone, PartialEq, Eq)]
pub enum CliError {
    NotImplemented,
    InvalidArgument { message: String },
    ConfigurationError { message: String },
    GenerationFailed { details: String },
    ExecutionFailed { details: String },
    UserCancelled,
    PermissionDenied { operation: String },
    Internal { message: String },
}

/// The shell, safety level and output format a run uses, with a warning for
/// each value that could not be used.
#[derive(Debug, Clone)]
pub struct ResolvedOptions {
    pub shell: ShellType,
    pub safety_level: SafetyLevel,
    pub output_format: OutputFormat,
    pub warnings: Vec<String>,
}

/// The shell a run uses: the named one when it is recognised, else the default.
pub open spec fn resolved_shell(config: CliConfig, shell: Option<Seq<char>>) -> ShellType {
    match shell {
        Some(s) => if ShellType::spec_named(lower_of(s)) is Unknown {
            config.default_shell
        } else {
            ShellType::spec_named(lower_of(s))
        },
        None => config.default_shell,
    }
}

/// Resolves the options of a run against the configuration: an
/// unrecognised shell falls back to the default with a warning; an
/// unrecognised safety level or output format falls back silently.
pub fn resolve_options(
    config: &CliConfig,
    shell: Option<&str>,
    safety: Option<&str>,
    output: Option<&str>,
) -> (r: ResolvedOptions)
    ensures
        r.shell == resolved_shell(*config, opt_view(shell)),
        r.safety_level == (match opt_view(safety) {
            Some(s) => match SafetyLevel::spec_named(lower_of(s)) {
                Some(l) => l,
                None => config.safety_level,
            },
            None => config.safety_level,
        }),
        r.output_format == (match opt_view(output) {
            Some(s) => match OutputFormat::spec_named(lower_of(s)) {
                Some(f) => f,
                None => config.output_format,
            },
            None => config.output_format,
        }),
        views(r.warnings@) == (match opt_view(shell) {
            Some(s) => if ShellType::spec_named(lower_of(s)) is Unknown {
                seq![
                    "Invalid shell '"@ + s + "', using default "@
                        + config.default_shell.spec_name(),
                ]
            } else {
                Seq::empty()
            },
            None => Seq::empty(),
        }),
{
    let mut warnings: Vec<String> = Vec::new();
    let chosen_shell = match shell {
        Some(s) => {
            let parsed = ShellType::parse(s);
            if matches!(parsed, ShellType::Unknown) {
                let mut w = String::new();
                w.append("Invalid shell '");
                w.append(s);
                w.append("', using default ");
                w.append(config.default_shell.name());
                warnings.push(w);
                assert(views(warnings@) =~= seq![w@]);
                config.default_shell
            } else {
                parsed
            }
        },
        None => config.default_shell,
    };
    let safety_level = match safety {
        Some(s) => match SafetyLevel::parse(s) {
            Ok(l) => l,
            Err(_) => config.safety_level,
        },
        None => config.safety_level,
    };
    let output_format = match output {
        Some(s) => match OutputFormat::parse(s) {
            Ok(f) => f,
            Err(_) => config.output_format,
        },
        None => config.output_format,
    };
    proof {
        if warnings@.len() == 0 {
            assert(views(warnings@) =~= Seq::<Seq<char>>::empty());
        }
    }
    ResolvedOptions { shell: chosen_shell, safety_level, output_format, warnings }
}

/// What the front end does with a generated command.
#[derive(Debug, Clone)]
pub struct SafetyDecision {
    pub requires_confirmation: bool,
    pub blocked_reason: Option<String>,
    pub executed: bool,
    pub confirmation_prompt: String,
}

/// Decides on a generated command from its validation under `level`:
/// confirmation is needed when the policy asks for it and the user has not
/// confirmed beforehand; a blocked command says why; only a command neither
/// blocked nor awaiting confirmation runs.
pub fn safety_decision(
    command: &str,
    validation: &ValidationResult,
    level: SafetyLevel,
    confirmed: bool,
) -> (r: SafetyDecision)
    ensures
        r.requires_confirmation == (validation.risk_level.spec_requires_confirmation(level)
            && !confirmed),
        r.blocked_reason is Some <==> validation.risk_level.spec_is_blocked(level),
        r.blocked_reason matches Some(b) ==> b@ == "Command blocked due to "@
            + validation.risk_level.spec_name() + " risk: "@ + join(
            views(validation.warnings@),
            ", "@,
        ),
        r.executed == (!validation.risk_level.spec_is_blocked(level) && !r.requires_confirmation),
        r.requires_confirmation ==> r.confirmation_prompt@ == "Command '"@ + command@
            + "' requires confirmation due to "@ + validation.risk_level.spec_name()
            + " risk. Proceed? (y/N)"@,
        !r.requires_confirmation ==> r.confirmation_prompt@.len() == 0,
{
    let requires_confirmation = validation.risk_level.requires_confirmation(level) && !confirmed;
    let blocked_reason = if validation.risk_level.is_blocked(level) {
        let mut b = String::new();
        b.append("Command blocked due to ");
        b.append(validation.risk_level.name());
        b.append(" risk: ");
        b.append(join_strings(&validation.warnings, ", ").as_str());
        Some(b)
    } else {
        None
    };
    let executed = blocked_reason.is_none() && !requires_confirmation;
    let confirmation_prompt = if requires_confirmation {
        let mut p = String::new();
        p.append("Command '");
        p.append(command);
        p.append("' requires confirmation due to ");
        p.append(validation.risk_level.name());
        p.append(" risk. Proceed? (y/N)");
        p
    } else {
        String::new()
    };
    SafetyDecision { requires_confirmation, blocked_reason, executed, confirmation_prompt }
}

/// A stand-in generator that picks a command from keywords of the request;
/// it can produce dangerous commands so the safety checks can be exercised.
#[derive(Debug)]
pub struct MockCommandGenerator;

/// The request input mentions `word`.
pub open spec fn input_mentions(input: Seq<char>, word: Seq<char>) -> bool {
    has_sub(encode_utf8(input), encode_utf8(word))
}

/// The command the mock generator gives for `input` in `shell`.
pub open spec fn mock_command(input: Seq<char>, shell: ShellType) -> Seq<char> {
    if input_mentions(input, "list"@) && input_mentions(input, "files"@) {
        match shell {
            ShellType::PowerShell => "Get-ChildItem"@,
            ShellType::Cmd => "dir"@,
            _ => "ls -la"@,
        }
    } else if input_mentions(input, "directory"@) || input_mentions(input, "pwd"@) {
        "pwd"@
    } else if input_mentions(input, "delete"@) && input_mentions(input, "system"@) {
        "rm -rf /"@
    } else if input_mentions(input, "delete"@) || input_mentions(input, "remove"@) {
        "rm -rf /tmp/*"@
    } else {
        "echo '"@ + input + "'"@
    }
}

impl MockCommandGenerator {
    pub fn new() -> (r: MockCommandGenerator) {
        MockCommandGenerator
    }

    /// The command generated for `request`.
    pub fn command_for(&self, request: &CommandRequest) -> (r: String)
        ensures
            r@ == mock_command(request.input@, request.shell),
    {
        let b = request.input.as_str().as_bytes();
        if contains_bytes(b, "list".as_bytes()) && contains_bytes(b, "files".as_bytes()) {
            match request.shell {
                ShellType::PowerShell => "Get-ChildItem".to_owned(),
                ShellType::Cmd => "dir".to_owned(),
                _ => "ls -la".to_owned(),
            }
        } else if contains_bytes(b, "directory".as_bytes()) || contains_bytes(b, "pwd".as_bytes()) {
            "pwd".to_owned()
        } else if contains_bytes(b, "delete".as_bytes()) && contains_bytes(b, "system".as_bytes()) {
            "rm -rf /".to_owned()
        } else if contains_bytes(b, "delete".as_bytes()) || contains_bytes(b, "remove".as_bytes()) {
            "rm -rf /tmp/*".to_owned()
        } else {
            let mut c = String::new();
            c.append("echo '");
            c.append(request.input.as_str());
            c.append("'");
            c
        }
    }

    /// The explanation given with a generated command.
    pub fn explanation_for(&self, request: &CommandRequest) -> (r: String)
        ensures
            r@ == "Command for: "@ + request.input@,
    {
        let mut e = String::new();
        e.append("Command for: ");
        e.append(request.input.as_str());
        e
    }
}

impl std::str::FromStr for OutputFormat {
    type Err = String;

    fn from_str(s: &str) -> Result<OutputFormat, String> {
        OutputFormat::parse(s)
    }
}

} // verus!
