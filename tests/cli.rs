use cmdai::cli::{resolve_options, safety_decision, CliConfig, MockCommandGenerator, OutputFormat};
use cmdai::models::{CommandRequest, RiskLevel, SafetyLevel, ShellType};
use cmdai::safety::ValidationResult;

fn result(risk: RiskLevel, warnings: &[&str]) -> ValidationResult {
    ValidationResult {
        allowed: false,
        requires_confirmation: false,
        risk_level: risk,
        explanation: String::new(),
        warnings: warnings.iter().map(|w| w.to_string()).collect(),
        matched_patterns: Vec::new(),
        confidence_percent: 100,
    }
}

#[test]
fn options_fall_back_to_configuration() {
    let config = CliConfig::default();
    let r = resolve_options(&config, Some("tcsh"), Some("nope"), Some("JSON"));
    assert_eq!(r.shell, ShellType::Bash);
    assert_eq!(r.safety_level, SafetyLevel::Moderate);
    assert_eq!(r.output_format, OutputFormat::Json);
    assert_eq!(r.warnings, vec!["Invalid shell 'tcsh', using default bash".to_string()]);
    let ok = resolve_options(&config, Some("zsh"), Some("strict"), None);
    assert_eq!(ok.shell, ShellType::Zsh);
    assert_eq!(ok.safety_level, SafetyLevel::Strict);
    assert_eq!(ok.output_format, OutputFormat::Plain);
    assert!(ok.warnings.is_empty());
}

#[test]
fn decision_on_generated_command() {
    let critical = result(RiskLevel::Critical, &["Critical: a", "High: b"]);
    let d = safety_decision("rm -rf /", &critical, SafetyLevel::Moderate, false);
    assert_eq!(d.blocked_reason, Some("Command blocked due to Critical risk: Critical: a, High: b".to_string()));
    assert!(d.requires_confirmation);
    assert!(!d.executed);
    assert_eq!(d.confirmation_prompt, "Command 'rm -rf /' requires confirmation due to Critical risk. Proceed? (y/N)");
    let high = result(RiskLevel::High, &[]);
    let confirmed = safety_decision("x", &high, SafetyLevel::Moderate, true);
    assert!(confirmed.executed && confirmed.blocked_reason.is_none() && confirmed.confirmation_prompt.is_empty());
}

#[test]
fn mock_generator_choices() {
    let g = MockCommandGenerator::new();
    let list = CommandRequest::new("list files here", ShellType::PowerShell);
    assert_eq!(g.command_for(&list), "Get-ChildItem");
    assert_eq!(g.command_for(&CommandRequest::new("delete the system", ShellType::Bash)), "rm -rf /");
    assert_eq!(g.command_for(&CommandRequest::new("remove temp", ShellType::Bash)), "rm -rf /tmp/*");
    assert_eq!(g.command_for(&CommandRequest::new("hello", ShellType::Bash)), "echo 'hello'");
    assert_eq!(g.explanation_for(&list), "Command for: list files here");
    assert_eq!(OutputFormat::parse("xml"), Err("Unknown output format: xml".to_string()));
}
