use cmdai::models::{BackendInfo, BackendType, CommandRequest, RiskLevel, SafetyLevel, ShellType};

#[test]
fn policy_table() {
    let cases = [
        (SafetyLevel::Strict, [false, true, true, true], [false, false, true, true]),
        (SafetyLevel::Moderate, [false, false, true, true], [false, false, false, true]),
        (SafetyLevel::Permissive, [false, false, false, true], [false, false, false, false]),
    ];
    for (level, confirm, blocked) in cases {
        for (i, r) in [RiskLevel::Safe, RiskLevel::Moderate, RiskLevel::High, RiskLevel::Critical].iter().enumerate() {
            assert_eq!(r.requires_confirmation(level), confirm[i]);
            assert_eq!(r.is_blocked(level), blocked[i]);
        }
    }
}

#[test]
fn names_parse_ignoring_case() {
    assert_eq!(SafetyLevel::parse("STRICT"), Ok(SafetyLevel::Strict));
    assert!(SafetyLevel::parse("lax").is_err());
    assert_eq!(ShellType::parse("PowerShell"), ShellType::PowerShell);
    assert_eq!(ShellType::parse("pwsh"), ShellType::PowerShell);
    assert_eq!(ShellType::parse("ksh"), ShellType::Unknown);
    assert_eq!(BackendType::parse("vLLM"), Ok(BackendType::VLlm));
    assert_eq!(BackendType::parse("gpt"), Err("Unknown backend type: gpt".to_string()));
    assert_eq!(ShellType::Bash.name(), "bash");
    assert_eq!(RiskLevel::Critical.name(), "Critical");
    assert!(ShellType::Fish.is_posix() && !ShellType::Cmd.is_posix());
    assert!(ShellType::Cmd.is_windows());
}

#[test]
fn command_request_trims_and_builds() {
    let r = CommandRequest::new("  list all files \n", ShellType::Bash)
        .with_safety(SafetyLevel::Strict)
        .with_context("/home")
        .with_backend("mock");
    assert_eq!(r.input, "list all files");
    assert_eq!(r.safety_level, SafetyLevel::Strict);
    assert_eq!(r.context, Some("/home".to_string()));
    assert_eq!(r.backend_preference, Some("mock".to_string()));
    assert!(r.validate().is_ok());
    assert_eq!(CommandRequest::new("   ", ShellType::Sh).validate(), Err("Input cannot be empty".to_string()));
}

#[test]
fn backend_info_validation_order() {
    let mut info = BackendInfo {
        backend_type: BackendType::Mock,
        model_name: String::new(),
        supports_streaming: false,
        max_tokens: 0,
        typical_latency_ms: 50,
        memory_usage_mb: 100,
        version: String::new(),
    };
    assert_eq!(info.validate(), Err("Model name cannot be empty".to_string()));
    info.model_name = "m".to_string();
    assert_eq!(info.validate(), Err("Max tokens must be positive".to_string()));
    info.max_tokens = 10;
    assert_eq!(info.validate(), Err("Version cannot be empty".to_string()));
    info.version = "1".to_string();
    assert!(info.validate().is_ok());
}
