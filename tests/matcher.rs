use cmdai::execution::mentions_sensitive_word;
use cmdai::matcher::{any_live_start, literal_open_before};
use cmdai::models::{LogLevel, RiskLevel, SafetyLevel, ShellType};
use cmdai::safety::{lower_keywords, verdict_for_matches, DangerPattern};

#[test]
fn quote_parity_decides_literal_context() {
    let text = b"echo 'rm -rf /' && rm x";
    assert!(literal_open_before(text, 6));
    assert!(!literal_open_before(text, 5));
    assert!(!literal_open_before(text, 19));
    assert!(literal_open_before(b"say \"hi", 7));
    assert!(!literal_open_before(b"a \\' b", 6));
    assert!(!literal_open_before(b"a \\\" b", 6));
}

#[test]
fn any_live_start_needs_one_live_offset() {
    let text = b"echo 'rm -rf /' && rm x";
    assert!(!any_live_start(text, &vec![6]));
    assert!(any_live_start(text, &vec![6, 19]));
    assert!(!any_live_start(text, &vec![]));
    assert!(!any_live_start(text, &vec![100]));
}

#[test]
fn keywords_from_lowercased_description() {
    assert_eq!(
        lower_keywords("recursive deletion of root"),
        vec!["deletion".to_string(), "recursive".to_string(), "privilege escalation".to_string()]
    );
    assert_eq!(lower_keywords("format disk over network"), vec!["network".to_string(), "disk".to_string()]);
    assert!(lower_keywords("Changing file ownership").is_empty());
}

#[test]
fn verdict_from_matches() {
    let matched = vec![
        DangerPattern::new("a", RiskLevel::Moderate, "Remove all cron jobs", None),
        DangerPattern::new("b", RiskLevel::High, "Delete files with elevated privileges", None),
    ];
    let v = verdict_for_matches(&matched, SafetyLevel::Moderate);
    assert_eq!(v.risk_level, RiskLevel::High);
    assert!(!v.allowed);
    assert!(v.requires_confirmation);
    assert_eq!(v.confidence_percent, 100);
    assert_eq!(
        v.warnings,
        vec!["Moderate: Remove all cron jobs".to_string(), "High: Delete files with elevated privileges".to_string()]
    );
    assert_eq!(
        v.explanation,
        "Detected 2 dangerous pattern(s) at High risk level (removal, deletion, privilege escalation)"
    );
    let none = verdict_for_matches(&vec![], SafetyLevel::Strict);
    assert!(none.allowed && !none.requires_confirmation);
    assert_eq!(none.explanation, "No dangerous patterns detected");
    assert_eq!(none.confidence_percent, 95);
    let permissive = verdict_for_matches(&matched, SafetyLevel::Permissive);
    assert!(permissive.allowed);
}

#[test]
fn lower_case_names() {
    assert_eq!(SafetyLevel::from_lower("STRICT"), None);
    assert_eq!(SafetyLevel::from_lower("strict"), Some(SafetyLevel::Strict));
    assert_eq!(ShellType::from_lower("pwsh"), ShellType::PowerShell);
    assert_eq!(LogLevel::from_lower("warning"), Some(LogLevel::Warn));
    assert!(mentions_sensitive_word("MY_PASSWORD_FILE"));
    assert!(!mentions_sensitive_word("my_password_file"));
}
