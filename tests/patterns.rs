use cmdai::models::{RiskLevel, ShellType};
use cmdai::safety::{builtin_patterns, get_patterns_by_risk, get_patterns_for_shell, validate_patterns};

#[test]
fn test_patterns_compile() {
    assert!(validate_patterns().is_ok(), "All patterns should compile");
}

#[test]
fn test_pattern_count() {
    assert!(builtin_patterns().len() >= 30, "Should have at least 30 dangerous patterns");
}

#[test]
fn test_shell_specific_filtering() {
    let bash_patterns = get_patterns_for_shell(ShellType::Bash);
    let all_patterns = builtin_patterns().len();
    assert!(bash_patterns.len() <= all_patterns);
}

#[test]
fn test_risk_filtering() {
    let critical = get_patterns_by_risk(RiskLevel::Critical);
    let high = get_patterns_by_risk(RiskLevel::High);
    let moderate = get_patterns_by_risk(RiskLevel::Moderate);
    assert!(critical.len() <= high.len());
    assert!(high.len() <= moderate.len());
}

#[test]
fn test_critical_patterns_exist() {
    let critical = get_patterns_by_risk(RiskLevel::Critical);
    assert!(!critical.is_empty(), "Should have critical risk patterns");
}

#[test]
fn catalogue_spans_all_tiers_and_catches_rm_root() {
    let all = builtin_patterns();
    assert_eq!(all.len(), 51);
    for r in [RiskLevel::Safe, RiskLevel::Moderate, RiskLevel::High, RiskLevel::Critical] {
        assert!(all.iter().any(|p| p.risk_level == r));
    }
    let rm_root = regex::Regex::new(&all[1].pattern).unwrap();
    assert_eq!(all[1].risk_level, RiskLevel::Critical);
    assert!(rm_root.is_match("rm -rf /"));
}

#[test]
fn shell_filter_keeps_unscoped_and_matching_scope() {
    let all = builtin_patterns();
    let ps = get_patterns_for_shell(ShellType::PowerShell);
    let unscoped = all.iter().filter(|p| p.shell_specific.is_none()).count();
    let ps_only = all.iter().filter(|p| p.shell_specific == Some(ShellType::PowerShell)).count();
    assert_eq!(ps.len(), unscoped + ps_only);
    assert_eq!(ps_only, 3);
    let unknown = get_patterns_for_shell(ShellType::Unknown);
    assert_eq!(unknown.len(), unscoped);
    assert!(unknown.iter().all(|p| p.shell_specific.is_none()));
}

#[test]
fn risk_filter_is_inclusive() {
    let all = builtin_patterns();
    assert_eq!(get_patterns_by_risk(RiskLevel::Safe).len(), all.len());
    let crit = get_patterns_by_risk(RiskLevel::Critical);
    assert_eq!(crit.len(), all.iter().filter(|p| p.risk_level == RiskLevel::Critical).count());
    assert!(crit.iter().all(|p| p.risk_level == RiskLevel::Critical));
}

#[test]
fn compiled_catalogue_for_shell() {
    let compiled = cmdai::safety::get_compiled_patterns_for_shell(ShellType::PowerShell);
    let plain = get_patterns_for_shell(ShellType::PowerShell);
    assert_eq!(compiled.len(), plain.len());
    for (c, p) in compiled.iter().zip(plain.iter()) {
        assert_eq!(c.pattern(), p.pattern);
        assert_eq!(c.risk_level(), p.risk_level);
        assert_eq!(c.description(), p.description);
        assert_eq!(c.shell_specific(), p.shell_specific);
    }
}

#[test]
fn safe_tier_entry_matches_documentation_lookups() {
    let safe: Vec<_> = builtin_patterns().into_iter().filter(|p| p.risk_level == RiskLevel::Safe).collect();
    assert_eq!(safe.len(), 1);
    let re = regex::Regex::new(&safe[0].pattern).unwrap();
    assert!(re.is_match("man rm"));
    assert!(re.is_match("which rm"));
    assert!(!re.is_match("man rm; rm -rf /"));
    assert!(get_patterns_by_risk(RiskLevel::Safe).len() >= 30);
}
