use cmdai::execution::{filter_env_vars, prompt_context, PlatformDetector, ShellDetector};
use cmdai::models::{Platform, ShellType};

#[test]
fn test_platform_detector() {
    let platform = PlatformDetector::detect("linux");
    assert!(matches!(platform, Some(Platform::Linux | Platform::MacOS | Platform::Windows)));
}

#[test]
fn test_shell_detector() {
    let shell = ShellDetector::new().detect(Some("/bin/bash"));
    assert!(matches!(
        shell,
        ShellType::Bash | ShellType::Zsh | ShellType::Fish | ShellType::Sh | ShellType::PowerShell | ShellType::Cmd | ShellType::Unknown
    ));
}

#[test]
fn test_shell_detector_with_fallback() {
    let shell = ShellDetector::detect_with_fallback(ShellType::Bash, None);
    assert!(!matches!(shell, ShellType::Unknown));
}

#[test]
fn test_platform_checks() {
    assert!(PlatformDetector::is_linux("linux") || PlatformDetector::is_macos("linux") || PlatformDetector::is_windows("linux"));
}

#[test]
fn test_shell_detector_applies_override() {
    let detector = ShellDetector::new();
    let overridden = detector.with_override(Some(ShellType::Zsh), None);
    assert_eq!(overridden, ShellType::Zsh, "Should apply user override");
    let auto_detected = detector.with_override(None, None);
    assert!(matches!(
        auto_detected,
        ShellType::Bash | ShellType::Zsh | ShellType::Fish | ShellType::PowerShell | ShellType::Cmd | ShellType::Sh
    ));
}

#[test]
fn test_platform_detector_returns_correct_platform() {
    let platform = PlatformDetector::detect("linux");
    assert!(matches!(platform, Some(Platform::Linux | Platform::MacOS | Platform::Windows)));
    assert_eq!(platform, Some(Platform::Linux));
    assert_eq!(PlatformDetector::detect("macos"), Some(Platform::MacOS));
    assert_eq!(PlatformDetector::detect("windows"), Some(Platform::Windows));
    assert_eq!(PlatformDetector::detect("haiku"), None);
}

#[test]
fn test_platform_is_posix() {
    assert!(PlatformDetector::is_posix("linux"));
    assert!(PlatformDetector::is_posix("macos"));
    assert!(!PlatformDetector::is_posix("windows"));
}

#[test]
fn shell_variable_detection() {
    assert_eq!(ShellType::detect(Some("/usr/bin/bash")), ShellType::Bash);
    assert_eq!(ShellType::detect(Some("/bin/zsh")), ShellType::Zsh);
    assert_eq!(ShellType::detect(Some("/usr/local/bin/fish")), ShellType::Fish);
    assert_eq!(ShellType::detect(Some("/bin/sh")), ShellType::Sh);
    assert_eq!(ShellType::detect(Some("/bin/dash")), ShellType::Unknown);
    assert_eq!(ShellType::detect(None), ShellType::Unknown);
    let d = ShellDetector::new();
    assert_eq!(d.detect(Some("/bin/dash")), ShellType::Sh);
    assert_eq!(d.detect_from_env(Some("/bin/dash")), None);
    assert_eq!(d.detect_from_env(Some("/bin/zsh")), Some(ShellType::Zsh));
    assert!(ShellDetector::is_posix_shell(Some("/bin/bash")));
    assert!(!ShellDetector::is_posix_shell(None));
}

#[test]
fn sensitive_environment_variables_are_dropped() {
    let vars = vec![
        ("HOME".to_string(), "/home/u".to_string()),
        ("my_api_key".to_string(), "x".to_string()),
        ("GITHUB_TOKEN".to_string(), "t".to_string()),
        ("EMPTY".to_string(), "".to_string()),
        ("".to_string(), "v".to_string()),
        ("Auth_header".to_string(), "a".to_string()),
        ("PATH".to_string(), "/bin".to_string()),
    ];
    let kept = filter_env_vars(&vars);
    assert_eq!(
        kept,
        vec![("HOME".to_string(), "/home/u".to_string()), ("PATH".to_string(), "/bin".to_string())]
    );
}

#[test]
fn prompt_context_lists_the_environment() {
    let text = prompt_context("/home/u", ShellType::Zsh, Platform::MacOS, "alice", "box");
    assert_eq!(text, "Current directory: /home/u\nShell: zsh\nPlatform: macOS\nUser: alice@box");
}

#[test]
fn environment_value_takes_precedence_over_detection() {
    assert_eq!(ShellDetector::from_env_or_detect(Some("ZSH"), Some("/bin/bash")), ShellType::Zsh);
    assert_eq!(ShellDetector::from_env_or_detect(Some("csh"), Some("/bin/bash")), ShellType::Unknown);
    assert_eq!(ShellDetector::from_env_or_detect(None, Some("/bin/bash")), ShellType::Bash);
}

#[test]
fn test_shell_detector_uses_env_variable() {
    let detector = ShellDetector::new();
    let shell_path = "/usr/bin/zsh";
    let detected = detector.detect_from_env(Some(shell_path));
    if shell_path.contains("bash") {
        assert_eq!(detected, Some(ShellType::Bash));
    } else if shell_path.contains("zsh") {
        assert_eq!(detected, Some(ShellType::Zsh));
    } else if shell_path.contains("fish") {
        assert_eq!(detected, Some(ShellType::Fish));
    }
}

#[test]
fn test_shell_detector_handles_variants() {
    let detector = ShellDetector::new();
    let test_cases = vec![
        ("/bin/bash", ShellType::Bash),
        ("/usr/bin/bash", ShellType::Bash),
        ("bash", ShellType::Bash),
        ("/bin/zsh", ShellType::Zsh),
        ("/usr/bin/zsh", ShellType::Zsh),
        ("zsh", ShellType::Zsh),
        ("/usr/bin/fish", ShellType::Fish),
        ("fish", ShellType::Fish),
    ];
    for (shell_path, expected) in test_cases {
        let detected = detector.detect_from_env(Some(shell_path));
        assert_eq!(detected, Some(expected), "Failed to detect {:?} from path {}", expected, shell_path);
    }
}

#[test]
fn test_shell_detector_falls_back_to_sh() {
    let detector = ShellDetector::new();
    let detected = detector.detect(None);
    assert_eq!(detected, ShellType::Sh, "Should fallback to Sh when detection fails");
}

#[test]
fn test_sensitive_data_filtering_patterns() {
    let vars: Vec<(String, String)> = [
        ("MY_API_KEY", "secret"),
        ("AUTH_TOKEN", "token123"),
        ("PASSWORD", "pass"),
        ("SECRET_VALUE", "secret"),
        ("AWS_SECRET_ACCESS_KEY", "aws_secret"),
        ("NORMAL_VAR", "safe_value"),
        ("PATH", "/usr/bin"),
    ]
    .iter()
    .map(|(k, v)| (k.to_string(), v.to_string()))
    .collect();
    let kept = filter_env_vars(&vars);
    let has = |name: &str| kept.iter().any(|(k, _)| k == name);
    assert!(!has("MY_API_KEY"), "API_KEY should be filtered");
    assert!(!has("AUTH_TOKEN"), "TOKEN should be filtered");
    assert!(!has("PASSWORD"), "PASSWORD should be filtered");
    assert!(!has("SECRET_VALUE"), "SECRET should be filtered");
    assert!(!has("AWS_SECRET_ACCESS_KEY"), "AWS secret should be filtered");
    assert!(has("NORMAL_VAR") || has("PATH"), "Normal vars should be included");
}
