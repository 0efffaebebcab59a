use cmdai::config::{ConfigError, ConfigManager, UserConfiguration};
use cmdai::models::{ConfigSchema, LogLevel, SafetyLevel, ShellType};

#[test]
fn test_config_manager_new() {
    let result = ConfigManager::new();
    assert!(result.is_ok(), "ConfigManager creation should succeed");
    let config_manager = result.unwrap();
    let config_path = config_manager.config_path();
    assert!(config_path.contains("cmdai"), "Config path should contain cmdai");
}

#[test]
fn test_user_configuration_default() {
    let config = UserConfiguration::default();
    assert_eq!(config.safety_level, SafetyLevel::Moderate);
    assert_eq!(config.default_shell, None);
    assert_eq!(config.default_model, None);
    assert_eq!(config.log_level, LogLevel::Info);
    assert_eq!(config.cache_max_size_gb, 10);
    assert_eq!(config.log_rotation_days, 7);
}

#[test]
fn test_user_configuration_builder() {
    let config = UserConfiguration::builder()
        .safety_level(SafetyLevel::Strict)
        .default_shell(ShellType::Zsh)
        .default_model("custom-model")
        .log_level(LogLevel::Debug)
        .cache_max_size_gb(20)
        .log_rotation_days(14)
        .build();
    assert!(config.is_ok(), "Builder should succeed");
    let config = config.unwrap();
    assert_eq!(config.safety_level, SafetyLevel::Strict);
    assert_eq!(config.default_shell, Some(ShellType::Zsh));
    assert_eq!(config.default_model, Some("custom-model".to_string()));
    assert_eq!(config.log_level, LogLevel::Debug);
    assert_eq!(config.cache_max_size_gb, 20);
    assert_eq!(config.log_rotation_days, 14);
}

#[test]
fn test_config_path_resolution() {
    let config_manager = ConfigManager::new().unwrap();
    let path_str = config_manager.config_path();
    assert!(
        path_str.contains("config") || path_str.contains("Config") || path_str.contains("cmdai"),
        "Config path should be in standard config location: {}",
        path_str
    );
}

#[test]
fn test_merge_with_cli_args_prioritizes_cli() {
    let config_manager = ConfigManager::with_config_path("/tmp/cmdai-test/test.toml").unwrap();
    let config = UserConfiguration {
        safety_level: SafetyLevel::Moderate,
        default_shell: Some(ShellType::Bash),
        log_level: LogLevel::Info,
        ..UserConfiguration::default()
    };
    let merged = config_manager.merge_with_cli(config.clone(), Some("strict"), None, Some("debug")).unwrap();
    assert_eq!(merged.safety_level, SafetyLevel::Strict, "CLI safety should override config");
    assert_eq!(merged.default_shell, Some(ShellType::Bash), "Config shell should remain (no CLI override)");
    assert_eq!(merged.log_level, LogLevel::Debug, "CLI log level should override config");
}

#[test]
fn test_merge_uses_config_defaults() {
    let config_manager = ConfigManager::with_config_path("/tmp/cmdai-test/test.toml").unwrap();
    let config = UserConfiguration {
        safety_level: SafetyLevel::Strict,
        default_shell: Some(ShellType::Fish),
        ..UserConfiguration::default()
    };
    let merged = config_manager.merge_with_cli(config.clone(), None, None, None).unwrap();
    assert_eq!(merged, config, "Should use all config values when no CLI overrides");
}

#[test]
fn merge_rejects_unknown_level_names() {
    let m = ConfigManager::with_config_path("c.toml").unwrap();
    match m.merge_with_cli(UserConfiguration::default(), Some("reckless"), None, None) {
        Err(ConfigError::ValidationError(msg)) => assert_eq!(
            msg,
            "Invalid safety level 'reckless'. Valid values: strict, moderate, permissive"
        ),
        other => panic!("unexpected {:?}", other),
    }
    let shell = m.merge_with_cli(UserConfiguration::default(), None, Some("PWSH"), None).unwrap();
    assert_eq!(shell.default_shell, Some(ShellType::PowerShell));
    let odd = m.merge_with_cli(UserConfiguration::default(), None, Some("tcsh"), None).unwrap();
    assert_eq!(odd.default_shell, Some(ShellType::Unknown));
}

#[test]
fn configuration_ranges_are_checked() {
    let bad = UserConfiguration { cache_max_size_gb: 0, ..UserConfiguration::default() };
    assert_eq!(bad.validate(), Err("cache_max_size_gb must be between 1 and 1000, got 0".to_string()));
    let bad_days = UserConfiguration { log_rotation_days: 400, ..UserConfiguration::default() };
    assert_eq!(bad_days.validate(), Err("log_rotation_days must be between 1 and 365, got 400".to_string()));
    assert!(UserConfiguration::builder().cache_max_size_gb(1001).build().is_err());
    assert!(UserConfiguration::default().validate().is_ok());
}

#[test]
fn config_path_is_kept() {
    let m = ConfigManager::with_config_path("/etc/cmdai/config.toml").unwrap();
    assert_eq!(m.config_path(), "/etc/cmdai/config.toml");
    assert_eq!(m.config_path_string(), "/etc/cmdai/config.toml".to_string());
    assert!(ConfigManager::new().unwrap().config_path().ends_with("/cmdai/config.toml"));
}

#[test]
fn schema_lists_known_keys() {
    let schema = ConfigSchema::new();
    assert_eq!(schema.known_sections, vec!["general".to_string(), "logging".to_string(), "cache".to_string()]);
    assert_eq!(schema.known_keys.len(), 6);
    assert!(schema.deprecated_keys.is_empty());
    assert!(schema.validate(&UserConfiguration::default()).is_ok());
    let m = ConfigManager::with_config_path("c.toml").unwrap();
    let keys = vec![("general".to_string(), "safety_level".to_string())];
    assert!(m.schema_warnings(&keys).is_empty());
}

#[test]
fn environment_values_override_the_file() {
    let m = ConfigManager::with_config_path("c.toml").unwrap();
    let merged = m
        .merge_with_env(UserConfiguration::default(), Some("permissive"), Some("fish"), None, Some("llama"), Some("20"))
        .unwrap();
    assert_eq!(merged.safety_level, SafetyLevel::Permissive);
    assert_eq!(merged.default_shell, Some(ShellType::Fish));
    assert_eq!(merged.log_level, LogLevel::Info);
    assert_eq!(merged.default_model, Some("llama".to_string()));
    assert_eq!(merged.cache_max_size_gb, 20);
    match m.merge_with_env(UserConfiguration::default(), None, None, None, None, Some("lots")) {
        Err(ConfigError::ValidationError(msg)) => assert_eq!(msg, "Invalid cache size: lots"),
        other => panic!("unexpected {:?}", other),
    }
}
