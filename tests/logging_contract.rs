use std::str::FromStr;

use cmdai::logging::{LogConfig, LogConfigBuilder, LogFormat, LogLevel, LogOutput, LogRotation};

#[test]
fn test_log_config_default() {
    let config = LogConfig::default();
    assert_eq!(config.log_level, LogLevel::Info);
    assert_eq!(config.format, LogFormat::Json);
    assert!(config.redaction_enabled);
}

#[test]
fn test_log_config_development() {
    let config = LogConfig::development();
    assert_eq!(config.log_level, LogLevel::Debug);
    assert_eq!(config.format, LogFormat::Pretty);
    assert_eq!(config.output, LogOutput::Stderr);
}

#[test]
fn test_log_config_production() {
    let config = LogConfig::production();
    assert_eq!(config.log_level, LogLevel::Info);
    assert_eq!(config.format, LogFormat::Json);
    assert!(config.rotation.is_some());
    if let Some(rotation) = config.rotation {
        assert_eq!(rotation.max_files, 7);
        assert_eq!(rotation.max_size_mb, 100);
    }
}

#[test]
fn test_log_config_builder() {
    let log_file = "/tmp/cmdai-test/test.log".to_string();
    let config = LogConfigBuilder::new()
        .log_level(LogLevel::Warn)
        .format(LogFormat::Pretty)
        .output(LogOutput::File(log_file.clone()))
        .rotation(LogRotation { max_files: 24, max_size_mb: 10 })
        .redaction_enabled(false)
        .build();
    assert_eq!(config.log_level, LogLevel::Warn);
    assert_eq!(config.format, LogFormat::Pretty);
    assert_eq!(config.output, LogOutput::File(log_file.clone()));
    assert!(config.rotation.is_some());
    if let Some(rotation) = config.rotation {
        assert_eq!(rotation.max_files, 24);
        assert_eq!(rotation.max_size_mb, 10);
    }
    assert!(!config.redaction_enabled);
}

#[test]
fn test_log_level_ordering() {
    assert!(LogLevel::Debug < LogLevel::Info);
    assert!(LogLevel::Info < LogLevel::Warn);
    assert!(LogLevel::Warn < LogLevel::Error);
}

#[test]
fn test_log_level_from_str() {
    assert_eq!(LogLevel::from_str("debug").unwrap(), LogLevel::Debug);
    assert_eq!(LogLevel::from_str("DEBUG").unwrap(), LogLevel::Debug);
    assert_eq!(LogLevel::from_str("Info").unwrap(), LogLevel::Info);
    assert_eq!(LogLevel::from_str("warn").unwrap(), LogLevel::Warn);
    assert_eq!(LogLevel::from_str("ERROR").unwrap(), LogLevel::Error);
    assert!(LogLevel::from_str("invalid").is_err());
}

#[test]
fn test_log_level_to_tracing_level() {
    assert_eq!(LogLevel::Debug.to_tracing_level(), tracing::Level::DEBUG);
    assert_eq!(LogLevel::Info.to_tracing_level(), tracing::Level::INFO);
    assert_eq!(LogLevel::Warn.to_tracing_level(), tracing::Level::WARN);
    assert_eq!(LogLevel::Error.to_tracing_level(), tracing::Level::ERROR);
}

#[test]
fn log_level_aliases_and_error_text() {
    assert_eq!(LogLevel::parse("warning"), Ok(LogLevel::Warn));
    assert_eq!(LogLevel::parse("ERR"), Ok(LogLevel::Error));
    assert_eq!(
        LogLevel::parse("loud"),
        Err("Invalid log level 'loud'. Valid options: debug, info, warn, error".to_string())
    );
    assert_eq!(LogLevel::Warn.name(), "WARN");
}

#[test]
fn operation_span_keeps_its_name() {
    let span = cmdai::logging::OperationSpan::new("generate");
    assert_eq!(span.name(), "generate");
}
