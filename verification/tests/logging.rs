use quicssh_rs::logging::{create_log_config, LogLevel, LogTarget};

#[test]
fn test_create_log_config_with_stderr_default_level() {
    let config = create_log_config(None, None);
    // The default level should be Error
    assert_eq!(config.root().level(), LogLevel::Error);
}

#[test]
fn test_create_log_config_with_stderr_custom_level() {
    let config = create_log_config(None, Some(LogLevel::Debug));
    assert_eq!(config.root().level(), LogLevel::Debug);
}

#[test]
fn test_create_log_config_with_file() {
    let log_file = "test_quicssh.log".to_string();

    let config = create_log_config(Some(log_file.clone()), Some(LogLevel::Info));
    assert_eq!(config.root().level(), LogLevel::Info);
    assert_eq!(config.appender().target, LogTarget::File(log_file));
}

#[test]
fn test_create_log_config_appenders() {
    // Test that stderr config creates "stderr" appender
    let config = create_log_config(None, None);
    assert_eq!(config.root().appenders().len(), 1);
    assert!(config.root().appenders().contains(&"stderr".to_string()));
    assert_eq!(config.appender().name, "stderr");
    assert_eq!(config.appender().target, LogTarget::Stderr);

    // Test that file config creates "logfile" appender
    let log_file = "test_appender.log".to_string();
    let config = create_log_config(Some(log_file), None);
    assert_eq!(config.root().appenders().len(), 1);
    assert!(config.root().appenders().contains(&"logfile".to_string()));
    assert_eq!(config.appender().name, "logfile");
}
