use worker::config::{ConfigError, LoggingSettings, WorkerConfig};
use worker::executor::ExecutorConfig;
use worker::logging::{determine_level, parse_level, LogLevel};
use worker::mesh::MeshConfig;
use worker::session::{ConnectionState, CoordinatorClientConfig};

#[test]
fn config_test_default_config() {
    let config = WorkerConfig::default();
    assert_eq!(config.coordinator.url, "wss://coordinator.ai4all.network");
    assert_eq!(config.resources.max_gpu_percent, 75);
    assert_eq!(config.logging.level, "info");
}

#[test]
fn test_validation_invalid_url() {
    let mut config = WorkerConfig::default();
    config.coordinator.url = "http://invalid.com".to_string();
    assert!(config.validate().is_err());
    assert_eq!(config.validate(), Err(ConfigError::CoordinatorUrlScheme));
}

#[test]
fn empty_url_is_reported_first() {
    let mut config = WorkerConfig::default();
    config.coordinator.url = String::new();
    config.resources.max_gpu_percent = 200;
    assert_eq!(config.validate(), Err(ConfigError::EmptyCoordinatorUrl));
}

#[test]
fn test_validation_invalid_gpu_percent() {
    let mut config = WorkerConfig::default();
    config.resources.max_gpu_percent = 150;
    assert!(config.validate().is_err());
    assert_eq!(config.validate(), Err(ConfigError::GpuPercentOutOfRange));
}

#[test]
fn test_validation_invalid_log_level() {
    let mut config = WorkerConfig::default();
    config.logging.level = "invalid".to_string();
    assert!(config.validate().is_err());
    assert_eq!(config.validate(), Err(ConfigError::InvalidLogLevel));
}

#[test]
fn test_validation_valid_config() {
    let config = WorkerConfig::default();
    assert!(config.validate().is_ok());
    let mut upper = WorkerConfig::default();
    upper.logging.level = "WARN".to_string();
    upper.coordinator.url = "ws://localhost:8080".to_string();
    assert!(upper.validate().is_ok());
}

#[test]
fn test_path_expansion() {
    let mut config = WorkerConfig::default();
    config.storage.data_dir = "~/test/data".to_string();
    config.expand_paths();
    assert!(!config.storage.data_dir.starts_with("~"));
    assert!(config.storage.data_dir.ends_with("/test/data"));
}

#[test]
fn plain_paths_stay_unexpanded() {
    let mut config = WorkerConfig::default();
    config.storage.model_dir = "/srv/models".to_string();
    config.expand_paths();
    assert_eq!(config.model_dir(), "/srv/models");
}

#[test]
fn test_parse_level() {
    assert_eq!(parse_level("trace"), LogLevel::Trace);
    assert_eq!(parse_level("TRACE"), LogLevel::Trace);
    assert_eq!(parse_level("debug"), LogLevel::Debug);
    assert_eq!(parse_level("DEBUG"), LogLevel::Debug);
    assert_eq!(parse_level("info"), LogLevel::Info);
    assert_eq!(parse_level("INFO"), LogLevel::Info);
    assert_eq!(parse_level("warn"), LogLevel::Warn);
    assert_eq!(parse_level("warning"), LogLevel::Warn);
    assert_eq!(parse_level("error"), LogLevel::Error);
    assert_eq!(parse_level("invalid"), LogLevel::Info);
}

#[test]
fn test_determine_level_quiet() {
    let settings = LoggingSettings::default();
    assert_eq!(determine_level(&settings, 0, true), LogLevel::Error);
}

#[test]
fn test_determine_level_verbose() {
    let settings = LoggingSettings::default();
    assert_eq!(determine_level(&settings, 0, false), LogLevel::Info);
    assert_eq!(determine_level(&settings, 1, false), LogLevel::Debug);
    assert_eq!(determine_level(&settings, 2, false), LogLevel::Trace);
}

#[test]
fn test_determine_level_from_settings() {
    let mut settings = LoggingSettings::default();
    settings.level = "debug".to_string();
    assert_eq!(determine_level(&settings, 0, false), LogLevel::Debug);

    settings.level = "error".to_string();
    assert_eq!(determine_level(&settings, 0, false), LogLevel::Error);
}

#[test]
fn test_executor_config_default() {
    let config = ExecutorConfig::default();
    assert_eq!(config.max_concurrent_tasks, 4);
    assert_eq!(config.default_timeout_secs, 300);
}

#[test]
fn test_mesh_config_defaults() {
    let config = MeshConfig::default();
    assert_eq!(config.listen_port, 0);
    assert_eq!(config.max_peers, 32);
    assert_eq!(config.ping_interval_secs, 15);
}

#[test]
fn client_test_config_default() {
    let config = CoordinatorClientConfig::default();
    assert_eq!(config.heartbeat_interval_secs, 30);
    assert_eq!(config.max_reconnect_attempts, 0);
}

#[test]
fn test_connection_state_default() {
    assert_eq!(ConnectionState::default(), ConnectionState::Disconnected);
}
