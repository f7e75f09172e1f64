use worker::error::{Error, ErrorCode, IoErrorKind};
use worker::executor::ExecutionOutcome;

#[test]
fn test_error_display() {
    let err = Error::ConfigNotFound { path: "/path/to/config.toml".to_string(), source: None };
    assert!(err.to_string().contains("/path/to/config.toml"));
}

#[test]
fn test_error_codes() {
    let err = Error::config_not_found("/test");
    assert_eq!(err.code(), ErrorCode::ConfigNotFound);

    let err = Error::connection_failed("ws://test", "refused");
    assert_eq!(err.code(), ErrorCode::ConnectionFailed);

    let err = Error::memory_limit(16000, 8000);
    assert_eq!(err.code(), ErrorCode::ResourceMemory);
}

#[test]
fn test_error_retryable() {
    assert!(Error::connection_failed("url", "test").is_retryable());
    assert!(Error::ConnectionTimeout { url: "url".into(), timeout_secs: 30 }.is_retryable());
    assert!(!Error::config_not_found("/test").is_retryable());
    assert!(!Error::AuthenticationFailed { message: "test".into() }.is_retryable());
}

#[test]
fn test_error_fatal() {
    assert!(Error::config_not_found("/test").is_fatal());
    assert!(Error::AuthenticationFailed { message: "test".into() }.is_fatal());
    assert!(!Error::connection_failed("url", "test").is_fatal());
}

#[test]
fn test_error_suggestions() {
    let err = Error::config_not_found("/test");
    assert!(err.suggestion().is_some());
    assert!(err.suggestion().unwrap().contains("config init"));

    let err = Error::memory_limit(16000, 8000);
    assert!(err.suggestion().is_some());
    assert!(err.suggestion().unwrap().contains("max_memory_mb"));
}

#[test]
fn test_format_for_terminal() {
    let err = Error::config_not_found("/test/config.toml");
    let formatted = err.format_for_terminal();

    assert!(formatted.contains("E100"));
    assert!(formatted.contains("\x1b[31m"));
    assert!(formatted.contains("Hint"));
    assert_eq!(
        formatted,
        "\x1b[31mError [E100]\x1b[0m: Configuration file not found: /test/config.toml\n\n\x1b[33mHint\x1b[0m: Run 'ai4all-worker config init' to create a default configuration file.\n"
    );
}

#[test]
fn terminal_form_without_hint() {
    let err = Error::Internal("boom".to_string());
    assert_eq!(err.format_for_terminal(), "\x1b[31mError [E900]\x1b[0m: Internal error: boom\n");
    assert_eq!(err.exit_code(), 90);
}

#[test]
fn test_format_for_log() {
    let err = Error::config_not_found("/test/config.toml");
    let formatted = err.format_for_log();

    assert!(formatted.contains("[E100]"));
    assert!(!formatted.contains("\x1b["));
    assert_eq!(formatted, "[E100] Configuration file not found: /test/config.toml");
}

#[test]
fn test_error_from_io() {
    let err = Error::io(IoErrorKind::NotFound, "file not found");
    assert_eq!(err.code(), ErrorCode::IoNotFound);
    assert_eq!(Error::io(IoErrorKind::PermissionDenied, "no").code(), ErrorCode::IoPermission);
    assert_eq!(Error::io(IoErrorKind::Other, "?").code(), ErrorCode::IoRead);
    assert!(err.is_retryable());
}

#[test]
fn test_legacy_error_compatibility() {
    let err = Error::Config("old style error".to_string());
    assert_eq!(err.code(), ErrorCode::ConfigValidation);
    assert!(err.is_fatal());

    let err = Error::Connection("connection issue".to_string());
    assert_eq!(err.code(), ErrorCode::ConnectionFailed);
    assert!(err.is_retryable());
}

#[test]
fn messages_with_numbers() {
    assert_eq!(
        Error::memory_limit(16000, 8000).to_string(),
        "Memory limit exceeded: requested 16000MB, available 8000MB"
    );
    assert_eq!(
        Error::TaskTimeout { task_id: "t4".to_string(), timeout_secs: 300 }.to_string(),
        "Task t4 timed out after 300s"
    );
    assert_eq!(Error::connection_timeout("ws://c", 30).exit_code(), 30);
}

#[test]
fn failed_outcome_keeps_classification() {
    match ExecutionOutcome::<String>::failed_with(&Error::Timeout("slow".to_string())) {
        ExecutionOutcome::Failed { code, message, retryable } => {
            assert_eq!(code, ErrorCode::ExecutionTimeout);
            assert_eq!(message, "Task timeout: slow");
            assert!(retryable);
        }
        _ => panic!("expected a failure"),
    }
    match ExecutionOutcome::<String>::failed_with(&Error::model_not_found("m")) {
        ExecutionOutcome::Failed { code, retryable, .. } => {
            assert_eq!(code, ErrorCode::ModelNotFound);
            assert!(!retryable);
        }
        _ => panic!("expected a failure"),
    }
}
