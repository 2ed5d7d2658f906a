//! Tests for the configuration and the error types.

use tastytrade::config::Config;
use tastytrade::error::{ApiError, DxFeedError, TastyTradeError};

#[test]
fn test_default_config() {
    let config = Config::default();
    assert!(config.username.is_empty());
    assert!(config.password.is_empty());
    assert!(!config.use_demo);
    assert_eq!(config.log_level, "INFO");
    assert!(!config.remember_me);
}

#[test]
fn test_has_valid_credentials() {
    let mut config = Config::default();
    assert!(!config.has_valid_credentials());

    config.username = "user".to_string();
    assert!(!config.has_valid_credentials());

    config.password = "pass".to_string();
    assert!(config.has_valid_credentials());
}

#[test]
fn test_config_from_values_demo() {
    let config = Config::from_values(
        "test_user".to_string(),
        "test_pass".to_string(),
        Some("true".to_string()),
        Some("DEBUG".to_string()),
        Some("true".to_string()),
    );
    assert_eq!(config.username, "test_user");
    assert_eq!(config.password, "test_pass");
    assert!(config.use_demo);
    assert_eq!(config.log_level, "DEBUG");
    assert!(config.remember_me);
    assert_eq!(config.base_url, "https://api.cert.tastyworks.com");
    assert_eq!(config.websocket_url, "wss://streamer.cert.tastyworks.com");
}

#[test]
fn test_config_from_values_live() {
    let config = Config::from_values(
        "test_user".to_string(),
        "test_pass".to_string(),
        Some("false".to_string()),
        None,
        None,
    );
    assert!(!config.use_demo);
    assert_eq!(config.log_level, "INFO");
    assert!(!config.remember_me);
    assert_eq!(config.base_url, "https://api.tastyworks.com");
    assert_eq!(config.websocket_url, "wss://streamer.tastyworks.com");
}

#[test]
fn test_config_from_values_garbled_flags() {
    let config = Config::from_values(
        String::new(),
        String::new(),
        Some("yes".to_string()),
        None,
        Some("TRUE".to_string()),
    );
    assert!(!config.use_demo);
    assert!(!config.remember_me);
    assert_eq!(config.base_url, "https://api.tastyworks.com");
}

#[test]
fn test_error_constructors() {
    assert!(matches!(
        TastyTradeError::auth_error("bad credentials"),
        TastyTradeError::Auth(_)
    ));
    assert!(matches!(
        TastyTradeError::connection_error("no route"),
        TastyTradeError::Connection(_)
    ));
    assert!(matches!(
        TastyTradeError::streaming_error("stream lost"),
        TastyTradeError::Streaming(_)
    ));
    assert!(matches!(
        TastyTradeError::unknown_error("odd"),
        TastyTradeError::Unknown(_)
    ));
}

#[test]
fn test_error_from_conversions() {
    let api_error = ApiError {
        code: Some("400".to_string()),
        message: "Bad Request".to_string(),
        errors: None,
    };
    let tasty_error: TastyTradeError = api_error.into();
    assert!(matches!(tasty_error, TastyTradeError::Api(_)));

    let dxfeed_error = DxFeedError::CreateConnectionError;
    let tasty_error = TastyTradeError::from(dxfeed_error);
    assert!(matches!(tasty_error, TastyTradeError::DxFeed(_)));
}
