use tus_upload::config::{
    default_buffer_size, default_chunk_size, default_max_concurrent_uploads, default_max_retries,
    default_retry_delay, default_state_dir, InitConfig, TusConfig,
};
use tus_upload::error::TusError;

#[test]
fn test_default_config() {
    let config = TusConfig::default();
    assert_eq!(config.max_concurrent_uploads, 3);
    assert_eq!(config.chunk_size, 5 * 1024 * 1024);
    assert_eq!(config.max_retries, 3);
    assert_eq!(config.retry_delay_ms, 1000);
}

#[test]
fn test_config_builder() {
    let config = TusConfig::new("https://tus.example.com")
        .with_header("Authorization".to_string(), "Bearer token".to_string())
        .with_max_concurrent_uploads(5)
        .with_chunk_size(10 * 1024 * 1024)
        .with_retry_settings(5, 2000);

    assert_eq!(config.endpoint, "https://tus.example.com");
    assert_eq!(config.max_concurrent_uploads, 5);
    assert_eq!(config.chunk_size, 10 * 1024 * 1024);
    assert_eq!(config.max_retries, 5);
    assert_eq!(config.retry_delay_ms, 2000);
    assert_eq!(config.header_value("Authorization").unwrap(), "Bearer token");
}

#[test]
fn test_config_validation() {
    // Valid config
    let config = TusConfig::new("https://tus.example.com");
    assert!(config.validate().is_ok());

    // Invalid endpoint
    let config = TusConfig::new("");
    assert!(config.validate().is_err());

    // Invalid chunk size
    let config = TusConfig::new("https://tus.example.com").with_chunk_size(0);
    assert!(config.validate().is_err());

    // Invalid concurrent uploads
    let config = TusConfig::new("https://tus.example.com").with_max_concurrent_uploads(0);
    assert!(config.validate().is_err());
}

fn config_error(c: &TusConfig) -> String {
    match c.validate() {
        Err(TusError::Config(m)) => m,
        other => panic!("expected a configuration error, got {:?}", other),
    }
}

#[test]
fn validate_names_first_violated_rule() {
    assert_eq!(config_error(&TusConfig::new("")), "Endpoint URL cannot be empty");
    assert_eq!(
        config_error(&TusConfig::new("ftp://x")),
        "Endpoint URL must start with http:// or https://"
    );
    assert_eq!(
        config_error(&TusConfig::new("http://x").with_max_concurrent_uploads(0)),
        "Max concurrent uploads must be greater than 0"
    );
    assert_eq!(
        config_error(&TusConfig::new("http://x").with_chunk_size(0)),
        "Chunk size must be greater than 0"
    );
    assert_eq!(
        config_error(&TusConfig::new("http://x").with_chunk_size(100 * 1024 * 1024 + 1)),
        "Chunk size cannot be larger than 100MB"
    );
    let mut c = TusConfig::new("http://x");
    c.buffer_size = 0;
    assert_eq!(config_error(&c), "Buffer size must be greater than 0");
    let c = TusConfig::new("http://x").with_chunk_size(1024);
    assert_eq!(config_error(&c), "Buffer size cannot be larger than chunk size");
    // empty endpoint is reported before the other rules
    let c = TusConfig::new("").with_chunk_size(0);
    assert_eq!(config_error(&c), "Endpoint URL cannot be empty");
}

#[test]
fn validate_accepts_largest_chunk() {
    let c = TusConfig::new("https://x").with_chunk_size(100 * 1024 * 1024);
    assert!(c.validate().is_ok());
    let c = TusConfig::new("http://x").with_chunk_size(1024 * 1024);
    assert!(c.validate().is_ok());
}

#[test]
fn with_header_replaces_value_of_same_key() {
    let c = TusConfig::new("http://x")
        .with_header("A".to_string(), "1".to_string())
        .with_header("B".to_string(), "2".to_string())
        .with_header("A".to_string(), "3".to_string());
    assert_eq!(c.headers.len(), 2);
    assert_eq!(c.headers[0], ("A".to_string(), "3".to_string()));
    assert_eq!(c.header_value("B").unwrap(), "2");
    assert!(c.header_value("C").is_none());
}

#[test]
fn with_headers_extends() {
    let c = TusConfig::new("http://x")
        .with_header("A".to_string(), "1".to_string())
        .with_headers(vec![
            ("B".to_string(), "2".to_string()),
            ("A".to_string(), "9".to_string()),
        ]);
    assert_eq!(c.header_value("A").unwrap(), "9");
    assert_eq!(c.header_value("B").unwrap(), "2");
    assert_eq!(c.headers.len(), 2);
}

#[test]
fn defaults_have_documented_values() {
    assert_eq!(default_max_concurrent_uploads(), 3);
    assert_eq!(default_chunk_size(), 5242880);
    assert_eq!(default_max_retries(), 3);
    assert_eq!(default_retry_delay(), 1000);
    assert_eq!(default_buffer_size(), 1048576);
    assert!(default_state_dir().ends_with("/tus-uploads"));
}

#[test]
fn init_config_fills_defaults() {
    let init = InitConfig {
        endpoint: "https://example.com".to_string(),
        max_concurrent: Some(2),
        chunk_size: None,
    };
    let c = init.tus_config("/tmp/state".to_string());
    assert_eq!(c.endpoint, "https://example.com");
    assert_eq!(c.max_concurrent_uploads, 2);
    assert_eq!(c.chunk_size, 5 * 1024 * 1024);
    assert_eq!(c.state_dir, "/tmp/state");
}
