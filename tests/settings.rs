use promptivd::config::{AppConfig, BindAddr, ConfigError, EnvConfig, LogFormat};

#[test]
fn test_default_config() {
    let config = AppConfig::default();
    assert_eq!(config.server.bind_addr.port(), 8787);
    assert_eq!(config.log_level, "info");
}

#[test]
fn config_test_config_validation() {
    let mut config = AppConfig::default();
    assert!(config.validate().is_ok());

    config.server.max_job_bytes = 0;
    assert!(config.validate().is_err());

    config.server.max_job_bytes = 1024;
}

#[test]
fn promptivd_test_config_validation() {
    let config = AppConfig::default();
    assert!(config.validate().is_ok());
}

#[test]
fn zero_missed_ping_limit_is_refused() {
    let mut config = AppConfig::default();
    config.server.websocket_max_missed_pings = 0;
    match config.validate() {
        Err(ConfigError::Message(m)) => assert_eq!(m, "websocket_max_missed_pings must be greater than 0"),
        Ok(()) => panic!("accepted a zero limit"),
    }
}

#[test]
fn default_server_settings() {
    let config = AppConfig::default();
    assert_eq!(config.server.bind_addr.to_text(), "127.0.0.1:8787");
    assert!(!config.server.require_sink);
    assert!(config.server.supersede_on_register);
    assert_eq!(config.server.max_job_bytes, 131072);
    assert_eq!(config.server.websocket_ping_interval_ms, 15000);
    assert_eq!(config.server.websocket_pong_timeout_ms, 10000);
    assert_eq!(config.server.websocket_max_missed_pings, 3);
    assert_eq!(config.server.dispatch_timeout_ms, 30000);
    assert_eq!(config.log_format, LogFormat::Pretty);
}

#[test]
fn environment_overrides_replace_only_given_values() {
    let mut config = AppConfig::default();
    config.apply_env_overrides(EnvConfig {
        server_bind_addr: Some(BindAddr { host: "0.0.0.0".to_string(), port: 8080 }),
        log_level: Some("trace".to_string()),
        log_format: None,
    });
    assert_eq!(config.server.bind_addr.to_text(), "0.0.0.0:8080");
    assert_eq!(config.log_level, "trace");
    assert_eq!(config.log_format, LogFormat::Pretty);
}

#[test]
fn ipv6_bind_address_in_brackets() {
    let a = BindAddr { host: "::1".to_string(), port: 9000 };
    assert_eq!(a.to_text(), "[::1]:9000");
}
