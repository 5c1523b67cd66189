use speedtest::config::{
    check_scheme, parse_target, ClientConfig, ConfigError, ServerConfig, DEFAULT_INTERVAL_MILLIS,
};

#[test]
fn http_target_is_accepted() {
    let uri = parse_target("http://127.0.0.1:6969/speedtest").unwrap();
    assert_eq!(uri.path(), "/speedtest");
}

#[test]
fn scheme_is_case_insensitive_once_parsed() {
    assert!(parse_target("HTTP://example.com/").is_ok());
}

#[test]
fn https_target_is_refused() {
    assert_eq!(parse_target("https://example.com/").unwrap_err(), ConfigError::NotHttp);
}

#[test]
fn target_without_scheme_is_refused() {
    assert_eq!(parse_target("example.com:80").unwrap_err(), ConfigError::NotHttp);
}

#[test]
fn malformed_target_is_refused() {
    assert_eq!(parse_target("http://exa mple.com/").unwrap_err(), ConfigError::InvalidUrl);
    assert_eq!(parse_target("").unwrap_err(), ConfigError::InvalidUrl);
}

#[test]
fn scheme_check_is_exact() {
    assert_eq!(check_scheme(Some("http")), Ok(()));
    assert_eq!(check_scheme(Some("https")), Err(ConfigError::NotHttp));
    assert_eq!(check_scheme(Some("HTTP")), Err(ConfigError::NotHttp));
    assert_eq!(check_scheme(Some("htt")), Err(ConfigError::NotHttp));
    assert_eq!(check_scheme(None), Err(ConfigError::NotHttp));
}

#[test]
fn client_config_keeps_interval() {
    let c = ClientConfig::new("http://localhost:6969/", DEFAULT_INTERVAL_MILLIS).unwrap();
    assert_eq!(c.interval_millis, 1000);
    assert_eq!(c.target.port_u16(), Some(6969));
}

#[test]
fn client_config_refuses_zero_interval() {
    assert_eq!(ClientConfig::new("http://localhost/", 0).err(), Some(ConfigError::ZeroInterval));
    assert_eq!(ClientConfig::new("not a url", 0).err(), Some(ConfigError::ZeroInterval));
}

#[test]
fn client_config_refuses_bad_target() {
    assert_eq!(ClientConfig::new("not a url", 500).err(), Some(ConfigError::InvalidUrl));
    assert_eq!(ClientConfig::new("https://localhost/", 500).err(), Some(ConfigError::NotHttp));
}

#[test]
fn server_config_port() {
    assert_eq!(ServerConfig::new(6969), Ok(ServerConfig { port: 6969 }));
    assert_eq!(ServerConfig::new(0), Err(ConfigError::ZeroPort));
}

#[test]
fn other_schemes_are_refused() {
    assert_eq!(parse_target("ftp://example.com/file").unwrap_err(), ConfigError::NotHttp);
    assert_eq!(
        ClientConfig::new("ws://example.com/", DEFAULT_INTERVAL_MILLIS).err(),
        Some(ConfigError::NotHttp)
    );
}
