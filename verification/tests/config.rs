use rust_rest_api::config::{
    listen_port, parse_port, store_url, Config, ConfigError, DEFAULT_PORT, MAX_CONNECTIONS,
};

#[test]
fn port_defaults_to_3000() {
    assert_eq!(DEFAULT_PORT, 3000);
    assert_eq!(
        Config::from_values(Some("postgres://db".to_string()), None),
        Ok(Config { database_url: "postgres://db".to_string(), port: 3000 })
    );
}

#[test]
fn pool_is_capped_at_five() {
    assert_eq!(MAX_CONNECTIONS, 5);
}

#[test]
fn given_port_is_used() {
    assert_eq!(
        Config::from_values(Some("postgres://db".to_string()), Some("8080".to_string())),
        Ok(Config { database_url: "postgres://db".to_string(), port: 8080 })
    );
}

#[test]
fn missing_store_url_fails_first() {
    assert_eq!(Config::from_values(None, None), Err(ConfigError::MissingDatabaseUrl));
    assert_eq!(
        Config::from_values(None, Some("x".to_string())),
        Err(ConfigError::MissingDatabaseUrl)
    );
}

#[test]
fn port_that_is_no_number_fails() {
    assert_eq!(
        Config::from_values(Some("postgres://db".to_string()), Some("http".to_string())),
        Err(ConfigError::InvalidPort)
    );
}

#[test]
fn parse_port_agrees_with_std() {
    let cases = [
        "0", "1", "80", "3000", "65535", "65536", "99999", "4294967296", "+80", "+", "", "-1",
        " 80", "80 ", "8a", "0080", "00000000000000000080", "++1", "1+", "\u{661}",
    ];
    for text in cases.iter() {
        assert_eq!(parse_port(text), text.parse::<u16>().ok());
    }
    assert_eq!(parse_port("3000"), Some(3000));
    assert_eq!(parse_port("65535"), Some(65535));
    assert_eq!(parse_port("65536"), None);
    assert_eq!(parse_port("+80"), Some(80));
    assert_eq!(parse_port(""), None);
}

#[test]
fn store_url_is_required() {
    assert_eq!(store_url(Some("postgres://db".to_string())), Ok("postgres://db".to_string()));
    assert_eq!(store_url(Some(String::new())), Ok(String::new()));
    assert_eq!(store_url(None), Err(ConfigError::MissingDatabaseUrl));
}

#[test]
fn listen_port_defaults_and_parses() {
    assert_eq!(listen_port(None), Ok(3000));
    assert_eq!(listen_port(Some("8080".to_string())), Ok(8080));
    assert_eq!(listen_port(Some("0".to_string())), Ok(0));
    assert_eq!(listen_port(Some("70000".to_string())), Err(ConfigError::InvalidPort));
    assert_eq!(listen_port(Some(String::new())), Err(ConfigError::InvalidPort));
}
