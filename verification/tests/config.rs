use passkey_auth::config::{parse_i64, AppConfig, ConfigError};

fn s(v: &str) -> Option<String> {
    Some(v.to_string())
}

#[test]
fn parse_i64_accepts_what_std_accepts() {
    for text in [
        "0", "86400", "-5", "+7", "007", "9223372036854775807", "-9223372036854775808",
        "", "-", "+", "12a", " 1", "1 ", "9223372036854775808", "-9223372036854775809",
        "--1", "+-1", "99999999999999999999999", "１２",
    ] {
        assert_eq!(parse_i64(text), text.parse::<i64>().ok(), "input {:?}", text);
    }
}

#[test]
fn parse_i64_values() {
    assert_eq!(parse_i64("86400"), Some(86400));
    assert_eq!(parse_i64("-9223372036854775808"), Some(i64::MIN));
    assert_eq!(parse_i64("abc"), None);
}

#[test]
fn defaults_fill_optional_values() {
    let c = AppConfig::from_vars(s("localhost"), s("http://localhost:3000"), None, s("postgres://db"), None, None)
        .unwrap();
    assert_eq!(c.rp_id, "localhost");
    assert_eq!(c.rp_origin.as_str(), "http://localhost:3000/");
    assert_eq!(c.rp_name, "Passkey Auth");
    assert_eq!(c.database_url, "postgres://db");
    assert_eq!(c.bind_address, "0.0.0.0:3000");
    assert_eq!(c.session_ttl_secs, 86400);
}

#[test]
fn given_values_are_kept() {
    let c = AppConfig::from_vars(
        s("example.com"),
        s("https://idm.example.com"),
        s("Demo"),
        s("postgres://x"),
        s("127.0.0.1:8080"),
        s("-30"),
    )
    .unwrap();
    assert_eq!(c.rp_name, "Demo");
    assert_eq!(c.bind_address, "127.0.0.1:8080");
    assert_eq!(c.session_ttl_secs, -30);
}

#[test]
fn missing_and_invalid_values_are_reported_in_order() {
    assert_eq!(
        AppConfig::from_vars(None, None, None, None, None, s("x")).unwrap_err(),
        ConfigError::MissingRpId
    );
    assert_eq!(
        AppConfig::from_vars(s("a"), None, None, None, None, None).unwrap_err(),
        ConfigError::MissingRpOrigin
    );
    assert_eq!(
        AppConfig::from_vars(s("a"), s("not a url"), None, None, None, None).unwrap_err(),
        ConfigError::InvalidRpOrigin
    );
    assert_eq!(
        AppConfig::from_vars(s("a"), s("http://a"), None, None, None, None).unwrap_err(),
        ConfigError::MissingDatabaseUrl
    );
    assert_eq!(
        AppConfig::from_vars(s("a"), s("http://a"), None, s("db"), None, s("1d")).unwrap_err(),
        ConfigError::InvalidSessionTtl
    );
}

#[test]
fn config_error_messages() {
    assert_eq!(ConfigError::MissingRpId.message(), "RP_ID must be set");
    assert_eq!(ConfigError::MissingRpOrigin.message(), "RP_ORIGIN must be set");
    assert_eq!(ConfigError::InvalidRpOrigin.message(), "RP_ORIGIN must be a valid URL");
    assert_eq!(ConfigError::MissingDatabaseUrl.message(), "DATABASE_URL must be set");
    assert_eq!(ConfigError::InvalidSessionTtl.message(), "SESSION_TTL_SECS must be a valid integer");
}

#[test]
fn config_clones_field_for_field() {
    let c = AppConfig::from_vars(s("localhost"), s("http://localhost:3000"), s("Demo"), s("postgres://db"), None, None)
        .unwrap();
    let d = c.clone();
    assert_eq!(d.rp_id, c.rp_id);
    assert_eq!(d.rp_origin, c.rp_origin);
    assert_eq!(d.rp_name, "Demo");
    assert_eq!(d.database_url, c.database_url);
    assert_eq!(d.bind_address, c.bind_address);
    assert_eq!(d.session_ttl_secs, c.session_ttl_secs);
}
