use auth_ms::config::{bind_addr_text, parse_u64, run_migrations_setting, ttl_setting, EnvValues, Settings};

#[test]
fn parse_u64_agrees_with_std() {
    for s in ["0", "42", "+7", "-7", "", "+", "-", " 1", "1 ", "007", "18446744073709551615",
        "18446744073709551616", "99999999999999999999", "1_000", "٣", "+-1", "12a"] {
        assert_eq!(parse_u64(s), s.parse::<u64>().ok(), "{s:?}");
    }
}

#[test]
fn ttl_defaults() {
    assert_eq!(ttl_setting(None, 900), 900);
    assert_eq!(ttl_setting(Some("60"), 900), 60);
    assert_eq!(ttl_setting(Some("sixty"), 900), 900);
    assert_eq!(ttl_setting(Some("-1"), 900), 900);
}

#[test]
fn migrations_flag() {
    assert!(run_migrations_setting(None));
    assert!(!run_migrations_setting(Some("0")));
    assert!(!run_migrations_setting(Some("false")));
    assert!(!run_migrations_setting(Some("no")));
    assert!(!run_migrations_setting(Some("")));
    assert!(run_migrations_setting(Some("1")));
    assert!(run_migrations_setting(Some("FALSE")));
    assert!(run_migrations_setting(Some("yes")));
}

/// The settings of an environment whose address reads as a socket address.
fn settings_of(env: EnvValues) -> Result<Settings, String> {
    Settings::from_env_values(env, Ok(()))
}

fn env(url: Option<&str>, secret: Option<&str>) -> EnvValues {
    EnvValues {
        bind_addr: None,
        database_url: url.map(|s| s.to_string()),
        jwt_secret: secret.map(|s| s.to_string()),
        jwt_access_ttl: None,
        jwt_refresh_ttl: Some("100".to_string()),
        run_migrations: Some("no".to_string()),
        initial_admin_password: Some("pw".to_string()),
    }
}

#[test]
fn missing_database_url_is_refused_first() {
    assert_eq!(settings_of(env(None, None)).unwrap_err(), "DATABASE_URL must be set");
}

#[test]
fn missing_secret_is_refused() {
    assert_eq!(settings_of(env(Some("postgres://x"), None)).unwrap_err(), "JWT_SECRET must be set");
}

#[test]
fn short_secret_is_refused_with_its_length() {
    assert_eq!(
        settings_of(env(Some("postgres://x"), Some("short"))).unwrap_err(),
        "JWT_SECRET must be at least 32 chars; got 5"
    );
    // length is counted in bytes
    let s = "é".repeat(15);
    assert_eq!(
        settings_of(env(Some("postgres://x"), Some(&s))).unwrap_err(),
        "JWT_SECRET must be at least 32 chars; got 30"
    );
}

#[test]
fn settings_from_environment() {
    let s = settings_of(env(Some("postgres://x"), Some("0123456789abcdef0123456789abcdef"))).unwrap();
    assert_eq!(s.database_url, "postgres://x");
    assert_eq!(s.jwt_secret, "0123456789abcdef0123456789abcdef");
    assert_eq!(s.access_ttl_secs, 900);
    assert_eq!(s.refresh_ttl_secs, 100);
    assert!(!s.run_migrations);
    assert_eq!(s.initial_admin_password, Some("pw".to_string()));
    assert_eq!(s.bind_addr, "0.0.0.0:8000");
}

#[test]
fn bind_address_defaults_and_is_checked_first() {
    assert_eq!(bind_addr_text(None), "0.0.0.0:8000");
    assert_eq!(bind_addr_text(Some("127.0.0.1:9000")), "127.0.0.1:9000");
    let mut e = env(Some("postgres://x"), Some("0123456789abcdef0123456789abcdef"));
    e.bind_addr = Some("127.0.0.1:9000".to_string());
    assert_eq!(Settings::from_env_values(e, Ok(())).unwrap().bind_addr, "127.0.0.1:9000");
    // an address that does not read as a socket address is refused before anything else
    assert_eq!(
        Settings::from_env_values(env(None, None), Err("invalid socket address syntax".to_string())).unwrap_err(),
        "invalid socket address syntax"
    );
}
