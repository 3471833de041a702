use unified_panel::config::{Config, ConfigError, Environment};

fn minimal() -> Environment {
    Environment {
        host: None,
        port: None,
        database_url: Some("postgres://localhost/panel".to_string()),
        jwt_secret: Some("jwt".to_string()),
        jwt_expiration: None,
        session_secret: Some("session".to_string()),
        cors_origin: None,
        hetzner_api_token: None,
    }
}

#[test]
fn unset_variables_take_their_defaults() {
    let env = minimal();
    assert!(env.is_complete());
    assert_eq!(
        Config::from_env(env),
        Ok(Config {
            host: "0.0.0.0".to_string(),
            port: 3000,
            database_url: "postgres://localhost/panel".to_string(),
            jwt_secret: "jwt".to_string(),
            jwt_expiration: 86400,
            session_secret: "session".to_string(),
            cors_origin: "http://localhost:3000".to_string(),
            hetzner_api_token: None,
        })
    );
}

#[test]
fn set_variables_are_taken_as_given() {
    let env = Environment {
        host: Some("127.0.0.1".to_string()),
        port: Some("8080".to_string()),
        database_url: Some("postgres://db/panel".to_string()),
        jwt_secret: Some("s1".to_string()),
        jwt_expiration: Some("-60".to_string()),
        session_secret: Some("s2".to_string()),
        cors_origin: Some("https://panel.example.com".to_string()),
        hetzner_api_token: Some("token".to_string()),
    };
    assert!(env.is_complete());
    assert_eq!(
        Config::from_env(env),
        Ok(Config {
            host: "127.0.0.1".to_string(),
            port: 8080,
            database_url: "postgres://db/panel".to_string(),
            jwt_secret: "s1".to_string(),
            jwt_expiration: -60,
            session_secret: "s2".to_string(),
            cors_origin: "https://panel.example.com".to_string(),
            hetzner_api_token: Some("token".to_string()),
        })
    );
}

#[test]
fn an_invalid_port_is_an_error() {
    for port in ["", "http", "65536", "-1", " 80"] {
        let env = Environment { port: Some(port.to_string()), ..minimal() };
        assert!(env.is_complete());
        assert_eq!(Config::from_env(env), Err(ConfigError::InvalidPort));
    }
}

#[test]
fn an_invalid_lifetime_is_an_error() {
    for lifetime in ["", "1d", "9223372036854775808", "86400.0"] {
        let env = Environment { jwt_expiration: Some(lifetime.to_string()), ..minimal() };
        assert!(env.is_complete());
        assert_eq!(Config::from_env(env), Err(ConfigError::InvalidJwtExpiration));
    }
}

#[test]
fn the_port_is_judged_before_the_lifetime() {
    let env = Environment {
        port: Some("x".to_string()),
        jwt_expiration: Some("y".to_string()),
        ..minimal()
    };
    assert_eq!(Config::from_env(env), Err(ConfigError::InvalidPort));
}

#[test]
fn an_invalid_port_is_reported_before_anything_is_missed() {
    let env = Environment {
        port: Some("x".to_string()),
        database_url: None,
        jwt_secret: None,
        session_secret: None,
        ..minimal()
    };
    assert!(env.is_complete());
    assert_eq!(Config::from_env(env), Err(ConfigError::InvalidPort));
}

#[test]
fn an_invalid_lifetime_is_reported_before_the_session_secret_is_missed() {
    let env = Environment {
        jwt_expiration: Some("soon".to_string()),
        session_secret: None,
        ..minimal()
    };
    assert!(env.is_complete());
    assert_eq!(Config::from_env(env), Err(ConfigError::InvalidJwtExpiration));
}

#[test]
fn a_missing_variable_without_default_makes_the_environment_incomplete() {
    assert!(!Environment { database_url: None, ..minimal() }.is_complete());
    assert!(!Environment { jwt_secret: None, ..minimal() }.is_complete());
    assert!(!Environment { session_secret: None, ..minimal() }.is_complete());
    let early = Environment {
        jwt_expiration: Some("soon".to_string()),
        database_url: None,
        ..minimal()
    };
    assert!(!early.is_complete());
}

#[test]
fn lifetimes_near_the_ends_of_the_range_do_not_fit() {
    let config = Config::from_env(minimal()).unwrap();
    assert!(config.check_lifetime());
    assert!(Config { jwt_expiration: 0, ..config.clone() }.check_lifetime());
    assert!(Config { jwt_expiration: i64::MAX - (1 << 48), ..config.clone() }.check_lifetime());
    assert!(!Config { jwt_expiration: i64::MAX - (1 << 48) + 1, ..config.clone() }.check_lifetime());
    assert!(Config { jwt_expiration: i64::MIN + (1 << 48), ..config.clone() }.check_lifetime());
    assert!(!Config { jwt_expiration: i64::MIN + (1 << 48) - 1, ..config.clone() }.check_lifetime());
    assert!(!Config { jwt_expiration: i64::MAX, ..config }.check_lifetime());
}
