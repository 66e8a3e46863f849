use eks::config::{derive_event_encryption_key, Config};
use eks::crypto::EventCrypto;
use eks::AppError;

#[test]
fn loads_database_url_from_provider() {
    let config = Config::from_env_with(|key, _default| match key {
        "DATABASE_URL" => Ok("postgres://example".to_string()),
        "EVENT_ENCRYPTION_KEY" => Ok("unit-test-key".to_string()),
        _ => Err(AppError::MissingEnvVar(key)),
    })
    .unwrap();

    assert_eq!(config.database_url, "postgres://example");
}

#[test]
fn returns_error_when_env_missing() {
    let key: &'static str = "EVENT_ENCRYPTION_KEY";

    let err = Config::from_env_with(|_, _default| Err(AppError::MissingEnvVar(key))).unwrap_err();
    match err {
        AppError::MissingEnvVar(var) => assert_eq!(var, key),
        _ => panic!("unexpected error: {err:?}"),
    }
}

#[test]
fn blank_key_is_refused() {
    let err = Config::from_env_with(|key, _default| match key {
        "EVENT_ENCRYPTION_KEY" => Ok(" \t\n".to_string()),
        _ => Ok("postgres://example".to_string()),
    })
    .unwrap_err();
    match err {
        AppError::ConfigLoadError(msg) => assert_eq!(msg, "EVENT_ENCRYPTION_KEY must not be empty"),
        other => panic!("unexpected error: {other:?}"),
    }
}

#[test]
fn missing_database_url_is_reported_after_the_key() {
    let err = Config::from_env_with(|key, _default| match key {
        "EVENT_ENCRYPTION_KEY" => Ok("secret".to_string()),
        _ => Err(AppError::MissingEnvVar(key)),
    })
    .unwrap_err();
    match err {
        AppError::MissingEnvVar(var) => assert_eq!(var, "DATABASE_URL"),
        other => panic!("unexpected error: {other:?}"),
    }
}

#[test]
fn derived_key_is_the_sha256_digest() {
    let key = derive_event_encryption_key("abc".to_string()).unwrap();
    let expected: Vec<u8> = vec![
        0xba, 0x78, 0x16, 0xbf, 0x8f, 0x01, 0xcf, 0xea, 0x41, 0x41, 0x40, 0xde, 0x5d, 0xae, 0x22, 0x23,
        0xb0, 0x03, 0x61, 0xa3, 0x96, 0x17, 0x7a, 0x9c, 0xb4, 0x10, 0xff, 0x61, 0xf2, 0x00, 0x15, 0xad,
    ];
    assert_eq!(key, expected);
    assert_ne!(derive_event_encryption_key("abd".to_string()).unwrap(), expected);
}

#[test]
fn test_configuration_uses_development_defaults() {
    let config = Config::new_test();
    assert_eq!(config.database_url, "postgres://eks@localhost/eks");
    assert_eq!(
        config.event_encryption_key,
        derive_event_encryption_key("dev-only-event-encryption-key".to_string()).unwrap()
    );
    assert!(EventCrypto::new(config.event_encryption_key).is_ok());
}

#[test]
fn key_length_is_checked() {
    match EventCrypto::new(vec![0u8; 31]) {
        Err(AppError::ConfigLoadError(msg)) => assert_eq!(msg, "EVENT_ENCRYPTION_KEY must be 32 bytes"),
        _ => panic!("short key accepted"),
    }
    assert!(EventCrypto::new(vec![0u8; 32]).is_ok());
}
