//! Tests for the structured error: construction, the two renderings, the
//! driver-error mapping, and the absence of the password from every
//! diagnostic form.

use redis_kv_client::client::format_redis_error;
use redis_kv_client::error::Error;
use redis_kv_client::error::ErrorKind;
use redis_kv_client::settings::RedisSettings;

#[test]
fn kind_names() {
    assert_eq!(ErrorKind::Unexpected.into_static(), "Unexpected");
    assert_eq!(ErrorKind::ConfigInvalid.into_static(), "ConfigInvalid");
}

#[test]
fn single_line_rendering_is_exact() {
    let e = Error::new(ErrorKind::ConfigInvalid, "endpoint is invalid")
        .with_context("endpoint", "bad://x".to_string())
        .with_context("db", "3".to_string())
        .set_source("boom".to_string());
    assert_eq!(
        e.render_single_line(),
        "ConfigInvalid, context: { endpoint: bad://x, db: 3 } => endpoint is invalid, source: boom"
    );
}

#[test]
fn single_line_rendering_of_bare_error() {
    let e = Error::new(ErrorKind::Unexpected, "");
    assert_eq!(e.render_single_line(), "Unexpected");
}

#[test]
fn detailed_rendering_is_exact() {
    let e = Error::new(ErrorKind::Unexpected, "something wrong happened")
        .with_context("path", "/path/to/file".to_string())
        .with_context("called", "send_async".to_string())
        .set_source("networking error".to_string());
    assert_eq!(
        e.render_detailed(),
        "Unexpected => something wrong happened\n\nContext:\n   path: /path/to/file\n   called: send_async\n\nSource:\n   networking error\n"
    );
}

#[test]
fn driver_errors_map_to_unexpected_with_category() {
    let raw = redis::RedisError::from((redis::ErrorKind::TypeError, "oops"));
    let e = format_redis_error(raw);
    assert_eq!(e.kind(), ErrorKind::Unexpected);
    assert_eq!(e.message_text(), "type error");
    assert!(e.source_text().is_some());
}

#[test]
fn settings_rendering_masks_password() {
    let s = RedisSettings {
        address: Some("tcp://h:1".to_string()),
        addresses: None,
        username: Some("admin".to_string()),
        password: Some("TOP-SECRET-42".to_string()),
        db: 5,
    };
    let text = s.describe();
    assert_eq!(
        text,
        "RedisSettings { db: \"5\", address: \"tcp://h:1\", username: \"admin\", \
         password: \"<redacted>\", .. }"
    );
    assert!(!text.contains("TOP-SECRET-42"));
}

#[test]
fn settings_rendering_negative_db() {
    let s = RedisSettings {
        address: None,
        addresses: None,
        username: None,
        password: None,
        db: -42,
    };
    assert_eq!(s.describe(), "RedisSettings { db: \"-42\", .. }");
}

#[test]
fn parse_error_rendering_never_contains_password() {
    let s = RedisSettings {
        address: Some("bad scheme://x".to_string()),
        addresses: None,
        username: None,
        password: Some("HUSH-HUSH-9".to_string()),
        db: 0,
    };
    let e = redis_kv_client::endpoint::parse_endpoint("gopher://x:1", &s).unwrap_err();
    assert!(!e.render_single_line().contains("HUSH-HUSH-9"));
    assert!(!e.render_detailed().contains("HUSH-HUSH-9"));
}

#[test]
fn number_rendering_is_exact() {
    assert_eq!(redis_kv_client::settings::u64_string(0), "0");
    assert_eq!(redis_kv_client::settings::u64_string(65535), "65535");
    assert_eq!(redis_kv_client::settings::i64_string(-42), "-42");
    assert_eq!(redis_kv_client::settings::i64_string(7), "7");
    assert_eq!(
        redis_kv_client::settings::i64_string(i64::MIN),
        "-9223372036854775808"
    );
}
