//! Tests for the endpoint grammar: scheme mapping, defaults, credentials,
//! and the exact rejection errors.

use redis_kv_client::endpoint::parse_endpoint;
use redis_kv_client::endpoint::Transport;
use redis_kv_client::error::ErrorKind;
use redis_kv_client::settings::RedisSettings;

fn plain_settings() -> RedisSettings {
    RedisSettings { address: None, addresses: None, username: None, password: None, db: 0 }
}

#[test]
fn tcp_host_and_port_match_exactly() {
    let d = parse_endpoint("tcp://example.com:7000", &plain_settings()).unwrap();
    match d.transport {
        Transport::Tcp { host, port } => {
            assert_eq!(host, "example.com");
            assert_eq!(port, 7000);
        },
        _ => panic!("expected plain TCP"),
    }
}

#[test]
fn redis_scheme_maps_to_tcp() {
    let d = parse_endpoint("redis://node:6380", &plain_settings()).unwrap();
    match d.transport {
        Transport::Tcp { host, port } => {
            assert_eq!(host, "node");
            assert_eq!(port, 6380);
        },
        _ => panic!("expected plain TCP"),
    }
}

#[test]
fn bare_string_defaults_to_tcp() {
    let d = parse_endpoint("localhost:6380", &plain_settings()).unwrap();
    match d.transport {
        Transport::Tcp { host, port } => {
            assert_eq!(host, "localhost");
            assert_eq!(port, 6380);
        },
        _ => panic!("expected plain TCP"),
    }
}

#[test]
fn missing_port_defaults() {
    let d = parse_endpoint("tcp://myhost", &plain_settings()).unwrap();
    match d.transport {
        Transport::Tcp { host, port } => {
            assert_eq!(host, "myhost");
            assert_eq!(port, 6379);
        },
        _ => panic!("expected plain TCP"),
    }
}

#[test]
fn missing_host_defaults_to_loopback() {
    let d = parse_endpoint("tcp://", &plain_settings()).unwrap();
    match d.transport {
        Transport::Tcp { host, port } => {
            assert_eq!(host, "127.0.0.1");
            assert_eq!(port, 6379);
        },
        _ => panic!("expected plain TCP"),
    }
}

#[test]
fn rediss_enables_tls() {
    let d = parse_endpoint("rediss://secure.example:6390", &plain_settings()).unwrap();
    match d.transport {
        Transport::TcpTls { host, port } => {
            assert_eq!(host, "secure.example");
            assert_eq!(port, 6390);
        },
        _ => panic!("expected TCP with TLS"),
    }
}

#[test]
fn unix_path_taken_exactly() {
    let d = parse_endpoint("unix:///tmp/redis.sock", &plain_settings()).unwrap();
    match d.transport {
        Transport::Unix { path } => assert_eq!(path, "/tmp/redis.sock"),
        _ => panic!("expected a Unix socket"),
    }
}

#[test]
fn redis_unix_path_taken_exactly() {
    let d = parse_endpoint("redis+unix:///var/run/kv.sock", &plain_settings()).unwrap();
    match d.transport {
        Transport::Unix { path } => assert_eq!(path, "/var/run/kv.sock"),
        _ => panic!("expected a Unix socket"),
    }
}

#[test]
fn unsupported_scheme_is_config_invalid() {
    let e = parse_endpoint("http://example.com:80", &plain_settings()).unwrap_err();
    assert_eq!(e.kind(), ErrorKind::ConfigInvalid);
    assert_eq!(e.message_text(), "invalid or unsupported scheme");
}

#[test]
fn empty_endpoint_is_invalid() {
    let e = parse_endpoint("", &plain_settings()).unwrap_err();
    assert_eq!(e.kind(), ErrorKind::ConfigInvalid);
    assert_eq!(e.message_text(), "endpoint is invalid");
}

#[test]
fn oversized_port_is_invalid() {
    let e = parse_endpoint("tcp://h:99999", &plain_settings()).unwrap_err();
    assert_eq!(e.kind(), ErrorKind::ConfigInvalid);
    assert_eq!(e.message_text(), "endpoint is invalid");
}

#[test]
fn non_numeric_port_is_invalid() {
    let e = parse_endpoint("tcp://h:12ab", &plain_settings()).unwrap_err();
    assert_eq!(e.kind(), ErrorKind::ConfigInvalid);
    assert_eq!(e.message_text(), "endpoint is invalid");
}

#[test]
fn credentials_and_db_attached_unchanged() {
    let settings = RedisSettings {
        address: None,
        addresses: None,
        username: Some("user".to_string()),
        password: Some("pw".to_string()),
        db: 7,
    };
    let d = parse_endpoint("tcp://h:1", &settings).unwrap();
    assert_eq!(d.db, 7);
    assert_eq!(d.username, Some("user".to_string()));
    assert_eq!(d.password, Some("pw".to_string()));
}

#[test]
fn rejection_renders_exactly() {
    let e = parse_endpoint("gopher://x:1", &plain_settings()).unwrap_err();
    assert_eq!(e.render_single_line(), "ConfigInvalid => invalid or unsupported scheme");
    let e = parse_endpoint("tcp://h:", &plain_settings()).unwrap_err();
    assert_eq!(
        e.render_single_line(),
        "ConfigInvalid, context: { endpoint: tcp://h: } => endpoint is invalid, \
         source: endpoint does not match the accepted grammar"
    );
}

#[test]
fn path_after_authority_is_ignored() {
    let d = parse_endpoint("tcp://example.com:7000/anything", &plain_settings()).unwrap();
    match d.transport {
        Transport::Tcp { host, port } => {
            assert_eq!(host, "example.com");
            assert_eq!(port, 7000);
        },
        _ => panic!("expected plain TCP"),
    }
    let d = parse_endpoint("tcp://example.com/anything", &plain_settings()).unwrap();
    match d.transport {
        Transport::Tcp { host, port } => {
            assert_eq!(host, "example.com");
            assert_eq!(port, 6379);
        },
        _ => panic!("expected plain TCP"),
    }
}
