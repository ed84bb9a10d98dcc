//! Tests for client-handle construction: mode selection, the default
//! endpoint, and the structural exactly-one-template invariant.

use redis_kv_client::client::ConnectPlan;
use redis_kv_client::client::RedisClient;
use redis_kv_client::endpoint::Transport;
use redis_kv_client::error::ErrorKind;
use redis_kv_client::settings::RedisSettings;

fn base_settings() -> RedisSettings {
    RedisSettings { address: None, addresses: None, username: None, password: None, db: 0 }
}

#[test]
fn default_endpoint_used_when_nothing_configured() {
    let c = RedisClient::new(&base_settings()).map_err(|e| e.render_single_line()).unwrap();
    assert!(c.client.is_some());
    assert!(c.cluster_client.is_none());
    assert_eq!(c.addresses, "tcp://127.0.0.1:6379");
    assert_eq!(c.connect_plan(), ConnectPlan::Single);
    match &c.descriptor.as_ref().unwrap().transport {
        Transport::Tcp { host, port } => {
            assert_eq!(host, "127.0.0.1");
            assert_eq!(*port, 6379);
        },
        _ => panic!("expected plain TCP"),
    }
}

#[test]
fn configured_address_used_in_single_mode() {
    let mut s = base_settings();
    s.address = Some("redis://node:6380".to_string());
    let c = RedisClient::new(&s).map_err(|e| e.render_single_line()).unwrap();
    assert!(c.client.is_some());
    assert!(c.cluster_client.is_none());
    assert_eq!(c.addresses, "redis://node:6380");
}

#[test]
fn addresses_select_cluster_mode_and_ignore_address() {
    let mut s = base_settings();
    s.address = Some("tcp://ignored:9999".to_string());
    s.addresses = Some("tcp://a:1,tcp://b:2".to_string());
    let c = RedisClient::new(&s).map_err(|e| e.render_single_line()).unwrap();
    assert!(c.cluster_client.is_some());
    assert!(c.client.is_none());
    assert_eq!(c.connect_plan(), ConnectPlan::Cluster);
    assert_eq!(c.addresses, "tcp://a:1,tcp://b:2");
    assert_eq!(c.cluster_descriptors.len(), 2);
    match &c.cluster_descriptors[0].transport {
        Transport::Tcp { host, port } => {
            assert_eq!(host, "a");
            assert_eq!(*port, 1);
        },
        _ => panic!("expected plain TCP"),
    }
    match &c.cluster_descriptors[1].transport {
        Transport::Tcp { host, port } => {
            assert_eq!(host, "b");
            assert_eq!(*port, 2);
        },
        _ => panic!("expected plain TCP"),
    }
}

#[test]
fn bad_cluster_piece_fails_fast() {
    let mut s = base_settings();
    s.addresses = Some("tcp://a:1,http://b:2".to_string());
    let e = RedisClient::new(&s).map(|_| ()).unwrap_err();
    assert_eq!(e.kind(), ErrorKind::ConfigInvalid);
    assert_eq!(e.message_text(), "invalid or unsupported scheme");
}

#[test]
fn bad_single_address_fails() {
    let mut s = base_settings();
    s.address = Some("ftp://x:1".to_string());
    let e = RedisClient::new(&s).map(|_| ()).unwrap_err();
    assert_eq!(e.kind(), ErrorKind::ConfigInvalid);
    assert_eq!(e.message_text(), "invalid or unsupported scheme");
}

#[test]
fn describe_names_only_the_addresses() {
    let c = RedisClient::new(&base_settings()).map_err(|e| e.render_single_line()).unwrap();
    assert_eq!(c.describe(), "RedisClient { addresses: \"tcp://127.0.0.1:6379\" }");
}

#[test]
fn describe_never_contains_password() {
    let mut s = base_settings();
    s.addresses = Some("tcp://a:1,tcp://b:2".to_string());
    s.username = Some("user".to_string());
    s.password = Some("SECRET-VALUE-123".to_string());
    let c = RedisClient::new(&s).map_err(|e| e.render_single_line()).unwrap();
    assert!(!c.describe().contains("SECRET-VALUE-123"));
}

#[test]
fn trailing_comma_makes_an_invalid_piece() {
    let mut s = base_settings();
    s.addresses = Some("tcp://a:1,".to_string());
    let e = RedisClient::new(&s).map(|_| ()).unwrap_err();
    assert_eq!(e.kind(), ErrorKind::ConfigInvalid);
    assert_eq!(e.message_text(), "endpoint is invalid");
}
