use bb8_redis::error::PoolError;
use bb8_redis::manager::RedisConnectionManager;

fn manager() -> RedisConnectionManager {
    let client = redis::Client::open("redis://127.0.0.1:6379/3").unwrap();
    RedisConnectionManager::new(client).unwrap()
}

#[test]
fn new_keeps_the_client() {
    let client = redis::Client::open("redis://127.0.0.1:6379/3").unwrap();
    let addr = client.get_connection_info().addr().to_string();
    let m = RedisConnectionManager::new(client).unwrap();
    assert_eq!(m.client.get_connection_info().addr().to_string(), addr);
    assert_eq!(m.client.get_connection_info().redis_settings().db(), 3);
}

#[test]
fn clone_keeps_the_client() {
    let m = manager();
    let copy = m.clone();
    assert_eq!(
        copy.client.get_connection_info().addr().to_string(),
        m.client.get_connection_info().addr().to_string()
    );
}

#[test]
fn empty_handle_is_broken() {
    let m = manager();
    let mut conn = None;
    assert!(m.has_broken(&mut conn));
    assert!(conn.is_none());
}

#[test]
fn timed_out_is_an_io_timeout() {
    let e = manager().timed_out();
    assert!(e.is_timeout());
    assert!(e.is_io_error());
    assert_eq!(e.kind(), redis::ErrorKind::Io);
    assert_eq!(e.to_string(), "RedisConnectionManager timed out");
}

#[test]
fn timed_out_gives_the_same_error_every_time() {
    let first = manager().timed_out();
    let second = manager().timed_out();
    assert_eq!(first.kind(), second.kind());
    assert_eq!(first.is_timeout(), second.is_timeout());
    assert_eq!(first.to_string(), second.to_string());
}

#[test]
fn is_timeout_tells_timeouts_from_other_errors() {
    let m = manager();
    assert!(m.is_timeout(&m.timed_out()));
    let would_block = std::io::Error::new(std::io::ErrorKind::WouldBlock, "later");
    assert!(m.is_timeout(&redis::RedisError::from(would_block)));
    let refused = std::io::Error::new(std::io::ErrorKind::ConnectionRefused, "refused");
    assert!(!m.is_timeout(&redis::RedisError::from(refused)));
    let other = redis::RedisError::from((redis::ErrorKind::Client, "went wrong"));
    assert!(!m.is_timeout(&other));
}

#[test]
fn surface_turns_a_timeout_into_the_timeout_error() {
    let e = manager().surface(PoolError::TimedOut);
    assert!(e.is_timeout());
    assert_eq!(e.kind(), redis::ErrorKind::Io);
    assert_eq!(e.to_string(), "RedisConnectionManager timed out");
}

#[test]
fn surface_hands_back_the_carried_error() {
    let m = manager();
    let cause = redis::RedisError::from((redis::ErrorKind::Client, "went wrong"));
    let e = m.surface(PoolError::OperationFailed(cause));
    assert_eq!(e.kind(), redis::ErrorKind::Client);
    assert!(!e.is_timeout());
    let cause = redis::RedisError::from((redis::ErrorKind::AuthenticationFailed, "denied"));
    let e = m.surface(PoolError::ConnectFailed(cause));
    assert_eq!(e.kind(), redis::ErrorKind::AuthenticationFailed);
    let cause = redis::RedisError::from((redis::ErrorKind::Parse, "garbled"));
    let e = m.surface(PoolError::ValidationFailed(cause));
    assert_eq!(e.kind(), redis::ErrorKind::Parse);
}
