use portal_screencast::ident::{request_token, response_path, sender_token};
use std::collections::HashSet;

#[test]
fn token_has_prefix_and_decimal() {
    assert_eq!("screencap0", request_token(0).as_str());
    assert_eq!("screencap12345", request_token(12345).as_str());
    assert_eq!("screencap18446744073709551615", request_token(u64::MAX).as_str());
}

#[test]
fn sender_token_sanitizes_unique_name() {
    assert_eq!("1_42", sender_token(":1.42").as_str());
    assert_eq!("1_42_7", sender_token(":1.42.7").as_str());
}

#[test]
fn response_path_shape() {
    let sender = sender_token(":1.42");
    let token = request_token(7);
    let path = response_path(sender.as_str(), token.as_str());
    assert_eq!(
        "/org/freedesktop/portal/desktop/request/1_42/screencap7",
        path.as_str()
    );
}

#[test]
fn distinct_nonces_give_distinct_paths() {
    let sender = sender_token(":1.99");
    let mut seen: HashSet<String> = HashSet::new();
    for nonce in 0..10_000u64 {
        let path = response_path(sender.as_str(), request_token(nonce).as_str());
        assert!(seen.insert(path));
    }
}

#[test]
fn concurrent_request_paths_are_distinct() {
    // A large sample of randomized tokens on one transport identity: every
    // derived response path must be distinct.
    let sender = sender_token(":1.99");
    let mut seen: HashSet<String> = HashSet::new();
    for _ in 0..10_000 {
        let nonce: u64 = rand::random();
        let path = response_path(sender.as_str(), request_token(nonce).as_str());
        assert!(seen.insert(path));
    }
}
