use portal_screencast::parse::{DecodeKind, Payload};
use portal_screencast::request::Request;
use portal_screencast::value::{Response, Value};

#[test]
fn begin_derives_path_before_any_call() {
    let req = Request::begin("1_42", 7, DecodeKind::Ack);
    assert_eq!("screencap7", req.handle.as_str());
    assert_eq!(
        "/org/freedesktop/portal/desktop/request/1_42/screencap7",
        req.path.as_str()
    );
    assert!(!req.registered);
    assert!(!req.removed);
    assert!(req.slot.is_none());
}

#[test]
fn begin_fresh_randomized_token_keeps_shape() {
    let req = Request::begin_fresh("1_42", DecodeKind::Ack);
    assert!(req.handle.as_str().starts_with("screencap"));
    assert!(req.handle.len() > "screencap".len());
    assert!(req
        .path
        .as_str()
        .starts_with("/org/freedesktop/portal/desktop/request/1_42/screencap"));
}

#[test]
fn first_delivery_wins() {
    let mut req = Request::begin("1_42", 1, DecodeKind::SessionHandle);
    req.mark_registered();
    let first = Response {
        status: 0,
        results: vec![(
            "session_handle".to_string(),
            Value::Str("sessA".to_string()),
        )],
    };
    let second = Response {
        status: 0,
        results: vec![(
            "session_handle".to_string(),
            Value::Str("sessB".to_string()),
        )],
    };
    req.deliver(&first);
    req.deliver(&second);
    match req.take_slot() {
        Some(Ok(Payload::Handle(h))) => assert_eq!("sessA", h.as_str()),
        other => panic!("unexpected slot: {:?}", other),
    }
}

#[test]
fn delivery_after_teardown_is_discarded() {
    let mut req = Request::begin("1_42", 1, DecodeKind::Ack);
    req.mark_registered();
    let owed = req.teardown();
    assert!(owed);
    let resp = Response {
        status: 0,
        results: vec![],
    };
    req.deliver(&resp);
    assert!(req.take_slot().is_none());
}

#[test]
fn teardown_owed_exactly_once() {
    let mut req = Request::new("1_42", 2);
    req.mark_registered();
    assert!(req.teardown());
    assert!(!req.teardown());

    let mut unregistered = Request::new("1_42", 3);
    assert!(!unregistered.teardown());
}
