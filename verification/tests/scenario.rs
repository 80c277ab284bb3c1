use portal_screencast::value::{Response, Value};
use portal_screencast::{
    Action, CursorMode, Phase, PortalError, ScreenCast, SessionMachine, SourceType, Step,
};

fn handle_response(handle: &str) -> Response {
    Response {
        status: 0,
        results: vec![("session_handle".to_string(), Value::Str(handle.to_string()))],
    }
}

fn ack_response(status: u32) -> Response {
    Response {
        status,
        results: vec![],
    }
}

fn streams_response(node: u64, w: i64, h: i64) -> Response {
    let entry = Value::List(vec![
        Value::Uint(node),
        Value::Dict(vec![(
            "size".to_string(),
            Value::List(vec![Value::Int(w), Value::Int(h)]),
        )]),
    ]);
    Response {
        status: 0,
        results: vec![("streams".to_string(), Value::List(vec![entry]))],
    }
}

#[test]
fn matcher_is_registered_before_call_is_issued() {
    let mut m = SessionMachine::new("1_42".to_string(), ScreenCast::new(), None);
    // The first observable action is the matcher subscription, carrying the
    // derived response path; only after the subscription is confirmed does
    // the machine produce the triggering call.
    let a1 = m.open(1, 2);
    match a1 {
        Action::RegisterMatcher { path } => assert_eq!(
            "/org/freedesktop/portal/desktop/request/1_42/screencap1",
            path.as_str()
        ),
        other => panic!("expected RegisterMatcher first, got {:?}", other),
    }
    assert_eq!(Phase::AwaitingMatcher(Step::CreateSession), m.phase);
    let a2 = m.matcher_ready();
    match a2 {
        Action::CallCreateSession {
            handle_token,
            session_handle_token,
        } => {
            assert_eq!("screencap1", handle_token.as_str());
            assert_eq!("screencap2", session_handle_token.as_str());
        }
        other => panic!("expected CallCreateSession second, got {:?}", other),
    }
    assert_eq!(Phase::AwaitingResponse(Step::CreateSession), m.phase);
}

#[test]
fn end_to_end_grant() {
    let mut m = SessionMachine::new("1_42".to_string(), ScreenCast::new(), None);
    let _ = m.open(1, 2);
    let _ = m.matcher_ready();
    let a = m.on_response(&handle_response("sess1"));
    assert!(matches!(a, Action::RemoveMatcher { .. }));
    assert_eq!(Phase::Configuring, m.phase);
    assert_eq!(Some("sess1".to_string()), m.session);

    // No source types were chosen, so the machine asks the remote and
    // defaults to everything it reports.
    assert!(m.needs_source_types());
    assert_eq!(Action::QuerySourceTypes, m.query_source_types());
    m.source_types_reported(3);

    let _ = m.select_sources(5);
    match m.matcher_ready() {
        Action::CallSelectSources {
            session,
            handle_token,
            types,
            multiple,
            cursor_mode,
        } => {
            assert_eq!("sess1", session.as_str());
            assert_eq!("screencap5", handle_token.as_str());
            assert_eq!(3, types);
            assert!(!multiple);
            assert_eq!(1, cursor_mode);
        }
        other => panic!("unexpected action: {:?}", other),
    }
    let _ = m.on_response(&ack_response(0));
    assert_eq!(Phase::SourcesSelected, m.phase);

    let _ = m.start_cast(7);
    match m.matcher_ready() {
        Action::CallStart {
            session,
            handle_token,
            parent_window,
        } => {
            assert_eq!("sess1", session.as_str());
            assert_eq!("screencap7", handle_token.as_str());
            assert_eq!("", parent_window.as_str());
        }
        other => panic!("unexpected action: {:?}", other),
    }
    let _ = m.on_response(&streams_response(9, 1920, 1080));
    assert_eq!(Phase::OpeningRemote, m.phase);

    let a = m.request_remote();
    assert_eq!(
        Action::CallOpenRemote {
            session: "sess1".to_string()
        },
        a
    );
    m.remote_opened(5);
    assert_eq!(Phase::Active, m.phase);

    let mut cap = m.take_capability();
    assert_eq!(5, cap.pipewire_fd());
    assert_eq!(1, cap.streams().len());
    assert_eq!(9, cap.streams()[0].pipewire_node());
    assert_eq!((1920, 1080), cap.streams()[0].size());

    // A subsequent explicit close issues exactly one close call,
    // referencing the session's address.
    let c1 = cap.close();
    assert_eq!(
        Some(Action::CallClose {
            session: "sess1".to_string()
        }),
        c1
    );
    let c2 = cap.close();
    assert_eq!(None, c2);
}

#[test]
fn declined_select_sources_cancels() {
    let mut m = SessionMachine::new("1_42".to_string(), ScreenCast::new(), None);
    let _ = m.open(1, 2);
    let _ = m.matcher_ready();
    let _ = m.on_response(&handle_response("sess1"));
    let _ = m.query_source_types();
    m.source_types_reported(3);
    let _ = m.select_sources(5);
    let _ = m.matcher_ready();

    // The user declines: the select-sources response carries status 1.
    let a = m.on_response(&ack_response(1));
    assert!(matches!(a, Action::RemoveMatcher { .. }));
    assert_eq!(Phase::Cancelled, m.phase);
    assert_eq!(Some(PortalError::Cancelled), m.error);
    // The sequence stopped here: no streams, no file descriptor.
    assert!(m.streams.is_none());
    assert!(m.fd.is_none());
}

#[test]
fn parse_failure_on_malformed_handle() {
    let mut m = SessionMachine::new("1_42".to_string(), ScreenCast::new(), None);
    let _ = m.open(1, 2);
    let _ = m.matcher_ready();
    // Status 0 but no session_handle entry: a protocol-contract mismatch.
    let a = m.on_response(&ack_response(0));
    assert!(matches!(a, Action::RemoveMatcher { .. }));
    assert_eq!(Phase::Failed, m.phase);
    assert_eq!(Some(PortalError::Parse), m.error);
}

#[test]
fn transport_failure_is_fatal() {
    let mut m = SessionMachine::new("1_42".to_string(), ScreenCast::new(), None);
    let _ = m.open(1, 2);
    let _ = m.matcher_ready();
    let a = m.transport_failed("socket closed".to_string());
    assert!(matches!(a, Some(Action::RemoveMatcher { .. })));
    assert_eq!(Phase::Failed, m.phase);
    assert_eq!(Some(PortalError::DBus("socket closed".to_string())), m.error);
    assert!(m.pending.is_none());
}

#[test]
fn chosen_source_types_skip_query() {
    let mut cast = ScreenCast::new();
    cast.set_source_types(SourceType::MONITOR());
    cast.set_cursor_mode(CursorMode::EMBEDDED());
    cast.enable_multiple();
    let mut m = SessionMachine::new(
        "1_42".to_string(),
        cast,
        Some("wayland:w1".to_string()),
    );
    let _ = m.open(1, 2);
    let _ = m.matcher_ready();
    let _ = m.on_response(&handle_response("sess2"));
    assert!(!m.needs_source_types());
    let _ = m.select_sources(5);
    match m.matcher_ready() {
        Action::CallSelectSources {
            types,
            multiple,
            cursor_mode,
            ..
        } => {
            assert_eq!(1, types);
            assert!(multiple);
            assert_eq!(2, cursor_mode);
        }
        other => panic!("unexpected action: {:?}", other),
    }
    let _ = m.on_response(&ack_response(0));
    let _ = m.start_cast(7);
    match m.matcher_ready() {
        Action::CallStart { parent_window, .. } => {
            assert_eq!("wayland:w1", parent_window.as_str());
        }
        other => panic!("unexpected action: {:?}", other),
    }
}
