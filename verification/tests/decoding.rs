use portal_screencast::parse::{decode_response, decode_stream_list, parse_stream, DecodeKind, Payload};
use portal_screencast::value::{Response, Value};
use portal_screencast::PortalError;

fn size_entry(w: i64, h: i64) -> (String, Value) {
    (
        "size".to_string(),
        Value::List(vec![Value::Int(w), Value::Int(h)]),
    )
}

#[test]
fn nonzero_status_is_cancelled_with_empty_results() {
    let resp = Response {
        status: 1,
        results: vec![],
    };
    for kind in [
        DecodeKind::SessionHandle,
        DecodeKind::Ack,
        DecodeKind::StreamList,
    ] {
        match decode_response(kind, &resp) {
            Err(PortalError::Cancelled) => {}
            other => panic!("expected Cancelled, got {:?}", other),
        }
    }
}

#[test]
fn nonzero_status_is_cancelled_with_well_formed_results() {
    let resp = Response {
        status: 1,
        results: vec![
            (
                "session_handle".to_string(),
                Value::Str("sess1".to_string()),
            ),
            ("streams".to_string(), Value::List(vec![])),
        ],
    };
    for kind in [
        DecodeKind::SessionHandle,
        DecodeKind::Ack,
        DecodeKind::StreamList,
    ] {
        match decode_response(kind, &resp) {
            Err(PortalError::Cancelled) => {}
            other => panic!("expected Cancelled, got {:?}", other),
        }
    }
}

#[test]
fn stream_list_with_size() {
    let v = Value::List(vec![Value::List(vec![
        Value::Uint(42),
        Value::Dict(vec![size_entry(800, 600)]),
    ])]);
    let streams = decode_stream_list(&v).unwrap();
    assert_eq!(1, streams.len());
    assert_eq!(42, streams[0].pipewire_node());
    assert_eq!(800, streams[0].width());
    assert_eq!(600, streams[0].height());
    assert_eq!((800, 600), streams[0].size());
}

#[test]
fn stream_without_size_gets_zero_dimensions() {
    let v = Value::List(vec![Value::List(vec![
        Value::Uint(7),
        Value::Dict(vec![]),
    ])]);
    let streams = decode_stream_list(&v).unwrap();
    assert_eq!(1, streams.len());
    assert_eq!(7, streams[0].pipewire_node());
    assert_eq!(0, streams[0].width());
    assert_eq!(0, streams[0].height());
}

#[test]
fn stream_with_non_map_metadata_is_parse_error() {
    let v = Value::List(vec![Value::List(vec![Value::Uint(7), Value::Uint(9)])]);
    match decode_stream_list(&v) {
        Err(PortalError::Parse) => {}
        other => panic!("expected Parse, got {:?}", other),
    }
}

#[test]
fn malformed_size_entry_is_parse_error() {
    let v = Value::List(vec![
        Value::Uint(7),
        Value::Dict(vec![("size".to_string(), Value::Str("big".to_string()))]),
    ]);
    match parse_stream(&v) {
        Err(PortalError::Parse) => {}
        other => panic!("expected Parse, got {:?}", other),
    }
}

#[test]
fn later_size_entry_wins() {
    let v = Value::List(vec![
        Value::Uint(11),
        Value::Dict(vec![size_entry(1, 2), size_entry(640, 480)]),
    ]);
    let s = parse_stream(&v).unwrap();
    assert_eq!((640, 480), s.size());
}

#[test]
fn session_handle_decoding() {
    let ok = Response {
        status: 0,
        results: vec![(
            "session_handle".to_string(),
            Value::Str("sess1".to_string()),
        )],
    };
    match decode_response(DecodeKind::SessionHandle, &ok) {
        Ok(Payload::Handle(h)) => assert_eq!("sess1", h.as_str()),
        other => panic!("expected handle, got {:?}", other),
    }

    let missing = Response {
        status: 0,
        results: vec![],
    };
    match decode_response(DecodeKind::SessionHandle, &missing) {
        Err(PortalError::Parse) => {}
        other => panic!("expected Parse, got {:?}", other),
    }

    let wrong_shape = Response {
        status: 0,
        results: vec![("session_handle".to_string(), Value::Uint(4))],
    };
    match decode_response(DecodeKind::SessionHandle, &wrong_shape) {
        Err(PortalError::Parse) => {}
        other => panic!("expected Parse, got {:?}", other),
    }
}

#[test]
fn error_messages() {
    assert_eq!("malformed portal response", PortalError::Parse.message());
    assert_eq!("cancelled by the user", PortalError::Cancelled.message());
    assert_eq!(
        "transport error: boom",
        PortalError::DBus("boom".to_string()).message()
    );
    assert_eq!(
        "portal error: nope",
        PortalError::Generic("nope".to_string()).message()
    );
}
