//! Decoding the portal's untyped responses into typed records.
//!
//! Pure functions, no I/O. A non-zero response status always decodes to
//! `Cancelled`, whatever the results hold; with status zero, each decoder
//! pattern-matches the expected shape and answers `Parse` on any mismatch —
//! no position in the decode path assumes well-formedness without checking.

use vstd::prelude::*;

use crate::error::PortalError;
use crate::stream::ScreenCastStream;
use crate::value::{lookup, lookup_spec, Response, Value};

verus! {

/// What a successfully decoded response carries.
#[derive(Debug, Clone, PartialEq)]
pub enum Payload {
    /// The opaque session handle returned by the create-session call.
    Handle(String),
    /// A bare acknowledgement; the response carried nothing of interest.
    Ack,
    /// The list of streams granted by the start call.
    Streams(Vec<ScreenCastStream>),
}

/// The mathematical shadow of [`Payload`]: the same cases over views.
pub enum PayloadView {
    Handle(Seq<char>),
    Ack,
    Streams(Seq<ScreenCastStream>),
}

impl View for Payload {
    type V = PayloadView;

    open spec fn view(&self) -> PayloadView {
        match self {
            Payload::Handle(s) => PayloadView::Handle(s@),
            Payload::Ack => PayloadView::Ack,
            Payload::Streams(v) => PayloadView::Streams(v@),
        }
    }
}

/// Which decoder a correlated request applies to its response.
#[derive(Debug, Clone, Copy, PartialEq, Eq, Structural)]
pub enum DecodeKind {
    /// Expect a `session_handle` string in the results.
    SessionHandle,
    /// Expect nothing; only success or failure matters.
    Ack,
    /// Expect a `streams` list in the results.
    StreamList,
}

/// A `(width, height)` pair: an ordered list whose first two elements are
/// signed integers. Anything else is a parse failure.
pub open spec fn size_pair_spec(v: Value) -> Result<(u32, u32), PortalError> {
    match v {
        Value::List(pair) => if pair@.len() < 2 {
            Err(PortalError::Parse)
        } else {
            match (pair@[0], pair@[1]) {
                (Value::Int(w), Value::Int(h)) => Ok(((w as u32), (h as u32))),
                _ => Err(PortalError::Parse),
            }
        },
        _ => Err(PortalError::Parse),
    }
}

/// The dimensions a stream's metadata map gives it: `(0, 0)` when no `size`
/// entry is present (some sources have no fixed dimensions), the last valid
/// `size` entry otherwise; a malformed `size` entry anywhere is a parse
/// failure.
pub open spec fn stream_size_spec(entries: Seq<(String, Value)>) -> Result<
    (u32, u32),
    PortalError,
>
    decreases entries.len(),
{
    if entries.len() == 0 {
        Ok((0u32, 0u32))
    } else {
        let head = stream_size_spec(entries.drop_last());
        if entries.last().0@ == "size"@ {
            match size_pair_spec(entries.last().1) {
                Ok(wh) => if head is Err {
                    Err(PortalError::Parse)
                } else {
                    Ok(wh)
                },
                Err(e) => Err(PortalError::Parse),
            }
        } else {
            head
        }
    }
}

/// One stream entry: an ordered pair of a node identifier and a metadata
/// map. The node identifier is kept modulo 2^32, as the wire carries it.
pub open spec fn parse_stream_spec(v: Value) -> Result<ScreenCastStream, PortalError> {
    match v {
        Value::List(parts) => if parts@.len() < 2 {
            Err(PortalError::Parse)
        } else {
            match (parts@[0], parts@[1]) {
                (Value::Uint(id), Value::Dict(entries)) => match stream_size_spec(entries@) {
                    Ok(wh) => Ok(
                        ScreenCastStream {
                            pipewire_node: (id as u32),
                            width: wh.0,
                            height: wh.1,
                        },
                    ),
                    Err(e) => Err(PortalError::Parse),
                },
                _ => Err(PortalError::Parse),
            }
        },
        _ => Err(PortalError::Parse),
    }
}

/// Every stream entry of the list, in order; a failure anywhere fails the
/// whole list.
pub open spec fn parse_streams_spec(items: Seq<Value>) -> Result<Seq<ScreenCastStream>, PortalError>
    decreases items.len(),
{
    if items.len() == 0 {
        Ok(Seq::<ScreenCastStream>::empty())
    } else {
        match parse_streams_spec(items.drop_last()) {
            Ok(pre) => match parse_stream_spec(items.last()) {
                Ok(s) => Ok(pre.push(s)),
                Err(e) => Err(PortalError::Parse),
            },
            Err(e) => Err(PortalError::Parse),
        }
    }
}

/// The stream list carried by a value: the value must be a list.
pub open spec fn stream_list_spec(v: Value) -> Result<Seq<ScreenCastStream>, PortalError> {
    match v {
        Value::List(items) => parse_streams_spec(items@),
        _ => Err(PortalError::Parse),
    }
}

/// The session handle in a result map: the `session_handle` entry, which
/// must be a string.
pub open spec fn decode_handle_spec(results: Seq<(String, Value)>) -> Result<
    Seq<char>,
    PortalError,
> {
    match lookup_spec(results, "session_handle"@) {
        Some(Value::Str(s)) => Ok(s@),
        _ => Err(PortalError::Parse),
    }
}

/// The stream list in a result map: the `streams` entry.
pub open spec fn decode_streams_spec(results: Seq<(String, Value)>) -> Result<
    Seq<ScreenCastStream>,
    PortalError,
> {
    match lookup_spec(results, "streams"@) {
        Some(v) => stream_list_spec(v),
        _ => Err(PortalError::Parse),
    }
}

/// What decoding a response yields: `Cancelled` on any non-zero status, and
/// otherwise the typed reading of the results that `kind` asks for.
pub open spec fn decode_spec(kind: DecodeKind, resp: Response) -> Result<
    PayloadView,
    PortalError,
> {
    if resp.status != 0 {
        Err(PortalError::Cancelled)
    } else {
        match kind {
            DecodeKind::SessionHandle => match decode_handle_spec(resp.results@) {
                Ok(s) => Ok(PayloadView::Handle(s)),
                Err(e) => Err(e),
            },
            DecodeKind::Ack => Ok(PayloadView::Ack),
            DecodeKind::StreamList => match decode_streams_spec(resp.results@) {
                Ok(l) => Ok(PayloadView::Streams(l)),
                Err(e) => Err(e),
            },
        }
    }
}

/// A response with a non-zero status always decodes to `Cancelled`,
/// whatever its results hold — even an empty or malformed result map.
pub proof fn lemma_nonzero_status_is_cancelled(kind: DecodeKind, resp: Response)
    requires
        resp.status != 0,
    ensures
        decode_spec(kind, resp) == Err::<PayloadView, PortalError>(PortalError::Cancelled),
{
}

/// Reads a `(width, height)` pair.
fn size_pair(v: &Value) -> (r: Result<(u32, u32), PortalError>)
    ensures
        r == size_pair_spec(*v),
{
    match v {
        Value::List(pair) => {
            if pair.len() < 2 {
                Err(PortalError::Parse)
            } else {
                match (&pair[0], &pair[1]) {
                    (Value::Int(w), Value::Int(h)) => Ok(
                        (
                            #[verifier::truncate]
                            ((*w) as u32),
                            #[verifier::truncate]
                            ((*h) as u32),
                        ),
                    ),
                    _ => Err(PortalError::Parse),
                }
            }
        },
        _ => Err(PortalError::Parse),
    }
}

/// A malformed `size` entry anywhere in a metadata map fails the whole map.
proof fn lemma_stream_size_err(entries: Seq<(String, Value)>, i: int)
    requires
        0 <= i < entries.len(),
        entries[i].0@ == "size"@,
        size_pair_spec(entries[i].1) is Err,
    ensures
        stream_size_spec(entries) == Err::<(u32, u32), PortalError>(PortalError::Parse),
    decreases entries.len(),
{
    if i < entries.len() - 1 {
        assert(entries.drop_last()[i] == entries[i]);
        lemma_stream_size_err(entries.drop_last(), i);
    }
}

/// Reads the dimensions out of a stream's metadata map.
fn stream_size(entries: &Vec<(String, Value)>) -> (r: Result<(u32, u32), PortalError>)
    ensures
        r == stream_size_spec(entries@),
{
    let needle = String::from_str("size");
    let n = entries.len();
    let mut w: u32 = 0;
    let mut h: u32 = 0;
    let mut i: usize = 0;
    while i < n
        invariant
            0 <= i <= n,
            n == entries@.len(),
            needle@ == "size"@,
            stream_size_spec(entries@.take(i as int)) == Ok::<(u32, u32), PortalError>((w, h)),
        decreases n - i,
    {
        proof {
            assert(entries@.take(i as int + 1).drop_last() =~= entries@.take(i as int));
            assert(entries@.take(i as int + 1).last() == entries@[i as int]);
        }
        if entries[i].0.eq(&needle) {
            match size_pair(&entries[i].1) {
                Ok(wh) => {
                    w = wh.0;
                    h = wh.1;
                },
                Err(_) => {
                    proof {
                        lemma_stream_size_err(entries@, i as int);
                    }
                    return Err(PortalError::Parse);
                },
            }
        }
        i += 1;
    }
    proof {
        assert(entries@.take(n as int) =~= entries@);
    }
    Ok((w, h))
}

/// Reads one stream entry.
pub fn parse_stream(v: &Value) -> (r: Result<ScreenCastStream, PortalError>)
    ensures
        r == parse_stream_spec(*v),
{
    match v {
        Value::List(parts) => {
            if parts.len() < 2 {
                Err(PortalError::Parse)
            } else {
                match (&parts[0], &parts[1]) {
                    (Value::Uint(id), Value::Dict(entries)) => {
                        match stream_size(entries) {
                            Ok(wh) => Ok(
                                ScreenCastStream {
                                    pipewire_node: (
                                    #[verifier::truncate]
                                    ((*id) as u32)),
                                    width: wh.0,
                                    height: wh.1,
                                },
                            ),
                            Err(_) => Err(PortalError::Parse),
                        }
                    },
                    _ => Err(PortalError::Parse),
                }
            }
        },
        _ => Err(PortalError::Parse),
    }
}

/// A malformed entry anywhere in a stream list fails the whole list.
proof fn lemma_parse_streams_err(items: Seq<Value>, i: int)
    requires
        0 <= i < items.len(),
        parse_stream_spec(items[i]) is Err,
    ensures
        parse_streams_spec(items) == Err::<Seq<ScreenCastStream>, PortalError>(PortalError::Parse),
    decreases items.len(),
{
    if i < items.len() - 1 {
        assert(items.drop_last()[i] == items[i]);
        lemma_parse_streams_err(items.drop_last(), i);
    }
}

/// Reads a whole stream list value.
pub fn decode_stream_list(v: &Value) -> (r: Result<Vec<ScreenCastStream>, PortalError>)
    ensures
        match r {
            Ok(out) => stream_list_spec(*v) == Ok::<Seq<ScreenCastStream>, PortalError>(out@),
            Err(e) => stream_list_spec(*v) == Err::<Seq<ScreenCastStream>, PortalError>(e),
        },
{
    match v {
        Value::List(items) => {
            let n = items.len();
            let mut out: Vec<ScreenCastStream> = Vec::new();
            let mut i: usize = 0;
            while i < n
                invariant
                    0 <= i <= n,
                    n == items@.len(),
                    *v is List && (*v)->List_0 == *items,
                    parse_streams_spec(items@.take(i as int)) == Ok::<
                        Seq<ScreenCastStream>,
                        PortalError,
                    >(out@),
                decreases n - i,
            {
                proof {
                    assert(items@.take(i as int + 1).drop_last() =~= items@.take(i as int));
                    assert(items@.take(i as int + 1).last() == items@[i as int]);
                }
                match parse_stream(&items[i]) {
                    Ok(s) => {
                        out.push(s);
                    },
                    Err(_) => {
                        proof {
                            lemma_parse_streams_err(items@, i as int);
                            assert(parse_streams_spec(items@) == Err::<
                                Seq<ScreenCastStream>,
                                PortalError,
                            >(PortalError::Parse));
                            assert(*v is List && (*v)->List_0 == *items);
                            assert(stream_list_spec(*v) == Err::<
                                Seq<ScreenCastStream>,
                                PortalError,
                            >(PortalError::Parse));
                        }
                        return Err(PortalError::Parse);
                    },
                }
                i += 1;
            }
            proof {
                assert(items@.take(n as int) =~= items@);
            }
            Ok(out)
        },
        _ => Err(PortalError::Parse),
    }
}

/// Decodes a raw response as `kind` asks: `Cancelled` on non-zero status,
/// then the typed reading of the results, `Parse` on any shape mismatch.
pub fn decode_response(kind: DecodeKind, resp: &Response) -> (r: Result<Payload, PortalError>)
    ensures
        match r {
            Ok(p) => decode_spec(kind, *resp) == Ok::<PayloadView, PortalError>(p@),
            Err(e) => decode_spec(kind, *resp) == Err::<PayloadView, PortalError>(e),
        },
{
    if resp.status != 0 {
        return Err(PortalError::Cancelled);
    }
    match kind {
        DecodeKind::SessionHandle => {
            let needle = String::from_str("session_handle");
            match lookup(&resp.results, &needle) {
                Some(Value::Str(s)) => Ok(Payload::Handle(s.clone())),
                _ => Err(PortalError::Parse),
            }
        },
        DecodeKind::Ack => Ok(Payload::Ack),
        DecodeKind::StreamList => {
            let needle = String::from_str("streams");
            match lookup(&resp.results, &needle) {
                Some(v) => match decode_stream_list(v) {
                    Ok(streams) => Ok(Payload::Streams(streams)),
                    Err(e) => Err(e),
                },
                _ => Err(PortalError::Parse),
            }
        },
    }
}

} // verus!
