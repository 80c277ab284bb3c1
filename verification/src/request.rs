//! One outstanding remote call, correlated with its eventual response.
//!
//! A correlated request owns the unique token and derived response path for
//! one call, the bookkeeping for the signal matcher subscribed on that path,
//! and a receive-once slot for the decoded response. The request is created
//! — and its path known — before the triggering call is issued; the matcher
//! is removed exactly once, whether or not a response ever arrived.

use vstd::prelude::*;

use crate::error::PortalError;
use crate::ident::{fresh_nonce, request_token, response_path, response_path_spec, token_spec};
use crate::parse::{decode_response, decode_spec, DecodeKind, Payload, PayloadView};
use crate::value::Response;

verus! {

/// One outstanding remote call.
pub struct Request {
    /// The fresh token embedded in the response path.
    pub handle: String,
    /// The derived object path on which the response signal will arrive.
    pub path: String,
    /// Which decoder the response runs through.
    pub kind: DecodeKind,
    /// Whether the matcher for `path` is currently subscribed. Set when the
    /// transport confirms the subscription, before the call is issued.
    pub registered: bool,
    /// Whether the matcher has been torn down. Teardown happens exactly
    /// once; a delivery after it is discarded.
    pub removed: bool,
    /// The receive-once slot: the decoded outcome of the first delivered
    /// response, and of no later one.
    pub slot: Option<Result<Payload, PortalError>>,
}

/// The mathematical shadow of a [`Request`].
pub struct RequestView {
    pub handle: Seq<char>,
    pub path: Seq<char>,
    pub kind: DecodeKind,
    pub registered: bool,
    pub removed: bool,
    pub slot: Option<Result<PayloadView, PortalError>>,
}

impl View for Request {
    type V = RequestView;

    open spec fn view(&self) -> RequestView {
        RequestView {
            handle: self.handle@,
            path: self.path@,
            kind: self.kind,
            registered: self.registered,
            removed: self.removed,
            slot: match self.slot {
                None => None,
                Some(Ok(p)) => Some(Ok(p@)),
                Some(Err(e)) => Some(Err(e)),
            },
        }
    }
}

/// What one delivery does to a request: the first delivery into an empty,
/// not-yet-torn-down slot decodes the response and stores the outcome;
/// every other delivery is discarded.
pub open spec fn deliver_transition(r: RequestView, resp: Response) -> RequestView {
    if r.removed || r.slot is Some {
        r
    } else {
        RequestView { slot: Some(decode_spec(r.kind, resp)), ..r }
    }
}

impl Request {
    /// The matcher lifecycle is one-way: once torn down, never subscribed.
    pub open spec fn wf(self) -> bool {
        !(self.registered && self.removed)
    }

    /// Creates the correlated request for one call: derives the token from
    /// `nonce` and the response path from the transport identity and that
    /// token. No call has been issued and no matcher subscribed yet; the
    /// caller subscribes on `path` strictly before issuing the call.
    pub fn begin(sender: &str, nonce: u64, kind: DecodeKind) -> (r: Request)
        ensures
            r@.handle == token_spec(nonce),
            r@.path == response_path_spec(sender@, token_spec(nonce)),
            r.kind == kind,
            !r.registered,
            !r.removed,
            r.slot is None,
            r.wf(),
    {
        let handle = request_token(nonce);
        let path = response_path(sender, handle.as_str());
        Request { handle, path, kind, registered: false, removed: false, slot: None }
    }

    /// Creates a correlated request whose response carries nothing of
    /// interest: only success or failure matters.
    pub fn new(sender: &str, nonce: u64) -> (r: Request)
        ensures
            r@.handle == token_spec(nonce),
            r@.path == response_path_spec(sender@, token_spec(nonce)),
            r.kind == DecodeKind::Ack,
            !r.registered,
            !r.removed,
            r.slot is None,
            r.wf(),
    {
        Request::begin(sender, nonce, DecodeKind::Ack)
    }

    /// Creates a correlated request with a randomized token, so that
    /// concurrent requests on one connection get distinct response paths.
    pub fn begin_fresh(sender: &str, kind: DecodeKind) -> (r: Request)
        ensures
            exists|nonce: u64|
                r@.handle == token_spec(nonce) && r@.path == response_path_spec(
                    sender@,
                    token_spec(nonce),
                ),
            r.kind == kind,
            !r.registered,
            !r.removed,
            r.slot is None,
            r.wf(),
    {
        let nonce = fresh_nonce();
        let r = Request::begin(sender, nonce, kind);
        proof {
            assert(r@.handle == token_spec(nonce) && r@.path == response_path_spec(
                sender@,
                token_spec(nonce),
            ));
        }
        r
    }

    /// Records that the transport has confirmed the matcher subscription on
    /// this request's path. Only after this may the triggering call go out.
    pub fn mark_registered(&mut self)
        requires
            !old(self).registered,
            !old(self).removed,
        ensures
            *final(self) == (Request { registered: true, ..*old(self) }),
            final(self).wf(),
    {
        self.registered = true;
    }

    /// One delivery of a raw response, as the transport's dispatch hands it
    /// over: decode it and store the outcome, unless the slot is already
    /// occupied or the request is torn down — then discard it.
    pub fn deliver(&mut self, resp: &Response)
        ensures
            final(self)@ == deliver_transition(old(self)@, *resp),
            final(self).wf() == old(self).wf(),
    {
        if self.removed || self.slot.is_some() {
            return ;
        }
        let decoded = decode_response(self.kind, resp);
        self.slot = Some(decoded);
    }

    /// Tears the request down: after this, the matcher is spoken of as
    /// removed, and any later delivery is discarded. Returns whether the
    /// caller now owes the transport one matcher removal — true exactly
    /// when a matcher was subscribed and not yet removed, so removal
    /// happens exactly once however the request ends.
    pub fn teardown(&mut self) -> (owed: bool)
        requires
            old(self).wf(),
        ensures
            owed == old(self).registered,
            *final(self) == (Request { registered: false, removed: true, ..*old(self) }),
            final(self).wf(),
    {
        let owed = self.registered;
        self.registered = false;
        self.removed = true;
        owed
    }

    /// Consumes the request and hands out whatever the slot holds: the
    /// decoded outcome of the first delivered response, or nothing if no
    /// response was ever delivered.
    pub fn take_slot(self) -> (r: Option<Result<Payload, PortalError>>)
        ensures
            self@.slot == match r {
                None => None::<Result<PayloadView, PortalError>>,
                Some(Ok(p)) => Some(Ok(p@)),
                Some(Err(e)) => Some(Err(e)),
            },
    {
        self.slot
    }
}

/// However many responses are delivered, the slot keeps the decoded value
/// of the first one: a second delivery changes nothing.
pub proof fn lemma_first_delivery_wins(r: RequestView, first: Response, second: Response)
    requires
        !r.removed,
        r.slot is None,
    ensures
        deliver_transition(r, first).slot == Some(decode_spec(r.kind, first)),
        deliver_transition(deliver_transition(r, first), second) == deliver_transition(r, first),
{
}

/// A response delivered after teardown is discarded entirely.
pub proof fn lemma_delivery_after_teardown_discarded(r: RequestView, resp: Response)
    requires
        r.removed,
    ensures
        deliver_transition(r, resp) == r,
{
}

} // verus!
