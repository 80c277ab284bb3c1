//! The session state machine: three dependent remote calls, sequenced.
//!
//! Establishing a capture capability takes create-session, select-sources
//! and start — each wrapped in its own correlated request — followed by a
//! direct call that yields the media file descriptor. The machine here holds
//! every decision of that sequence as verified transitions over plain
//! values; the embedding program performs each returned [`Action`] against
//! the real transport and feeds the resulting event back in.
//!
//! The transition methods are the only places a call action is produced,
//! and each produces it only from a state whose pending request's matcher
//! is already registered: the subscription always predates the call.

use vstd::prelude::*;

use crate::error::PortalError;
use crate::flags::{CursorMode, SourceType};
use crate::ident::{fresh_nonce, request_token, response_path_spec, token_spec};
use crate::parse::{decode_spec, DecodeKind, Payload, PayloadView};
use crate::request::Request;
use crate::stream::ScreenCastStream;
use crate::value::Response;
use vstd::pervasive::unreached;

verus! {

/// The parent-window identifier a start call carries: the caller's window,
/// or the empty string for none.
pub open spec fn parent_window_spec(p: Option<String>) -> Seq<char> {
    match p {
        Some(s) => s@,
        None => Seq::<char>::empty(),
    }
}

/// An un-started screencast configuration. This is queried and narrowed
/// locally — which source types to prompt for, how to treat the cursor,
/// whether several items may be picked — before the machine sends it to the
/// remote service.
#[derive(Debug, Clone, PartialEq)]
pub struct ScreenCast {
    /// Whether the user may select more than one item to share.
    pub multiple: bool,
    /// The source types to offer; `None` means all the remote reports.
    pub source_types: Option<SourceType>,
    /// How the cursor is represented; `None` means hidden.
    pub cursor_mode: Option<CursorMode>,
}

impl ScreenCast {
    /// A fresh configuration: single selection, every available source
    /// type, hidden cursor.
    pub fn new() -> (r: ScreenCast)
        ensures
            r.multiple == false,
            r.source_types is None,
            r.cursor_mode is None,
    {
        ScreenCast { multiple: false, source_types: None, cursor_mode: None }
    }

    /// Set the source types to capture. This should be a subset of those
    /// the remote reports as available.
    pub fn set_source_types(&mut self, types: SourceType)
        ensures
            *final(self) == (ScreenCast { source_types: Some(types), ..*old(self) }),
    {
        self.source_types = Some(types);
    }

    /// Set cursor visibility/mode (hidden by default).
    pub fn set_cursor_mode(&mut self, mode: CursorMode)
        ensures
            *final(self) == (ScreenCast { cursor_mode: Some(mode), ..*old(self) }),
    {
        self.cursor_mode = Some(mode);
    }

    /// Enable multi-stream selection: the user may choose more than one
    /// thing to share, and each becomes a separate stream.
    pub fn enable_multiple(&mut self)
        ensures
            *final(self) == (ScreenCast { multiple: true, ..*old(self) }),
    {
        self.multiple = true;
    }
}

/// The cursor-mode bits the machine sends: the chosen mode, or hidden.
pub open spec fn cursor_bits_spec(c: ScreenCast) -> u32 {
    match c.cursor_mode {
        Some(m) => m.bits,
        None => 1u32,
    }
}

/// The source-type bits the machine sends: the chosen set, or everything
/// the remote reported as available.
pub open spec fn types_bits_spec(c: ScreenCast, available: Option<u32>) -> u32 {
    match c.source_types {
        Some(t) => t.bits,
        None => available->0,
    }
}

/// The three correlated steps of the protocol.
#[derive(Debug, Clone, Copy, PartialEq, Eq, Structural)]
pub enum Step {
    /// Open the capture session; the response carries its handle.
    CreateSession,
    /// Offer the configured source types; only success matters.
    SelectSources,
    /// Prompt the user and start; the response carries the streams.
    StartCast,
}

/// The decoder each step's response runs through.
pub open spec fn kind_of(s: Step) -> DecodeKind {
    match s {
        Step::CreateSession => DecodeKind::SessionHandle,
        Step::SelectSources => DecodeKind::Ack,
        Step::StartCast => DecodeKind::StreamList,
    }
}

/// Where the machine stands.
#[derive(Debug, Clone, Copy, PartialEq, Eq, Structural)]
pub enum Phase {
    /// Nothing has happened yet.
    Unopened,
    /// A matcher subscription for the step's response path is outstanding.
    AwaitingMatcher(Step),
    /// The step's call has been issued; its response is outstanding.
    AwaitingResponse(Step),
    /// The session is open; the configuration may still be changed.
    Configuring,
    /// The remote was asked which source types are available.
    QueryingTypes,
    /// Select-sources was acknowledged; start may be issued.
    SourcesSelected,
    /// Start succeeded; the direct file-descriptor call is owed.
    OpeningRemote,
    /// The file-descriptor call has been issued; its reply is outstanding.
    AwaitingFd,
    /// The capability is complete and may be taken.
    Active,
    /// The user declined, or the remote rejected a request.
    Cancelled,
    /// A transport or protocol failure ended the sequence.
    Failed,
}

/// What the embedding program must do next against the real transport.
#[derive(Debug, PartialEq)]
pub enum Action {
    /// Subscribe a signal matcher on `path` — before any call is issued.
    RegisterMatcher { path: String },
    /// Remove the matcher subscribed on `path`; owed exactly once per
    /// correlated request.
    RemoveMatcher { path: String },
    /// Issue create-session with the two freshly generated tokens.
    CallCreateSession { handle_token: String, session_handle_token: String },
    /// Ask the remote which source types it can offer.
    QuerySourceTypes,
    /// Issue select-sources against the open session.
    CallSelectSources {
        session: String,
        handle_token: String,
        types: u32,
        multiple: bool,
        cursor_mode: u32,
    },
    /// Issue start against the open session.
    CallStart { session: String, handle_token: String, parent_window: String },
    /// Issue the direct open-pipewire-remote call against the session.
    CallOpenRemote { session: String },
    /// Issue the close call against the session's own address.
    CallClose { session: String },
}

/// The session state machine for one capture negotiation.
pub struct SessionMachine {
    /// The transport identity every response path is derived from.
    pub sender: String,
    /// The local configuration sent at select-sources.
    pub cast: ScreenCast,
    /// The window the permission dialog is tied to, if any.
    pub parent_window: Option<String>,
    /// Where the machine stands.
    pub phase: Phase,
    /// The correlated request of the step in flight, if any.
    pub pending: Option<Request>,
    /// The session's own handle-token, sent in create-session.
    pub session_token: Option<String>,
    /// The opaque session handle the remote returned.
    pub session: Option<String>,
    /// The source types the remote reported, when it was asked.
    pub available_types: Option<u32>,
    /// The streams granted by the start step.
    pub streams: Option<Vec<ScreenCastStream>>,
    /// The file descriptor of the media connection.
    pub fd: Option<i32>,
    /// What ended the sequence, when it failed or was declined.
    pub error: Option<PortalError>,
}

impl SessionMachine {
    /// Whether the source-type bits for select-sources can be computed:
    /// either the caller chose a set, or the remote's report is in hand.
    pub open spec fn types_known(self) -> bool {
        self.cast.source_types is Some || self.available_types is Some
    }

    /// Every state the transition methods can reach satisfies this.
    pub open spec fn wf(self) -> bool {
        match self.phase {
            Phase::Unopened => self.pending is None && self.session is None && self.error
                is None,
            Phase::AwaitingMatcher(s) => {
                &&& (self.pending matches Some(r) && r.kind == kind_of(s) && !r.registered
                    && !r.removed && r.slot is None)
                &&& self.step_state(s)
                &&& self.error is None
            },
            Phase::AwaitingResponse(s) => {
                &&& (self.pending matches Some(r) && r.kind == kind_of(s) && r.registered
                    && !r.removed && r.slot is None)
                &&& self.step_state(s)
                &&& self.error is None
            },
            Phase::Configuring => self.pending is None && self.session is Some && self.error
                is None,
            Phase::QueryingTypes => self.pending is None && self.session is Some && self.error
                is None,
            Phase::SourcesSelected => self.pending is None && self.session is Some && self.error
                is None,
            Phase::OpeningRemote => self.pending is None && self.session is Some && self.streams
                is Some && self.error is None,
            Phase::AwaitingFd => self.pending is None && self.session is Some && self.streams
                is Some && self.error is None,
            Phase::Active => self.pending is None && self.session is Some && self.streams
                is Some && self.fd is Some && self.error is None,
            Phase::Cancelled => self.pending is None && self.error == Some(
                PortalError::Cancelled,
            ),
            Phase::Failed => self.pending is None && self.error is Some,
        }
    }

    /// What each step needs of the surrounding state.
    pub open spec fn step_state(self, s: Step) -> bool {
        match s {
            Step::CreateSession => self.session is None && self.session_token is Some,
            Step::SelectSources => self.session is Some && self.types_known(),
            Step::StartCast => self.session is Some,
        }
    }

    /// A machine for one negotiation over the connection whose transport
    /// identity is `sender`.
    pub fn new(sender: String, cast: ScreenCast, parent_window: Option<String>) -> (m:
        SessionMachine)
        ensures
            m.phase == Phase::Unopened,
            m.sender == sender,
            m.cast == cast,
            m.parent_window == parent_window,
            m.pending is None,
            m.session is None,
            m.streams is None,
            m.fd is None,
            m.error is None,
            m.wf(),
    {
        SessionMachine {
            sender,
            cast,
            parent_window,
            phase: Phase::Unopened,
            pending: None,
            session_token: None,
            session: None,
            available_types: None,
            streams: None,
            fd: None,
            error: None,
        }
    }

    /// Begins the create-session step: derives the response path from
    /// `nonce`, generates the session's own handle-token from
    /// `session_nonce`, and asks for the matcher subscription. The
    /// triggering call is not issued until the subscription is confirmed.
    pub fn open(&mut self, nonce: u64, session_nonce: u64) -> (a: Action)
        requires
            old(self).wf(),
            old(self).phase == Phase::Unopened,
        ensures
            final(self).phase == Phase::AwaitingMatcher(Step::CreateSession),
            (final(self).pending matches Some(r) && r@.handle == token_spec(nonce) && r@.path
                == response_path_spec(old(self).sender@, token_spec(nonce)) && r.kind
                == DecodeKind::SessionHandle && !r.registered && !r.removed && r.slot is None),
            (final(self).session_token matches Some(t) && t@ == token_spec(session_nonce)),
            (a matches Action::RegisterMatcher { path } && path@ == response_path_spec(
                old(self).sender@,
                token_spec(nonce),
            )),
            final(self).sender == old(self).sender,
            final(self).cast == old(self).cast,
            final(self).parent_window == old(self).parent_window,
            final(self).session is None,
            final(self).wf(),
    {
        let req = Request::begin(self.sender.as_str(), nonce, DecodeKind::SessionHandle);
        let path = req.path.clone();
        self.session_token = Some(request_token(session_nonce));
        self.pending = Some(req);
        self.phase = Phase::AwaitingMatcher(Step::CreateSession);
        Action::RegisterMatcher { path }
    }

    /// Begins the create-session step with freshly randomized tokens.
    pub fn open_fresh(&mut self) -> (a: Action)
        requires
            old(self).wf(),
            old(self).phase == Phase::Unopened,
        ensures
            final(self).phase == Phase::AwaitingMatcher(Step::CreateSession),
            (final(self).pending matches Some(r) && !r.registered && !r.removed && r.slot
                is None && r.kind == DecodeKind::SessionHandle),
            (exists|nonce: u64|
                final(self).pending->0@.path == response_path_spec(
                    old(self).sender@,
                    token_spec(nonce),
                )),
            (a matches Action::RegisterMatcher { path } && path@
                == final(self).pending->0@.path),
            final(self).sender == old(self).sender,
            final(self).cast == old(self).cast,
            final(self).parent_window == old(self).parent_window,
            final(self).wf(),
    {
        let nonce = fresh_nonce();
        let session_nonce = fresh_nonce();
        let a = self.open(nonce, session_nonce);
        proof {
            assert(final(self).pending->0@.path == response_path_spec(
                old(self).sender@,
                token_spec(nonce),
            ));
        }
        a
    }

    /// Confirms the matcher subscription and issues the step's triggering
    /// call. This is the only transition that produces a call action, and
    /// it requires the subscription to be in place first.
    pub fn matcher_ready(&mut self) -> (a: Action)
        requires
            old(self).wf(),
            old(self).phase matches Phase::AwaitingMatcher(_),
        ensures
            final(self).phase == Phase::AwaitingResponse(old(self).phase->AwaitingMatcher_0),
            (final(self).pending matches Some(r) && r == (Request {
                registered: true,
                ..old(self).pending->0
            })),
            (old(self).phase == Phase::AwaitingMatcher(Step::CreateSession) ==> (a
                matches Action::CallCreateSession { handle_token, session_handle_token }
                && handle_token@ == old(self).pending->0.handle@ && session_handle_token@ == old(self).session_token->0@)),
            (old(self).phase == Phase::AwaitingMatcher(Step::SelectSources) ==> (a
                matches Action::CallSelectSources {
                    session,
                    handle_token,
                    types,
                    multiple,
                    cursor_mode,
                } && session@ == old(self).session->0@ && handle_token@ == old(self).pending->0.handle@ && types == types_bits_spec(
                old(self).cast,
                old(self).available_types,
            ) && multiple == old(self).cast.multiple && cursor_mode == cursor_bits_spec(
                old(self).cast,
            ))),
            (old(self).phase == Phase::AwaitingMatcher(Step::StartCast) ==> (a
                matches Action::CallStart { session, handle_token, parent_window } && session@
                == old(self).session->0@ && handle_token@ == old(self).pending->0.handle@
                && parent_window@ == parent_window_spec(old(self).parent_window))),
            final(self).sender == old(self).sender,
            final(self).cast == old(self).cast,
            final(self).parent_window == old(self).parent_window,
            final(self).session == old(self).session,
            final(self).session_token == old(self).session_token,
            final(self).available_types == old(self).available_types,
            final(self).streams == old(self).streams,
            final(self).fd == old(self).fd,
            final(self).wf(),
    {
        let step = if let Phase::AwaitingMatcher(s) = self.phase {
            s
        } else {
            unreached()
        };
        let mut req = self.pending.take().unwrap();
        req.mark_registered();
        let handle_token = req.handle.clone();
        self.pending = Some(req);
        self.phase = Phase::AwaitingResponse(step);
        match step {
            Step::CreateSession => {
                let session_handle_token = self.session_token.as_ref().unwrap().clone();
                Action::CallCreateSession { handle_token, session_handle_token }
            },
            Step::SelectSources => {
                let session = self.session.as_ref().unwrap().clone();
                let types = match self.cast.source_types {
                    Some(t) => t.bits(),
                    None => self.available_types.unwrap(),
                };
                let cursor_mode = match self.cast.cursor_mode {
                    Some(m) => m.bits(),
                    None => CursorMode::HIDDEN().bits(),
                };
                Action::CallSelectSources {
                    session,
                    handle_token,
                    types,
                    multiple: self.cast.multiple,
                    cursor_mode,
                }
            },
            Step::StartCast => {
                let session = self.session.as_ref().unwrap().clone();
                let parent_window = match &self.parent_window {
                    Some(s) => s.clone(),
                    None => String::new(),
                };
                Action::CallStart { session, handle_token, parent_window }
            },
        }
    }

    /// Takes the response delivered on the pending request's path: decodes
    /// it, advances the machine, and asks for the matcher's removal — the
    /// one removal owed for this request, whatever the outcome was.
    ///
    /// A non-zero status ends the sequence as `Cancelled`; a malformed
    /// payload as `Failed` with the parse error; a well-formed success
    /// carries the machine to the next step of the protocol.
    pub fn on_response(&mut self, resp: &Response) -> (a: Action)
        requires
            old(self).wf(),
            old(self).phase matches Phase::AwaitingResponse(_),
        ensures
            (a matches Action::RemoveMatcher { path } && path@ == old(self).pending->0.path@),
            final(self).pending is None,
            (decode_spec(kind_of(old(self).phase->AwaitingResponse_0), *resp) == Err::<
                PayloadView,
                PortalError,
            >(PortalError::Cancelled) ==> final(self).phase == Phase::Cancelled && final(self).error == Some(PortalError::Cancelled)),
            ((decode_spec(kind_of(old(self).phase->AwaitingResponse_0), *resp) is Err
                && decode_spec(kind_of(old(self).phase->AwaitingResponse_0), *resp)->Err_0
                != PortalError::Cancelled) ==> final(self).phase == Phase::Failed && final(
                self).error == Some(decode_spec(
                kind_of(old(self).phase->AwaitingResponse_0),
                *resp,
            )->Err_0)),
            (old(self).phase->AwaitingResponse_0 == Step::CreateSession ==> (decode_spec(
                DecodeKind::SessionHandle,
                *resp,
            ) matches Ok(pv) ==> (pv matches PayloadView::Handle(h) && final(self).phase
                == Phase::Configuring && (final(self).session matches Some(ses) && ses@ == h)))),
            (old(self).phase->AwaitingResponse_0 == Step::SelectSources ==> (decode_spec(
                DecodeKind::Ack,
                *resp,
            ) is Ok ==> final(self).phase == Phase::SourcesSelected && final(self).session == old(self).session)),
            (old(self).phase->AwaitingResponse_0 == Step::StartCast ==> (decode_spec(
                DecodeKind::StreamList,
                *resp,
            ) matches Ok(pv) ==> (pv matches PayloadView::Streams(l) && final(self).phase
                == Phase::OpeningRemote && (final(self).streams matches Some(v) && v@ == l) && final(self).session == old(self).session))),
            final(self).sender == old(self).sender,
            final(self).cast == old(self).cast,
            final(self).parent_window == old(self).parent_window,
            final(self).available_types == old(self).available_types,
            final(self).fd == old(self).fd,
            final(self).wf(),
    {
        let step = if let Phase::AwaitingResponse(s) = self.phase {
            s
        } else {
            unreached()
        };
        let mut req = self.pending.take().unwrap();
        req.deliver(resp);
        proof {
            assert(req@.slot == Some(decode_spec(kind_of(step), *resp)));
        }
        let owed = req.teardown();
        proof {
            assert(owed);
        }
        let path = req.path.clone();
        let slot = req.take_slot();
        let decoded = slot.unwrap();
        match decoded {
            Ok(p) => {
                match step {
                    Step::CreateSession => {
                        match p {
                            Payload::Handle(h) => {
                                self.session = Some(h);
                                self.phase = Phase::Configuring;
                            },
                            // The session-handle decoder yields no other
                            // payload; this arm is provably unreachable.
                            _ => {
                                proof {
                                    assert(false);
                                }
                            },
                        }
                    },
                    Step::SelectSources => {
                        self.phase = Phase::SourcesSelected;
                    },
                    Step::StartCast => {
                        match p {
                            Payload::Streams(v) => {
                                self.streams = Some(v);
                                self.phase = Phase::OpeningRemote;
                            },
                            // The stream-list decoder yields no other
                            // payload; this arm is provably unreachable.
                            _ => {
                                proof {
                                    assert(false);
                                }
                            },
                        }
                    },
                }
            },
            Err(e) => {
                match e {
                    PortalError::Cancelled => {
                        self.error = Some(PortalError::Cancelled);
                        self.phase = Phase::Cancelled;
                    },
                    other => {
                        self.error = Some(other);
                        self.phase = Phase::Failed;
                    },
                }
            },
        }
        Action::RemoveMatcher { path }
    }

    /// True when select-sources cannot be issued yet because neither the
    /// caller chose source types nor the remote's report is in hand.
    pub fn needs_source_types(&self) -> (r: bool)
        ensures
            r == !self.types_known(),
    {
        self.cast.source_types.is_none() && self.available_types.is_none()
    }

    /// Asks the remote which source types it can offer; used when the
    /// caller did not narrow them, so the machine can default to all.
    pub fn query_source_types(&mut self) -> (a: Action)
        requires
            old(self).wf(),
            old(self).phase == Phase::Configuring,
        ensures
            final(self).phase == Phase::QueryingTypes,
            a == Action::QuerySourceTypes,
            *final(self) == (SessionMachine { phase: Phase::QueryingTypes, ..*old(self) }),
            final(self).wf(),
    {
        self.phase = Phase::QueryingTypes;
        Action::QuerySourceTypes
    }

    /// Records the remote's report of available source types.
    pub fn source_types_reported(&mut self, bits: u32)
        requires
            old(self).wf(),
            old(self).phase == Phase::QueryingTypes,
        ensures
            final(self).phase == Phase::Configuring,
            final(self).available_types == Some(bits),
            *final(self) == (SessionMachine {
                phase: Phase::Configuring,
                available_types: Some(bits),
                ..*old(self)
            }),
            final(self).wf(),
    {
        self.available_types = Some(bits);
        self.phase = Phase::Configuring;
    }

    /// Replaces the configuration. The configuration may change only while
    /// nothing has been sent that depends on it: before the machine opens,
    /// or while the open session is still being configured.
    pub fn set_configuration(&mut self, cast: ScreenCast)
        requires
            old(self).wf(),
            old(self).phase == Phase::Unopened || old(self).phase == Phase::Configuring,
        ensures
            *final(self) == (SessionMachine { cast, ..*old(self) }),
            final(self).wf(),
    {
        self.cast = cast;
    }

    /// Begins the select-sources step: derives a fresh response path from
    /// `nonce` and asks for its matcher subscription.
    pub fn select_sources(&mut self, nonce: u64) -> (a: Action)
        requires
            old(self).wf(),
            old(self).phase == Phase::Configuring,
            old(self).types_known(),
        ensures
            final(self).phase == Phase::AwaitingMatcher(Step::SelectSources),
            (final(self).pending matches Some(r) && r@.handle == token_spec(nonce) && r@.path
                == response_path_spec(old(self).sender@, token_spec(nonce)) && r.kind
                == DecodeKind::Ack && !r.registered && !r.removed && r.slot is None),
            (a matches Action::RegisterMatcher { path } && path@ == response_path_spec(
                old(self).sender@,
                token_spec(nonce),
            )),
            final(self).sender == old(self).sender,
            final(self).cast == old(self).cast,
            final(self).parent_window == old(self).parent_window,
            final(self).session == old(self).session,
            final(self).available_types == old(self).available_types,
            final(self).streams == old(self).streams,
            final(self).fd == old(self).fd,
            final(self).wf(),
    {
        let req = Request::begin(self.sender.as_str(), nonce, DecodeKind::Ack);
        let path = req.path.clone();
        self.pending = Some(req);
        self.phase = Phase::AwaitingMatcher(Step::SelectSources);
        Action::RegisterMatcher { path }
    }

    /// Begins the select-sources step with a freshly randomized token.
    pub fn select_sources_fresh(&mut self) -> (a: Action)
        requires
            old(self).wf(),
            old(self).phase == Phase::Configuring,
            old(self).types_known(),
        ensures
            final(self).phase == Phase::AwaitingMatcher(Step::SelectSources),
            (final(self).pending matches Some(r) && !r.registered && !r.removed && r.slot
                is None && r.kind == DecodeKind::Ack),
            (a matches Action::RegisterMatcher { path } && path@
                == final(self).pending->0@.path),
            final(self).sender == old(self).sender,
            final(self).cast == old(self).cast,
            final(self).session == old(self).session,
            final(self).wf(),
    {
        let nonce = fresh_nonce();
        self.select_sources(nonce)
    }

    /// Begins the start step: derives a fresh response path from `nonce`
    /// and asks for its matcher subscription.
    pub fn start_cast(&mut self, nonce: u64) -> (a: Action)
        requires
            old(self).wf(),
            old(self).phase == Phase::SourcesSelected,
        ensures
            final(self).phase == Phase::AwaitingMatcher(Step::StartCast),
            (final(self).pending matches Some(r) && r@.handle == token_spec(nonce) && r@.path
                == response_path_spec(old(self).sender@, token_spec(nonce)) && r.kind
                == DecodeKind::StreamList && !r.registered && !r.removed && r.slot is None),
            (a matches Action::RegisterMatcher { path } && path@ == response_path_spec(
                old(self).sender@,
                token_spec(nonce),
            )),
            final(self).sender == old(self).sender,
            final(self).cast == old(self).cast,
            final(self).parent_window == old(self).parent_window,
            final(self).session == old(self).session,
            final(self).streams == old(self).streams,
            final(self).fd == old(self).fd,
            final(self).wf(),
    {
        let req = Request::begin(self.sender.as_str(), nonce, DecodeKind::StreamList);
        let path = req.path.clone();
        self.pending = Some(req);
        self.phase = Phase::AwaitingMatcher(Step::StartCast);
        Action::RegisterMatcher { path }
    }

    /// Begins the start step with a freshly randomized token.
    pub fn start_cast_fresh(&mut self) -> (a: Action)
        requires
            old(self).wf(),
            old(self).phase == Phase::SourcesSelected,
        ensures
            final(self).phase == Phase::AwaitingMatcher(Step::StartCast),
            (final(self).pending matches Some(r) && !r.registered && !r.removed && r.slot
                is None && r.kind == DecodeKind::StreamList),
            (a matches Action::RegisterMatcher { path } && path@
                == final(self).pending->0@.path),
            final(self).sender == old(self).sender,
            final(self).cast == old(self).cast,
            final(self).session == old(self).session,
            final(self).wf(),
    {
        let nonce = fresh_nonce();
        self.start_cast(nonce)
    }

    /// Issues the direct open-pipewire-remote call. Unlike the three
    /// correlated steps, its result comes back synchronously as the call's
    /// own reply, so no matcher is involved.
    pub fn request_remote(&mut self) -> (a: Action)
        requires
            old(self).wf(),
            old(self).phase == Phase::OpeningRemote,
        ensures
            final(self).phase == Phase::AwaitingFd,
            (a matches Action::CallOpenRemote { session } && session@ == old(self).session->0@),
            *final(self) == (SessionMachine { phase: Phase::AwaitingFd, ..*old(self) }),
            final(self).wf(),
    {
        let session = self.session.as_ref().unwrap().clone();
        self.phase = Phase::AwaitingFd;
        Action::CallOpenRemote { session }
    }

    /// Records the file descriptor the open-pipewire-remote reply carried;
    /// the capability is now complete.
    pub fn remote_opened(&mut self, fd: i32)
        requires
            old(self).wf(),
            old(self).phase == Phase::AwaitingFd,
        ensures
            final(self).phase == Phase::Active,
            final(self).fd == Some(fd),
            *final(self) == (SessionMachine { phase: Phase::Active, fd: Some(fd), ..*old(self) }),
            final(self).wf(),
    {
        self.fd = Some(fd);
        self.phase = Phase::Active;
    }

    /// Hands out the finished capability: the session's address for the
    /// later close, the media file descriptor, and the granted streams.
    pub fn take_capability(self) -> (c: ActiveScreenCast)
        requires
            self.wf(),
            self.phase == Phase::Active,
        ensures
            c.session_path@ == self.session->0@,
            c.pipewire_fd == self.fd->0,
            c.streams == self.streams->0,
            !c.closed,
    {
        ActiveScreenCast {
            session_path: self.session.unwrap(),
            pipewire_fd: self.fd.unwrap(),
            streams: self.streams.unwrap(),
            closed: false,
        }
    }

    /// Records a transport-level failure: fatal to the sequence, never
    /// retried. If a matcher was subscribed for the step in flight, its one
    /// removal is owed now.
    pub fn transport_failed(&mut self, message: String) -> (a: Option<Action>)
        requires
            old(self).wf(),
        ensures
            final(self).phase == Phase::Failed,
            final(self).pending is None,
            (final(self).error matches Some(e) && (e matches PortalError::DBus(s) && s@
                == message@)),
            ((old(self).pending matches Some(r) && r.registered) ==> (a matches Some(x) && (x
                matches Action::RemoveMatcher { path } && path@
                == old(self).pending->0.path@))),
            ((old(self).pending is None || !old(self).pending->0.registered) ==> a is None),
            final(self).sender == old(self).sender,
            final(self).cast == old(self).cast,
            final(self).session == old(self).session,
            final(self).wf(),
    {
        let a = match self.pending.take() {
            Some(mut r) => {
                let owed = r.teardown();
                if owed {
                    Some(Action::RemoveMatcher { path: r.path })
                } else {
                    None
                }
            },
            None => None,
        };
        self.error = Some(PortalError::DBus(message));
        self.phase = Phase::Failed;
        a
    }
}

/// An active screencast session: the capability the negotiation produced.
///
/// Holds the file descriptor for the media connection along with the
/// metadata of the granted streams, and the session's address so the
/// session can be closed — exactly once, since the remote does not promise
/// an idempotent close.
#[derive(Debug, Clone, PartialEq)]
pub struct ActiveScreenCast {
    /// The session's own address, used by the close call.
    pub session_path: String,
    /// The file descriptor handed to the media subsystem.
    pub pipewire_fd: i32,
    /// The streams the user granted.
    pub streams: Vec<ScreenCastStream>,
    /// Whether the close call has already been issued.
    pub closed: bool,
}

impl ActiveScreenCast {
    /// Get the file descriptor for the media session.
    pub fn pipewire_fd(&self) -> (r: i32)
        ensures
            r == self.pipewire_fd,
    {
        self.pipewire_fd
    }

    /// Get the streams active in this screencast.
    pub fn streams(&self) -> (r: &Vec<ScreenCastStream>)
        ensures
            r@ == self.streams@,
    {
        &self.streams
    }

    /// Close the screencast session. The first call yields the close
    /// action for the embedding program to perform against the session's
    /// address; every later call yields nothing, so the non-idempotent
    /// remote close is issued at most once.
    pub fn close(&mut self) -> (a: Option<Action>)
        ensures
            old(self).closed ==> (a is None && *final(self) == *old(self)),
            !old(self).closed ==> ((a matches Some(x) && (x matches Action::CallClose { session }
                && session@ == old(self).session_path@)) && *final(self) == (ActiveScreenCast {
                closed: true,
                ..*old(self)
            })),
            final(self).closed,
    {
        if self.closed {
            None
        } else {
            self.closed = true;
            Some(Action::CallClose { session: self.session_path.clone() })
        }
    }
}

/// The matcher precedes the call: in every reachable state in which a
/// step's triggering call has been issued — the machine awaits its
/// response — the pending request's matcher is registered and not removed.
/// Together with the contract of `matcher_ready`, the only transition that
/// produces a call action, this pins the ordering: subscription first,
/// call second, in every code path.
pub proof fn lemma_matcher_registered_before_call(m: SessionMachine)
    requires
        m.wf(),
        m.phase matches Phase::AwaitingResponse(_),
    ensures
        (m.pending matches Some(r) && r.registered && !r.removed),
{
}

} // verus!
