//! Client-side logic for a desktop screen-capture portal: a sandboxed
//! application asks a privileged desktop service for permission to capture a
//! monitor or window, and receives a capability (a file descriptor plus
//! stream metadata) only after the user consents.
//!
//! The crate holds the protocol logic itself: request/response correlation
//! (deriving a unique response address and subscribing to it before the
//! triggering call is issued), the state machine that sequences the three
//! dependent remote calls, and the parsing of the service's untyped
//! responses into typed records. The message-bus transport is driven by the
//! embedding program, which performs each action the state machine emits and
//! feeds the resulting events back in.

pub mod error;
pub mod flags;
pub mod ident;
pub mod parse;
pub mod request;
pub mod session;
pub mod stream;
pub mod value;

pub use error::PortalError;
pub use flags::{CursorMode, SourceType};
pub use session::{Action, ActiveScreenCast, Phase, ScreenCast, SessionMachine, Step};
pub use stream::ScreenCastStream;
