//! A verified debug-adapter core: the framing codec for the
//! length-prefixed wire protocol, the dispatch of client requests by
//! command name, and the session state machine that pairs each engine
//! command with its correlated reply while forwarding unsolicited halt
//! events.  The transport loop around it (sockets, JSON bodies, the engine
//! worker's thread) stays outside and feeds the machine plain values.

use vstd::prelude::*;

pub mod channel;
pub mod codec;
pub mod engine;
pub mod error;
pub mod msg;
pub mod session;

pub use codec::{encode_frame, get_content_len, parse_frame, send_data};
pub use error::AdapterError;
pub use msg::{command_kind_of, CommandKind, DebugAdapterMessage, StoppedEventBody};
pub use session::DebugAdapter;

verus! {

} // verus!
