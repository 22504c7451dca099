//! The adapter's error taxonomy.  Framing, message-type and channel
//! failures are fatal to a session; argument-decode and engine errors are
//! recovered locally as failure responses; a wrong-variant engine reply is
//! an internal contract violation and also fatal.

use vstd::prelude::*;

verus! {

#[derive(Clone, Copy, Debug, PartialEq, Eq, Structural)]
pub enum AdapterError {
    /// Malformed or short frame header, or an undecodable body.
    Framing,
    /// A decoded message whose kind the adapter does not serve.
    UnsupportedMessageType,
    /// Request arguments missing or of the wrong shape.
    ArgumentDecode,
    /// An engine reply explicitly marked as an error.
    Engine,
    /// A queue whose peer has stopped.
    Channel,
    /// An engine reply of the wrong variant for the command that asked.
    UnreachableInvariant,
}

} // verus!
