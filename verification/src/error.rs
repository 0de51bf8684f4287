//! What can go wrong while events are dispatched.

use vstd::prelude::*;

verus! {

/// A fatal error that the peer raised on one of its objects.
#[derive(Clone, Debug, PartialEq, Eq)]
pub struct ProtocolError {
    /// The error code, as the object's interface defines it.
    pub code: u32,
    /// The id of the object at fault.
    pub object_id: u32,
    /// The name of that object's interface.
    pub object_interface: String,
    /// The peer's message.
    pub message: String,
}

/// A failure of the connection. The connection is dead afterwards.
#[derive(Clone, Debug, PartialEq, Eq)]
pub enum WaylandError {
    /// The socket failed; the operating system's error number.
    Io(i32),
    /// The peer raised a protocol error and closed the connection.
    Protocol(ProtocolError),
}

/// Why a dispatch stopped.
#[derive(Clone, Debug, PartialEq, Eq)]
pub enum DispatchError {
    /// An event could not be read as an event of its object's interface.
    BadMessage {
        /// The id of the object that the event came to.
        sender_id: u32,
        /// The name of that object's interface.
        interface: String,
        /// The event's opcode.
        opcode: u16,
    },
    /// The connection failed.
    Backend(WaylandError),
}

/// `nix::Error::EPIPE` as a number: the operating system's error number for a
/// broken pipe. Which number that is depends on the system.
#[verifier::external_body]
pub(crate) fn broken_pipe() -> i32 {
    nix::Error::EPIPE as i32
}

impl WaylandError {
    /// The error of a request that could not be sent because the connection
    /// is gone: a broken pipe.
    pub fn connection_gone() -> (e: WaylandError)
        ensures
            e is Io,
    {
        WaylandError::Io(broken_pipe())
    }
}

} // verus!
