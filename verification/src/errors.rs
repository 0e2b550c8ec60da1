//! The error taxonomy of the broker core. No error here is fatal to the
//! process: a decode error discards one packet, a registry error ends one
//! connection, and a full queue drops one packet.

use vstd::prelude::*;

verus! {

/// A decode-time failure of the wire codec. A buffer shorter than the
/// datagram type's minimum size — or than its declared payload length —
/// is rejected rather than read out of bounds.
#[derive(Copy, Clone, PartialEq, Eq, Structural, Debug)]
pub enum ProtocolError {
    TooShort,
}

/// A failure of a session registry operation, surfaced to the session
/// handler. `MissingSession` is the handler's teardown trigger.
#[derive(Copy, Clone, PartialEq, Eq, Structural, Debug)]
pub enum RegistryError {
    DuplicateConnection,
    MissingSession,
}

/// A failure to enqueue a packet into the dispatch pipeline. The packet is
/// dropped and counted; the producing connection keeps running.
#[derive(Copy, Clone, PartialEq, Eq, Structural, Debug)]
pub enum QueueError {
    QueueFull,
}

} // verus!
