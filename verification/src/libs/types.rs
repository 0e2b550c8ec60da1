//! Common type names of the wire protocol and the broker.

use vstd::prelude::*;

verus! {

/// The declared byte length of a datagram's variable payload.
pub type Size = u16;

/// A one-byte flag or bitfield carried by a datagram.
pub type Flag = u8;

/// A topic identity: an opaque 64-bit number that names one channel.
pub type TopicId = u64;

/// A ping identity, used to match a `Pong` to its `Ping`.
pub type PingId = u8;

/// An object identity: an opaque 64-bit number that names one grouping of
/// topics, independent of the topic id space.
pub type ObjectId = u64;

/// A client identity assigned by the broker, distinct from the transport
/// connection's identity, practically unique but not guaranteed unique.
pub type ClientId = u64;

} // verus!
