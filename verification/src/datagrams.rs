//! The wire datagrams: one struct per message type, each with its exact
//! byte encoding and a bounds-checked decoder.
//!
//! Every datagram's first byte is its opcode; multi-byte integers are
//! little-endian; types with a variable payload declare its byte length in
//! a `u16` field that a decoder must re-validate against the buffer before
//! slicing.

pub mod connect_requests;
pub mod data_request;
pub mod heartbeat_requests;
pub mod latency_requests;
pub mod miscellaneous_requests;
pub mod object_requests;
pub mod shutdown_request;
pub mod topic_request;
