//! The latency measurement datagrams: a ping and its pong, matched by a
//! one-byte ping identity.

use vstd::prelude::*;
use crate::enums::datagram_type::{spec_type_code, spec_type_of_code, DatagramType};
use crate::errors::ProtocolError;
use crate::libs::types::PingId;

verus! {

/// Sent to measure the round-trip latency between a peer and the broker.
#[derive(Debug)]
pub struct DtgPing {
    pub datagram_type: DatagramType,
    pub ping_id: PingId,
}

impl DtgPing {
    pub open spec fn valid(self) -> bool {
        self.datagram_type == DatagramType::Ping
    }

    /// The exact bytes this datagram encodes to: opcode, then ping id.
    pub open spec fn spec_encoded(self) -> Seq<u8> {
        seq![spec_type_code(self.datagram_type), self.ping_id]
    }

    pub fn new(ping_id: PingId) -> (dtg: DtgPing)
        ensures
            dtg.valid(),
            dtg.ping_id == ping_id,
    {
        DtgPing { datagram_type: DatagramType::Ping, ping_id }
    }

    pub fn as_bytes(&self) -> (bytes: Vec<u8>)
        ensures
            bytes@ == self.spec_encoded(),
    {
        let mut bytes: Vec<u8> = Vec::with_capacity(2);
        bytes.push(u8::from(self.datagram_type));
        bytes.push(self.ping_id);
        bytes
    }

    /// The fixed minimum byte size of this datagram type.
    pub fn get_default_byte_size() -> (size: usize)
        ensures
            size == 2,
    {
        2
    }

    /// Reads a ping back from a buffer; fails only when the buffer is
    /// shorter than the type's minimum size.
    pub fn try_from(buffer: &[u8]) -> (out: Result<DtgPing, ProtocolError>)
        ensures
            buffer@.len() < 2 ==> out == Err::<DtgPing, ProtocolError>(ProtocolError::TooShort),
            buffer@.len() >= 2 ==> out == Ok::<DtgPing, ProtocolError>(
                DtgPing { datagram_type: spec_type_of_code(buffer@[0]), ping_id: buffer@[1] },
            ),
    {
        if buffer.len() < 2 {
            return Err(ProtocolError::TooShort);
        }
        Ok(DtgPing { datagram_type: DatagramType::from(buffer[0]), ping_id: buffer[1] })
    }
}

/// Sent to answer a ping, carrying the same ping identity back.
#[derive(Debug)]
pub struct DtgPong {
    pub datagram_type: DatagramType,
    pub ping_id: PingId,
}

impl DtgPong {
    pub open spec fn valid(self) -> bool {
        self.datagram_type == DatagramType::Pong
    }

    /// The exact bytes this datagram encodes to: opcode, then ping id.
    pub open spec fn spec_encoded(self) -> Seq<u8> {
        seq![spec_type_code(self.datagram_type), self.ping_id]
    }

    pub fn new(ping_id: PingId) -> (dtg: DtgPong)
        ensures
            dtg.valid(),
            dtg.ping_id == ping_id,
    {
        DtgPong { datagram_type: DatagramType::Pong, ping_id }
    }

    pub fn as_bytes(&self) -> (bytes: Vec<u8>)
        ensures
            bytes@ == self.spec_encoded(),
    {
        let mut bytes: Vec<u8> = Vec::with_capacity(2);
        bytes.push(u8::from(self.datagram_type));
        bytes.push(self.ping_id);
        bytes
    }

    /// The fixed minimum byte size of this datagram type.
    pub fn get_default_byte_size() -> (size: usize)
        ensures
            size == 2,
    {
        2
    }

    /// Reads a pong back from a buffer; fails only when the buffer is
    /// shorter than the type's minimum size.
    pub fn try_from(buffer: &[u8]) -> (out: Result<DtgPong, ProtocolError>)
        ensures
            buffer@.len() < 2 ==> out == Err::<DtgPong, ProtocolError>(ProtocolError::TooShort),
            buffer@.len() >= 2 ==> out == Ok::<DtgPong, ProtocolError>(
                DtgPong { datagram_type: spec_type_of_code(buffer@[0]), ping_id: buffer@[1] },
            ),
    {
        if buffer.len() < 2 {
            return Err(ProtocolError::TooShort);
        }
        Ok(DtgPong { datagram_type: DatagramType::from(buffer[0]), ping_id: buffer[1] })
    }
}

} // verus!
