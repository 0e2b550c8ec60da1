//! The two liveness datagrams: a heartbeat, and a request for one from a
//! peer whose expected heartbeat did not arrive.

use vstd::prelude::*;
use crate::enums::datagram_type::{spec_type_code, spec_type_of_code, DatagramType};
use crate::errors::ProtocolError;

verus! {

/// Sent periodically to keep a connection alive.
#[derive(Debug)]
pub struct DtgHeartbeat {
    pub datagram_type: DatagramType,
}

impl DtgHeartbeat {
    /// A heartbeat carries only its opcode and is well formed as built.
    pub open spec fn valid(self) -> bool {
        self.datagram_type == DatagramType::Heartbeat
    }

    /// The exact bytes this datagram encodes to: its opcode alone.
    pub open spec fn spec_encoded(self) -> Seq<u8> {
        seq![spec_type_code(self.datagram_type)]
    }

    pub fn new() -> (dtg: DtgHeartbeat)
        ensures
            dtg.valid(),
    {
        DtgHeartbeat { datagram_type: DatagramType::Heartbeat }
    }

    pub fn as_bytes(&self) -> (bytes: Vec<u8>)
        ensures
            bytes@ == self.spec_encoded(),
    {
        let mut bytes: Vec<u8> = Vec::with_capacity(1);
        bytes.push(u8::from(self.datagram_type));
        bytes
    }

    /// The fixed minimum byte size of this datagram type.
    pub fn get_default_byte_size() -> (size: usize)
        ensures
            size == 1,
    {
        1
    }

    /// Reads a heartbeat back from a buffer; fails only when the buffer is
    /// shorter than the type's minimum size. The stored type tag is read
    /// from the buffer, whatever opcode it holds.
    pub fn try_from(buffer: &[u8]) -> (out: Result<DtgHeartbeat, ProtocolError>)
        ensures
            buffer@.len() < 1 ==> out == Err::<DtgHeartbeat, ProtocolError>(
                ProtocolError::TooShort,
            ),
            buffer@.len() >= 1 ==> out == Ok::<DtgHeartbeat, ProtocolError>(
                DtgHeartbeat { datagram_type: spec_type_of_code(buffer@[0]) },
            ),
    {
        if buffer.len() < 1 {
            return Err(ProtocolError::TooShort);
        }
        Ok(DtgHeartbeat { datagram_type: DatagramType::from(buffer[0]) })
    }
}

/// Sent to ask the peer for a heartbeat when its regular one is overdue.
#[derive(Debug)]
pub struct DtgHeartbeatRequest {
    pub datagram_type: DatagramType,
}

impl DtgHeartbeatRequest {
    /// A heartbeat request carries only its opcode.
    pub open spec fn valid(self) -> bool {
        self.datagram_type == DatagramType::HeartbeatRequest
    }

    /// The exact bytes this datagram encodes to: its opcode alone.
    pub open spec fn spec_encoded(self) -> Seq<u8> {
        seq![spec_type_code(self.datagram_type)]
    }

    pub fn new() -> (dtg: DtgHeartbeatRequest)
        ensures
            dtg.valid(),
    {
        DtgHeartbeatRequest { datagram_type: DatagramType::HeartbeatRequest }
    }

    pub fn as_bytes(&self) -> (bytes: Vec<u8>)
        ensures
            bytes@ == self.spec_encoded(),
    {
        let mut bytes: Vec<u8> = Vec::with_capacity(1);
        bytes.push(u8::from(self.datagram_type));
        bytes
    }

    /// The fixed minimum byte size of this datagram type.
    pub fn get_default_byte_size() -> (size: usize)
        ensures
            size == 1,
    {
        1
    }

    /// Reads a heartbeat request back from a buffer; fails only when the
    /// buffer is shorter than the type's minimum size.
    pub fn try_from(buffer: &[u8]) -> (out: Result<DtgHeartbeatRequest, ProtocolError>)
        ensures
            buffer@.len() < 1 ==> out == Err::<DtgHeartbeatRequest, ProtocolError>(
                ProtocolError::TooShort,
            ),
            buffer@.len() >= 1 ==> out == Ok::<DtgHeartbeatRequest, ProtocolError>(
                DtgHeartbeatRequest { datagram_type: spec_type_of_code(buffer@[0]) },
            ),
    {
        if buffer.len() < 1 {
            return Err(ProtocolError::TooShort);
        }
        Ok(DtgHeartbeatRequest { datagram_type: DatagramType::from(buffer[0]) })
    }
}

} // verus!
