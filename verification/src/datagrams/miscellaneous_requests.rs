//! The server status datagrams: a bare enquiry and its answer, which
//! carries the number of connected clients.

use vstd::prelude::*;
use vstd::bytes::{spec_u64_from_le_bytes, spec_u64_to_le_bytes, u64_from_le_bytes, u64_to_le_bytes};
use vstd::slice::slice_subrange;
use crate::enums::datagram_type::{spec_type_code, spec_type_of_code, DatagramType};
use crate::errors::ProtocolError;
use crate::libs::types::ClientId;

verus! {

/// Sent to ask the broker how it is doing.
#[derive(Debug)]
pub struct DtgServerStatus {
    pub datagram_type: DatagramType,
}

impl DtgServerStatus {
    pub open spec fn valid(self) -> bool {
        self.datagram_type == DatagramType::ServerStatus
    }

    /// The exact bytes this datagram encodes to: its opcode alone.
    pub open spec fn spec_encoded(self) -> Seq<u8> {
        seq![spec_type_code(self.datagram_type)]
    }

    pub fn new() -> (dtg: DtgServerStatus)
        ensures
            dtg.valid(),
    {
        DtgServerStatus { datagram_type: DatagramType::ServerStatus }
    }

    pub fn as_bytes(&self) -> (bytes: Vec<u8>)
        ensures
            bytes@ == self.spec_encoded(),
    {
        let mut bytes: Vec<u8> = Vec::with_capacity(1);
        bytes.push(u8::from(self.datagram_type));
        bytes
    }

    /// The fixed minimum byte size of this datagram type.
    pub fn get_default_byte_size() -> (size: usize)
        ensures
            size == 1,
    {
        1
    }

    /// Reads a status enquiry back from a buffer; fails only when the
    /// buffer is shorter than the type's minimum size.
    pub fn try_from(buffer: &[u8]) -> (out: Result<DtgServerStatus, ProtocolError>)
        ensures
            buffer@.len() < 1 ==> out == Err::<DtgServerStatus, ProtocolError>(
                ProtocolError::TooShort,
            ),
            buffer@.len() >= 1 ==> out == Ok::<DtgServerStatus, ProtocolError>(
                DtgServerStatus { datagram_type: spec_type_of_code(buffer@[0]) },
            ),
    {
        if buffer.len() < 1 {
            return Err(ProtocolError::TooShort);
        }
        Ok(DtgServerStatus { datagram_type: DatagramType::from(buffer[0]) })
    }
}

/// The answer to a server status enquiry. The client count uses the same
/// 64-bit width as a client identity so it can never saturate first.
#[derive(Debug)]
pub struct DtgServerStatusACK {
    pub datagram_type: DatagramType,
    pub connected_client: ClientId,
}

impl DtgServerStatusACK {
    pub open spec fn valid(self) -> bool {
        self.datagram_type == DatagramType::ServerStatusAck
    }

    /// The exact bytes this datagram encodes to: opcode, then the count in
    /// eight little-endian bytes.
    pub open spec fn spec_encoded(self) -> Seq<u8> {
        seq![spec_type_code(self.datagram_type)] + spec_u64_to_le_bytes(self.connected_client)
    }

    pub fn new(nb_client: ClientId) -> (dtg: DtgServerStatusACK)
        ensures
            dtg.valid(),
            dtg.connected_client == nb_client,
    {
        DtgServerStatusACK { datagram_type: DatagramType::ServerStatusAck, connected_client: nb_client }
    }

    pub fn as_bytes(&self) -> (bytes: Vec<u8>)
        ensures
            bytes@ == self.spec_encoded(),
    {
        let mut bytes: Vec<u8> = Vec::with_capacity(9);
        bytes.push(u8::from(self.datagram_type));
        let count = u64_to_le_bytes(self.connected_client);
        bytes.extend_from_slice(count.as_slice());
        bytes
    }

    /// The fixed minimum byte size of this datagram type.
    pub fn get_default_byte_size() -> (size: usize)
        ensures
            size == 9,
    {
        9
    }

    /// Reads a status answer back from a buffer; fails only when the
    /// buffer is shorter than the type's minimum size.
    pub fn try_from(buffer: &[u8]) -> (out: Result<DtgServerStatusACK, ProtocolError>)
        ensures
            buffer@.len() < 9 ==> out == Err::<DtgServerStatusACK, ProtocolError>(
                ProtocolError::TooShort,
            ),
            buffer@.len() >= 9 ==> out == Ok::<DtgServerStatusACK, ProtocolError>(
                DtgServerStatusACK {
                    datagram_type: spec_type_of_code(buffer@[0]),
                    connected_client: spec_u64_from_le_bytes(buffer@.subrange(1, 9)),
                },
            ),
    {
        if buffer.len() < 9 {
            return Err(ProtocolError::TooShort);
        }
        let connected_client = u64_from_le_bytes(slice_subrange(buffer, 1, 9));
        Ok(DtgServerStatusACK { datagram_type: DatagramType::from(buffer[0]), connected_client })
    }
}

} // verus!
