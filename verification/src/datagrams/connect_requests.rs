//! The connection handshake datagrams: the opening request, the
//! acknowledgement that assigns a client identity, and the refusal with a
//! reason text.

use vstd::prelude::*;
use vstd::bytes::{
    spec_u16_from_le_bytes, spec_u16_to_le_bytes, spec_u64_from_le_bytes, spec_u64_to_le_bytes,
    u16_from_le_bytes, u16_to_le_bytes, u64_from_le_bytes, u64_to_le_bytes,
};
use vstd::slice::{slice_subrange, slice_to_vec};
use vstd::string::StringSliceAdditionalSpecFns;
use crate::enums::datagram_type::{spec_type_code, spec_type_of_code, DatagramType};
use crate::errors::ProtocolError;
use crate::libs::types::{ClientId, Size};

verus! {

/// Sent to the broker to start a connection.
#[derive(Debug)]
pub struct DtgConnect {
    pub datagram_type: DatagramType,
}

impl DtgConnect {
    pub open spec fn valid(self) -> bool {
        self.datagram_type == DatagramType::Connect
    }

    /// The exact bytes this datagram encodes to: its opcode alone.
    pub open spec fn spec_encoded(self) -> Seq<u8> {
        seq![spec_type_code(self.datagram_type)]
    }

    pub fn new() -> (dtg: DtgConnect)
        ensures
            dtg.valid(),
    {
        DtgConnect { datagram_type: DatagramType::Connect }
    }

    pub fn as_bytes(&self) -> (bytes: Vec<u8>)
        ensures
            bytes@ == self.spec_encoded(),
    {
        let mut bytes: Vec<u8> = Vec::with_capacity(1);
        bytes.push(u8::from(self.datagram_type));
        bytes
    }

    /// The fixed minimum byte size of this datagram type.
    pub fn get_default_byte_size() -> (size: usize)
        ensures
            size == 1,
    {
        1
    }

    /// Reads a connect back from a buffer; fails only when the buffer is
    /// shorter than the type's minimum size.
    pub fn try_from(buffer: &[u8]) -> (out: Result<DtgConnect, ProtocolError>)
        ensures
            buffer@.len() < 1 ==> out == Err::<DtgConnect, ProtocolError>(ProtocolError::TooShort),
            buffer@.len() >= 1 ==> out == Ok::<DtgConnect, ProtocolError>(
                DtgConnect { datagram_type: spec_type_of_code(buffer@[0]) },
            ),
    {
        if buffer.len() < 1 {
            return Err(ProtocolError::TooShort);
        }
        Ok(DtgConnect { datagram_type: DatagramType::from(buffer[0]) })
    }
}

/// The broker's acknowledgement of a connection: the assigned client
/// identity and the heartbeat period the client is expected to keep.
#[derive(Debug)]
pub struct DtgConnectAck {
    pub datagram_type: DatagramType,
    pub peer_id: ClientId,
    pub heartbeat_period: u16,
}

impl DtgConnectAck {
    pub open spec fn valid(self) -> bool {
        self.datagram_type == DatagramType::ConnectAck
    }

    /// The exact bytes this datagram encodes to: opcode, the client
    /// identity in eight little-endian bytes, then the heartbeat period in
    /// two.
    pub open spec fn spec_encoded(self) -> Seq<u8> {
        seq![spec_type_code(self.datagram_type)] + spec_u64_to_le_bytes(self.peer_id)
            + spec_u16_to_le_bytes(self.heartbeat_period)
    }

    pub fn new(peer_id: ClientId, heartbeat_period: u16) -> (dtg: DtgConnectAck)
        ensures
            dtg.valid(),
            dtg.peer_id == peer_id,
            dtg.heartbeat_period == heartbeat_period,
    {
        DtgConnectAck { datagram_type: DatagramType::ConnectAck, peer_id, heartbeat_period }
    }

    pub fn as_bytes(&self) -> (bytes: Vec<u8>)
        ensures
            bytes@ == self.spec_encoded(),
    {
        let mut bytes: Vec<u8> = Vec::with_capacity(11);
        bytes.push(u8::from(self.datagram_type));
        let id = u64_to_le_bytes(self.peer_id);
        bytes.extend_from_slice(id.as_slice());
        let period = u16_to_le_bytes(self.heartbeat_period);
        bytes.extend_from_slice(period.as_slice());
        bytes
    }

    /// The fixed minimum byte size of this datagram type.
    pub fn get_default_byte_size() -> (size: usize)
        ensures
            size == 11,
    {
        11
    }

    /// Reads a connect acknowledgement back from a buffer; fails only when
    /// the buffer is shorter than the type's minimum size.
    pub fn try_from(buffer: &[u8]) -> (out: Result<DtgConnectAck, ProtocolError>)
        ensures
            buffer@.len() < 11 ==> out == Err::<DtgConnectAck, ProtocolError>(
                ProtocolError::TooShort,
            ),
            buffer@.len() >= 11 ==> out == Ok::<DtgConnectAck, ProtocolError>(
                DtgConnectAck {
                    datagram_type: spec_type_of_code(buffer@[0]),
                    peer_id: spec_u64_from_le_bytes(buffer@.subrange(1, 9)),
                    heartbeat_period: spec_u16_from_le_bytes(buffer@.subrange(9, 11)),
                },
            ),
    {
        if buffer.len() < 11 {
            return Err(ProtocolError::TooShort);
        }
        let peer_id = u64_from_le_bytes(slice_subrange(buffer, 1, 9));
        let heartbeat_period = u16_from_le_bytes(slice_subrange(buffer, 9, 11));
        Ok(
            DtgConnectAck {
                datagram_type: DatagramType::from(buffer[0]),
                peer_id,
                heartbeat_period,
            },
        )
    }
}

/// The broker's refusal of a connection, carrying a reason text whose byte
/// length stands in the `size` field.
#[derive(Debug)]
pub struct DtgConnectNack {
    pub datagram_type: DatagramType,
    pub size: Size,
    pub payload: Vec<u8>,
}

impl DtgConnectNack {
    /// Well formed when the declared size equals the payload's byte length.
    pub open spec fn valid(self) -> bool {
        &&& self.datagram_type == DatagramType::ConnectNack
        &&& self.size == self.payload@.len()
    }

    /// The exact bytes this datagram encodes to: opcode, the declared size
    /// in two little-endian bytes, then the payload.
    pub open spec fn spec_encoded(self) -> Seq<u8> {
        seq![spec_type_code(self.datagram_type)] + spec_u16_to_le_bytes(self.size) + self.payload@
    }

    pub fn new(message: &str) -> (dtg: DtgConnectNack)
        requires
            message.spec_bytes().len() <= u16::MAX,
        ensures
            dtg.valid(),
            dtg.payload@ == message.spec_bytes(),
            dtg.size == message.spec_bytes().len(),
    {
        let reason: Vec<u8> = slice_to_vec(message.as_bytes());
        let message_size = reason.len() as Size;
        DtgConnectNack { datagram_type: DatagramType::ConnectNack, size: message_size, payload: reason }
    }

    pub fn as_bytes(&self) -> (bytes: Vec<u8>)
        ensures
            bytes@ == self.spec_encoded(),
    {
        let mut bytes: Vec<u8> = Vec::with_capacity(3 + self.size as usize);
        bytes.push(u8::from(self.datagram_type));
        let size = u16_to_le_bytes(self.size);
        bytes.extend_from_slice(size.as_slice());
        bytes.extend_from_slice(self.payload.as_slice());
        bytes
    }

    /// The fixed minimum byte size of this datagram type, the variable
    /// payload not counted.
    pub fn get_default_byte_size() -> (size: usize)
        ensures
            size == 3,
    {
        3
    }

    /// Reads a connect refusal back from a buffer. Fails when the buffer is
    /// shorter than the fixed header, or than the header plus the payload
    /// length the header declares: the length field is attacker-controlled
    /// and is re-validated before slicing.
    pub fn try_from(buffer: &[u8]) -> (out: Result<DtgConnectNack, ProtocolError>)
        ensures
            buffer@.len() < 3 ==> out == Err::<DtgConnectNack, ProtocolError>(
                ProtocolError::TooShort,
            ),
            buffer@.len() >= 3 ==> {
                let size = spec_u16_from_le_bytes(buffer@.subrange(1, 3));
                if buffer@.len() < 3 + size {
                    out == Err::<DtgConnectNack, ProtocolError>(ProtocolError::TooShort)
                } else {
                    out matches Ok(dtg) && dtg.datagram_type == spec_type_of_code(buffer@[0])
                        && dtg.size == size && dtg.payload@ == buffer@.subrange(3, 3 + size)
                }
            },
    {
        if buffer.len() < 3 {
            return Err(ProtocolError::TooShort);
        }
        let size = u16_from_le_bytes(slice_subrange(buffer, 1, 3));
        let total = 3 + size as usize;
        if buffer.len() < total {
            return Err(ProtocolError::TooShort);
        }
        let payload = slice_to_vec(slice_subrange(buffer, 3, total));
        Ok(DtgConnectNack { datagram_type: DatagramType::from(buffer[0]), size, payload })
    }
}

} // verus!
