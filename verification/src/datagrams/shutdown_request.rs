//! The datagram that closes a connection, with the reason for it.

use vstd::prelude::*;
use crate::enums::datagram_type::{spec_type_code, spec_type_of_code, DatagramType};
use crate::enums::end_connection_reason::{
    spec_reason_code, spec_reason_of_code, EndConnexionReason,
};
use crate::errors::ProtocolError;

verus! {

/// Sent to close the connection between a peer and the broker.
#[derive(Debug)]
pub struct DtgShutdown {
    pub datagram_type: DatagramType,
    pub reason: EndConnexionReason,
}

impl DtgShutdown {
    pub open spec fn valid(self) -> bool {
        self.datagram_type == DatagramType::Shutdown
    }

    /// The exact bytes this datagram encodes to: opcode, then reason code.
    pub open spec fn spec_encoded(self) -> Seq<u8> {
        seq![spec_type_code(self.datagram_type), spec_reason_code(self.reason)]
    }

    pub fn new(reason: EndConnexionReason) -> (dtg: DtgShutdown)
        ensures
            dtg.valid(),
            dtg.reason == reason,
    {
        DtgShutdown { datagram_type: DatagramType::Shutdown, reason }
    }

    pub fn as_bytes(&self) -> (bytes: Vec<u8>)
        ensures
            bytes@ == self.spec_encoded(),
    {
        let mut bytes: Vec<u8> = Vec::with_capacity(2);
        bytes.push(u8::from(self.datagram_type));
        bytes.push(u8::from(self.reason));
        bytes
    }

    /// The fixed minimum byte size of this datagram type.
    pub fn get_default_byte_size() -> (size: usize)
        ensures
            size == 2,
    {
        2
    }

    /// Reads a shutdown back from a buffer; fails only when the buffer is
    /// shorter than the type's minimum size. A reason byte that names no
    /// known reason reads back as the `Unknown` reason.
    pub fn try_from(buffer: &[u8]) -> (out: Result<DtgShutdown, ProtocolError>)
        ensures
            buffer@.len() < 2 ==> out == Err::<DtgShutdown, ProtocolError>(ProtocolError::TooShort),
            buffer@.len() >= 2 ==> out == Ok::<DtgShutdown, ProtocolError>(
                DtgShutdown {
                    datagram_type: spec_type_of_code(buffer@[0]),
                    reason: spec_reason_of_code(buffer@[1]),
                },
            ),
    {
        if buffer.len() < 2 {
            return Err(ProtocolError::TooShort);
        }
        Ok(
            DtgShutdown {
                datagram_type: DatagramType::from(buffer[0]),
                reason: EndConnexionReason::from(buffer[1]),
            },
        )
    }
}

} // verus!
