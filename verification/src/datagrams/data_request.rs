//! The data datagram: the payload a client publishes on a topic, with a
//! sequence number callers can build ordering guarantees on.

use vstd::prelude::*;
use vstd::bytes::{
    spec_u16_from_le_bytes, spec_u16_to_le_bytes, spec_u32_from_le_bytes, spec_u32_to_le_bytes,
    spec_u64_from_le_bytes, spec_u64_to_le_bytes, u16_from_le_bytes, u16_to_le_bytes,
    u32_from_le_bytes, u32_to_le_bytes, u64_from_le_bytes, u64_to_le_bytes,
};
use vstd::slice::{slice_subrange, slice_to_vec};
use crate::enums::datagram_type::{spec_type_code, spec_type_of_code, DatagramType};
use crate::errors::ProtocolError;
use crate::libs::types::{Size, TopicId};

verus! {

/// A payload published on one topic, to be fanned out to the topic's
/// subscribers.
#[derive(Debug)]
pub struct DtgData {
    pub datagram_type: DatagramType,
    pub size: Size,
    pub sequence_number: u32,
    pub topic_id: TopicId,
    pub payload: Vec<u8>,
}

impl DtgData {
    /// Well formed when the declared size equals the payload's byte length.
    pub open spec fn valid(self) -> bool {
        &&& self.datagram_type == DatagramType::Data
        &&& self.size == self.payload@.len()
    }

    /// The exact bytes this datagram encodes to: opcode, the declared size
    /// in two little-endian bytes, the sequence number in four, the topic
    /// identity in eight, then the payload.
    pub open spec fn spec_encoded(self) -> Seq<u8> {
        seq![spec_type_code(self.datagram_type)] + spec_u16_to_le_bytes(self.size)
            + spec_u32_to_le_bytes(self.sequence_number) + spec_u64_to_le_bytes(self.topic_id)
            + self.payload@
    }

    pub fn new(sequence_number: u32, topic_id: TopicId, payload: Vec<u8>) -> (dtg: DtgData)
        requires
            payload@.len() <= u16::MAX,
        ensures
            dtg.valid(),
            dtg.sequence_number == sequence_number,
            dtg.topic_id == topic_id,
            dtg.payload == payload,
            dtg.size == payload@.len(),
    {
        let size = payload.len() as Size;
        DtgData { datagram_type: DatagramType::Data, size, sequence_number, topic_id, payload }
    }

    pub fn as_bytes(&self) -> (bytes: Vec<u8>)
        ensures
            bytes@ == self.spec_encoded(),
    {
        let mut bytes: Vec<u8> = Vec::with_capacity(15 + self.size as usize);
        bytes.push(u8::from(self.datagram_type));
        let size = u16_to_le_bytes(self.size);
        bytes.extend_from_slice(size.as_slice());
        let sequence = u32_to_le_bytes(self.sequence_number);
        bytes.extend_from_slice(sequence.as_slice());
        let topic = u64_to_le_bytes(self.topic_id);
        bytes.extend_from_slice(topic.as_slice());
        bytes.extend_from_slice(self.payload.as_slice());
        bytes
    }

    /// The fixed minimum byte size of this datagram type, the variable
    /// payload not counted.
    pub fn get_default_byte_size() -> (size: usize)
        ensures
            size == 15,
    {
        15
    }

    /// Reads a data datagram back from a buffer. Fails when the buffer is
    /// shorter than the fixed header, or than the header plus the payload
    /// length the header declares: the length field is attacker-controlled
    /// and is re-validated before slicing.
    pub fn try_from(buffer: &[u8]) -> (out: Result<DtgData, ProtocolError>)
        ensures
            buffer@.len() < 15 ==> out == Err::<DtgData, ProtocolError>(ProtocolError::TooShort),
            buffer@.len() >= 15 ==> {
                let size = spec_u16_from_le_bytes(buffer@.subrange(1, 3));
                if buffer@.len() < 15 + size {
                    out == Err::<DtgData, ProtocolError>(ProtocolError::TooShort)
                } else {
                    out matches Ok(dtg) && dtg.datagram_type == DatagramType::Data && dtg.size
                        == size && dtg.sequence_number == spec_u32_from_le_bytes(
                        buffer@.subrange(3, 7),
                    ) && dtg.topic_id == spec_u64_from_le_bytes(buffer@.subrange(7, 15))
                        && dtg.payload@ == buffer@.subrange(15, 15 + size)
                }
            },
    {
        if buffer.len() < 15 {
            return Err(ProtocolError::TooShort);
        }
        let size = u16_from_le_bytes(slice_subrange(buffer, 1, 3));
        let total = 15 + size as usize;
        if buffer.len() < total {
            return Err(ProtocolError::TooShort);
        }
        let sequence_number = u32_from_le_bytes(slice_subrange(buffer, 3, 7));
        let topic_id = u64_from_le_bytes(slice_subrange(buffer, 7, 15));
        let payload = slice_to_vec(slice_subrange(buffer, 15, total));
        Ok(DtgData { datagram_type: DatagramType::Data, size, sequence_number, topic_id, payload })
    }
}

} // verus!
