//! The topic subscription datagrams: the request to subscribe or
//! unsubscribe, its acknowledgement, and its refusal with a reason text.

use vstd::prelude::*;
use vstd::bytes::{
    spec_u16_from_le_bytes, spec_u16_to_le_bytes, spec_u64_from_le_bytes, spec_u64_to_le_bytes,
    u16_from_le_bytes, u16_to_le_bytes, u64_from_le_bytes, u64_to_le_bytes,
};
use vstd::slice::{slice_subrange, slice_to_vec};
use vstd::string::StringSliceAdditionalSpecFns;
use crate::enums::datagram_type::{spec_type_code, spec_type_of_code, DatagramType};
use crate::enums::topic_action::{spec_topic_action_code, spec_topic_action_of_code, TopicAction};
use crate::enums::topic_response::{
    spec_topic_response_code, spec_topic_response_of_code, TopicResponse,
};
use crate::errors::ProtocolError;
use crate::libs::types::{Size, TopicId};

verus! {

/// Sent to subscribe to or unsubscribe from one topic.
#[derive(Debug)]
pub struct DtgTopicRequest {
    pub datagram_type: DatagramType,
    pub flag: TopicAction,
    pub topic_id: TopicId,
}

impl DtgTopicRequest {
    pub open spec fn valid(self) -> bool {
        self.datagram_type == DatagramType::TopicRequest
    }

    /// The exact bytes this datagram encodes to: opcode, action code, then
    /// the topic identity in eight little-endian bytes.
    pub open spec fn spec_encoded(self) -> Seq<u8> {
        seq![spec_type_code(self.datagram_type), spec_topic_action_code(self.flag)]
            + spec_u64_to_le_bytes(self.topic_id)
    }

    pub fn new(action: TopicAction, topic_id: TopicId) -> (dtg: DtgTopicRequest)
        ensures
            dtg.valid(),
            dtg.flag == action,
            dtg.topic_id == topic_id,
    {
        DtgTopicRequest { datagram_type: DatagramType::TopicRequest, flag: action, topic_id }
    }

    pub fn as_bytes(&self) -> (bytes: Vec<u8>)
        ensures
            bytes@ == self.spec_encoded(),
    {
        let mut bytes: Vec<u8> = Vec::with_capacity(10);
        bytes.push(u8::from(self.datagram_type));
        bytes.push(u8::from(self.flag));
        let topic = u64_to_le_bytes(self.topic_id);
        bytes.extend_from_slice(topic.as_slice());
        bytes
    }

    /// The fixed minimum byte size of this datagram type.
    pub fn get_default_byte_size() -> (size: usize)
        ensures
            size == 10,
    {
        10
    }

    /// Reads a topic request back from a buffer; fails only when the buffer
    /// is shorter than the type's minimum size.
    pub fn try_from(buffer: &[u8]) -> (out: Result<DtgTopicRequest, ProtocolError>)
        ensures
            buffer@.len() < 10 ==> out == Err::<DtgTopicRequest, ProtocolError>(
                ProtocolError::TooShort,
            ),
            buffer@.len() >= 10 ==> out == Ok::<DtgTopicRequest, ProtocolError>(
                DtgTopicRequest {
                    datagram_type: spec_type_of_code(buffer@[0]),
                    flag: spec_topic_action_of_code(buffer@[1]),
                    topic_id: spec_u64_from_le_bytes(buffer@.subrange(2, 10)),
                },
            ),
    {
        if buffer.len() < 10 {
            return Err(ProtocolError::TooShort);
        }
        let topic_id = u64_from_le_bytes(slice_subrange(buffer, 2, 10));
        Ok(
            DtgTopicRequest {
                datagram_type: DatagramType::from(buffer[0]),
                flag: TopicAction::from(buffer[1]),
                topic_id,
            },
        )
    }
}

/// The broker's answer to a topic request: the outcome and the topic it is
/// about.
#[derive(Debug)]
pub struct DtgTopicRequestAck {
    pub datagram_type: DatagramType,
    pub flag: TopicResponse,
    pub topic_id: TopicId,
}

impl DtgTopicRequestAck {
    pub open spec fn valid(self) -> bool {
        self.datagram_type == DatagramType::TopicRequestAck
    }

    /// The exact bytes this datagram encodes to: opcode, response code,
    /// then the topic identity in eight little-endian bytes.
    pub open spec fn spec_encoded(self) -> Seq<u8> {
        seq![spec_type_code(self.datagram_type), spec_topic_response_code(self.flag)]
            + spec_u64_to_le_bytes(self.topic_id)
    }

    pub fn new(topic_id: TopicId, status: TopicResponse) -> (dtg: DtgTopicRequestAck)
        ensures
            dtg.valid(),
            dtg.flag == status,
            dtg.topic_id == topic_id,
    {
        DtgTopicRequestAck { datagram_type: DatagramType::TopicRequestAck, flag: status, topic_id }
    }

    pub fn as_bytes(&self) -> (bytes: Vec<u8>)
        ensures
            bytes@ == self.spec_encoded(),
    {
        let mut bytes: Vec<u8> = Vec::with_capacity(10);
        bytes.push(u8::from(self.datagram_type));
        bytes.push(u8::from(self.flag));
        let topic = u64_to_le_bytes(self.topic_id);
        bytes.extend_from_slice(topic.as_slice());
        bytes
    }

    /// The fixed minimum byte size of this datagram type.
    pub fn get_default_byte_size() -> (size: usize)
        ensures
            size == 10,
    {
        10
    }

    /// Reads a topic acknowledgement back from a buffer; fails only when
    /// the buffer is shorter than the type's minimum size.
    pub fn try_from(buffer: &[u8]) -> (out: Result<DtgTopicRequestAck, ProtocolError>)
        ensures
            buffer@.len() < 10 ==> out == Err::<DtgTopicRequestAck, ProtocolError>(
                ProtocolError::TooShort,
            ),
            buffer@.len() >= 10 ==> out == Ok::<DtgTopicRequestAck, ProtocolError>(
                DtgTopicRequestAck {
                    datagram_type: spec_type_of_code(buffer@[0]),
                    flag: spec_topic_response_of_code(buffer@[1]),
                    topic_id: spec_u64_from_le_bytes(buffer@.subrange(2, 10)),
                },
            ),
    {
        if buffer.len() < 10 {
            return Err(ProtocolError::TooShort);
        }
        let topic_id = u64_from_le_bytes(slice_subrange(buffer, 2, 10));
        Ok(
            DtgTopicRequestAck {
                datagram_type: DatagramType::from(buffer[0]),
                flag: TopicResponse::from(buffer[1]),
                topic_id,
            },
        )
    }
}

/// The broker's refusal of a topic request, carrying the response code and
/// a reason text whose byte length stands in the `size` field.
#[derive(Debug)]
pub struct DtgTopicRequestNack {
    pub datagram_type: DatagramType,
    pub size: Size,
    pub flag: TopicResponse,
    pub payload: Vec<u8>,
}

impl DtgTopicRequestNack {
    /// Well formed when the declared size equals the payload's byte length.
    pub open spec fn valid(self) -> bool {
        &&& self.datagram_type == DatagramType::TopicRequestNack
        &&& self.size == self.payload@.len()
    }

    /// The exact bytes this datagram encodes to: opcode, the declared size
    /// in two little-endian bytes, the response code, then the payload.
    pub open spec fn spec_encoded(self) -> Seq<u8> {
        seq![spec_type_code(self.datagram_type)] + spec_u16_to_le_bytes(self.size)
            + seq![spec_topic_response_code(self.flag)] + self.payload@
    }

    pub fn new(status: TopicResponse, error_message: &str) -> (dtg: DtgTopicRequestNack)
        requires
            error_message.spec_bytes().len() <= u16::MAX,
        ensures
            dtg.valid(),
            dtg.flag == status,
            dtg.payload@ == error_message.spec_bytes(),
            dtg.size == error_message.spec_bytes().len(),
    {
        let payload: Vec<u8> = slice_to_vec(error_message.as_bytes());
        let size = payload.len() as Size;
        DtgTopicRequestNack { datagram_type: DatagramType::TopicRequestNack, size, flag: status, payload }
    }

    pub fn as_bytes(&self) -> (bytes: Vec<u8>)
        ensures
            bytes@ == self.spec_encoded(),
    {
        let mut bytes: Vec<u8> = Vec::with_capacity(4 + self.size as usize);
        bytes.push(u8::from(self.datagram_type));
        let size = u16_to_le_bytes(self.size);
        bytes.extend_from_slice(size.as_slice());
        bytes.push(u8::from(self.flag));
        bytes.extend_from_slice(self.payload.as_slice());
        bytes
    }

    /// The fixed minimum byte size of this datagram type, the variable
    /// payload not counted.
    pub fn get_default_byte_size() -> (size: usize)
        ensures
            size == 4,
    {
        4
    }

    /// Reads a topic refusal back from a buffer. Fails when the buffer is
    /// shorter than the fixed header, or than the header plus the payload
    /// length the header declares: the length field is attacker-controlled
    /// and is re-validated before slicing.
    pub fn try_from(buffer: &[u8]) -> (out: Result<DtgTopicRequestNack, ProtocolError>)
        ensures
            buffer@.len() < 4 ==> out == Err::<DtgTopicRequestNack, ProtocolError>(
                ProtocolError::TooShort,
            ),
            buffer@.len() >= 4 ==> {
                let size = spec_u16_from_le_bytes(buffer@.subrange(1, 3));
                if buffer@.len() < 4 + size {
                    out == Err::<DtgTopicRequestNack, ProtocolError>(ProtocolError::TooShort)
                } else {
                    out matches Ok(dtg) && dtg.datagram_type == spec_type_of_code(buffer@[0])
                        && dtg.size == size && dtg.flag == spec_topic_response_of_code(buffer@[3])
                        && dtg.payload@ == buffer@.subrange(4, 4 + size)
                }
            },
    {
        if buffer.len() < 4 {
            return Err(ProtocolError::TooShort);
        }
        let size = u16_from_le_bytes(slice_subrange(buffer, 1, 3));
        let total = 4 + size as usize;
        if buffer.len() < total {
            return Err(ProtocolError::TooShort);
        }
        let payload = slice_to_vec(slice_subrange(buffer, 4, total));
        Ok(
            DtgTopicRequestNack {
                datagram_type: DatagramType::from(buffer[0]),
                size,
                flag: TopicResponse::from(buffer[3]),
                payload,
            },
        )
    }
}

} // verus!
