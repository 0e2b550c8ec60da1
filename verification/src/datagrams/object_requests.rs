//! The object datagrams: a request to create, change or delete a named
//! grouping of topics, its acknowledgement, and its refusal. The request
//! carries a set of topic identities packed eight bytes each.

use vstd::prelude::*;
use vstd::bytes::{
    lemma_auto_spec_u64_to_from_le_bytes, spec_u16_from_le_bytes, spec_u16_to_le_bytes,
    spec_u64_from_le_bytes, spec_u64_to_le_bytes, u16_from_le_bytes, u16_to_le_bytes,
    u64_from_le_bytes, u64_to_le_bytes,
};
use vstd::slice::{slice_subrange, slice_to_vec};
use vstd::string::StringSliceAdditionalSpecFns;
use crate::enums::datagram_type::{spec_type_code, spec_type_of_code, DatagramType};
use crate::enums::object_request_action::{
    spec_object_action_code, spec_object_action_of_code, ObjectRequestAction,
};
use crate::errors::ProtocolError;
use crate::libs::types::{Flag, ObjectId, Size, TopicId};

verus! {

/// The bytes that a sequence of topic identities packs to: each identity
/// eight little-endian bytes, in sequence order.
pub open spec fn spec_topics_to_bytes(topics: Seq<TopicId>) -> Seq<u8>
    decreases topics.len(),
{
    if topics.len() == 0 {
        Seq::empty()
    } else {
        spec_u64_to_le_bytes(topics.first()) + spec_topics_to_bytes(topics.drop_first())
    }
}

/// The topic identities packed in a byte sequence, eight bytes each; a
/// trailing group of fewer than eight bytes is dropped.
pub open spec fn spec_topics_of_bytes(bytes: Seq<u8>) -> Seq<TopicId>
    decreases bytes.len(),
{
    if bytes.len() < 8 {
        Seq::empty()
    } else {
        seq![spec_u64_from_le_bytes(bytes.take(8))] + spec_topics_of_bytes(bytes.skip(8))
    }
}

/// Packing topics to bytes takes eight bytes per topic.
pub proof fn lemma_topics_to_bytes_len(topics: Seq<TopicId>)
    ensures
        spec_topics_to_bytes(topics).len() == 8 * topics.len(),
    decreases topics.len(),
{
    lemma_auto_spec_u64_to_from_le_bytes();
    if topics.len() > 0 {
        lemma_topics_to_bytes_len(topics.drop_first());
    }
}

/// Unpacking the packed image of a topic sequence gives the sequence back.
pub proof fn lemma_topics_roundtrip(topics: Seq<TopicId>)
    ensures
        spec_topics_of_bytes(spec_topics_to_bytes(topics)) == topics,
    decreases topics.len(),
{
    lemma_auto_spec_u64_to_from_le_bytes();
    if topics.len() == 0 {
        assert(spec_topics_of_bytes(spec_topics_to_bytes(topics)) =~= topics);
    } else {
        let head = spec_u64_to_le_bytes(topics.first());
        let rest = spec_topics_to_bytes(topics.drop_first());
        assert((head + rest).len() >= 8);
        assert((head + rest).take(8) =~= head);
        assert((head + rest).skip(8) =~= rest);
        lemma_topics_roundtrip(topics.drop_first());
        assert(seq![topics.first()] + topics.drop_first() =~= topics);
    }
}

/// Packing one more topic appends its eight bytes to the packed image.
pub proof fn lemma_topics_to_bytes_snoc(topics: Seq<TopicId>, k: int)
    requires
        0 <= k < topics.len(),
    ensures
        spec_topics_to_bytes(topics.take(k + 1)) == spec_topics_to_bytes(topics.take(k))
            + spec_u64_to_le_bytes(topics[k]),
    decreases k,
{
    if k == 0 {
        assert(topics.take(1).drop_first() =~= Seq::<TopicId>::empty());
        assert(topics.take(0) =~= Seq::<TopicId>::empty());
        assert(spec_topics_to_bytes(topics.take(1)) == spec_u64_to_le_bytes(topics[0])
            + spec_topics_to_bytes(Seq::<TopicId>::empty()));
        assert(spec_u64_to_le_bytes(topics[0]) + Seq::<u8>::empty() =~= spec_u64_to_le_bytes(
            topics[0],
        ));
        assert(Seq::<u8>::empty() + spec_u64_to_le_bytes(topics[0]) =~= spec_u64_to_le_bytes(
            topics[0],
        ));
    } else {
        let tail = topics.drop_first();
        assert(topics.take(k + 1).drop_first() =~= tail.take(k));
        assert(topics.take(k).drop_first() =~= tail.take(k - 1));
        assert(topics.take(k + 1).first() == topics[0]);
        assert(topics.take(k).first() == topics[0]);
        lemma_topics_to_bytes_snoc(tail, k - 1);
        assert(tail[k - 1] == topics[k]);
        let head = spec_u64_to_le_bytes(topics[0]);
        let mid = spec_topics_to_bytes(tail.take(k - 1));
        let last = spec_u64_to_le_bytes(topics[k]);
        assert(head + (mid + last) =~= (head + mid) + last);
    }
}

/// Sent to create, change or delete an object — a named grouping of
/// topics — or to subscribe to or unsubscribe from its topics at once. The
/// `size` field declares the byte length of the packed topic set.
#[derive(Debug)]
pub struct DtgObjectRequest {
    pub datagram_type: DatagramType,
    pub size: Size,
    pub flag: ObjectRequestAction,
    pub object_id: ObjectId,
    pub payload: Vec<TopicId>,
}

impl DtgObjectRequest {
    /// Well formed when the declared size equals eight bytes per topic.
    pub open spec fn valid(self) -> bool {
        &&& self.datagram_type == DatagramType::ObjectRequest
        &&& self.size == 8 * self.payload@.len()
    }

    /// The exact bytes this datagram encodes to: opcode, the declared size
    /// in two little-endian bytes, the action code, the object identity in
    /// eight bytes, then the packed topic set.
    pub open spec fn spec_encoded(self) -> Seq<u8> {
        seq![spec_type_code(self.datagram_type)] + spec_u16_to_le_bytes(self.size)
            + seq![spec_object_action_code(self.flag)] + spec_u64_to_le_bytes(self.object_id)
            + spec_topics_to_bytes(self.payload@)
    }

    pub fn new(flag: ObjectRequestAction, object_id: ObjectId, topics: Vec<TopicId>) -> (dtg:
        DtgObjectRequest)
        requires
            topics@.len() <= 8191,
        ensures
            dtg.valid(),
            dtg.flag == flag,
            dtg.object_id == object_id,
            dtg.payload == topics,
            dtg.size == 8 * topics@.len(),
    {
        let size: Size = (topics.len() * 8) as Size;
        DtgObjectRequest {
            datagram_type: DatagramType::ObjectRequest,
            size,
            flag,
            object_id,
            payload: topics,
        }
    }

    pub fn as_bytes(&self) -> (bytes: Vec<u8>)
        ensures
            bytes@ == self.spec_encoded(),
    {
        let mut bytes: Vec<u8> = Vec::with_capacity(12 + self.size as usize);
        bytes.push(u8::from(self.datagram_type));
        let size = u16_to_le_bytes(self.size);
        bytes.extend_from_slice(size.as_slice());
        bytes.push(u8::from(self.flag));
        let object = u64_to_le_bytes(self.object_id);
        bytes.extend_from_slice(object.as_slice());
        let ghost header = bytes@;
        let mut k: usize = 0;
        while k < self.payload.len()
            invariant
                k <= self.payload@.len(),
                bytes@ == header + spec_topics_to_bytes(self.payload@.take(k as int)),
            decreases self.payload@.len() - k,
        {
            let topic = u64_to_le_bytes(self.payload[k]);
            bytes.extend_from_slice(topic.as_slice());
            proof {
                lemma_topics_to_bytes_snoc(self.payload@, k as int);
                assert((header + spec_topics_to_bytes(self.payload@.take(k as int)))
                    + spec_u64_to_le_bytes(self.payload@[k as int]) =~= header
                    + spec_topics_to_bytes(self.payload@.take(k + 1)));
            }
            k = k + 1;
        }
        proof {
            assert(self.payload@.take(self.payload@.len() as int) =~= self.payload@);
        }
        bytes
    }

    /// The fixed minimum byte size of this datagram type, the packed topic
    /// set not counted.
    pub fn get_default_byte_size() -> (size: usize)
        ensures
            size == 12,
    {
        12
    }

    /// Reads an object request back from a buffer. Fails when the buffer is
    /// shorter than the fixed header, or than the header plus the payload
    /// length the header declares: the length field is attacker-controlled
    /// and is re-validated before slicing.
    pub fn try_from(buffer: &[u8]) -> (out: Result<DtgObjectRequest, ProtocolError>)
        ensures
            buffer@.len() < 12 ==> out == Err::<DtgObjectRequest, ProtocolError>(
                ProtocolError::TooShort,
            ),
            buffer@.len() >= 12 ==> {
                let size = spec_u16_from_le_bytes(buffer@.subrange(1, 3));
                if buffer@.len() < 12 + size {
                    out == Err::<DtgObjectRequest, ProtocolError>(ProtocolError::TooShort)
                } else {
                    out matches Ok(dtg) && dtg.datagram_type == spec_type_of_code(buffer@[0])
                        && dtg.size == size && dtg.flag == spec_object_action_of_code(buffer@[3])
                        && dtg.object_id == spec_u64_from_le_bytes(buffer@.subrange(4, 12))
                        && dtg.payload@ == spec_topics_of_bytes(
                        buffer@.subrange(12, 12 + size),
                    )
                }
            },
    {
        if buffer.len() < 12 {
            return Err(ProtocolError::TooShort);
        }
        let size = u16_from_le_bytes(slice_subrange(buffer, 1, 3));
        let total = 12 + size as usize;
        if buffer.len() < total {
            return Err(ProtocolError::TooShort);
        }
        let ghost pbytes = buffer@.subrange(12, 12 + size as int);
        let count = (size as usize) / 8;
        let mut topics: Vec<TopicId> = Vec::with_capacity(count);
        let mut k: usize = 0;
        proof {
            assert(8 * count <= size) by (nonlinear_arith)
                requires
                    count == (size as usize) / 8,
            ;
            assert(pbytes.skip(0) =~= pbytes);
            assert(Seq::<TopicId>::empty() + spec_topics_of_bytes(pbytes) =~= spec_topics_of_bytes(
                pbytes,
            ));
        }
        while k < count
            invariant
                k <= count,
                8 * count <= size,
                12 + size <= buffer@.len(),
                pbytes == buffer@.subrange(12, 12 + size as int),
                topics@.len() == k,
                topics@ + spec_topics_of_bytes(pbytes.skip(8 * k as int)) == spec_topics_of_bytes(
                    pbytes,
                ),
            decreases count - k,
        {
            let offset = 12 + 8 * k;
            let topic = u64_from_le_bytes(slice_subrange(buffer, offset, offset + 8));
            proof {
                let rest = pbytes.skip(8 * k as int);
                assert(rest.len() >= 8);
                assert(rest.take(8) =~= buffer@.subrange(offset as int, offset + 8));
                assert(rest.skip(8) =~= pbytes.skip(8 * (k + 1)));
                assert((topics@.push(spec_u64_from_le_bytes(rest.take(8)))) + spec_topics_of_bytes(
                    pbytes.skip(8 * (k + 1)),
                ) =~= topics@ + spec_topics_of_bytes(rest));
            }
            topics.push(topic);
            k = k + 1;
        }
        proof {
            assert(pbytes.skip(8 * count as int).len() < 8);
            assert(topics@ + Seq::<TopicId>::empty() =~= topics@);
        }
        let object_id = u64_from_le_bytes(slice_subrange(buffer, 4, 12));
        Ok(
            DtgObjectRequest {
                datagram_type: DatagramType::from(buffer[0]),
                flag: ObjectRequestAction::from(buffer[3]),
                size,
                object_id,
                payload: topics,
            },
        )
    }
}

/// The broker's acknowledgement of an object request. The flag byte echoes
/// the action bits; when its lowest bit — the create bit — is set, the
/// acknowledgement also carries the object identity the broker settled on.
#[derive(Debug)]
pub struct DtgObjectRequestACK {
    pub datagram_type: DatagramType,
    pub flag: Flag,
    pub object_id: ObjectId,
    pub final_object_id: ObjectId,
}

impl DtgObjectRequestACK {
    /// Well formed when a final object identity is carried only under the
    /// create bit: with that bit clear, the field reads back as zero.
    pub open spec fn valid(self) -> bool {
        &&& self.datagram_type == DatagramType::ObjectRequestAck
        &&& (self.flag & 1 == 0 ==> self.final_object_id == 0)
    }

    /// The exact bytes this datagram encodes to: opcode, flag byte, then
    /// the two object identities in eight little-endian bytes each.
    pub open spec fn spec_encoded(self) -> Seq<u8> {
        seq![spec_type_code(self.datagram_type), self.flag] + spec_u64_to_le_bytes(self.object_id)
            + spec_u64_to_le_bytes(self.final_object_id)
    }

    pub fn new(flag: Flag, object_id: ObjectId, final_object_id: ObjectId) -> (dtg:
        DtgObjectRequestACK)
        ensures
            dtg.datagram_type == DatagramType::ObjectRequestAck,
            dtg.flag == flag,
            dtg.object_id == object_id,
            dtg.final_object_id == final_object_id,
    {
        DtgObjectRequestACK {
            datagram_type: DatagramType::ObjectRequestAck,
            flag,
            object_id,
            final_object_id,
        }
    }

    pub fn as_bytes(&self) -> (bytes: Vec<u8>)
        ensures
            bytes@ == self.spec_encoded(),
    {
        let mut bytes: Vec<u8> = Vec::with_capacity(18);
        bytes.push(u8::from(self.datagram_type));
        bytes.push(self.flag);
        let object = u64_to_le_bytes(self.object_id);
        bytes.extend_from_slice(object.as_slice());
        let final_object = u64_to_le_bytes(self.final_object_id);
        bytes.extend_from_slice(final_object.as_slice());
        bytes
    }

    /// The fixed minimum byte size of this datagram type.
    pub fn get_default_byte_size() -> (size: usize)
        ensures
            size == 18,
    {
        18
    }

    /// Reads an object acknowledgement back from a buffer; fails only when
    /// the buffer is shorter than the type's minimum size. The final object
    /// identity is read only when the create bit of the flag byte is set.
    pub fn try_from(buffer: &[u8]) -> (out: Result<DtgObjectRequestACK, ProtocolError>)
        ensures
            buffer@.len() < 18 ==> out == Err::<DtgObjectRequestACK, ProtocolError>(
                ProtocolError::TooShort,
            ),
            buffer@.len() >= 18 ==> out == Ok::<DtgObjectRequestACK, ProtocolError>(
                DtgObjectRequestACK {
                    datagram_type: spec_type_of_code(buffer@[0]),
                    flag: buffer@[1],
                    object_id: spec_u64_from_le_bytes(buffer@.subrange(2, 10)),
                    final_object_id: if buffer@[1] & 1 == 1 {
                        spec_u64_from_le_bytes(buffer@.subrange(10, 18))
                    } else {
                        0
                    },
                },
            ),
    {
        if buffer.len() < 18 {
            return Err(ProtocolError::TooShort);
        }
        let flag = buffer[1];
        let object_id = u64_from_le_bytes(slice_subrange(buffer, 2, 10));
        let final_object_id = if flag & 1 == 1 {
            u64_from_le_bytes(slice_subrange(buffer, 10, 18))
        } else {
            0
        };
        Ok(
            DtgObjectRequestACK {
                datagram_type: DatagramType::from(buffer[0]),
                flag,
                object_id,
                final_object_id,
            },
        )
    }
}

/// The broker's refusal of an object request, for any of its actions,
/// carrying the flag byte, the object identity, and a reason text whose
/// byte length stands in the `size` field.
#[derive(Debug)]
pub struct DtgObjectRequestNACK {
    pub datagram_type: DatagramType,
    pub size: Size,
    pub flag: Flag,
    pub object_id: ObjectId,
    pub payload: Vec<u8>,
}

impl DtgObjectRequestNACK {
    /// Well formed when the declared size equals the payload's byte length.
    pub open spec fn valid(self) -> bool {
        &&& self.datagram_type == DatagramType::ObjectRequestNack
        &&& self.size == self.payload@.len()
    }

    /// The exact bytes this datagram encodes to: opcode, the declared size
    /// in two little-endian bytes, the flag byte, the object identity in
    /// eight bytes, then the payload.
    pub open spec fn spec_encoded(self) -> Seq<u8> {
        seq![spec_type_code(self.datagram_type)] + spec_u16_to_le_bytes(self.size)
            + seq![self.flag] + spec_u64_to_le_bytes(self.object_id) + self.payload@
    }

    pub fn new(flag: Flag, object_id: ObjectId, reason: &str) -> (dtg: DtgObjectRequestNACK)
        requires
            reason.spec_bytes().len() <= u16::MAX,
        ensures
            dtg.valid(),
            dtg.flag == flag,
            dtg.object_id == object_id,
            dtg.payload@ == reason.spec_bytes(),
            dtg.size == reason.spec_bytes().len(),
    {
        let reason_vec: Vec<u8> = slice_to_vec(reason.as_bytes());
        let size = reason_vec.len() as Size;
        DtgObjectRequestNACK {
            datagram_type: DatagramType::ObjectRequestNack,
            size,
            flag,
            object_id,
            payload: reason_vec,
        }
    }

    pub fn as_bytes(&self) -> (bytes: Vec<u8>)
        ensures
            bytes@ == self.spec_encoded(),
    {
        let mut bytes: Vec<u8> = Vec::with_capacity(12 + self.size as usize);
        bytes.push(u8::from(self.datagram_type));
        let size = u16_to_le_bytes(self.size);
        bytes.extend_from_slice(size.as_slice());
        bytes.push(self.flag);
        let object = u64_to_le_bytes(self.object_id);
        bytes.extend_from_slice(object.as_slice());
        bytes.extend_from_slice(self.payload.as_slice());
        bytes
    }

    /// The fixed minimum byte size of this datagram type, the variable
    /// payload not counted.
    pub fn get_default_byte_size() -> (size: usize)
        ensures
            size == 12,
    {
        12
    }

    /// Reads an object refusal back from a buffer. Fails when the buffer is
    /// shorter than the fixed header, or than the header plus the payload
    /// length the header declares: the length field is attacker-controlled
    /// and is re-validated before slicing.
    pub fn try_from(buffer: &[u8]) -> (out: Result<DtgObjectRequestNACK, ProtocolError>)
        ensures
            buffer@.len() < 12 ==> out == Err::<DtgObjectRequestNACK, ProtocolError>(
                ProtocolError::TooShort,
            ),
            buffer@.len() >= 12 ==> {
                let size = spec_u16_from_le_bytes(buffer@.subrange(1, 3));
                if buffer@.len() < 12 + size {
                    out == Err::<DtgObjectRequestNACK, ProtocolError>(ProtocolError::TooShort)
                } else {
                    out matches Ok(dtg) && dtg.datagram_type == spec_type_of_code(buffer@[0])
                        && dtg.size == size && dtg.flag == buffer@[3] && dtg.object_id
                        == spec_u64_from_le_bytes(buffer@.subrange(4, 12)) && dtg.payload@
                        == buffer@.subrange(12, 12 + size)
                }
            },
    {
        if buffer.len() < 12 {
            return Err(ProtocolError::TooShort);
        }
        let size = u16_from_le_bytes(slice_subrange(buffer, 1, 3));
        let total = 12 + size as usize;
        if buffer.len() < total {
            return Err(ProtocolError::TooShort);
        }
        let object_id = u64_from_le_bytes(slice_subrange(buffer, 4, 12));
        let payload = slice_to_vec(slice_subrange(buffer, 12, total));
        Ok(
            DtgObjectRequestNACK {
                datagram_type: DatagramType::from(buffer[0]),
                size,
                flag: buffer[3],
                object_id,
                payload,
            },
        )
    }
}

} // verus!
