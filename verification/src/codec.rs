//! The wire codec's single entry point: a sum type over every datagram,
//! one encoder, and one bounds-checked decoder keyed by the opcode byte.
//!
//! Encoding is total and deterministic. Decoding fails only with
//! `TooShort` — when the buffer is shorter than the opcode's fixed minimum
//! size, or than that minimum plus the payload length the buffer declares.
//! A first byte that is no known opcode decodes to the `Unknown` variant
//! rather than failing, so that newer peers stay readable.

use vstd::prelude::*;
use vstd::bytes::{
    lemma_auto_spec_u16_to_from_le_bytes, lemma_auto_spec_u32_to_from_le_bytes,
    lemma_auto_spec_u64_to_from_le_bytes, spec_u16_from_le_bytes, spec_u32_from_le_bytes,
    spec_u64_from_le_bytes,
};
use crate::datagrams::connect_requests::{DtgConnect, DtgConnectAck, DtgConnectNack};
use crate::datagrams::data_request::DtgData;
use crate::datagrams::heartbeat_requests::{DtgHeartbeat, DtgHeartbeatRequest};
use crate::datagrams::latency_requests::{DtgPing, DtgPong};
use crate::datagrams::miscellaneous_requests::{DtgServerStatus, DtgServerStatusACK};
use crate::datagrams::object_requests::{
    lemma_topics_roundtrip, lemma_topics_to_bytes_len, spec_topics_of_bytes, DtgObjectRequest,
    DtgObjectRequestACK, DtgObjectRequestNACK,
};
use crate::datagrams::shutdown_request::DtgShutdown;
use crate::datagrams::topic_request::{DtgTopicRequest, DtgTopicRequestAck, DtgTopicRequestNack};
use crate::enums::datagram_type::{spec_type_of_code, DatagramType};
use crate::enums::end_connection_reason::EndConnexionReason;
use crate::enums::object_request_action::ObjectRequestAction;
use crate::enums::topic_action::TopicAction;
use crate::enums::topic_response::TopicResponse;
use crate::errors::ProtocolError;

verus! {

/// One wire message of any type. Dispatching on this sum keeps every
/// handler exhaustive: a new message type extends the enum and every match
/// must follow.
#[derive(Debug)]
pub enum Datagram {
    Connect(DtgConnect),
    ConnectAck(DtgConnectAck),
    ConnectNack(DtgConnectNack),
    Shutdown(DtgShutdown),
    ServerStatus(DtgServerStatus),
    ServerStatusAck(DtgServerStatusACK),
    Heartbeat(DtgHeartbeat),
    HeartbeatRequest(DtgHeartbeatRequest),
    Ping(DtgPing),
    Pong(DtgPong),
    TopicRequest(DtgTopicRequest),
    TopicRequestAck(DtgTopicRequestAck),
    TopicRequestNack(DtgTopicRequestNack),
    ObjectRequest(DtgObjectRequest),
    ObjectRequestAck(DtgObjectRequestACK),
    ObjectRequestNack(DtgObjectRequestNACK),
    Data(DtgData),
    Unknown,
}

/// The mathematical image of a datagram: the same fields with byte and
/// topic payloads as sequences. Contracts and laws speak of this image.
#[allow(inconsistent_fields)]
pub enum DatagramView {
    Connect { datagram_type: DatagramType },
    ConnectAck { datagram_type: DatagramType, peer_id: u64, heartbeat_period: u16 },
    ConnectNack { datagram_type: DatagramType, size: u16, payload: Seq<u8> },
    Shutdown { datagram_type: DatagramType, reason: EndConnexionReason },
    ServerStatus { datagram_type: DatagramType },
    ServerStatusAck { datagram_type: DatagramType, connected_client: u64 },
    Heartbeat { datagram_type: DatagramType },
    HeartbeatRequest { datagram_type: DatagramType },
    Ping { datagram_type: DatagramType, ping_id: u8 },
    Pong { datagram_type: DatagramType, ping_id: u8 },
    TopicRequest { datagram_type: DatagramType, flag: TopicAction, topic_id: u64 },
    TopicRequestAck { datagram_type: DatagramType, flag: TopicResponse, topic_id: u64 },
    TopicRequestNack { datagram_type: DatagramType, size: u16, flag: TopicResponse, payload: Seq<u8> },
    ObjectRequest {
        datagram_type: DatagramType,
        size: u16,
        flag: ObjectRequestAction,
        object_id: u64,
        payload: Seq<u64>,
    },
    ObjectRequestAck { datagram_type: DatagramType, flag: u8, object_id: u64, final_object_id: u64 },
    ObjectRequestNack {
        datagram_type: DatagramType,
        size: u16,
        flag: u8,
        object_id: u64,
        payload: Seq<u8>,
    },
    Data {
        datagram_type: DatagramType,
        size: u16,
        sequence_number: u32,
        topic_id: u64,
        payload: Seq<u8>,
    },
    Unknown,
}

impl View for Datagram {
    type V = DatagramView;

    open spec fn view(&self) -> DatagramView {
        match self {
            Datagram::Connect(d) => DatagramView::Connect { datagram_type: d.datagram_type },
            Datagram::ConnectAck(d) => DatagramView::ConnectAck {
                datagram_type: d.datagram_type,
                peer_id: d.peer_id,
                heartbeat_period: d.heartbeat_period,
            },
            Datagram::ConnectNack(d) => DatagramView::ConnectNack {
                datagram_type: d.datagram_type,
                size: d.size,
                payload: d.payload@,
            },
            Datagram::Shutdown(d) => DatagramView::Shutdown {
                datagram_type: d.datagram_type,
                reason: d.reason,
            },
            Datagram::ServerStatus(d) => DatagramView::ServerStatus {
                datagram_type: d.datagram_type,
            },
            Datagram::ServerStatusAck(d) => DatagramView::ServerStatusAck {
                datagram_type: d.datagram_type,
                connected_client: d.connected_client,
            },
            Datagram::Heartbeat(d) => DatagramView::Heartbeat { datagram_type: d.datagram_type },
            Datagram::HeartbeatRequest(d) => DatagramView::HeartbeatRequest {
                datagram_type: d.datagram_type,
            },
            Datagram::Ping(d) => DatagramView::Ping {
                datagram_type: d.datagram_type,
                ping_id: d.ping_id,
            },
            Datagram::Pong(d) => DatagramView::Pong {
                datagram_type: d.datagram_type,
                ping_id: d.ping_id,
            },
            Datagram::TopicRequest(d) => DatagramView::TopicRequest {
                datagram_type: d.datagram_type,
                flag: d.flag,
                topic_id: d.topic_id,
            },
            Datagram::TopicRequestAck(d) => DatagramView::TopicRequestAck {
                datagram_type: d.datagram_type,
                flag: d.flag,
                topic_id: d.topic_id,
            },
            Datagram::TopicRequestNack(d) => DatagramView::TopicRequestNack {
                datagram_type: d.datagram_type,
                size: d.size,
                flag: d.flag,
                payload: d.payload@,
            },
            Datagram::ObjectRequest(d) => DatagramView::ObjectRequest {
                datagram_type: d.datagram_type,
                size: d.size,
                flag: d.flag,
                object_id: d.object_id,
                payload: d.payload@,
            },
            Datagram::ObjectRequestAck(d) => DatagramView::ObjectRequestAck {
                datagram_type: d.datagram_type,
                flag: d.flag,
                object_id: d.object_id,
                final_object_id: d.final_object_id,
            },
            Datagram::ObjectRequestNack(d) => DatagramView::ObjectRequestNack {
                datagram_type: d.datagram_type,
                size: d.size,
                flag: d.flag,
                object_id: d.object_id,
                payload: d.payload@,
            },
            Datagram::Data(d) => DatagramView::Data {
                datagram_type: d.datagram_type,
                size: d.size,
                sequence_number: d.sequence_number,
                topic_id: d.topic_id,
                payload: d.payload@,
            },
            Datagram::Unknown => DatagramView::Unknown,
        }
    }
}

impl Datagram {
    /// Well-formedness of a datagram: its type tag is the canonical one of
    /// its variant, every declared size equals its payload's length, and an
    /// object acknowledgement without the create bit carries no final
    /// object identity.
    pub open spec fn valid(self) -> bool {
        match self {
            Datagram::Connect(d) => d.valid(),
            Datagram::ConnectAck(d) => d.valid(),
            Datagram::ConnectNack(d) => d.valid(),
            Datagram::Shutdown(d) => d.valid(),
            Datagram::ServerStatus(d) => d.valid(),
            Datagram::ServerStatusAck(d) => d.valid(),
            Datagram::Heartbeat(d) => d.valid(),
            Datagram::HeartbeatRequest(d) => d.valid(),
            Datagram::Ping(d) => d.valid(),
            Datagram::Pong(d) => d.valid(),
            Datagram::TopicRequest(d) => d.valid(),
            Datagram::TopicRequestAck(d) => d.valid(),
            Datagram::TopicRequestNack(d) => d.valid(),
            Datagram::ObjectRequest(d) => d.valid(),
            Datagram::ObjectRequestAck(d) => d.valid(),
            Datagram::ObjectRequestNack(d) => d.valid(),
            Datagram::Data(d) => d.valid(),
            Datagram::Unknown => true,
        }
    }
}

/// The exact bytes a datagram encodes to. Total: every datagram value has
/// an encoding, whatever its fields hold.
pub open spec fn spec_encode(d: Datagram) -> Seq<u8> {
    match d {
        Datagram::Connect(x) => x.spec_encoded(),
        Datagram::ConnectAck(x) => x.spec_encoded(),
        Datagram::ConnectNack(x) => x.spec_encoded(),
        Datagram::Shutdown(x) => x.spec_encoded(),
        Datagram::ServerStatus(x) => x.spec_encoded(),
        Datagram::ServerStatusAck(x) => x.spec_encoded(),
        Datagram::Heartbeat(x) => x.spec_encoded(),
        Datagram::HeartbeatRequest(x) => x.spec_encoded(),
        Datagram::Ping(x) => x.spec_encoded(),
        Datagram::Pong(x) => x.spec_encoded(),
        Datagram::TopicRequest(x) => x.spec_encoded(),
        Datagram::TopicRequestAck(x) => x.spec_encoded(),
        Datagram::TopicRequestNack(x) => x.spec_encoded(),
        Datagram::ObjectRequest(x) => x.spec_encoded(),
        Datagram::ObjectRequestAck(x) => x.spec_encoded(),
        Datagram::ObjectRequestNack(x) => x.spec_encoded(),
        Datagram::Data(x) => x.spec_encoded(),
        Datagram::Unknown => seq![0xAAu8],
    }
}

/// Whether a byte is the opcode of a message type the broker knows. The
/// sentinel of the `Unknown` variant is itself no known opcode: it is
/// decoded, never sent.
pub open spec fn spec_is_known_opcode(code: u8) -> bool {
    ||| code == 0xF0
    ||| code == 0xF1
    ||| code == 0xF2
    ||| code == 0xFF
    ||| code == 0x30
    ||| code == 0x00
    ||| code == 0x60
    ||| code == 0x61
    ||| code == 0x62
    ||| code == 0x72
    ||| code == 0x45
    ||| code == 0x05
    ||| code == 0x15
    ||| code == 0x48
    ||| code == 0x08
    ||| code == 0x18
    ||| code == 0x42
}

/// The fixed minimum byte size of the message type an opcode names: the
/// opcode byte plus the fixed fields, any variable payload not counted.
pub open spec fn spec_min_size(code: u8) -> nat {
    if code == 0xF0 {
        1
    } else if code == 0xF1 {
        11
    } else if code == 0xF2 {
        3
    } else if code == 0xFF {
        2
    } else if code == 0x30 {
        1
    } else if code == 0x00 {
        9
    } else if code == 0x60 {
        1
    } else if code == 0x61 {
        1
    } else if code == 0x62 {
        2
    } else if code == 0x72 {
        2
    } else if code == 0x45 {
        10
    } else if code == 0x05 {
        10
    } else if code == 0x15 {
        4
    } else if code == 0x48 {
        12
    } else if code == 0x08 {
        18
    } else if code == 0x18 {
        12
    } else if code == 0x42 {
        15
    } else {
        1
    }
}

/// What a byte buffer decodes to: the image of exactly one datagram, or
/// `TooShort` when the buffer cannot hold what its first bytes declare.
pub open spec fn spec_decode(bytes: Seq<u8>) -> Result<DatagramView, ProtocolError> {
    if bytes.len() < 1 {
        Err(ProtocolError::TooShort)
    } else {
        let code = bytes[0];
        let tag = spec_type_of_code(code);
        if bytes.len() < spec_min_size(code) {
            Err(ProtocolError::TooShort)
        } else if code == 0xF0 {
            Ok(DatagramView::Connect { datagram_type: tag })
        } else if code == 0xF1 {
            Ok(
                DatagramView::ConnectAck {
                    datagram_type: tag,
                    peer_id: spec_u64_from_le_bytes(bytes.subrange(1, 9)),
                    heartbeat_period: spec_u16_from_le_bytes(bytes.subrange(9, 11)),
                },
            )
        } else if code == 0xF2 {
            let size = spec_u16_from_le_bytes(bytes.subrange(1, 3));
            if bytes.len() < 3 + size {
                Err(ProtocolError::TooShort)
            } else {
                Ok(
                    DatagramView::ConnectNack {
                        datagram_type: tag,
                        size,
                        payload: bytes.subrange(3, 3 + size as int),
                    },
                )
            }
        } else if code == 0xFF {
            Ok(
                DatagramView::Shutdown {
                    datagram_type: tag,
                    reason: crate::enums::end_connection_reason::spec_reason_of_code(bytes[1]),
                },
            )
        } else if code == 0x30 {
            Ok(DatagramView::ServerStatus { datagram_type: tag })
        } else if code == 0x00 {
            Ok(
                DatagramView::ServerStatusAck {
                    datagram_type: tag,
                    connected_client: spec_u64_from_le_bytes(bytes.subrange(1, 9)),
                },
            )
        } else if code == 0x60 {
            Ok(DatagramView::Heartbeat { datagram_type: tag })
        } else if code == 0x61 {
            Ok(DatagramView::HeartbeatRequest { datagram_type: tag })
        } else if code == 0x62 {
            Ok(DatagramView::Ping { datagram_type: tag, ping_id: bytes[1] })
        } else if code == 0x72 {
            Ok(DatagramView::Pong { datagram_type: tag, ping_id: bytes[1] })
        } else if code == 0x45 {
            Ok(
                DatagramView::TopicRequest {
                    datagram_type: tag,
                    flag: crate::enums::topic_action::spec_topic_action_of_code(bytes[1]),
                    topic_id: spec_u64_from_le_bytes(bytes.subrange(2, 10)),
                },
            )
        } else if code == 0x05 {
            Ok(
                DatagramView::TopicRequestAck {
                    datagram_type: tag,
                    flag: crate::enums::topic_response::spec_topic_response_of_code(bytes[1]),
                    topic_id: spec_u64_from_le_bytes(bytes.subrange(2, 10)),
                },
            )
        } else if code == 0x15 {
            let size = spec_u16_from_le_bytes(bytes.subrange(1, 3));
            if bytes.len() < 4 + size {
                Err(ProtocolError::TooShort)
            } else {
                Ok(
                    DatagramView::TopicRequestNack {
                        datagram_type: tag,
                        size,
                        flag: crate::enums::topic_response::spec_topic_response_of_code(bytes[3]),
                        payload: bytes.subrange(4, 4 + size as int),
                    },
                )
            }
        } else if code == 0x48 {
            let size = spec_u16_from_le_bytes(bytes.subrange(1, 3));
            if bytes.len() < 12 + size {
                Err(ProtocolError::TooShort)
            } else {
                Ok(
                    DatagramView::ObjectRequest {
                        datagram_type: tag,
                        size,
                        flag: crate::enums::object_request_action::spec_object_action_of_code(
                            bytes[3],
                        ),
                        object_id: spec_u64_from_le_bytes(bytes.subrange(4, 12)),
                        payload: spec_topics_of_bytes(bytes.subrange(12, 12 + size as int)),
                    },
                )
            }
        } else if code == 0x08 {
            Ok(
                DatagramView::ObjectRequestAck {
                    datagram_type: tag,
                    flag: bytes[1],
                    object_id: spec_u64_from_le_bytes(bytes.subrange(2, 10)),
                    final_object_id: if bytes[1] & 1 == 1 {
                        spec_u64_from_le_bytes(bytes.subrange(10, 18))
                    } else {
                        0
                    },
                },
            )
        } else if code == 0x18 {
            let size = spec_u16_from_le_bytes(bytes.subrange(1, 3));
            if bytes.len() < 12 + size {
                Err(ProtocolError::TooShort)
            } else {
                Ok(
                    DatagramView::ObjectRequestNack {
                        datagram_type: tag,
                        size,
                        flag: bytes[3],
                        object_id: spec_u64_from_le_bytes(bytes.subrange(4, 12)),
                        payload: bytes.subrange(12, 12 + size as int),
                    },
                )
            }
        } else if code == 0x42 {
            let size = spec_u16_from_le_bytes(bytes.subrange(1, 3));
            if bytes.len() < 15 + size {
                Err(ProtocolError::TooShort)
            } else {
                Ok(
                    DatagramView::Data {
                        datagram_type: DatagramType::Data,
                        size,
                        sequence_number: spec_u32_from_le_bytes(bytes.subrange(3, 7)),
                        topic_id: spec_u64_from_le_bytes(bytes.subrange(7, 15)),
                        payload: bytes.subrange(15, 15 + size as int),
                    },
                )
            }
        } else {
            Ok(DatagramView::Unknown)
        }
    }
}

/// The image of a decode result, for tying the executable decoder to
/// `spec_decode`.
pub open spec fn spec_decode_result(out: Result<Datagram, ProtocolError>) -> Result<
    DatagramView,
    ProtocolError,
> {
    match out {
        Ok(d) => Ok(d@),
        Err(e) => Err(e),
    }
}

/// Encodes one datagram to its wire bytes. Total and deterministic.
pub fn encode(datagram: &Datagram) -> (bytes: Vec<u8>)
    ensures
        bytes@ == spec_encode(*datagram),
{
    match datagram {
        Datagram::Connect(x) => x.as_bytes(),
        Datagram::ConnectAck(x) => x.as_bytes(),
        Datagram::ConnectNack(x) => x.as_bytes(),
        Datagram::Shutdown(x) => x.as_bytes(),
        Datagram::ServerStatus(x) => x.as_bytes(),
        Datagram::ServerStatusAck(x) => x.as_bytes(),
        Datagram::Heartbeat(x) => x.as_bytes(),
        Datagram::HeartbeatRequest(x) => x.as_bytes(),
        Datagram::Ping(x) => x.as_bytes(),
        Datagram::Pong(x) => x.as_bytes(),
        Datagram::TopicRequest(x) => x.as_bytes(),
        Datagram::TopicRequestAck(x) => x.as_bytes(),
        Datagram::TopicRequestNack(x) => x.as_bytes(),
        Datagram::ObjectRequest(x) => x.as_bytes(),
        Datagram::ObjectRequestAck(x) => x.as_bytes(),
        Datagram::ObjectRequestNack(x) => x.as_bytes(),
        Datagram::Data(x) => x.as_bytes(),
        Datagram::Unknown => {
            let mut bytes: Vec<u8> = Vec::with_capacity(1);
            bytes.push(0xAA);
            bytes
        },
    }
}

/// Decodes one datagram from a byte buffer, dispatching on the opcode
/// byte. Every length field is validated against the buffer before any
/// slice is taken.
pub fn decode(buffer: &[u8]) -> (out: Result<Datagram, ProtocolError>)
    ensures
        spec_decode_result(out) == spec_decode(buffer@),
{
    if buffer.len() < 1 {
        return Err(ProtocolError::TooShort);
    }
    match buffer[0] {
        0xF0 => match DtgConnect::try_from(buffer) {
            Ok(d) => Ok(Datagram::Connect(d)),
            Err(e) => Err(e),
        },
        0xF1 => match DtgConnectAck::try_from(buffer) {
            Ok(d) => Ok(Datagram::ConnectAck(d)),
            Err(e) => Err(e),
        },
        0xF2 => match DtgConnectNack::try_from(buffer) {
            Ok(d) => Ok(Datagram::ConnectNack(d)),
            Err(e) => Err(e),
        },
        0xFF => match DtgShutdown::try_from(buffer) {
            Ok(d) => Ok(Datagram::Shutdown(d)),
            Err(e) => Err(e),
        },
        0x30 => match DtgServerStatus::try_from(buffer) {
            Ok(d) => Ok(Datagram::ServerStatus(d)),
            Err(e) => Err(e),
        },
        0x00 => match DtgServerStatusACK::try_from(buffer) {
            Ok(d) => Ok(Datagram::ServerStatusAck(d)),
            Err(e) => Err(e),
        },
        0x60 => match DtgHeartbeat::try_from(buffer) {
            Ok(d) => Ok(Datagram::Heartbeat(d)),
            Err(e) => Err(e),
        },
        0x61 => match DtgHeartbeatRequest::try_from(buffer) {
            Ok(d) => Ok(Datagram::HeartbeatRequest(d)),
            Err(e) => Err(e),
        },
        0x62 => match DtgPing::try_from(buffer) {
            Ok(d) => Ok(Datagram::Ping(d)),
            Err(e) => Err(e),
        },
        0x72 => match DtgPong::try_from(buffer) {
            Ok(d) => Ok(Datagram::Pong(d)),
            Err(e) => Err(e),
        },
        0x45 => match DtgTopicRequest::try_from(buffer) {
            Ok(d) => Ok(Datagram::TopicRequest(d)),
            Err(e) => Err(e),
        },
        0x05 => match DtgTopicRequestAck::try_from(buffer) {
            Ok(d) => Ok(Datagram::TopicRequestAck(d)),
            Err(e) => Err(e),
        },
        0x15 => match DtgTopicRequestNack::try_from(buffer) {
            Ok(d) => Ok(Datagram::TopicRequestNack(d)),
            Err(e) => Err(e),
        },
        0x48 => match DtgObjectRequest::try_from(buffer) {
            Ok(d) => Ok(Datagram::ObjectRequest(d)),
            Err(e) => Err(e),
        },
        0x08 => match DtgObjectRequestACK::try_from(buffer) {
            Ok(d) => Ok(Datagram::ObjectRequestAck(d)),
            Err(e) => Err(e),
        },
        0x18 => match DtgObjectRequestNACK::try_from(buffer) {
            Ok(d) => Ok(Datagram::ObjectRequestNack(d)),
            Err(e) => Err(e),
        },
        0x42 => match DtgData::try_from(buffer) {
            Ok(d) => Ok(Datagram::Data(d)),
            Err(e) => Err(e),
        },
        _ => Ok(Datagram::Unknown),
    }
}

/// Law: decoding the encoding of any well-formed datagram gives the same
/// datagram back, for every variant. Set-valued payloads come back in the
/// order they were packed, so even their sequences agree.
pub proof fn lemma_decode_of_encode(d: Datagram)
    requires
        d.valid(),
    ensures
        spec_decode(spec_encode(d)) == Ok::<DatagramView, ProtocolError>(d@),
{
    lemma_auto_spec_u16_to_from_le_bytes();
    lemma_auto_spec_u32_to_from_le_bytes();
    lemma_auto_spec_u64_to_from_le_bytes();
    let bytes = spec_encode(d);
    match d {
        Datagram::Connect(_) => {},
        Datagram::ConnectAck(x) => {
            assert(bytes.subrange(1, 9) =~= vstd::bytes::spec_u64_to_le_bytes(x.peer_id));
            assert(bytes.subrange(9, 11) =~= vstd::bytes::spec_u16_to_le_bytes(
                x.heartbeat_period,
            ));
        },
        Datagram::ConnectNack(x) => {
            assert(bytes.subrange(1, 3) =~= vstd::bytes::spec_u16_to_le_bytes(x.size));
            assert(bytes.subrange(3, 3 + x.size as int) =~= x.payload@);
        },
        Datagram::Shutdown(_) => {},
        Datagram::ServerStatus(_) => {},
        Datagram::ServerStatusAck(x) => {
            assert(bytes.subrange(1, 9) =~= vstd::bytes::spec_u64_to_le_bytes(
                x.connected_client,
            ));
        },
        Datagram::Heartbeat(_) => {},
        Datagram::HeartbeatRequest(_) => {},
        Datagram::Ping(_) => {},
        Datagram::Pong(_) => {},
        Datagram::TopicRequest(x) => {
            assert(bytes.subrange(2, 10) =~= vstd::bytes::spec_u64_to_le_bytes(x.topic_id));
        },
        Datagram::TopicRequestAck(x) => {
            assert(bytes.subrange(2, 10) =~= vstd::bytes::spec_u64_to_le_bytes(x.topic_id));
        },
        Datagram::TopicRequestNack(x) => {
            assert(bytes.subrange(1, 3) =~= vstd::bytes::spec_u16_to_le_bytes(x.size));
            assert(bytes[3] == crate::enums::topic_response::spec_topic_response_code(x.flag));
            assert(bytes.subrange(4, 4 + x.size as int) =~= x.payload@);
        },
        Datagram::ObjectRequest(x) => {
            lemma_topics_to_bytes_len(x.payload@);
            assert(bytes.subrange(1, 3) =~= vstd::bytes::spec_u16_to_le_bytes(x.size));
            assert(bytes[3] == crate::enums::object_request_action::spec_object_action_code(
                x.flag,
            ));
            assert(bytes.subrange(4, 12) =~= vstd::bytes::spec_u64_to_le_bytes(x.object_id));
            assert(bytes.subrange(12, 12 + x.size as int)
                =~= crate::datagrams::object_requests::spec_topics_to_bytes(x.payload@));
            lemma_topics_roundtrip(x.payload@);
        },
        Datagram::ObjectRequestAck(x) => {
            assert(bytes[1] == x.flag);
            let flag = x.flag;
            assert(flag & 1 == 0 || flag & 1 == 1) by (bit_vector);
            assert(bytes.subrange(2, 10) =~= vstd::bytes::spec_u64_to_le_bytes(x.object_id));
            assert(bytes.subrange(10, 18) =~= vstd::bytes::spec_u64_to_le_bytes(
                x.final_object_id,
            ));
        },
        Datagram::ObjectRequestNack(x) => {
            assert(bytes.subrange(1, 3) =~= vstd::bytes::spec_u16_to_le_bytes(x.size));
            assert(bytes[3] == x.flag);
            assert(bytes.subrange(4, 12) =~= vstd::bytes::spec_u64_to_le_bytes(x.object_id));
            assert(bytes.subrange(12, 12 + x.size as int) =~= x.payload@);
        },
        Datagram::Data(x) => {
            assert(bytes.subrange(1, 3) =~= vstd::bytes::spec_u16_to_le_bytes(x.size));
            assert(bytes.subrange(3, 7) =~= vstd::bytes::spec_u32_to_le_bytes(
                x.sequence_number,
            ));
            assert(bytes.subrange(7, 15) =~= vstd::bytes::spec_u64_to_le_bytes(x.topic_id));
            assert(bytes.subrange(15, 15 + x.size as int) =~= x.payload@);
        },
        Datagram::Unknown => {},
    }
}

/// Law: a buffer shorter than the fixed minimum size of the message type
/// its first byte names — or an empty buffer — decodes to `TooShort`, for
/// every message type.
pub proof fn lemma_short_buffer_rejected(bytes: Seq<u8>)
    requires
        bytes.len() == 0 || bytes.len() < spec_min_size(bytes[0]),
    ensures
        spec_decode(bytes) == Err::<DatagramView, ProtocolError>(ProtocolError::TooShort),
{
}

/// Law: a buffer whose first byte is no known opcode decodes to the
/// `Unknown` variant, never to an error, whatever follows that byte.
pub proof fn lemma_unknown_opcode_accepted(bytes: Seq<u8>)
    requires
        bytes.len() >= 1,
        !spec_is_known_opcode(bytes[0]),
    ensures
        spec_decode(bytes) == Ok::<DatagramView, ProtocolError>(DatagramView::Unknown),
{
}

} // verus!
