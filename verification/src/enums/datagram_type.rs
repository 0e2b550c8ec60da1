//! The datagram type tags of the wire protocol, and their one-byte opcodes.

use vstd::prelude::*;

verus! {

/// Every message on the wire starts with one opcode byte; this enum names
/// the message types those opcodes stand for. Any byte that is not a known
/// opcode reads back as `Unknown`.
#[derive(Copy, Clone, PartialEq, Eq, Structural, Debug, Hash)]
pub enum DatagramType {
    Connect,
    ConnectAck,
    ConnectNack,
    Shutdown,
    OpenStream,
    ServerStatus,
    ServerStatusAck,
    Heartbeat,
    HeartbeatRequest,
    Ping,
    Pong,
    TopicRequest,
    TopicRequestAck,
    TopicRequestNack,
    ObjectRequest,
    ObjectRequestAck,
    ObjectRequestNack,
    Data,
    Unknown,
}

/// The opcode byte that encodes a datagram type.
pub open spec fn spec_type_code(t: DatagramType) -> u8 {
    match t {
        DatagramType::Connect => 0xF0,
        DatagramType::ConnectAck => 0xF1,
        DatagramType::ConnectNack => 0xF2,
        DatagramType::OpenStream => 0xFA,
        DatagramType::Shutdown => 0xFF,
        DatagramType::ServerStatus => 0x30,
        DatagramType::ServerStatusAck => 0x00,
        DatagramType::Heartbeat => 0x60,
        DatagramType::HeartbeatRequest => 0x61,
        DatagramType::Ping => 0x62,
        DatagramType::Pong => 0x72,
        DatagramType::TopicRequest => 0x45,
        DatagramType::TopicRequestAck => 0x05,
        DatagramType::TopicRequestNack => 0x15,
        DatagramType::ObjectRequest => 0x48,
        DatagramType::ObjectRequestAck => 0x08,
        DatagramType::ObjectRequestNack => 0x18,
        DatagramType::Data => 0x42,
        DatagramType::Unknown => 0xAA,
    }
}

/// The datagram type that an opcode byte stands for; bytes that are no
/// known opcode give `Unknown`.
pub open spec fn spec_type_of_code(value: u8) -> DatagramType {
    if value == 0xF0 {
        DatagramType::Connect
    } else if value == 0xF1 {
        DatagramType::ConnectAck
    } else if value == 0xF2 {
        DatagramType::ConnectNack
    } else if value == 0xFF {
        DatagramType::Shutdown
    } else if value == 0xFA {
        DatagramType::OpenStream
    } else if value == 0x30 {
        DatagramType::ServerStatus
    } else if value == 0x00 {
        DatagramType::ServerStatusAck
    } else if value == 0x60 {
        DatagramType::Heartbeat
    } else if value == 0x61 {
        DatagramType::HeartbeatRequest
    } else if value == 0x62 {
        DatagramType::Ping
    } else if value == 0x72 {
        DatagramType::Pong
    } else if value == 0x45 {
        DatagramType::TopicRequest
    } else if value == 0x05 {
        DatagramType::TopicRequestAck
    } else if value == 0x15 {
        DatagramType::TopicRequestNack
    } else if value == 0x48 {
        DatagramType::ObjectRequest
    } else if value == 0x08 {
        DatagramType::ObjectRequestAck
    } else if value == 0x18 {
        DatagramType::ObjectRequestNack
    } else if value == 0x42 {
        DatagramType::Data
    } else {
        DatagramType::Unknown
    }
}

impl From<u8> for DatagramType {
    fn from(value: u8) -> (t: DatagramType) {
        match value {
            0xF0 => DatagramType::Connect,
            0xF1 => DatagramType::ConnectAck,
            0xF2 => DatagramType::ConnectNack,
            0xFF => DatagramType::Shutdown,
            0xFA => DatagramType::OpenStream,
            0x30 => DatagramType::ServerStatus,
            0x00 => DatagramType::ServerStatusAck,
            0x60 => DatagramType::Heartbeat,
            0x61 => DatagramType::HeartbeatRequest,
            0x62 => DatagramType::Ping,
            0x72 => DatagramType::Pong,
            0x45 => DatagramType::TopicRequest,
            0x05 => DatagramType::TopicRequestAck,
            0x15 => DatagramType::TopicRequestNack,
            0x48 => DatagramType::ObjectRequest,
            0x08 => DatagramType::ObjectRequestAck,
            0x18 => DatagramType::ObjectRequestNack,
            0x42 => DatagramType::Data,
            _ => DatagramType::Unknown,
        }
    }
}

impl vstd::std_specs::convert::FromSpecImpl<u8> for DatagramType {
    open spec fn obeys_from_spec() -> bool {
        true
    }

    open spec fn from_spec(value: u8) -> DatagramType {
        spec_type_of_code(value)
    }
}

impl From<DatagramType> for u8 {
    fn from(value: DatagramType) -> (code: u8) {
        match value {
            DatagramType::Connect => 0xF0,
            DatagramType::ConnectAck => 0xF1,
            DatagramType::ConnectNack => 0xF2,
            DatagramType::OpenStream => 0xFA,
            DatagramType::Shutdown => 0xFF,
            DatagramType::ServerStatus => 0x30,
            DatagramType::ServerStatusAck => 0x00,
            DatagramType::Heartbeat => 0x60,
            DatagramType::HeartbeatRequest => 0x61,
            DatagramType::Ping => 0x62,
            DatagramType::Pong => 0x72,
            DatagramType::TopicRequest => 0x45,
            DatagramType::TopicRequestAck => 0x05,
            DatagramType::TopicRequestNack => 0x15,
            DatagramType::ObjectRequest => 0x48,
            DatagramType::ObjectRequestAck => 0x08,
            DatagramType::ObjectRequestNack => 0x18,
            DatagramType::Data => 0x42,
            DatagramType::Unknown => 0xAA,
        }
    }
}

impl vstd::std_specs::convert::FromSpecImpl<DatagramType> for u8 {
    open spec fn obeys_from_spec() -> bool {
        true
    }

    open spec fn from_spec(value: DatagramType) -> u8 {
        spec_type_code(value)
    }
}

/// The name of a datagram type, for logs and diagnostics.
pub fn display_datagram_type(datagram: DatagramType) -> (name: &'static str)
    ensures
        name@ == spec_type_name(datagram),
{
    match datagram {
        DatagramType::Connect => "Connect",
        DatagramType::ConnectAck => "Connect_ACK",
        DatagramType::ConnectNack => "Connect_NACK",
        DatagramType::Shutdown => "Shutdown",
        DatagramType::OpenStream => "Open_Stream",
        DatagramType::ServerStatus => "Server_Status",
        DatagramType::ServerStatusAck => "Server_Status_Ack",
        DatagramType::Heartbeat => "HeartBeat",
        DatagramType::HeartbeatRequest => "HeartBeat_Request",
        DatagramType::Ping => "Ping",
        DatagramType::Pong => "Pong",
        DatagramType::TopicRequest => "Topic_Request",
        DatagramType::TopicRequestAck => "Topic_Request_Ack",
        DatagramType::TopicRequestNack => "Topic_Request_Nack",
        DatagramType::ObjectRequest => "Object_Request",
        DatagramType::ObjectRequestAck => "Object_Request_Ack",
        DatagramType::ObjectRequestNack => "Object_Request_Nack",
        DatagramType::Data => "Data",
        DatagramType::Unknown => "Unknown",
    }
}

/// The name that `display_datagram_type` returns for each datagram type.
pub open spec fn spec_type_name(datagram: DatagramType) -> Seq<char> {
    match datagram {
        DatagramType::Connect => "Connect"@,
        DatagramType::ConnectAck => "Connect_ACK"@,
        DatagramType::ConnectNack => "Connect_NACK"@,
        DatagramType::Shutdown => "Shutdown"@,
        DatagramType::OpenStream => "Open_Stream"@,
        DatagramType::ServerStatus => "Server_Status"@,
        DatagramType::ServerStatusAck => "Server_Status_Ack"@,
        DatagramType::Heartbeat => "HeartBeat"@,
        DatagramType::HeartbeatRequest => "HeartBeat_Request"@,
        DatagramType::Ping => "Ping"@,
        DatagramType::Pong => "Pong"@,
        DatagramType::TopicRequest => "Topic_Request"@,
        DatagramType::TopicRequestAck => "Topic_Request_Ack"@,
        DatagramType::TopicRequestNack => "Topic_Request_Nack"@,
        DatagramType::ObjectRequest => "Object_Request"@,
        DatagramType::ObjectRequestAck => "Object_Request_Ack"@,
        DatagramType::ObjectRequestNack => "Object_Request_Nack"@,
        DatagramType::Data => "Data"@,
        DatagramType::Unknown => "Unknown"@,
    }
}

} // verus!
