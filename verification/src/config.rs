//! The broker's configuration: the values the core consumes, the optional
//! fields a configuration file may or may not carry, and the defaulting
//! rules that turn the one into the other. Reading and parsing the file
//! itself is the runtime's work, outside the core.

use vstd::prelude::*;
use vstd::string::StringSliceAdditionalSpecFns;
use vstd::utf8::encode_utf8;

verus! {

/// Whether a byte is an ASCII decimal digit.
pub open spec fn spec_is_digit(byte: u8) -> bool {
    0x30 <= byte <= 0x39
}

/// The number a sequence of decimal digit bytes spells, most significant
/// digit first.
pub open spec fn spec_digits_value(digits: Seq<u8>) -> int
    recommends
        forall|i: int| 0 <= i < digits.len() ==> spec_is_digit(#[trigger] digits[i]),
    decreases digits.len(),
{
    if digits.len() == 0 {
        0
    } else {
        spec_digits_value(digits.drop_last()) * 10 + (digits.last() - 0x30)
    }
}

/// A digit string's value never goes down as it grows to the right.
proof fn lemma_digits_value_prefix_le(digits: Seq<u8>, length: int)
    requires
        0 <= length <= digits.len(),
        forall|i: int| 0 <= i < digits.len() ==> spec_is_digit(#[trigger] digits[i]),
    ensures
        0 <= spec_digits_value(digits.take(length)),
        spec_digits_value(digits.take(length)) <= spec_digits_value(digits),
    decreases digits.len() - length,
{
    if length == digits.len() {
        assert(digits.take(length) == digits);
        lemma_digits_value_nonneg(digits);
    } else {
        lemma_digits_value_prefix_le(digits, length + 1);
        assert(digits.take(length + 1).drop_last() =~= digits.take(length));
        assert(digits.take(length + 1).last() == digits[length]);
    }
}

/// A digit string's value is never negative.
proof fn lemma_digits_value_nonneg(digits: Seq<u8>)
    requires
        forall|i: int| 0 <= i < digits.len() ==> spec_is_digit(#[trigger] digits[i]),
    ensures
        0 <= spec_digits_value(digits),
    decreases digits.len(),
{
    if digits.len() > 0 {
        assert(forall|i: int|
            0 <= i < digits.drop_last().len() ==> spec_is_digit(#[trigger] digits.drop_last()[i]));
        lemma_digits_value_nonneg(digits.drop_last());
    }
}

/// Reads a `u16` from decimal digit bytes. Succeeds exactly on a nonempty
/// all-digit string whose value fits; gives that value.
pub fn parse_u16_decimal(bytes: &[u8]) -> (out: Option<u16>)
    ensures
        out is Some <==> bytes@.len() >= 1 && (forall|i: int|
            0 <= i < bytes@.len() ==> spec_is_digit(#[trigger] bytes@[i]))
            && spec_digits_value(bytes@) <= u16::MAX,
        out matches Some(value) ==> value == spec_digits_value(bytes@),
{
    if bytes.len() == 0 {
        return None;
    }
    let mut value: u32 = 0;
    let mut i: usize = 0;
    while i < bytes.len()
        invariant
            i <= bytes@.len(),
            bytes@.len() >= 1,
            forall|j: int| 0 <= j < i ==> spec_is_digit(#[trigger] bytes@[j]),
            value == spec_digits_value(bytes@.take(i as int)),
            value <= u16::MAX,
        decreases bytes@.len() - i,
    {
        let byte = bytes[i];
        if byte < 0x30 || byte > 0x39 {
            return None;
        }
        let digit = (byte - 0x30) as u32;
        let next = value * 10 + digit;
        proof {
            assert(bytes@.take(i + 1).drop_last() =~= bytes@.take(i as int));
            assert(bytes@.take(i + 1).last() == bytes@[i as int]);
        }
        if next > 0xFFFF {
            proof {
                if forall|j: int| 0 <= j < bytes@.len() ==> spec_is_digit(#[trigger] bytes@[j]) {
                    lemma_digits_value_prefix_le(bytes@, i + 1);
                }
            }
            return None;
        }
        value = next;
        i = i + 1;
    }
    proof {
        assert(bytes@.take(bytes@.len() as int) == bytes@);
    }
    Some(value as u16)
}

/// The port a configured port string stands for: its decimal value when it
/// is one that fits a `u16`, else the default port.
pub open spec fn spec_parsed_port(bytes: Seq<u8>) -> u16 {
    if bytes.len() >= 1 && (forall|i: int| 0 <= i < bytes.len() ==> spec_is_digit(#[trigger] bytes[i]))
        && spec_digits_value(bytes) <= u16::MAX {
        spec_digits_value(bytes) as u16
    } else {
        3838
    }
}

/// The server table a configuration file may carry.
pub struct ServerOptions {
    pub port: Option<String>,
    pub packet_buffer_size: Option<u16>,
}

/// The period table a configuration file may carry.
pub struct PeriodOptions {
    pub heartbeat_period: Option<u16>,
    pub ping_period: Option<u16>,
}

/// The debug table a configuration file may carry.
pub struct DebugOptions {
    pub debug_level: Option<String>,
    pub debug_datagram_handler: Option<bool>,
    pub debug_ping_sender: Option<bool>,
    pub debug_data_handler: Option<bool>,
    pub debug_heartbeat_checker: Option<bool>,
    pub debug_topic_handler: Option<bool>,
    pub debug_client_manager: Option<bool>,
    pub debug_object_handler: Option<bool>,
}

/// Everything a configuration file may carry, each table optional.
pub struct ConfigOptions {
    pub server: Option<ServerOptions>,
    pub period: Option<PeriodOptions>,
    pub debug: Option<DebugOptions>,
}

/// The configuration the core consumes, every value settled.
pub struct Config {
    pub port: u16,
    pub packet_buffer_size: u16,
    pub heart_beat_period: u16,
    pub ping_period: u16,
    pub debug_level: String,
    pub debug_datagram_handler: bool,
    pub debug_ping_sender: bool,
    pub debug_data_handler: bool,
    pub debug_heartbeat_checker: bool,
    pub debug_topic_handler: bool,
    pub debug_client_manager: bool,
    pub debug_object_handler: bool,
}

impl Config {
    /// Settles a configuration from whatever the file carried: a missing
    /// table or field — or a port that does not read as a `u16` — falls
    /// back to its default. The defaults: port 3838, a packet buffer of
    /// 1000, five-second heartbeat and ping periods, the `trace` log
    /// level, and every debug toggle on.
    pub fn from_options(options: ConfigOptions) -> (config: Config)
        ensures
            config.port == (match options.server {
                Some(server) => match server.port {
                    Some(port) => spec_parsed_port(encode_utf8(port@)),
                    None => 3838u16,
                },
                None => 3838u16,
            }),
            config.packet_buffer_size == (match options.server {
                Some(server) => match server.packet_buffer_size {
                    Some(size) => size,
                    None => 1000u16,
                },
                None => 1000u16,
            }),
            config.heart_beat_period == (match options.period {
                Some(period) => match period.heartbeat_period {
                    Some(value) => value,
                    None => 5u16,
                },
                None => 5u16,
            }),
            config.ping_period == (match options.period {
                Some(period) => match period.ping_period {
                    Some(value) => value,
                    None => 5u16,
                },
                None => 5u16,
            }),
            config.debug_level@ == (match options.debug {
                Some(debug) => match debug.debug_level {
                    Some(level) => level@,
                    None => "trace"@,
                },
                None => "trace"@,
            }),
            config.debug_datagram_handler == (match options.debug {
                Some(debug) => match debug.debug_datagram_handler {
                    Some(value) => value,
                    None => true,
                },
                None => true,
            }),
            config.debug_ping_sender == (match options.debug {
                Some(debug) => match debug.debug_ping_sender {
                    Some(value) => value,
                    None => true,
                },
                None => true,
            }),
            config.debug_data_handler == (match options.debug {
                Some(debug) => match debug.debug_data_handler {
                    Some(value) => value,
                    None => true,
                },
                None => true,
            }),
            config.debug_heartbeat_checker == (match options.debug {
                Some(debug) => match debug.debug_heartbeat_checker {
                    Some(value) => value,
                    None => true,
                },
                None => true,
            }),
            config.debug_topic_handler == (match options.debug {
                Some(debug) => match debug.debug_topic_handler {
                    Some(value) => value,
                    None => true,
                },
                None => true,
            }),
            config.debug_client_manager == (match options.debug {
                Some(debug) => match debug.debug_client_manager {
                    Some(value) => value,
                    None => true,
                },
                None => true,
            }),
            config.debug_object_handler == (match options.debug {
                Some(debug) => match debug.debug_object_handler {
                    Some(value) => value,
                    None => true,
                },
                None => true,
            }),
    {
        let (port, packet_buffer_size): (u16, u16) = match options.server {
            Some(server) => {
                let port = match server.port {
                    Some(port) => parse_port(&port),
                    None => 3838,
                };
                let packet_buffer_size = match server.packet_buffer_size {
                    Some(size) => size,
                    None => 1000,
                };
                (port, packet_buffer_size)
            },
            None => (3838, 1000),
        };
        let (heart_beat_period, ping_period): (u16, u16) = match options.period {
            Some(period) => {
                let heartbeat = match period.heartbeat_period {
                    Some(value) => value,
                    None => 5,
                };
                let ping = match period.ping_period {
                    Some(value) => value,
                    None => 5,
                };
                (heartbeat, ping)
            },
            None => (5, 5),
        };
        match options.debug {
            Some(debug) => {
                let debug_level = match debug.debug_level {
                    Some(level) => level,
                    None => default_debug_level(),
                };
                Config {
                    port,
                    packet_buffer_size,
                    heart_beat_period,
                    ping_period,
                    debug_level,
                    debug_datagram_handler: unwrap_or_true(debug.debug_datagram_handler),
                    debug_ping_sender: unwrap_or_true(debug.debug_ping_sender),
                    debug_data_handler: unwrap_or_true(debug.debug_data_handler),
                    debug_heartbeat_checker: unwrap_or_true(debug.debug_heartbeat_checker),
                    debug_topic_handler: unwrap_or_true(debug.debug_topic_handler),
                    debug_client_manager: unwrap_or_true(debug.debug_client_manager),
                    debug_object_handler: unwrap_or_true(debug.debug_object_handler),
                }
            },
            None => Config {
                port,
                packet_buffer_size,
                heart_beat_period,
                ping_period,
                debug_level: default_debug_level(),
                debug_datagram_handler: true,
                debug_ping_sender: true,
                debug_data_handler: true,
                debug_heartbeat_checker: true,
                debug_topic_handler: true,
                debug_client_manager: true,
                debug_object_handler: true,
            },
        }
    }
}

/// Reads a port from its configured string form, falling back to the
/// default port when the string does not read as a `u16`.
pub fn parse_port(port: &String) -> (out: u16)
    ensures
        out == spec_parsed_port(encode_utf8(port@)),
{
    match parse_u16_decimal(port.as_str().as_bytes()) {
        Some(value) => value,
        None => 3838,
    }
}

/// The default log level.
fn default_debug_level() -> (out: String)
    ensures
        out@ == "trace"@,
{
    "trace".to_owned()
}

/// A missing toggle defaults to on.
fn unwrap_or_true(option: Option<bool>) -> (out: bool)
    ensures
        out == (match option {
            Some(value) => value,
            None => true,
        }),
{
    match option {
        Some(value) => value,
        None => true,
    }
}

} // verus!
