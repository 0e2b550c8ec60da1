//! The reasons a peer can give in a `Shutdown` datagram.

use vstd::prelude::*;

verus! {

/// Why a connection is being closed, as carried by a `Shutdown` datagram.
#[derive(Copy, Clone, PartialEq, Eq, Structural, Debug)]
pub enum EndConnexionReason {
    Shutdown,
    TimeOut,
    Unknown,
}

/// The wire code of an end-of-connection reason.
pub open spec fn spec_reason_code(reason: EndConnexionReason) -> u8 {
    match reason {
        EndConnexionReason::Shutdown => 0x00,
        EndConnexionReason::TimeOut => 0x01,
        EndConnexionReason::Unknown => 0xAA,
    }
}

/// The end-of-connection reason that a wire code stands for; every code
/// other than the two defined ones gives `Unknown`.
pub open spec fn spec_reason_of_code(value: u8) -> EndConnexionReason {
    if value == 0x00 {
        EndConnexionReason::Shutdown
    } else if value == 0x01 {
        EndConnexionReason::TimeOut
    } else {
        EndConnexionReason::Unknown
    }
}

impl From<u8> for EndConnexionReason {
    fn from(value: u8) -> (reason: EndConnexionReason) {
        match value {
            0x00 => EndConnexionReason::Shutdown,
            0x01 => EndConnexionReason::TimeOut,
            _ => EndConnexionReason::Unknown,
        }
    }
}

impl vstd::std_specs::convert::FromSpecImpl<u8> for EndConnexionReason {
    open spec fn obeys_from_spec() -> bool {
        true
    }

    open spec fn from_spec(value: u8) -> EndConnexionReason {
        spec_reason_of_code(value)
    }
}

impl From<EndConnexionReason> for u8 {
    fn from(value: EndConnexionReason) -> (code: u8) {
        match value {
            EndConnexionReason::Shutdown => 0x00,
            EndConnexionReason::TimeOut => 0x01,
            EndConnexionReason::Unknown => 0xAA,
        }
    }
}

impl vstd::std_specs::convert::FromSpecImpl<EndConnexionReason> for u8 {
    open spec fn obeys_from_spec() -> bool {
        true
    }

    open spec fn from_spec(value: EndConnexionReason) -> u8 {
        spec_reason_code(value)
    }
}

} // verus!
