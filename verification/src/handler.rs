//! The per-connection control loop's decisions, as a state machine from
//! state and event to next state and action. The transport layer runs the
//! loop: it performs each action and hands the next event back.

use vstd::prelude::*;
use crate::codec::decode;
use crate::session::{ConnectionId, Packet};

verus! {

/// Who opened a one-directional stream.
#[derive(Copy, Clone, PartialEq, Eq, Structural, Debug)]
pub enum UnidirectionalStreamOwner {
    Local,
    Remote,
}

/// Where one connection's handler stands: waiting for its session to be
/// registered, serving, or torn down.
#[derive(Copy, Clone, PartialEq, Eq, Structural, Debug)]
pub enum HandlerState {
    Connecting,
    Established,
    Closed,
}

/// What the transport reports to the handler.
pub enum HandlerEvent {
    /// The handshake completed and the session was put in the registry.
    SessionRegistered,
    /// One unit of work arrived — a whole datagram read from a stream or
    /// from the unreliable channel.
    UnitReceived(Vec<u8>),
    /// One reliable stream ended; the connection itself goes on.
    StreamEnded,
    /// The registry no longer holds this connection: another task tore it
    /// down.
    SessionMissing,
    /// The transport failed in a way fatal to this connection only.
    TransportError,
}

/// What the handler asks the transport to do next.
pub enum HandlerAction {
    /// Nothing: keep reading.
    Continue,
    /// Hand this packet to the dispatch pipeline.
    Enqueue(Packet),
    /// Drop this one unit of work — it did not decode — and keep reading.
    DiscardUnit,
    /// Remove the session from the registry and cancel every task of this
    /// connection.
    Teardown,
}

/// One step of the per-connection control loop. Established is entered
/// only from Connecting, on registration; a unit that decodes becomes a
/// packet for the pipeline and one that does not is discarded without
/// closing the connection; a transport error or a missing session closes
/// the handler, and a closed handler stays closed and only tears down.
pub fn handler_step(state: HandlerState, source: ConnectionId, event: HandlerEvent) -> (step: (
    HandlerState,
    HandlerAction,
))
    ensures
        ({
            let (next, action) = step;
            match event {
                HandlerEvent::SessionRegistered => next == (if state is Connecting {
                    HandlerState::Established
                } else {
                    state
                }) && action is Continue,
                HandlerEvent::UnitReceived(unit) => {
                    &&& next == state
                    &&& state is Established ==> (if crate::codec::spec_decode(unit@) is Ok {
                        action matches HandlerAction::Enqueue(packet) && packet.source == source
                            && packet.datagram == unit
                    } else {
                        action is DiscardUnit
                    })
                    &&& !(state is Established) ==> action is DiscardUnit
                },
                HandlerEvent::StreamEnded => next == state && action is Continue,
                HandlerEvent::SessionMissing => next is Closed && action is Teardown,
                HandlerEvent::TransportError => next is Closed && action is Teardown,
            }
        }),
{
    match event {
        HandlerEvent::SessionRegistered => {
            if let HandlerState::Connecting = state {
                (HandlerState::Established, HandlerAction::Continue)
            } else {
                (state, HandlerAction::Continue)
            }
        },
        HandlerEvent::UnitReceived(unit) => {
            if let HandlerState::Established = state {
                match decode(unit.as_slice()) {
                    Ok(_) => (state, HandlerAction::Enqueue(Packet::new(source, unit))),
                    Err(_) => (state, HandlerAction::DiscardUnit),
                }
            } else {
                (state, HandlerAction::DiscardUnit)
            }
        },
        HandlerEvent::StreamEnded => (state, HandlerAction::Continue),
        HandlerEvent::SessionMissing => (HandlerState::Closed, HandlerAction::Teardown),
        HandlerEvent::TransportError => (HandlerState::Closed, HandlerAction::Teardown),
    }
}

} // verus!
