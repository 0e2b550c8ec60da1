//! The actions a peer can ask for in an `ObjectRequest` datagram.

use vstd::prelude::*;

verus! {

/// What an `ObjectRequest` asks the broker to do with an object, a named
/// grouping of topics. Each action owns one bit of the request's flag byte.
#[derive(Copy, Clone, PartialEq, Eq, Structural, Debug)]
pub enum ObjectRequestAction {
    Create,
    Update,
    Delete,
    Subscribe,
    Unsubscribe,
    Unknown,
}

/// The wire code (a one-bit flag) of an object request action.
pub open spec fn spec_object_action_code(action: ObjectRequestAction) -> u8 {
    match action {
        ObjectRequestAction::Create => 0x01,
        ObjectRequestAction::Update => 0x02,
        ObjectRequestAction::Delete => 0x04,
        ObjectRequestAction::Subscribe => 0x08,
        ObjectRequestAction::Unsubscribe => 0x10,
        ObjectRequestAction::Unknown => 0xAA,
    }
}

/// The object request action that a wire code stands for; any other code
/// gives `Unknown`.
pub open spec fn spec_object_action_of_code(value: u8) -> ObjectRequestAction {
    if value == 0x01 {
        ObjectRequestAction::Create
    } else if value == 0x02 {
        ObjectRequestAction::Update
    } else if value == 0x04 {
        ObjectRequestAction::Delete
    } else if value == 0x08 {
        ObjectRequestAction::Subscribe
    } else if value == 0x10 {
        ObjectRequestAction::Unsubscribe
    } else {
        ObjectRequestAction::Unknown
    }
}

impl From<u8> for ObjectRequestAction {
    fn from(value: u8) -> (action: ObjectRequestAction) {
        match value {
            0x01 => ObjectRequestAction::Create,
            0x02 => ObjectRequestAction::Update,
            0x04 => ObjectRequestAction::Delete,
            0x08 => ObjectRequestAction::Subscribe,
            0x10 => ObjectRequestAction::Unsubscribe,
            _ => ObjectRequestAction::Unknown,
        }
    }
}

impl vstd::std_specs::convert::FromSpecImpl<u8> for ObjectRequestAction {
    open spec fn obeys_from_spec() -> bool {
        true
    }

    open spec fn from_spec(value: u8) -> ObjectRequestAction {
        spec_object_action_of_code(value)
    }
}

impl From<ObjectRequestAction> for u8 {
    fn from(value: ObjectRequestAction) -> (code: u8) {
        match value {
            ObjectRequestAction::Create => 0x01,
            ObjectRequestAction::Update => 0x02,
            ObjectRequestAction::Delete => 0x04,
            ObjectRequestAction::Subscribe => 0x08,
            ObjectRequestAction::Unsubscribe => 0x10,
            ObjectRequestAction::Unknown => 0xAA,
        }
    }
}

impl vstd::std_specs::convert::FromSpecImpl<ObjectRequestAction> for u8 {
    open spec fn obeys_from_spec() -> bool {
        true
    }

    open spec fn from_spec(value: ObjectRequestAction) -> u8 {
        spec_object_action_code(value)
    }
}

} // verus!
