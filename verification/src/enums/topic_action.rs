//! The actions a peer can ask for in a `TopicRequest` datagram.

use vstd::prelude::*;

verus! {

/// What a `TopicRequest` asks the broker to do with one topic.
#[derive(Copy, Clone, PartialEq, Eq, Structural, Debug)]
pub enum TopicAction {
    Subscribe,
    Unsubscribe,
    Unknown,
}

/// The wire code of a topic action.
pub open spec fn spec_topic_action_code(action: TopicAction) -> u8 {
    match action {
        TopicAction::Subscribe => 0x00,
        TopicAction::Unsubscribe => 0xFF,
        TopicAction::Unknown => 0xAA,
    }
}

/// The topic action that a wire code stands for; any other code gives
/// `Unknown`.
pub open spec fn spec_topic_action_of_code(value: u8) -> TopicAction {
    if value == 0x00 {
        TopicAction::Subscribe
    } else if value == 0xFF {
        TopicAction::Unsubscribe
    } else {
        TopicAction::Unknown
    }
}

impl From<u8> for TopicAction {
    fn from(value: u8) -> (action: TopicAction) {
        match value {
            0x00 => TopicAction::Subscribe,
            0xFF => TopicAction::Unsubscribe,
            _ => TopicAction::Unknown,
        }
    }
}

impl vstd::std_specs::convert::FromSpecImpl<u8> for TopicAction {
    open spec fn obeys_from_spec() -> bool {
        true
    }

    open spec fn from_spec(value: u8) -> TopicAction {
        spec_topic_action_of_code(value)
    }
}

impl From<TopicAction> for u8 {
    fn from(value: TopicAction) -> (code: u8) {
        match value {
            TopicAction::Subscribe => 0x00,
            TopicAction::Unsubscribe => 0xFF,
            TopicAction::Unknown => 0xAA,
        }
    }
}

impl vstd::std_specs::convert::FromSpecImpl<TopicAction> for u8 {
    open spec fn obeys_from_spec() -> bool {
        true
    }

    open spec fn from_spec(value: TopicAction) -> u8 {
        spec_topic_action_code(value)
    }
}

} // verus!
