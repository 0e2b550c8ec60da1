//! An older spelling of the topic request actions, kept for callers that
//! still name it.

use vstd::prelude::*;

verus! {

/// What a topic request asks the broker to do; `TopicAction` is the
/// current spelling of the same set of actions.
#[derive(Copy, Clone, PartialEq, Eq, Structural, Debug)]
pub enum TopicsAction {
    Subscribe,
    Unsubscribe,
    Unknown,
}

/// The wire code of a topic action in the older spelling.
pub open spec fn spec_topics_action_code(action: TopicsAction) -> u8 {
    match action {
        TopicsAction::Subscribe => 0x00,
        TopicsAction::Unsubscribe => 0xFF,
        TopicsAction::Unknown => 0xAA,
    }
}

/// The action that a wire code stands for in the older spelling.
pub open spec fn spec_topics_action_of_code(value: u8) -> TopicsAction {
    if value == 0x00 {
        TopicsAction::Subscribe
    } else if value == 0xFF {
        TopicsAction::Unsubscribe
    } else {
        TopicsAction::Unknown
    }
}

impl From<u8> for TopicsAction {
    fn from(value: u8) -> (action: TopicsAction) {
        match value {
            0x00 => TopicsAction::Subscribe,
            0xFF => TopicsAction::Unsubscribe,
            _ => TopicsAction::Unknown,
        }
    }
}

impl vstd::std_specs::convert::FromSpecImpl<u8> for TopicsAction {
    open spec fn obeys_from_spec() -> bool {
        true
    }

    open spec fn from_spec(value: u8) -> TopicsAction {
        spec_topics_action_of_code(value)
    }
}

impl From<TopicsAction> for u8 {
    fn from(value: TopicsAction) -> (code: u8) {
        match value {
            TopicsAction::Subscribe => 0x00,
            TopicsAction::Unsubscribe => 0xFF,
            TopicsAction::Unknown => 0xAA,
        }
    }
}

impl vstd::std_specs::convert::FromSpecImpl<TopicsAction> for u8 {
    open spec fn obeys_from_spec() -> bool {
        true
    }

    open spec fn from_spec(value: TopicsAction) -> u8 {
        spec_topics_action_code(value)
    }
}

} // verus!
