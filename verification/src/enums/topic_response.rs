//! The response codes a broker can answer a `TopicRequest` with.

use vstd::prelude::*;

verus! {

/// The outcome of a topic request: success or failure, for each of the
/// two actions. A subscribe that the client already holds fails, as does
/// an unsubscribe of a topic the client never subscribed to.
#[derive(Copy, Clone, PartialEq, Eq, Structural, Debug)]
pub enum TopicResponse {
    SubSuccess,
    SubFailure,
    UnsubSuccess,
    UnsubFailure,
    Unknown,
}

/// The wire code of a topic response.
pub open spec fn spec_topic_response_code(response: TopicResponse) -> u8 {
    match response {
        TopicResponse::SubSuccess => 0x00,
        TopicResponse::SubFailure => 0x0F,
        TopicResponse::UnsubSuccess => 0xF0,
        TopicResponse::UnsubFailure => 0xFF,
        TopicResponse::Unknown => 0xAA,
    }
}

/// The topic response that a wire code stands for; any other code gives
/// `Unknown`.
pub open spec fn spec_topic_response_of_code(value: u8) -> TopicResponse {
    if value == 0x00 {
        TopicResponse::SubSuccess
    } else if value == 0x0F {
        TopicResponse::SubFailure
    } else if value == 0xF0 {
        TopicResponse::UnsubSuccess
    } else if value == 0xFF {
        TopicResponse::UnsubFailure
    } else {
        TopicResponse::Unknown
    }
}

impl From<u8> for TopicResponse {
    fn from(value: u8) -> (response: TopicResponse) {
        match value {
            0x00 => TopicResponse::SubSuccess,
            0x0F => TopicResponse::SubFailure,
            0xF0 => TopicResponse::UnsubSuccess,
            0xFF => TopicResponse::UnsubFailure,
            _ => TopicResponse::Unknown,
        }
    }
}

impl vstd::std_specs::convert::FromSpecImpl<u8> for TopicResponse {
    open spec fn obeys_from_spec() -> bool {
        true
    }

    open spec fn from_spec(value: u8) -> TopicResponse {
        spec_topic_response_of_code(value)
    }
}

impl From<TopicResponse> for u8 {
    fn from(value: TopicResponse) -> (code: u8) {
        match value {
            TopicResponse::SubSuccess => 0x00,
            TopicResponse::SubFailure => 0x0F,
            TopicResponse::UnsubSuccess => 0xF0,
            TopicResponse::UnsubFailure => 0xFF,
            TopicResponse::Unknown => 0xAA,
        }
    }
}

impl vstd::std_specs::convert::FromSpecImpl<TopicResponse> for u8 {
    open spec fn obeys_from_spec() -> bool {
        true
    }

    open spec fn from_spec(value: TopicResponse) -> u8 {
        spec_topic_response_code(value)
    }
}

} // verus!
