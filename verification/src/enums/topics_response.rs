//! An older spelling of the topic response codes, kept for callers that
//! still name it.

use vstd::prelude::*;

verus! {

/// The outcome of a topic request; `TopicResponse` is the current
/// spelling of the same set of codes.
#[derive(Copy, Clone, PartialEq, Eq, Structural, Debug)]
pub enum TopicsResponse {
    SubSuccess,
    SubFailure,
    UnsubSuccess,
    UnsubFailure,
    Unknown,
}

/// The wire code of a topic response in the older spelling.
pub open spec fn spec_topics_response_code(response: TopicsResponse) -> u8 {
    match response {
        TopicsResponse::SubSuccess => 0x00,
        TopicsResponse::SubFailure => 0x0F,
        TopicsResponse::UnsubSuccess => 0xF0,
        TopicsResponse::UnsubFailure => 0xFF,
        TopicsResponse::Unknown => 0xAA,
    }
}

/// The response that a wire code stands for in the older spelling.
pub open spec fn spec_topics_response_of_code(value: u8) -> TopicsResponse {
    if value == 0x00 {
        TopicsResponse::SubSuccess
    } else if value == 0x0F {
        TopicsResponse::SubFailure
    } else if value == 0xF0 {
        TopicsResponse::UnsubSuccess
    } else if value == 0xFF {
        TopicsResponse::UnsubFailure
    } else {
        TopicsResponse::Unknown
    }
}

impl From<u8> for TopicsResponse {
    fn from(value: u8) -> (response: TopicsResponse) {
        match value {
            0x00 => TopicsResponse::SubSuccess,
            0x0F => TopicsResponse::SubFailure,
            0xF0 => TopicsResponse::UnsubSuccess,
            0xFF => TopicsResponse::UnsubFailure,
            _ => TopicsResponse::Unknown,
        }
    }
}

impl vstd::std_specs::convert::FromSpecImpl<u8> for TopicsResponse {
    open spec fn obeys_from_spec() -> bool {
        true
    }

    open spec fn from_spec(value: u8) -> TopicsResponse {
        spec_topics_response_of_code(value)
    }
}

impl From<TopicsResponse> for u8 {
    fn from(value: TopicsResponse) -> (code: u8) {
        match value {
            TopicsResponse::SubSuccess => 0x00,
            TopicsResponse::SubFailure => 0x0F,
            TopicsResponse::UnsubSuccess => 0xF0,
            TopicsResponse::UnsubFailure => 0xFF,
            TopicsResponse::Unknown => 0xAA,
        }
    }
}

impl vstd::std_specs::convert::FromSpecImpl<TopicsResponse> for u8 {
    open spec fn obeys_from_spec() -> bool {
        true
    }

    open spec fn from_spec(value: TopicsResponse) -> u8 {
        spec_topics_response_code(value)
    }
}

} // verus!
