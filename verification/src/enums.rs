//! The small closed enumerations of the wire protocol: datagram type tags,
//! request actions, response codes, and shutdown reasons, each with its
//! one-byte wire code.

pub mod datagram_type;
pub mod end_connection_reason;
pub mod object_request_action;
pub mod topic_action;
pub mod topic_actions;
pub mod topic_response;
pub mod topics_response;
