//! A message-broker core: a binary wire codec for a closed set of datagram
//! types, broker-side session and subscription state, and the decision logic
//! of a bounded dispatch pipeline, all with verified contracts.


pub mod broker;
pub mod codec;
pub mod config;
pub mod datagrams;
pub mod enums;
pub mod errors;
pub mod handler;
pub mod libs;
pub mod pipeline;
pub mod session;
pub mod subscription;

