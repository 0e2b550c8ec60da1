//! Shared plain types and the byte-buffer helpers the wire codec is built
//! on.

pub mod types;
pub mod utils;
