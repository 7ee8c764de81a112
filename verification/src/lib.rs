//! Verified implementation of the Balboa spa RS485 serial protocol: framing, message
//! encoding and decoding, and the main board's channel and clear-to-send bookkeeping.

pub mod messages;
pub mod common;
pub mod mock_mainboard;
pub mod protocol;
pub mod tools;
