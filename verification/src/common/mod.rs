//! Pieces shared by the bus clients and the mock main board.

pub mod channel_filter;
pub mod message_logger;
pub mod transport;
pub mod channel_allocator_broker;
pub mod cts_state_machine;
pub mod bus_transport;
