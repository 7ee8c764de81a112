//! The mock main board: channel assignment, clear-to-send scheduling and enforcement.

pub mod handling_error;
pub mod channel_tracker;
pub mod timer_tracker;
pub mod clear_to_send_tracker;
pub mod channel_manager;
pub mod mock_spa;
pub mod main_board;
pub mod timer;
