//! The first mock main board, which kept its channel table in a bimap and counted its own
//! timer ticks.

pub mod device_channels;
pub mod main_board;
