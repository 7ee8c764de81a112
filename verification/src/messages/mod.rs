//! Wire-level types of the Balboa serial protocol.

pub mod channel;
pub mod checksum;
pub mod message;
pub mod ring_buffer;
pub mod frame_decoder;
pub mod frame_encoder;
pub mod framing;
pub mod framed_reader;
pub mod framed_writer;
pub mod parsed_enum;
pub mod time;
pub mod clock;
pub mod array_utils;
pub mod payload_error;
pub mod message_kind;
pub mod enums;
pub mod byte_order;
pub mod temperature;
pub mod status;
pub mod boolean;
pub mod status_update;
pub mod settings;
pub mod configuration;
pub mod message_types;
pub mod text;
