//! Chooses how loudly each message is logged. The caller hands the record to its logger.

use vstd::prelude::*;
use crate::messages::message::Message;
use crate::messages::message_kind::{kind_of_byte, MessageTypeKind};

verus! {

/// Severity of a log line.
#[derive(Debug, PartialEq, Eq, Structural, Clone, Copy)]
pub enum LogLevel {
    Warn,
    Info,
    Debug,
}

/// Whether a message was received or sent.
#[derive(Debug, Clone, Copy, PartialEq, Eq, Structural)]
pub enum MessageDirection {
    Inbound,
    Outbound,
}

/// What to log for one message: the logger target, the level, the arrow that shows the
/// direction and a suffix that flags unknown message types.
#[derive(Debug, PartialEq, Eq)]
pub struct MessageLogRecord {
    pub target: &'static str,
    pub level: LogLevel,
    pub direction_label: &'static str,
    pub suffix: &'static str,
}

/// Logs messages under a fixed target name.
#[derive(Debug, Clone)]
pub struct MessageLogger {
    debug_name: &'static str,
}

/// The level for a message type: unknown types warn, the chatty bus-control types (new
/// client clear-to-send, clear-to-send, status update, nothing-to-send) are debug output,
/// everything else is info.
pub open spec fn log_level_of(message_type: u8) -> LogLevel {
    match kind_of_byte(message_type) {
        None => LogLevel::Warn,
        Some(k) => {
            if k == MessageTypeKind::NewClientClearToSend || k == MessageTypeKind::ClearToSend
                || k == MessageTypeKind::StatusUpdate || k == MessageTypeKind::NothingToSend {
                LogLevel::Debug
            } else {
                LogLevel::Info
            }
        },
    }
}

impl MessageLogger {
    pub closed spec fn debug_name(&self) -> &'static str {
        self.debug_name
    }

    pub fn new(debug_name: &'static str) -> (l: Self)
        ensures
            l.debug_name() == debug_name,
    {
        Self { debug_name }
    }

    /// The log record for `message` travelling in `direction`.
    pub fn log(&self, direction: MessageDirection, message: &Message) -> (r: MessageLogRecord)
        ensures
            r.target == self.debug_name(),
            r.level == log_level_of(message.message_type),
            (r.level == LogLevel::Warn) ==> r.suffix@ == "(unknown!)"@,
            (r.level != LogLevel::Warn) ==> r.suffix@ == ""@,
            direction == MessageDirection::Inbound ==> r.direction_label@ == "<="@,
            direction == MessageDirection::Outbound ==> r.direction_label@ == "=>"@,
    {
        let (suffix, level) = match MessageTypeKind::from_u8(message.message_type) {
            None => ("(unknown!)", LogLevel::Warn),
            Some(kind) => {
                match kind {
                    MessageTypeKind::NewClientClearToSend
                    | MessageTypeKind::ClearToSend
                    | MessageTypeKind::StatusUpdate
                    | MessageTypeKind::NothingToSend => ("", LogLevel::Debug),
                    _ => ("", LogLevel::Info),
                }
            },
        };
        let direction_label = match direction {
            MessageDirection::Inbound => "<=",
            MessageDirection::Outbound => "=>",
        };
        MessageLogRecord { target: self.debug_name, level, direction_label, suffix }
    }
}

} // verus!
