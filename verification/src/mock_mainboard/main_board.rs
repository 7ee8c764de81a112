//! The mock main board's decisions: what it answers to each message, what it sends on
//! each timer tick, and how it reacts to the other events of its event loop. Reading,
//! writing, timers and threads are left to the caller, which hands each event to
//! `MainBoardState::handle_event` and sends the message that comes back.

use std::time::Duration;
use vstd::prelude::*;
use vstd::utf8::{encode_utf8, is_ascii_chars, is_ascii_chars_encode_utf8};
use crate::common::transport::Transport;
use crate::messages::array_utils::zero_padded;
use crate::messages::channel::{byte_of_channel, Channel, CLIENT_CTS_RANGE_LEN};
use crate::messages::enums::{HeaterType, HeaterVoltage};
use crate::messages::framed_reader::FramedReader;
use crate::messages::framed_writer::FramedWriter;
use crate::messages::message::Message;
use crate::messages::message_kind::{kind_byte, kind_of_byte};
use crate::messages::message_types::{
    be16, kind_of, message_decodable, message_decoding, message_encodable, message_payload, MessageType,
};
use crate::messages::parsed_enum::ParsedEnum;
use crate::messages::settings::{
    fault_bytes, information_bytes, InformationResponseMessage, SettingsRequestMessage, SoftwareVersion,
};
use crate::messages::status_update::{first_known, status_v1_bytes, status_v1_encodable};
use crate::mock_mainboard::channel_manager::{
    validate_outcome, ChannelManager, CtsEnforcementPolicy,
};
use crate::mock_mainboard::channel_tracker::{device_number, select_outcome, DeviceKey, TrackerState};
use crate::mock_mainboard::clear_to_send_tracker::{cts_verdict, SendMessage, SendMessageFactory};
use crate::mock_mainboard::handling_error::{ErrorDetail, HandlingError};
use crate::mock_mainboard::mock_spa::{MockSpa, MockSpaState};
use crate::mock_mainboard::timer_tracker::{TickAction, TimerTracker};

verus! {

/// A main board on a transport, before it runs.
pub struct MainBoard<R, W> {
    framed_reader: FramedReader<R>,
    framed_writer: FramedWriter<W>,
    init_delay: Option<Duration>,
    channel_manager: Option<ChannelManager>,
}

impl<R, W> MainBoard<R, W> {
    pub closed spec fn spec_init_delay(&self) -> Option<Duration> {
        self.init_delay
    }

    pub closed spec fn spec_channel_manager(&self) -> Option<ChannelManager> {
        self.channel_manager
    }

    pub closed spec fn spec_reader(&self) -> FramedReader<R> {
        self.framed_reader
    }

    pub closed spec fn spec_writer(&self) -> FramedWriter<W> {
        self.framed_writer
    }

    /// A main board that reads and writes frames on the two halves of `transport`, with
    /// no initialization delay and the default clear-to-send policy.
    pub fn new(transport: impl Transport<R, W>) -> (b: Self)
        ensures
            b.spec_init_delay() is None,
            b.spec_channel_manager() is None,
            b.spec_reader().wf(),
    {
        let (raw_reader, raw_writer) = transport.split();
        let framed_reader = FramedReader::new(raw_reader);
        let framed_writer = FramedWriter::new(raw_writer);
        Self { framed_reader, framed_writer, init_delay: None, channel_manager: None }
    }

    /// The same board, finishing initialization `init_delay` after it starts.
    pub fn set_init_delay(self, init_delay: Duration) -> (b: Self)
        ensures
            b.spec_init_delay() == Some(init_delay),
            b.spec_channel_manager() == self.spec_channel_manager(),
            b.spec_reader() == self.spec_reader(),
            b.spec_writer() == self.spec_writer(),
    {
        let mut b = self;
        b.init_delay = Some(init_delay);
        b
    }

    /// The same board, enforcing clear-to-send by `cts_policy` with windows of `cts_window`.
    pub fn set_clear_to_send_policy(self, cts_policy: CtsEnforcementPolicy, cts_window: Duration) -> (b: Self)
        ensures
            b.spec_channel_manager() matches Some(m) && m.wf() && m.policy() == cts_policy
                && m.cts().allowed_delay() == cts_window && m.cts().authorized() is None,
            b.spec_init_delay() == self.spec_init_delay(),
            b.spec_reader() == self.spec_reader(),
            b.spec_writer() == self.spec_writer(),
    {
        let mut b = self;
        b.channel_manager = Some(ChannelManager::with_policy(cts_policy, cts_window));
        b
    }

    /// Takes the board apart for running: its reader, its writer, its initialization
    /// delay, and the state of its event handler.
    pub fn into_parts(self) -> (parts: (FramedReader<R>, FramedWriter<W>, Option<Duration>, MainBoardState))
        requires
            self.spec_channel_manager() matches Some(m) ==> m.wf(),
        ensures
            parts.0 == self.spec_reader(),
            parts.1 == self.spec_writer(),
            parts.2 == self.spec_init_delay(),
            parts.3.wf(),
            parts.3.spa().is_default(),
            self.spec_channel_manager() matches Some(m) ==> parts.3.manager() == m,
    {
        let state = MainBoardState::new(self.channel_manager);
        (self.framed_reader, self.framed_writer, self.init_delay, state)
    }
}

/// The timers of the event loop.
#[derive(Debug, PartialEq, Eq, Structural, Clone, Copy)]
pub enum TimerId {
    SendTickMessage,
}

/// What the event loop hands to the main board.
#[derive(Debug)]
pub enum Event {
    ReceivedMessage(Message),
    ReadError,
    InitFinished,
    TimerTick(TimerId),
    Shutdown,
}

/// The event handler's state: the simulated spa, the channels and clear-to-send, and the
/// timer schedule.
#[derive(Debug)]
pub struct MainBoardState {
    mock_spa: MockSpa,
    channel_manager: ChannelManager,
    timer_tracker: TimerTracker,
}

/// The payload of the main board's information response: version 100.210.6.0, model
/// "Mock Spa", setup 0, signature 1 2 3 4, 240 V, standard heater, DIP switches 0.
pub open spec fn mock_information_bytes() -> Seq<u8> {
    seq![
        100u8, 210, 6, 0,
        0x4d, 0x6f, 0x63, 0x6b, 0x20, 0x53, 0x70, 0x61,
        0, 1, 2, 3, 4,
        0x01, 0x0a,
        0, 0,
    ]
}

/// The payload of the empty fault log entry.
pub open spec fn mock_fault_log_bytes() -> Seq<u8> {
    seq![0u8, 0, 0, 0, 0, 0, 0, 0, 0, 0]
}

/// The messages that the main board takes note of without answering.
pub open spec fn acknowledged_only(parsed: MessageType) -> bool {
    match parsed {
        MessageType::ChannelAssignmentAck() => true,
        MessageType::NothingToSend() => true,
        MessageType::ToggleItemRequest { .. } => true,
        MessageType::SetTemperatureRequest { .. } => true,
        MessageType::SetTimeRequest { .. } => true,
        MessageType::FilterCycles { .. } => true,
        MessageType::SetPreferenceRequest(_) => true,
        MessageType::ChangeSetupRequest { .. } => true,
        MessageType::LockRequest(_) => true,
        MessageType::ToggleTestSettingRequest(_) => true,
        _ => false,
    }
}

/// What answering `parsed`, received on `src`, gives, as far as it does not depend on the
/// channel table: a reply with the given channel, type and payload, or none, or an error.
pub open spec fn answers(parsed: MessageType, src: Channel, result: Result<Option<SendMessage>, HandlingError>) -> bool {
    match parsed {
        MessageType::ChannelAssignmentRequest { device_type, client_hash } => match result {
            Ok(Some(s)) => s.expect_reply_on matches Some(ch) && s.message.parts() == (
                Channel::MulticastChannelAssignment,
                0x02u8,
                seq![byte_of_channel(ch)] + be16(client_hash),
            ),
            Ok(None) => false,
            Err(_) => true,
        },
        MessageType::SettingsRequest(SettingsRequestMessage::Information) => result matches Ok(Some(s))
            && s.expect_reply_on is None && s.message.parts() == (src, 0x24u8, mock_information_bytes()),
        MessageType::SettingsRequest(SettingsRequestMessage::Configuration) => result matches Ok(Some(s))
            && s.expect_reply_on is None && s.message.channel == src && s.message.message_type == 0x2e,
        MessageType::SettingsRequest(SettingsRequestMessage::FaultLog { .. }) => result matches Ok(Some(s))
            && s.expect_reply_on is None && s.message.parts() == (src, 0x28u8, mock_fault_log_bytes()),
        MessageType::SettingsRequest(_) => result == Ok::<Option<SendMessage>, HandlingError>(None),
        _ => if acknowledged_only(parsed) {
            result == Ok::<Option<SendMessage>, HandlingError>(None)
        } else {
            result == Err::<Option<SendMessage>, HandlingError>(
                HandlingError::ClientUnsupported(ErrorDetail::UnsupportedMessage(kind_of(parsed))),
            )
        },
    }
}

/// How answering `parsed` moves the channel table, `before` to `after`, and what that
/// decides of `result`: a channel assignment request selects the device's channel as
/// `select_outcome` says, and the reply expects the acknowledgement on the selected channel,
/// or the selection's error is the result; other messages leave the table as it is.
pub open spec fn assignment_outcome(
    before: TrackerState,
    after: TrackerState,
    parsed: MessageType,
    result: Result<Option<SendMessage>, HandlingError>,
) -> bool {
    match parsed {
        MessageType::ChannelAssignmentRequest { device_type, client_hash } => {
            let (t, selected) = select_outcome(before, DeviceKey { device_type, client_hash });
            &&& after == t
            &&& match selected {
                Ok(c) => result matches Ok(Some(s)) && s.expect_reply_on == Some(c),
                Err(e) => result == Err::<Option<SendMessage>, HandlingError>(e),
            }
        },
        _ => after == before,
    }
}

/// The message that a timer tick action sends, by channel, type and payload, and the
/// channel then cleared to send: new-client clear-to-send on the assignment channel, the
/// status of `spa` (at some time of day) to everybody, clear-to-send to a client; nothing
/// otherwise.
pub open spec fn tick_message(action: TickAction, sent: Option<SendMessage>, spa: MockSpa) -> bool {
    match action {
        TickAction::NewClientClearToSend => sent matches Some(s) && s.message.parts() == (
            Channel::MulticastChannelAssignment,
            0x00u8,
            Seq::<u8>::empty(),
        ) && s.expect_reply_on == Some(Channel::MulticastChannelAssignment),
        TickAction::StatusUpdate => sent matches Some(s) && s.message.channel == Channel::MulticastBroadcast
            && s.message.message_type == 0x13 && s.expect_reply_on is None
            && spa.status_payload(s.message.payload@),
        TickAction::ClearToSend { channel } => sent matches Some(s) && s.message.parts() == (
            channel,
            0x06u8,
            Seq::<u8>::empty(),
        ) && s.expect_reply_on == Some(channel),
        TickAction::Nothing => sent is None,
    }
}

/// The client channels held by the first `n` clients, in order (at most 32).
pub open spec fn client_channel_seq(n: nat) -> Seq<Channel> {
    let m = if n < CLIENT_CTS_RANGE_LEN { n } else { CLIENT_CTS_RANGE_LEN as nat };
    Seq::new(m, |i: int| Channel::Client((0x10 + i) as u8))
}

/// The client channels of the first `n` clients.
fn client_channels(n: usize) -> (v: Vec<Channel>)
    ensures
        v@ == client_channel_seq(n as nat),
{
    let m = if n < CLIENT_CTS_RANGE_LEN { n } else { CLIENT_CTS_RANGE_LEN };
    let mut v: Vec<Channel> = Vec::new();
    let mut i: usize = 0;
    while i < m
        invariant
            i <= m,
            m <= CLIENT_CTS_RANGE_LEN,
            m == (if n < CLIENT_CTS_RANGE_LEN { n } else { CLIENT_CTS_RANGE_LEN }),
            v@ == client_channel_seq(n as nat).subrange(0, i as int),
        decreases m - i,
    {
        v.push(Channel::Client((0x10 + i) as u8));
        i = i + 1;
    }
    assert(v@ =~= client_channel_seq(n as nat));
    v
}

/// The main board's information response.
pub(crate) fn mock_information() -> (m: InformationResponseMessage)
    ensures
        encode_utf8(m.system_model_number@).len() <= 8,
        information_bytes(m) == mock_information_bytes(),
{
    let m = InformationResponseMessage {
        software_version: SoftwareVersion { version: [100, 210, 6, 0] },
        system_model_number: "Mock Spa".to_owned(),
        current_configuration_setup: 0,
        configuration_signature: [1, 2, 3, 4],
        heater_voltage: ParsedEnum::new(HeaterVoltage::V240),
        heater_type: ParsedEnum::new(HeaterType::Standard),
        dip_switch_settings: 0,
    };
    proof {
        reveal_strlit("Mock Spa");
        let chars = m.system_model_number@;
        assert(is_ascii_chars(chars));
        is_ascii_chars_encode_utf8(chars);
        let model = encode_utf8(chars);
        assert(model[0] == chars[0] as u8);
        assert(model[1] == chars[1] as u8);
        assert(model[2] == chars[2] as u8);
        assert(model[3] == chars[3] as u8);
        assert(model[4] == chars[4] as u8);
        assert(model[5] == chars[5] as u8);
        assert(model[6] == chars[6] as u8);
        assert(model[7] == chars[7] as u8);
        assert(zero_padded(model, 8) =~= seq![0x4du8, 0x6f, 0x63, 0x6b, 0x20, 0x53, 0x70, 0x61]);
        assert(information_bytes(m) =~= mock_information_bytes());
    }
    m
}

impl MainBoardState {
    pub closed spec fn spa(&self) -> MockSpa {
        self.mock_spa
    }

    pub closed spec fn manager(&self) -> ChannelManager {
        self.channel_manager
    }

    pub closed spec fn timer(&self) -> TimerTracker {
        self.timer_tracker
    }

    /// The channel manager and the timer schedule are well formed, and a cycle of ticks
    /// has room for the two ticks that are not clear-to-send.
    pub closed spec fn wf(&self) -> bool {
        &&& self.channel_manager.wf()
        &&& self.timer_tracker.wf()
        &&& self.timer_tracker.view_tracker().clear_to_send_ticks == CLIENT_CTS_RANGE_LEN
    }

    /// A fresh handler state: a default spa, `channel_manager` or else the default one,
    /// and the default timer schedule.
    pub fn new(channel_manager: Option<ChannelManager>) -> (s: Self)
        requires
            channel_manager matches Some(m) ==> m.wf(),
        ensures
            s.wf(),
            s.spa().is_default(),
            channel_manager matches Some(m) ==> s.manager() == m,
            channel_manager is None ==> s.manager().policy() == CtsEnforcementPolicy::Always,
    {
        let channel_manager = match channel_manager {
            Some(m) => m,
            None => ChannelManager::new(),
        };
        Self { mock_spa: MockSpa::new(), channel_manager, timer_tracker: TimerTracker::new() }
    }

    /// Timer ticks per second: one cycle of the timer schedule per second.
    pub fn main_tick_hz(&self) -> (hz: usize)
        requires
            self.wf(),
        ensures
            hz == CLIENT_CTS_RANGE_LEN + 2,
    {
        self.timer_tracker.total_ticks_per_cycle()
    }

    /// The answer to a parsed message received on `src_channel`: a channel assignment
    /// (expecting the acknowledgement on the assigned channel), the information, the
    /// configuration or an empty fault log entry, nothing for messages that are only taken
    /// note of, or an error for messages that a main board does not receive.
    pub fn handle_and_generate_response(
        &mut self,
        src_channel: Channel,
        smf: SendMessageFactory,
        parsed: MessageType,
    ) -> (result: Result<Option<SendMessage>, HandlingError>)
        requires
            old(self).wf(),
        ensures
            final(self).wf(),
            final(self).spa() == old(self).spa(),
            final(self).timer() == old(self).timer(),
            final(self).manager().cts() == old(self).manager().cts(),
            final(self).manager().policy() == old(self).manager().policy(),
            answers(parsed, src_channel, result),
            assignment_outcome(old(self).manager().tracker(), final(self).manager().tracker(), parsed, result),
            parsed matches MessageType::ChannelAssignmentRequest { device_type, client_hash } ==> (
                result matches Ok(Some(s)) ==> ({
                    let n = device_number(DeviceKey { device_type, client_hash });
                    &&& final(self).manager().tracker().devices.contains_key(n)
                    &&& s.expect_reply_on == Some(final(self).manager().tracker().devices[n])
                })),
            !(parsed is ChannelAssignmentRequest) ==> final(self).manager() == old(self).manager(),
    {
        match parsed {
            MessageType::ChannelAssignmentRequest { device_type, client_hash } => {
                let key = DeviceKey { device_type, client_hash };
                let selected_channel = match self.channel_manager.select_channel(key) {
                    Ok(c) => c,
                    Err(e) => {
                        return Err(e);
                    },
                };
                let response = MessageType::ChannelAssignmentResponse { channel: selected_channel, client_hash };
                match response.to_message(Channel::MulticastChannelAssignment) {
                    Ok(m) => Ok(Some(smf.expect_reply_on_channel(m, selected_channel))),
                    Err(_) => {
                        proof {
                            assert(false);
                        }
                        Err(HandlingError::ClientUnsupported(ErrorDetail::PayloadEncode))
                    },
                }
            },
            MessageType::SettingsRequest(settings) => match settings {
                SettingsRequestMessage::Information => {
                    let info = mock_information();
                    match MessageType::InformationResponse(info).to_message(src_channel) {
                        Ok(m) => Ok(Some(smf.no_reply(m))),
                        Err(_) => {
                            proof {
                                assert(false);
                            }
                            Err(HandlingError::ClientUnsupported(ErrorDetail::PayloadEncode))
                        },
                    }
                },
                SettingsRequestMessage::Configuration => {
                    let configuration = self.mock_spa.as_configuration();
                    match MessageType::ConfigurationResponse(configuration).to_message(src_channel) {
                        Ok(m) => Ok(Some(smf.no_reply(m))),
                        Err(_) => {
                            proof {
                                assert(false);
                            }
                            Err(HandlingError::ClientUnsupported(ErrorDetail::PayloadEncode))
                        },
                    }
                },
                SettingsRequestMessage::FaultLog { entry_num } => {
                    let fault = self.mock_spa.as_fault_log(entry_num);
                    proof {
                        assert(fault_bytes(fault) =~= mock_fault_log_bytes());
                    }
                    match MessageType::FaultLogResponse(fault).to_message(src_channel) {
                        Ok(m) => Ok(Some(smf.no_reply(m))),
                        Err(_) => {
                            proof {
                                assert(false);
                            }
                            Err(HandlingError::ClientUnsupported(ErrorDetail::PayloadEncode))
                        },
                    }
                },
                _ => Ok(None),
            },
            MessageType::ChannelAssignmentAck() => Ok(None),
            MessageType::NothingToSend() => Ok(None),
            MessageType::ToggleItemRequest { .. } => Ok(None),
            MessageType::SetTemperatureRequest { .. } => Ok(None),
            MessageType::SetTimeRequest { .. } => Ok(None),
            MessageType::FilterCycles { .. } => Ok(None),
            MessageType::SetPreferenceRequest(_) => Ok(None),
            MessageType::ChangeSetupRequest { .. } => Ok(None),
            MessageType::LockRequest(_) => Ok(None),
            MessageType::ToggleTestSettingRequest(_) => Ok(None),
            other => Err(HandlingError::ClientUnsupported(ErrorDetail::UnsupportedMessage(other.kind()))),
        }
    }

    /// Handles a received message: checks it against the channel table and clear-to-send,
    /// decodes it and answers it (see `message_outcome`).
    pub fn handle_message(&mut self, message: &Message) -> (result: Result<Option<SendMessage>, HandlingError>)
        requires
            old(self).wf(),
            message_decodable(message.message_type, message.payload@),
        ensures
            final(self).wf(),
            final(self).spa() == old(self).spa(),
            final(self).timer() == old(self).timer(),
            message_outcome(*old(self), *final(self), *message, result),
    {
        let ghost before = *self;
        let validation = self.channel_manager.validate_message(message);
        let ghost after_validation = self.channel_manager;
        let ghost elapsed = choose|elapsed: Duration| (after_validation.tracker(), validation) == validate_outcome(
            before.manager().tracker(),
            before.manager().policy(),
            message.channel,
            #[trigger] cts_verdict(before.manager().cts().authorized(), message.channel, elapsed),
        );
        match validation {
            Err(e) => {
                return Err(e);
            },
            Ok(_) => {},
        }
        let parsed = MessageType::from_message(message);
        match parsed {
            Err(e) => {
                proof {
                    assert(message_decoding(message.message_type, message.payload@, parsed));
                }
                Err(HandlingError::ClientUnsupported(ErrorDetail::PayloadParse(e)))
            },
            Ok(p) => {
                let ghost parsed_witness = parsed;
                match self.channel_manager.start_send_message() {
                    Err(e) => {
                        proof {
                            assert(false);
                        }
                        Err(e)
                    },
                    Ok(None) => {
                        proof {
                            assert(false);
                        }
                        Err(HandlingError::ClientNeedsReconnect(ErrorDetail::ReplyBlockedByCts(message.channel)))
                    },
                    Ok(Some(smf)) => {
                        let result = self.handle_and_generate_response(message.channel, smf, p);
                        proof {
                            assert(message_decoding(message.message_type, message.payload@, parsed_witness));
                        }
                        result
                    },
                }
            },
        }
    }

    /// Handles a timer tick. While a client's clear-to-send window is open nothing is sent;
    /// otherwise the timer schedule's next action decides the message (see `tick_outcome`).
    pub fn handle_timer(&mut self, timer_id: TimerId) -> (result: Result<Option<SendMessage>, HandlingError>)
        requires
            old(self).wf(),
        ensures
            final(self).wf(),
            final(self).spa() == old(self).spa(),
            tick_outcome(*old(self), *final(self), result),
    {
        match timer_id {
            TimerId::SendTickMessage => {
                let ghost before = *self;
                match self.channel_manager.start_send_message() {
                    Err(e) => Err(e),
                    Ok(None) => Ok(None),
                    Ok(Some(smf)) => {
                        let n = self.channel_manager.num_channels();
                        let channels_now = || -> (v: Vec<Channel>)
                            ensures
                                v@ == client_channel_seq(n as nat),
                            {
                                client_channels(n)
                            };
                        let action = self.timer_tracker.next_action(channels_now);
                        proof {
                            assert(self.timer_tracker.view_tracker().helper.channels == client_channel_seq(n as nat)
                                || before.timer().view_tracker().next_action != TickAction::NewClientClearToSend);
                        }
                        match action {
                            TickAction::NewClientClearToSend => {
                                match MessageType::NewClientClearToSend().to_message(Channel::MulticastChannelAssignment) {
                                    Ok(m) => Ok(Some(smf.maybe_expect_reply(m))),
                                    Err(e) => {
                                        proof {
                                            assert(false);
                                        }
                                        Err(HandlingError::ClientUnsupported(ErrorDetail::PayloadEncode))
                                    },
                                }
                            },
                            TickAction::StatusUpdate => {
                                let status = self.mock_spa.as_status();
                                proof {
                                    assert(status_v1_encodable(status.v1));
                                }
                                let ghost v1 = status.v1;
                                match MessageType::StatusUpdate(status).to_message(Channel::MulticastBroadcast) {
                                    Ok(m) => {
                                        assert(status_v1_bytes(v1) == m.payload@);
                                        assert(self.mock_spa.status_payload(m.payload@));
                                        Ok(Some(smf.no_reply(m)))
                                    },
                                    Err(e) => {
                                        proof {
                                            assert(false);
                                        }
                                        Err(HandlingError::ClientUnsupported(ErrorDetail::PayloadEncode))
                                    },
                                }
                            },
                            TickAction::ClearToSend { channel } => {
                                match MessageType::ClearToSend().to_message(channel) {
                                    Ok(m) => Ok(Some(smf.expect_reply(m))),
                                    Err(e) => {
                                        proof {
                                            assert(false);
                                        }
                                        Err(HandlingError::ClientUnsupported(ErrorDetail::PayloadEncode))
                                    },
                                }
                            },
                            TickAction::Nothing => Ok(None),
                        }
                    },
                }
            },
        }
    }

    /// Records that `send` goes out now, so that the channel it expects a reply on is the
    /// one cleared to send.
    pub fn before_send(&mut self, send: &SendMessage)
        requires
            old(self).wf(),
        ensures
            final(self).wf(),
            final(self).spa() == old(self).spa(),
            final(self).timer() == old(self).timer(),
            final(self).manager().tracker() == old(self).manager().tracker(),
            final(self).manager().policy() == old(self).manager().policy(),
            match send.expect_reply_on {
                Some(c) => final(self).manager().cts().authorized() matches Some(a) && a.channel() == c,
                None => final(self).manager().cts().authorized() is None,
            },
    {
        self.channel_manager.handle_presend(send);
    }

    /// Handles one event of the event loop: a message or a timer tick as above, the end of
    /// initialization (the spa starts heating), a read error (fatal) or a shutdown request.
    pub fn handle_event(&mut self, event: Event) -> (result: Result<Option<SendMessage>, HandlingError>)
        requires
            old(self).wf(),
            event matches Event::ReceivedMessage(m) ==> message_decodable(m.message_type, m.payload@),
        ensures
            final(self).wf(),
            match event {
                Event::ReceivedMessage(m) => {
                    &&& final(self).spa() == old(self).spa()
                    &&& message_outcome(*old(self), *final(self), m, result)
                },
                Event::ReadError => {
                    &&& *final(self) == *old(self)
                    &&& result == Err::<Option<SendMessage>, HandlingError>(HandlingError::FatalError(ErrorDetail::TransportFailure))
                },
                Event::TimerTick(_) => {
                    &&& final(self).spa() == old(self).spa()
                    &&& tick_outcome(*old(self), *final(self), result)
                },
                Event::InitFinished => {
                    &&& final(self).spa().run_state == MockSpaState::Heating
                    &&& final(self).spa().hardware == old(self).spa().hardware
                    &&& final(self).spa().settings == old(self).spa().settings
                    &&& final(self).manager() == old(self).manager()
                    &&& final(self).timer() == old(self).timer()
                    &&& result == Ok::<Option<SendMessage>, HandlingError>(None)
                },
                Event::Shutdown => {
                    &&& *final(self) == *old(self)
                    &&& result == Err::<Option<SendMessage>, HandlingError>(HandlingError::ShutdownRequested)
                },
            },
    {
        match event {
            Event::ReceivedMessage(message) => self.handle_message(&message),
            Event::ReadError => Err(HandlingError::FatalError(ErrorDetail::TransportFailure)),
            Event::TimerTick(timer_id) => self.handle_timer(timer_id),
            Event::InitFinished => {
                self.mock_spa.run_state = MockSpaState::Heating;
                Ok(None)
            },
            Event::Shutdown => Err(HandlingError::ShutdownRequested),
        }
    }
}

/// What handling `message` does, `before` to `after`: clear-to-send and channel checks
/// (`validate_outcome`, for the time elapsed since the last clearance) pass on their error;
/// otherwise a payload that does not decode is an unsupported client (the table stays as
/// validation left it), and a decoded message is answered as `answers` and
/// `assignment_outcome` say.
pub open spec fn message_outcome(
    before: MainBoardState,
    after: MainBoardState,
    message: Message,
    result: Result<Option<SendMessage>, HandlingError>,
) -> bool {
    exists|elapsed: Duration| {
        let (t1, v) = #[trigger] validate_outcome(
            before.manager().tracker(),
            before.manager().policy(),
            message.channel,
            cts_verdict(before.manager().cts().authorized(), message.channel, elapsed),
        );
        match v {
            Err(e) => result == Err::<Option<SendMessage>, HandlingError>(e) && after.manager().tracker() == t1,
            Ok(_) => exists|parsed: Result<MessageType, crate::messages::payload_error::PayloadParseError>| {
                &&& #[trigger] message_decoding(message.message_type, message.payload@, parsed)
                &&& match parsed {
                    Err(pe) => result == Err::<Option<SendMessage>, HandlingError>(
                        HandlingError::ClientUnsupported(ErrorDetail::PayloadParse(pe)),
                    ) && after.manager().tracker() == t1,
                    Ok(p) => answers(p, message.channel, result)
                        && assignment_outcome(t1, after.manager().tracker(), p, result),
                }
            },
        }
    }
}

/// What a timer tick does, `before` to `after`: when sending may not go ahead the result
/// is that refusal and the schedule stays; otherwise the schedule takes its next step
/// (starting a cycle with the channels of the clients held) and the step's action gives
/// the message.
pub open spec fn tick_outcome(
    before: MainBoardState,
    after: MainBoardState,
    result: Result<Option<SendMessage>, HandlingError>,
) -> bool {
    exists|elapsed: Duration| {
        let (t, r) = #[trigger] crate::mock_mainboard::channel_manager::start_send_outcome(
            before.manager().tracker(),
            crate::mock_mainboard::clear_to_send_tracker::send_verdict(
                before.manager().cts().authorized(),
                before.manager().cts().allowed_delay(),
                elapsed,
            ),
        );
        &&& after.manager().tracker() == t
        &&& match r {
            Err(e) => result == Err::<Option<SendMessage>, HandlingError>(e) && after.timer() == before.timer(),
            Ok(false) => result == Ok::<Option<SendMessage>, HandlingError>(None) && after.timer() == before.timer(),
            Ok(true) => {
                let (next, action) = crate::mock_mainboard::timer_tracker::tracker_step(
                    before.timer().view_tracker(),
                    client_channel_seq(t.records.len()),
                );
                &&& after.timer().view_tracker() == next
                &&& result matches Ok(sent)
                &&& tick_message(action, sent, before.spa())
            },
        }
    }
}

} // verus!
