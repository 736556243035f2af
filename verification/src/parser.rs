//! The incremental decoder: one call takes the bytes that have arrived and
//! reports one message, one anomaly, or that more bytes are needed.

use crate::assert_from::AssertFrom;
use crate::message::cvm;
use crate::message::u14::septets_value;
use crate::message::view::MessageView;
use crate::message::ChannelMessage;
use crate::message::ChannelMessageType;
use crate::message::ChannelModeMessage;
use crate::message::ChannelVoiceMessage;
use crate::message::Message;
use crate::message::MidiChannelId;
use crate::message::OutOfRange;
use crate::message::SystemCommonMessage;
use crate::message::SystemExclusiveMessage;
use crate::message::SystemMessage;
use crate::message::SystemRealTimeMessage;
use crate::protocol::complete_bytes;
use crate::protocol::completed;
use crate::protocol::decode_data;
use crate::protocol::gather;
use crate::protocol::gather_fixed;
use crate::protocol::gather_sysex;
use crate::protocol::is_channel_status;
use crate::protocol::is_status;
use crate::protocol::lemma_gather;
use crate::protocol::lemma_interrupting_byte;
use crate::protocol::lemma_leading_data_is;
use crate::protocol::parse_outcome;
use crate::protocol::parse_running;
use crate::protocol::system_status;
use crate::protocol::valid_running;
use crate::protocol::DataBytesView;
use crate::protocol::OutcomeStatusView;
use crate::protocol::OutcomeView;
use vstd::pervasive::unreached;
use vstd::prelude::*;
use vstd::slice::slice_to_vec;
use vstd::std_specs::convert::FromSpecImpl;
use vstd::std_specs::convert::TryFromSpecImpl;

mod status_nibbles;
mod system_status_bytes;

verus! {

/// What one call of the parser reports.
#[derive(Debug, Clone, PartialEq, Eq)]
pub struct MessageParseOutcome {
    /// Caller should shift buffer by this number of bytes.
    pub bytes_consumed: u32,
    pub status: MessageParseOutcomeStatus,
}

#[derive(Debug, Clone, PartialEq, Eq)]
pub enum MessageParseOutcomeStatus {
    Message(Message),
    /// Need more bytes to parse a message.
    ///
    /// If the contained is `Some` that indicates the number of needed bytes;
    /// if `None` then the number of bytes is unknown.
    ///
    /// The number of needed bytes is unknown if the provided buffer is empty,
    /// or if parsing a SysEx message.
    NeedMoreBytes(Option<usize>),
    /// A real time message was encountered while parsing another message.
    /// This returns the message, along with the index of the byte that
    /// contained it. The caller should remove the byte from the stream and
    /// retry.
    ///
    /// [`MessageParseOutcome::bytes_consumed`] will be 0.
    InterruptingSystemRealTimeMessage { message: SystemRealTimeMessage, byte_index: usize },
    /// A non-status byte was encountered while looking for a status byte.
    ///
    /// The unexpected byte is accounted for by [`MessageParseOutcome::bytes_consumed`].
    UnexpectedDataByte,
    /// Encountered an End-of-SysEx status byte while not parsing a SysEx.
    UnexpectedEox,
    /// A status byte other than a real time one was encountered while parsing
    /// a message.
    ///
    /// The broken message bytes are accounted for by [`MessageParseOutcome::bytes_consumed`].
    BrokenMessage,
}

/// A byte count that may be unknown, as a natural number.
pub open spec fn hint_view(hint: Option<usize>) -> Option<nat> {
    match hint {
        Some(missing) => Some(missing as nat),
        None => None,
    }
}

impl View for MessageParseOutcomeStatus {
    type V = OutcomeStatusView;

    open spec fn view(&self) -> OutcomeStatusView {
        match *self {
            MessageParseOutcomeStatus::Message(message) => OutcomeStatusView::Message(message@),
            MessageParseOutcomeStatus::NeedMoreBytes(hint) => OutcomeStatusView::NeedMoreBytes(
                hint_view(hint),
            ),
            MessageParseOutcomeStatus::InterruptingSystemRealTimeMessage {
                message,
                byte_index,
            } => OutcomeStatusView::InterruptingSystemRealTimeMessage {
                message,
                byte_index: byte_index as nat,
            },
            MessageParseOutcomeStatus::UnexpectedDataByte => OutcomeStatusView::UnexpectedDataByte,
            MessageParseOutcomeStatus::UnexpectedEox => OutcomeStatusView::UnexpectedEox,
            MessageParseOutcomeStatus::BrokenMessage => OutcomeStatusView::BrokenMessage,
        }
    }
}

impl View for MessageParseOutcome {
    type V = OutcomeView;

    open spec fn view(&self) -> OutcomeView {
        OutcomeView { bytes_consumed: self.bytes_consumed as nat, status: self.status@ }
    }
}

/// The decoder. All it keeps between calls is the running status: the status
/// byte of the last channel message that came with one.
///
/// The view is that register; it holds nothing or a channel status byte.
#[derive(Debug)]
pub struct Parser {
    running_status_byte: Option<StatusByte>,
}

impl View for Parser {
    type V = Option<u8>;

    closed spec fn view(&self) -> Option<u8> {
        match self.running_status_byte {
            Some(status_byte) => Some(status_byte@),
            None => None,
        }
    }
}

impl Parser {
    #[verifier::type_invariant]
    spec fn running_status_is_channel_status(self) -> bool {
        self.running_status_byte matches Some(status_byte) ==> is_channel_status(status_byte@)
    }

    /// A parser with no running status.
    pub fn new() -> (parser: Parser)
        ensures
            parser@ is None,
    {
        Parser { running_status_byte: None }
    }

    /// The running status: the byte under which a data byte at the head of the
    /// next input is decoded.
    pub fn running_status(&self) -> (running: Option<u8>)
        ensures
            running == self@,
            valid_running(running),
    {
        proof {
            use_type_invariant(&*self);
        }
        match self.running_status_byte {
            Some(status_byte) => Some(u8::from(status_byte)),
            None => None,
        }
    }

    /// Decodes what stands at the head of `buf`: one message, one anomaly, or a
    /// message whose end has not arrived. The caller drops
    /// `outcome.bytes_consumed` bytes from the head of its buffer, takes out the
    /// byte at `byte_index` where a real time message interrupts, and calls again
    /// with what remains.
    ///
    /// The count is told as a `u32`, so `buf` is no longer than a `u32` can tell.
    pub fn parse(&mut self, buf: &[u8]) -> (outcome: MessageParseOutcome)
        requires
            buf@.len() <= u32::MAX,
        ensures
            outcome@ == parse_outcome(old(self)@, buf@),
            final(self)@ == parse_running(old(self)@, buf@),
            valid_running(old(self)@),
            valid_running(final(self)@),
            outcome.bytes_consumed <= buf@.len(),
            outcome.bytes_consumed > 0 || outcome.status is NeedMoreBytes
                || outcome.status is InterruptingSystemRealTimeMessage,
            outcome.status matches MessageParseOutcomeStatus::InterruptingSystemRealTimeMessage {
                message,
                byte_index,
            } ==> byte_index < buf@.len() && buf@[byte_index as int] == message.status(),
    {
        proof {
            use_type_invariant(&*self);
            lemma_interrupting_byte(self@, buf@);
        }
        if buf.len() == 0 {
            return MessageParseOutcome {
                bytes_consumed: 0,
                status: MessageParseOutcomeStatus::NeedMoreBytes(None),
            };
        }
        let first_byte = buf[0];
        if is_status_byte(first_byte) {
            let remaining_bytes = &buf[1..buf.len()];
            assert(remaining_bytes@ == buf@.skip(1));
            let status_byte = StatusByte::assert_from(first_byte);
            proof {
                StatusByte::lemma_view_of(first_byte);
                lemma_gather(first_byte, remaining_bytes@);
            }
            let outcome = status_byte.parse(remaining_bytes);
            match outcome.status {
                MessageParseOutcomeStatus::Message(Message::Channel(_)) => {
                    self.running_status_byte = Some(status_byte);
                    MessageParseOutcome {
                        bytes_consumed: 1 + outcome.bytes_consumed,
                        status: outcome.status,
                    }
                },
                MessageParseOutcomeStatus::Message(
                    Message::System(SystemMessage::SystemRealTime(_)),
                ) => MessageParseOutcome {
                    bytes_consumed: 1 + outcome.bytes_consumed,
                    status: outcome.status,
                },
                MessageParseOutcomeStatus::Message(Message::System(_)) => {
                    self.running_status_byte = None;
                    MessageParseOutcome {
                        bytes_consumed: 1 + outcome.bytes_consumed,
                        status: outcome.status,
                    }
                },
                MessageParseOutcomeStatus::NeedMoreBytes(_) => outcome,
                MessageParseOutcomeStatus::InterruptingSystemRealTimeMessage {
                    message,
                    byte_index,
                } => MessageParseOutcome {
                    bytes_consumed: 0,
                    status: MessageParseOutcomeStatus::InterruptingSystemRealTimeMessage {
                        message,
                        byte_index: 1 + byte_index,
                    },
                },
                MessageParseOutcomeStatus::UnexpectedDataByte => unreached(),
                MessageParseOutcomeStatus::UnexpectedEox => {
                    self.running_status_byte = None;
                    MessageParseOutcome {
                        bytes_consumed: 1 + outcome.bytes_consumed,
                        status: outcome.status,
                    }
                },
                MessageParseOutcomeStatus::BrokenMessage => {
                    self.running_status_byte = None;
                    MessageParseOutcome {
                        bytes_consumed: 1 + outcome.bytes_consumed,
                        status: outcome.status,
                    }
                },
            }
        } else if let Some(running_status_byte) = self.running_status_byte {
            proof {
                lemma_gather(running_status_byte@, buf@);
            }
            let outcome = running_status_byte.parse(buf);
            match outcome.status {
                MessageParseOutcomeStatus::BrokenMessage => {
                    self.running_status_byte = None;
                    outcome
                },
                _ => outcome,
            }
        } else {
            MessageParseOutcome {
                bytes_consumed: 1,
                status: MessageParseOutcomeStatus::UnexpectedDataByte,
            }
        }
    }
}

/// Whether `byte` is a status byte: one with its high bit set.
pub fn is_status_byte(byte: u8) -> (result: bool)
    ensures
        result == is_status(byte),
{
    let high_bit: u8 = byte & STATUS_BYTE_MASK;
    assert(high_bit != 0 <==> byte >= 0x80) by {
        assert((byte & 0b10000000) != 0 <==> byte >= 0x80) by (bit_vector);
    }
    high_bit != 0
}

const STATUS_BYTE_MASK: u8 = 0b10000000;

/// A byte with its high bit set.
///
/// The view is the byte.
#[derive(Debug, Copy, Clone, PartialEq, Eq)]
pub struct StatusByte(u8);

impl View for StatusByte {
    type V = u8;

    closed spec fn view(&self) -> u8 {
        self.0
    }
}

impl TryFromSpecImpl<u8> for StatusByte {
    open spec fn obeys_try_from_spec() -> bool {
        true
    }

    open spec fn try_from_spec(byte: u8) -> Result<StatusByte, OutOfRange> {
        if is_status(byte) {
            Ok(StatusByte::of(byte))
        } else {
            Err(OutOfRange)
        }
    }
}

impl TryFrom<u8> for StatusByte {
    type Error = OutOfRange;

    /// Accepts exactly the bytes with the high bit set.
    fn try_from(byte: u8) -> (result: Result<StatusByte, OutOfRange>)
        ensures
            result is Ok <==> is_status(byte),
            result matches Ok(status_byte) ==> status_byte@ == byte,
    {
        if is_status_byte(byte) {
            Ok(StatusByte(byte))
        } else {
            Err(OutOfRange)
        }
    }
}

impl FromSpecImpl<StatusByte> for u8 {
    open spec fn obeys_from_spec() -> bool {
        true
    }

    open spec fn from_spec(status_byte: StatusByte) -> u8 {
        status_byte@
    }
}

impl From<StatusByte> for u8 {
    /// The byte, whose high bit is set.
    fn from(status_byte: StatusByte) -> (result: u8)
        ensures
            result == status_byte@,
            is_status(result),
    {
        proof {
            use_type_invariant(&status_byte);
        }
        status_byte.0
    }
}

impl StatusByte {
    #[verifier::type_invariant]
    spec fn high_bit_set(self) -> bool {
        is_status(self.0)
    }

    /// The `StatusByte` whose view is `byte`.
    pub closed spec fn of(byte: u8) -> StatusByte {
        StatusByte(byte)
    }

    /// `of` is the inverse of the view.
    pub broadcast proof fn lemma_view_of(byte: u8)
        ensures
            (#[trigger] StatusByte::of(byte))@ == byte,
    {
    }

    /// Decodes `buf` as the bytes that follow this status byte. Counts and
    /// positions in the outcome are those in `buf`: the status byte itself is
    /// not counted.
    pub fn parse(&self, buf: &[u8]) -> (outcome: MessageParseOutcome)
        requires
            buf@.len() <= u32::MAX,
        ensures
            outcome@ == decode_data(self@, buf@),
            outcome.bytes_consumed <= buf@.len(),
    {
        proof {
            lemma_gather(self@, buf@);
        }
        match self.data_bytes(buf) {
            DataBytes::Bytes(bytes) => self.parse_exact_number_of_bytes(bytes),
            DataBytes::NeedMore(more) => MessageParseOutcome {
                bytes_consumed: 0,
                status: MessageParseOutcomeStatus::NeedMoreBytes(more),
            },
            DataBytes::InterruptingStatusByte { index } => {
                match SystemRealTimeMessage::try_from(buf[index]) {
                    Ok(message) => MessageParseOutcome {
                        bytes_consumed: 0,
                        status: MessageParseOutcomeStatus::InterruptingSystemRealTimeMessage {
                            message,
                            byte_index: index,
                        },
                    },
                    Err(_) => MessageParseOutcome {
                        bytes_consumed: index as u32,
                        status: MessageParseOutcomeStatus::BrokenMessage,
                    },
                }
            },
        }
    }

    /// Gathers from `buf` the bytes that follow this status byte.
    fn data_bytes<'buf>(&self, buf: &'buf [u8]) -> (result: DataBytes<'buf>)
        ensures
            result@ == gather(self@, buf@),
    {
        proof {
            use_type_invariant(self);
        }
        let status_nibble = self.0 >> 4;
        assert(status_nibble == self.0 / 16) by {
            let byte = self.0;
            assert(byte >> 4 == byte / 16) by (bit_vector);
        }
        if status_nibble != status_nibbles::SYSTEM_MESSAGE {
            if status_nibble == status_nibbles::CHANNEL_VOICE_MESSAGE_PROGRAM_CHANGE
                || status_nibble
                == status_nibbles::CHANNEL_VOICE_MESSAGE_CHANNEL_PRESSURE_AFTERTOUCH {
                get_data_bytes(buf, 1)
            } else {
                get_data_bytes(buf, 2)
            }
        } else if self.0 == system_status_bytes::SYSTEM_EXCLUSIVE {
            get_sysex_bytes(buf)
        } else if self.0 == system_status_bytes::SYSTEM_COMMON_SONG_POSITION_POINTER {
            get_data_bytes(buf, 2)
        } else if self.0 == system_status_bytes::SYSTEM_COMMON_MIDI_TIME_QUARTER_FRAME || self.0
            == system_status_bytes::SYSTEM_COMMON_SONG_SELECT {
            get_data_bytes(buf, 1)
        } else {
            get_data_bytes(buf, 0)
        }
    }

    /// Builds the outcome from all the bytes of one message after this status
    /// byte.
    fn parse_exact_number_of_bytes(&self, bytes: &[u8]) -> (outcome: MessageParseOutcome)
        requires
            complete_bytes(self@, bytes@),
            bytes@.len() <= u32::MAX,
        ensures
            outcome@ == completed(self@, bytes@),
    {
        proof {
            use_type_invariant(self);
        }
        let status_nibble = self.0 >> 4;
        let channel_number = self.0 & 0b1111;
        assert(status_nibble == self.0 / 16 && channel_number == self.0 % 16) by {
            let byte = self.0;
            assert(byte >> 4 == byte / 16 && byte & 0b1111 == byte % 16) by (bit_vector);
        }
        if status_nibble == status_nibbles::SYSTEM_MESSAGE {
            return self.parse_system_message(bytes);
        }
        let channel = MidiChannelId::assert_from(channel_number);
        proof {
            MidiChannelId::lemma_view_of(channel_number);
            cvm::Unsigned7::lemma_view_of(bytes@[0]);
            if bytes@.len() == 2 {
                cvm::Unsigned7::lemma_view_of(bytes@[1]);
                cvm::Unsigned14::lemma_view_of(
                    septets_value(bytes@[0], bytes@[1]),
                );
            }
        }
        let message = if status_nibble == status_nibbles::CHANNEL_VOICE_MESSAGE_NOTE_OFF {
            ChannelMessageType::ChannelVoice(
                ChannelVoiceMessage::NoteOff(
                    cvm::NoteOff {
                        note_number: cvm::NoteNumber(cvm::Unsigned7::assert_from(bytes[0])),
                        velocity: cvm::KeyVelocity(cvm::Unsigned7::assert_from(bytes[1])),
                    },
                ),
            )
        } else if status_nibble == status_nibbles::CHANNEL_VOICE_MESSAGE_NOTE_ON {
            ChannelMessageType::ChannelVoice(
                ChannelVoiceMessage::NoteOn(
                    cvm::NoteOn {
                        note_number: cvm::NoteNumber(cvm::Unsigned7::assert_from(bytes[0])),
                        velocity: cvm::KeyVelocity(cvm::Unsigned7::assert_from(bytes[1])),
                    },
                ),
            )
        } else if status_nibble
            == status_nibbles::CHANNEL_VOICE_MESSAGE_POLYPHONIC_KEY_PRESSURE_AFTERTOUCH {
            ChannelMessageType::ChannelVoice(
                ChannelVoiceMessage::PolyphonicKeyPressureAftertouch(
                    cvm::PolyphonicKeyPressureAftertouch {
                        note_number: cvm::NoteNumber(cvm::Unsigned7::assert_from(bytes[0])),
                        value: cvm::Unsigned7::assert_from(bytes[1]),
                    },
                ),
            )
        } else if status_nibble
            == status_nibbles::CHANNEL_VOICE_MESSAGE_CONTROL_CHANGE_OR_CHANNEL_MODE_MESSAGE {
            let is_mode_message = bytes[0] >= 120 && bytes[0] <= 127;
            if !is_mode_message {
                ChannelMessageType::ChannelVoice(
                    ChannelVoiceMessage::ControlChange(
                        cvm::ControlChange {
                            control_number: cvm::ControlNumber(
                                cvm::Unsigned7::assert_from(bytes[0]),
                            ),
                            value: cvm::Unsigned7::assert_from(bytes[1]),
                        },
                    ),
                )
            } else {
                ChannelMessageType::ChannelMode(
                    ChannelModeMessage::assert_from(bytes[0]),
                    cvm::Unsigned7::assert_from(bytes[1]),
                )
            }
        } else if status_nibble == status_nibbles::CHANNEL_VOICE_MESSAGE_PROGRAM_CHANGE {
            ChannelMessageType::ChannelVoice(
                ChannelVoiceMessage::ProgramChange(
                    cvm::ProgramChange {
                        program_number: cvm::ProgramNumber(cvm::Unsigned7::assert_from(bytes[0])),
                    },
                ),
            )
        } else if status_nibble
            == status_nibbles::CHANNEL_VOICE_MESSAGE_CHANNEL_PRESSURE_AFTERTOUCH {
            ChannelMessageType::ChannelVoice(
                ChannelVoiceMessage::ChannelPressureAftertouch(
                    cvm::ChannelPressureAftertouch {
                        value: cvm::Unsigned7::assert_from(bytes[0]),
                    },
                ),
            )
        } else {
            ChannelMessageType::ChannelVoice(
                ChannelVoiceMessage::PitchBendChange(
                    cvm::PitchBendChange {
                        value: cvm::Unsigned14::assert_from([bytes[0], bytes[1]]),
                    },
                ),
            )
        };
        MessageParseOutcome {
            bytes_consumed: bytes.len() as u32,
            status: MessageParseOutcomeStatus::Message(
                Message::Channel(ChannelMessage { channel, message }),
            ),
        }
    }

    /// Builds the outcome from all the bytes of one system message after this
    /// status byte.
    fn parse_system_message(&self, bytes: &[u8]) -> (outcome: MessageParseOutcome)
        requires
            self@ >= 0xF0,
            complete_bytes(self@, bytes@),
            bytes@.len() <= u32::MAX,
        ensures
            outcome@ == (OutcomeView {
                bytes_consumed: bytes@.len(),
                status: system_status(self@, bytes@),
            }),
    {
        let status = if self.0 == system_status_bytes::SYSTEM_END_OF_SYSTEM_EXCLUSIVE_FLAG {
            MessageParseOutcomeStatus::UnexpectedEox
        } else {
            MessageParseOutcomeStatus::Message(Message::System(self.system_message(bytes)))
        };
        MessageParseOutcome { bytes_consumed: bytes.len() as u32, status }
    }

    /// The system message that this status byte and all of its bytes make.
    fn system_message(&self, bytes: &[u8]) -> (message: SystemMessage)
        requires
            self@ >= 0xF0,
            self@ != 0xF7,
            complete_bytes(self@, bytes@),
        ensures
            system_status(self@, bytes@) == OutcomeStatusView::Message(
                MessageView::System(message@),
            ),
    {
        if self.0 == system_status_bytes::SYSTEM_EXCLUSIVE {
            let payload = slice_to_vec(&bytes[0..bytes.len() - 1]);
            assert(payload@ == bytes@.drop_last());
            SystemMessage::SystemExclusive(SystemExclusiveMessage { payload })
        } else if self.0 == system_status_bytes::SYSTEM_COMMON_MIDI_TIME_QUARTER_FRAME {
            proof {
                cvm::Unsigned7::lemma_view_of(bytes@[0]);
            }
            SystemMessage::SystemCommon(
                SystemCommonMessage::MidiTimeQuarterFrame(cvm::Unsigned7::assert_from(bytes[0])),
            )
        } else if self.0 == system_status_bytes::SYSTEM_COMMON_SONG_POSITION_POINTER {
            proof {
                cvm::Unsigned14::lemma_view_of(
                    septets_value(bytes@[0], bytes@[1]),
                );
            }
            SystemMessage::SystemCommon(
                SystemCommonMessage::SongPositionPointer(
                    cvm::Unsigned14::assert_from([bytes[0], bytes[1]]),
                ),
            )
        } else if self.0 == system_status_bytes::SYSTEM_COMMON_SONG_SELECT {
            proof {
                cvm::Unsigned7::lemma_view_of(bytes@[0]);
            }
            SystemMessage::SystemCommon(
                SystemCommonMessage::SongSelect(cvm::Unsigned7::assert_from(bytes[0])),
            )
        } else if self.0 == system_status_bytes::SYSTEM_COMMON_UNDEFINED_1 {
            SystemMessage::SystemCommon(SystemCommonMessage::Undefined1)
        } else if self.0 == system_status_bytes::SYSTEM_COMMON_UNDEFINED_2 {
            SystemMessage::SystemCommon(SystemCommonMessage::Undefined2)
        } else if self.0 == system_status_bytes::SYSTEM_COMMON_TUNE_REQUEST {
            SystemMessage::SystemCommon(SystemCommonMessage::TuneRequest)
        } else {
            SystemMessage::SystemRealTime(SystemRealTimeMessage::assert_from(self.0))
        }
    }
}

/// Gathers `num` data bytes from the head of `buf`.
fn get_data_bytes(buf: &[u8], num: usize) -> (result: DataBytes<'_>)
    ensures
        result@ == gather_fixed(buf@, num as nat),
{
    let available = if buf.len() < num {
        buf.len()
    } else {
        num
    };
    let bytes = &buf[0..available];
    assert(bytes@ == if buf@.len() < num {
        buf@
    } else {
        buf@.take(num as int)
    });
    let mut index: usize = 0;
    while index < available
        invariant
            index <= available,
            available == bytes@.len(),
            bytes@ == if buf@.len() < num {
                buf@
            } else {
                buf@.take(num as int)
            },
            forall|i: int| 0 <= i < index ==> !is_status(#[trigger] bytes@[i]),
        decreases available - index,
    {
        if is_status_byte(bytes[index]) {
            proof {
                lemma_leading_data_is(bytes@, index as nat);
            }
            return DataBytes::InterruptingStatusByte { index };
        }
        index += 1;
    }
    proof {
        lemma_leading_data_is(bytes@, available as nat);
    }
    if buf.len() < num {
        DataBytes::NeedMore(Some(num - buf.len()))
    } else {
        DataBytes::Bytes(bytes)
    }
}

/// Gathers the bytes of a system exclusive message from the head of `buf`, up
/// to and including the `0xF7` that closes it.
fn get_sysex_bytes(buf: &[u8]) -> (result: DataBytes<'_>)
    ensures
        result@ == gather_sysex(buf@),
{
    let mut index: usize = 0;
    while index < buf.len()
        invariant
            index <= buf@.len(),
            forall|i: int| 0 <= i < index ==> !is_status(#[trigger] buf@[i]),
        decreases buf@.len() - index,
    {
        let byte = buf[index];
        if is_status_byte(byte) {
            proof {
                lemma_leading_data_is(buf@, index as nat);
            }
            if byte == system_status_bytes::SYSTEM_END_OF_SYSTEM_EXCLUSIVE_FLAG {
                // NB: bytes includes the EOX marker
                return DataBytes::Bytes(&buf[0..index + 1]);
            } else {
                return DataBytes::InterruptingStatusByte { index };
            }
        }
        index += 1;
    }
    proof {
        lemma_leading_data_is(buf@, buf@.len());
    }
    DataBytes::NeedMore(None)
}

/// How gathering the bytes of a message ended.
enum DataBytes<'buf> {
    Bytes(&'buf [u8]),
    NeedMore(Option<usize>),
    InterruptingStatusByte { index: usize },
}

impl<'buf> View for DataBytes<'buf> {
    type V = DataBytesView;

    closed spec fn view(&self) -> DataBytesView {
        match *self {
            DataBytes::Bytes(bytes) => DataBytesView::Bytes(bytes@),
            DataBytes::NeedMore(hint) => DataBytesView::NeedMore(hint_view(hint)),
            DataBytes::InterruptingStatusByte { index } => DataBytesView::InterruptingStatusByte {
                index: index as nat,
            },
        }
    }
}

} // verus!
