//! The serial byte protocol as functions on byte sequences: what one call of the
//! parser reports for a given running status and input, and what running status
//! it leaves.

use crate::message::u14::high_septet;
use crate::message::u14::lemma_septets_round_trip;
use crate::message::u14::low_septet;
use crate::message::u14::septets_value;
use crate::message::view::ChannelBodyView;
use crate::message::view::ChannelMessageView;
use crate::message::view::ChannelVoiceView;
use crate::message::view::MessageView;
use crate::message::view::SystemCommonView;
use crate::message::view::SystemMessageView;
use crate::message::ChannelModeMessage;
use crate::message::SystemRealTimeMessage;
use vstd::prelude::*;

verus! {

/// What a call found, over plain numbers and sequences.
pub enum OutcomeStatusView {
    Message(MessageView),
    NeedMoreBytes(Option<nat>),
    InterruptingSystemRealTimeMessage { message: SystemRealTimeMessage, byte_index: nat },
    UnexpectedDataByte,
    UnexpectedEox,
    BrokenMessage,
}

/// What a call reports: what it found, and how many bytes the caller drops from
/// the head of its buffer.
pub struct OutcomeView {
    pub bytes_consumed: nat,
    pub status: OutcomeStatusView,
}

/// What gathering the data bytes of a message ends in.
pub enum DataBytesView {
    /// All the bytes of the message after its status byte.
    Bytes(Seq<u8>),
    /// The input ended first; how many bytes are missing, where that is known.
    NeedMore(Option<nat>),
    /// A status byte stands where a data byte was due.
    InterruptingStatusByte { index: nat },
}

/// A status byte has its high bit set; a data byte has not.
pub open spec fn is_status(byte: u8) -> bool {
    byte >= 0x80
}

/// The system real-time status bytes, `0xF8..=0xFF`.
pub open spec fn is_real_time(byte: u8) -> bool {
    byte >= 0xF8
}

/// The status bytes of channel messages, `0x80..=0xEF`.
pub open spec fn is_channel_status(byte: u8) -> bool {
    0x80 <= byte < 0xF0
}

/// A running status register holds nothing or a channel status byte.
pub open spec fn valid_running(running: Option<u8>) -> bool {
    running matches Some(status) ==> is_channel_status(status)
}

/// How many data bytes follow a status byte; `None` for `0xF0`, whose data runs
/// up to the next `0xF7`.
pub open spec fn expected_data_bytes(status: u8) -> Option<nat> {
    if status < 0xC0 {
        Some(2)
    } else if status < 0xE0 {
        Some(1)
    } else if status < 0xF0 {
        Some(2)
    } else if status == 0xF0 {
        None
    } else if status == 0xF1 || status == 0xF3 {
        Some(1)
    } else if status == 0xF2 {
        Some(2)
    } else {
        Some(0)
    }
}

/// The number of data bytes at the head of `bytes`: the position of its first
/// status byte, or its length where it holds none.
pub open spec fn leading_data(bytes: Seq<u8>) -> nat
    decreases bytes.len(),
{
    if bytes.len() == 0 || is_status(bytes[0]) {
        0
    } else {
        1 + leading_data(bytes.skip(1))
    }
}

/// Gathering `needed` data bytes from `data`. A status byte among the bytes that
/// are there, up to the `needed`th, interrupts; failing that, too few bytes ask
/// for the rest.
pub open spec fn gather_fixed(data: Seq<u8>, needed: nat) -> DataBytesView {
    let window = if data.len() < needed {
        data
    } else {
        data.take(needed as int)
    };
    let index = leading_data(window);
    if index < window.len() {
        DataBytesView::InterruptingStatusByte { index }
    } else if data.len() < needed {
        DataBytesView::NeedMore(Some((needed - data.len()) as nat))
    } else {
        DataBytesView::Bytes(window)
    }
}

/// Gathering the bytes of a system exclusive message up to and including its
/// closing `0xF7`. Any other status byte before it interrupts.
pub open spec fn gather_sysex(data: Seq<u8>) -> DataBytesView {
    let index = leading_data(data);
    if index == data.len() {
        DataBytesView::NeedMore(None)
    } else if data[index as int] == 0xF7 {
        DataBytesView::Bytes(data.take(index as int + 1))
    } else {
        DataBytesView::InterruptingStatusByte { index }
    }
}

/// Gathering from `data` what follows `status`.
pub open spec fn gather(status: u8, data: Seq<u8>) -> DataBytesView {
    match expected_data_bytes(status) {
        Some(needed) => gather_fixed(data, needed),
        None => gather_sysex(data),
    }
}

/// The channel message that channel status `status` and its data bytes make.
/// Under status nibble `0xB` a first data byte of 120 or more makes a channel
/// mode message, a smaller one a control change.
pub open spec fn channel_message(status: u8, bytes: Seq<u8>) -> ChannelMessageView {
    let nibble = status / 16;
    ChannelMessageView {
        channel: status % 16,
        message: if nibble == 0x8 {
            ChannelBodyView::ChannelVoice(
                ChannelVoiceView::NoteOff { note: bytes[0], velocity: bytes[1] },
            )
        } else if nibble == 0x9 {
            ChannelBodyView::ChannelVoice(
                ChannelVoiceView::NoteOn { note: bytes[0], velocity: bytes[1] },
            )
        } else if nibble == 0xA {
            ChannelBodyView::ChannelVoice(
                ChannelVoiceView::PolyphonicKeyPressureAftertouch {
                    note: bytes[0],
                    value: bytes[1],
                },
            )
        } else if nibble == 0xB {
            if bytes[0] >= 120 {
                ChannelBodyView::ChannelMode(ChannelModeMessage::of_controller(bytes[0]), bytes[1])
            } else {
                ChannelBodyView::ChannelVoice(
                    ChannelVoiceView::ControlChange { control: bytes[0], value: bytes[1] },
                )
            }
        } else if nibble == 0xC {
            ChannelBodyView::ChannelVoice(ChannelVoiceView::ProgramChange { program: bytes[0] })
        } else if nibble == 0xD {
            ChannelBodyView::ChannelVoice(
                ChannelVoiceView::ChannelPressureAftertouch { value: bytes[0] },
            )
        } else {
            ChannelBodyView::ChannelVoice(
                ChannelVoiceView::PitchBendChange { bend: septets_value(bytes[0], bytes[1]) },
            )
        },
    }
}

/// What system status `status` and the bytes gathered after it make: a message,
/// or, for a `0xF7` that closes nothing, `UnexpectedEox`. The bytes of a system
/// exclusive message end in its `0xF7`, which is no part of the payload.
pub open spec fn system_status(status: u8, bytes: Seq<u8>) -> OutcomeStatusView {
    if status == 0xF7 {
        OutcomeStatusView::UnexpectedEox
    } else {
        OutcomeStatusView::Message(
            MessageView::System(
                if status == 0xF0 {
                    SystemMessageView::SystemExclusive(bytes.drop_last())
                } else if status == 0xF1 {
                    SystemMessageView::SystemCommon(
                        SystemCommonView::MidiTimeQuarterFrame(bytes[0]),
                    )
                } else if status == 0xF2 {
                    SystemMessageView::SystemCommon(
                        SystemCommonView::SongPositionPointer(septets_value(bytes[0], bytes[1])),
                    )
                } else if status == 0xF3 {
                    SystemMessageView::SystemCommon(SystemCommonView::SongSelect(bytes[0]))
                } else if status == 0xF4 {
                    SystemMessageView::SystemCommon(SystemCommonView::Undefined1)
                } else if status == 0xF5 {
                    SystemMessageView::SystemCommon(SystemCommonView::Undefined2)
                } else if status == 0xF6 {
                    SystemMessageView::SystemCommon(SystemCommonView::TuneRequest)
                } else {
                    SystemMessageView::SystemRealTime(SystemRealTimeMessage::of_status(status))
                },
            ),
        )
    }
}

/// The outcome for `status` followed by all of its bytes: all of them are
/// consumed.
pub open spec fn completed(status: u8, bytes: Seq<u8>) -> OutcomeView {
    OutcomeView {
        bytes_consumed: bytes.len(),
        status: if status < 0xF0 {
            OutcomeStatusView::Message(MessageView::Channel(channel_message(status, bytes)))
        } else {
            system_status(status, bytes)
        },
    }
}

/// The outcome where status byte `byte` stands at `index`, in place of a data
/// byte. A real-time byte is reported with its position and nothing is consumed;
/// any other breaks the message, whose bytes before `index` are consumed.
pub open spec fn interrupted(byte: u8, index: nat) -> OutcomeView {
    if is_real_time(byte) {
        OutcomeView {
            bytes_consumed: 0,
            status: OutcomeStatusView::InterruptingSystemRealTimeMessage {
                message: SystemRealTimeMessage::of_status(byte),
                byte_index: index,
            },
        }
    } else {
        OutcomeView { bytes_consumed: index, status: OutcomeStatusView::BrokenMessage }
    }
}

/// What `data`, the bytes after status byte `status`, decode to. Counts and
/// positions are those in `data`: the status byte is not counted.
pub open spec fn decode_data(status: u8, data: Seq<u8>) -> OutcomeView {
    match gather(status, data) {
        DataBytesView::Bytes(bytes) => completed(status, bytes),
        DataBytesView::NeedMore(hint) => OutcomeView {
            bytes_consumed: 0,
            status: OutcomeStatusView::NeedMoreBytes(hint),
        },
        DataBytesView::InterruptingStatusByte { index } => interrupted(data[index as int], index),
    }
}

/// An outcome for the bytes after a status byte, told for the input that starts
/// with that status byte: the byte is consumed with whatever else is, and a
/// position moves up by one. Where nothing is consumed, nothing is.
pub open spec fn with_status_byte(outcome: OutcomeView) -> OutcomeView {
    match outcome.status {
        OutcomeStatusView::NeedMoreBytes(_) => outcome,
        OutcomeStatusView::InterruptingSystemRealTimeMessage { message, byte_index } => {
            OutcomeView {
                bytes_consumed: 0,
                status: OutcomeStatusView::InterruptingSystemRealTimeMessage {
                    message,
                    byte_index: byte_index + 1,
                },
            }
        },
        _ => OutcomeView { bytes_consumed: outcome.bytes_consumed + 1, status: outcome.status },
    }
}

/// What one call reports for `input` when the running status is `running`.
pub open spec fn parse_outcome(running: Option<u8>, input: Seq<u8>) -> OutcomeView {
    if input.len() == 0 {
        OutcomeView { bytes_consumed: 0, status: OutcomeStatusView::NeedMoreBytes(None) }
    } else if is_status(input[0]) {
        with_status_byte(decode_data(input[0], input.skip(1)))
    } else {
        match running {
            Some(status) => decode_data(status, input),
            None => OutcomeView {
                bytes_consumed: 1,
                status: OutcomeStatusView::UnexpectedDataByte,
            },
        }
    }
}

/// The running status after that call. A channel message that came with its own
/// status byte sets it to that byte. A system message other than a real-time
/// one, a broken message and a stray `0xF7` clear it. Everything else leaves it.
pub open spec fn parse_running(running: Option<u8>, input: Seq<u8>) -> Option<u8> {
    match parse_outcome(running, input).status {
        OutcomeStatusView::Message(MessageView::Channel(_)) => {
            if is_status(input[0]) {
                Some(input[0])
            } else {
                running
            }
        },
        OutcomeStatusView::Message(
            MessageView::System(SystemMessageView::SystemRealTime(_)),
        ) => running,
        OutcomeStatusView::Message(MessageView::System(_)) => None,
        OutcomeStatusView::NeedMoreBytes(_) => running,
        OutcomeStatusView::InterruptingSystemRealTimeMessage { .. } => running,
        OutcomeStatusView::UnexpectedDataByte => running,
        OutcomeStatusView::UnexpectedEox => None,
        OutcomeStatusView::BrokenMessage => None,
    }
}

/// Whether `bytes` are all the bytes of one message after its status byte
/// `status`: as many data bytes as the status calls for, or, for a system
/// exclusive message, data bytes and the `0xF7` that closes them.
pub open spec fn complete_bytes(status: u8, bytes: Seq<u8>) -> bool {
    match expected_data_bytes(status) {
        Some(needed) => {
            &&& bytes.len() == needed
            &&& forall|i: int| 0 <= i < bytes.len() ==> !is_status(#[trigger] bytes[i])
        },
        None => {
            &&& bytes.len() >= 1
            &&& bytes.last() == 0xF7
            &&& forall|i: int| 0 <= i < bytes.len() - 1 ==> !is_status(#[trigger] bytes[i])
        },
    }
}

/// `leading_data` is the one position up to which all bytes are data bytes and
/// at which the sequence ends or holds a status byte.
pub proof fn lemma_leading_data(bytes: Seq<u8>)
    ensures
        leading_data(bytes) <= bytes.len(),
        forall|i: int| 0 <= i < leading_data(bytes) ==> !is_status(#[trigger] bytes[i]),
        leading_data(bytes) < bytes.len() ==> is_status(bytes[leading_data(bytes) as int]),
    decreases bytes.len(),
{
    if bytes.len() == 0 || is_status(bytes[0]) {
    } else {
        let rest = bytes.skip(1);
        lemma_leading_data(rest);
        assert forall|i: int| 0 <= i < leading_data(bytes) implies !is_status(
            #[trigger] bytes[i],
        ) by {
            if i > 0 {
                assert(bytes[i] == rest[i - 1]);
            }
        }
    }
}

/// A position up to which all bytes are data bytes, and at which the sequence
/// ends or holds a status byte, is `leading_data`.
pub proof fn lemma_leading_data_is(bytes: Seq<u8>, index: nat)
    requires
        index <= bytes.len(),
        forall|i: int| 0 <= i < index ==> !is_status(#[trigger] bytes[i]),
        index < bytes.len() ==> is_status(bytes[index as int]),
    ensures
        leading_data(bytes) == index,
{
    lemma_leading_data(bytes);
    let found = leading_data(bytes);
    if found < index {
        assert(!is_status(bytes[found as int]));
    } else if index < found {
        assert(!is_status(bytes[index as int]));
    }
}

/// What each ending of `gather` says of the data: the bytes gathered are a
/// prefix of it and all of one message; bytes are missing only where at least one
/// is; an interrupting status byte stands in the data, after data bytes only, and
/// inside a system exclusive message it is not `0xF7`.
pub proof fn lemma_gather(status: u8, data: Seq<u8>)
    ensures
        match gather(status, data) {
            DataBytesView::Bytes(bytes) => {
                &&& bytes.len() <= data.len()
                &&& bytes == data.take(bytes.len() as int)
                &&& complete_bytes(status, bytes)
            },
            DataBytesView::NeedMore(hint) => match hint {
                Some(missing) => missing > 0 && expected_data_bytes(status) == Some(
                    data.len() + missing,
                ),
                None => status == 0xF0,
            },
            DataBytesView::InterruptingStatusByte { index } => {
                &&& index < data.len()
                &&& is_status(data[index as int])
                &&& forall|i: int| 0 <= i < index ==> !is_status(#[trigger] data[i])
                &&& status == 0xF0 ==> data[index as int] != 0xF7
            },
        },
{
    match expected_data_bytes(status) {
        Some(needed) => {
            let window = if data.len() < needed {
                data
            } else {
                data.take(needed as int)
            };
            lemma_leading_data(window);
        },
        None => {
            lemma_leading_data(data);
        },
    }
}

/// The wire bytes of a channel message: its status byte, which holds the kind
/// of message and the channel, and its data bytes.
pub open spec fn channel_bytes(message: ChannelMessageView) -> Seq<u8> {
    let channel = message.channel as int;
    match message.message {
        ChannelBodyView::ChannelVoice(voice) => match voice {
            ChannelVoiceView::NoteOff { note, velocity } => seq![
                (0x80 + channel) as u8,
                note,
                velocity,
            ],
            ChannelVoiceView::NoteOn { note, velocity } => seq![
                (0x90 + channel) as u8,
                note,
                velocity,
            ],
            ChannelVoiceView::PolyphonicKeyPressureAftertouch { note, value } => seq![
                (0xA0 + channel) as u8,
                note,
                value,
            ],
            ChannelVoiceView::ControlChange { control, value } => seq![
                (0xB0 + channel) as u8,
                control,
                value,
            ],
            ChannelVoiceView::ProgramChange { program } => seq![(0xC0 + channel) as u8, program],
            ChannelVoiceView::ChannelPressureAftertouch { value } => seq![
                (0xD0 + channel) as u8,
                value,
            ],
            ChannelVoiceView::PitchBendChange { bend } => seq![
                (0xE0 + channel) as u8,
                low_septet(bend),
                high_septet(bend),
            ],
        },
        ChannelBodyView::ChannelMode(mode, value) => seq![
            (0xB0 + channel) as u8,
            mode.controller(),
            value,
        ],
    }
}

/// Whether a channel message is the one that its own wire bytes stand for. All
/// are but a control change with a controller number of 120 or more: on the wire
/// those numbers name the channel modes.
pub open spec fn is_canonical(message: ChannelMessageView) -> bool {
    message.message matches ChannelBodyView::ChannelVoice(
        ChannelVoiceView::ControlChange { control, .. },
    ) ==> control < 120
}

/// No call consumes more bytes than it was given.
pub proof fn lemma_consumption_bound(running: Option<u8>, input: Seq<u8>)
    ensures
        parse_outcome(running, input).bytes_consumed <= input.len(),
{
    if input.len() > 0 {
        if is_status(input[0]) {
            lemma_gather(input[0], input.skip(1));
        } else if let Some(status) = running {
            lemma_gather(status, input);
        }
    }
}

/// A call that consumes nothing asks for more bytes or reports an interrupting
/// real-time message: every other outcome moves the caller forward.
pub proof fn lemma_progress_or_patience(running: Option<u8>, input: Seq<u8>)
    requires
        valid_running(running),
    ensures
        parse_outcome(running, input).bytes_consumed > 0 || parse_outcome(
            running,
            input,
        ).status is NeedMoreBytes || parse_outcome(
            running,
            input,
        ).status is InterruptingSystemRealTimeMessage,
{
    if input.len() > 0 {
        if is_status(input[0]) {
            lemma_gather(input[0], input.skip(1));
        } else if let Some(status) = running {
            lemma_gather(status, input);
        }
    }
}

/// The running status register never comes to hold anything but a channel
/// status byte.
pub proof fn lemma_running_stays_valid(running: Option<u8>, input: Seq<u8>)
    requires
        valid_running(running),
    ensures
        valid_running(parse_running(running, input)),
{
    if input.len() > 0 {
        if is_status(input[0]) {
            lemma_gather(input[0], input.skip(1));
        } else if let Some(status) = running {
            lemma_gather(status, input);
        }
    }
}

/// The position that comes with an interrupting real-time message is that of
/// its byte in the input.
pub proof fn lemma_interrupting_byte(running: Option<u8>, input: Seq<u8>)
    ensures
        parse_outcome(running, input).status matches
        OutcomeStatusView::InterruptingSystemRealTimeMessage { message, byte_index } ==> {
            &&& byte_index < input.len()
            &&& input[byte_index as int] == message.status()
        },
{
    if input.len() > 0 {
        if is_status(input[0]) {
            lemma_gather(input[0], input.skip(1));
        } else if let Some(status) = running {
            lemma_gather(status, input);
        }
    }
}

/// A call that asks for more bytes, or reports an interrupting real-time
/// message, consumes nothing and leaves the running status as it was: the caller
/// submits the same message again, and it is decoded as if for the first time.
pub proof fn lemma_waiting_changes_nothing(running: Option<u8>, input: Seq<u8>)
    requires
        parse_outcome(running, input).status is NeedMoreBytes || parse_outcome(
            running,
            input,
        ).status is InterruptingSystemRealTimeMessage,
    ensures
        parse_outcome(running, input).bytes_consumed == 0,
        parse_running(running, input) == running,
{
    if input.len() > 0 {
        if is_status(input[0]) {
            lemma_gather(input[0], input.skip(1));
        } else if let Some(status) = running {
            lemma_gather(status, input);
        }
    }
}

/// A real-time byte at the head of the input is reported as its message, alone,
/// and leaves the running status as it was: what follows decodes as it would
/// have without that byte.
pub proof fn lemma_real_time_keeps_running_status(
    running: Option<u8>,
    byte: u8,
    rest: Seq<u8>,
    later: Seq<u8>,
)
    requires
        is_real_time(byte),
    ensures
        parse_outcome(running, seq![byte] + rest) == (OutcomeView {
            bytes_consumed: 1,
            status: OutcomeStatusView::Message(
                MessageView::System(
                    SystemMessageView::SystemRealTime(SystemRealTimeMessage::of_status(byte)),
                ),
            ),
        }),
        parse_running(running, seq![byte] + rest) == running,
        parse_outcome(parse_running(running, seq![byte] + rest), later) == parse_outcome(
            running,
            later,
        ),
        parse_running(parse_running(running, seq![byte] + rest), later) == parse_running(
            running,
            later,
        ),
{
    let input = seq![byte] + rest;
    assert(input[0] == byte);
    let window = input.skip(1).take(0);
    assert(window.len() == 0);
}

/// Decoding the wire bytes of a channel message gives that message, consumes
/// exactly those bytes whatever follows them, and sets the running status to
/// the message's status byte.
pub proof fn lemma_channel_round_trip(
    running: Option<u8>,
    message: ChannelMessageView,
    rest: Seq<u8>,
)
    requires
        message.in_range(),
        is_canonical(message),
    ensures
        parse_outcome(running, channel_bytes(message) + rest) == (OutcomeView {
            bytes_consumed: channel_bytes(message).len(),
            status: OutcomeStatusView::Message(MessageView::Channel(message)),
        }),
        parse_running(running, channel_bytes(message) + rest) == Some(channel_bytes(message)[0]),
        is_channel_status(channel_bytes(message)[0]),
{
    let bytes = channel_bytes(message);
    let input = bytes + rest;
    let status = bytes[0];
    let data = input.skip(1);
    let needed = expected_data_bytes(status)->Some_0;
    assert(input[0] == status);
    assert(bytes.len() == needed + 1);
    let window = data.take(needed as int);
    assert(window =~= bytes.skip(1));
    lemma_leading_data_is(window, needed);
    if let ChannelBodyView::ChannelVoice(ChannelVoiceView::PitchBendChange { bend }) =
        message.message {
        lemma_septets_round_trip(bend);
    }
}

/// The data bytes of a channel message alone, decoded under the running status
/// that is the message's status byte, give that message as well. Only the data
/// bytes are consumed, and the running status stays.
pub proof fn lemma_channel_round_trip_under_running_status(
    message: ChannelMessageView,
    rest: Seq<u8>,
)
    requires
        message.in_range(),
        is_canonical(message),
    ensures
        parse_outcome(
            Some(channel_bytes(message)[0]),
            channel_bytes(message).skip(1) + rest,
        ) == (OutcomeView {
            bytes_consumed: (channel_bytes(message).len() - 1) as nat,
            status: OutcomeStatusView::Message(MessageView::Channel(message)),
        }),
        parse_running(Some(channel_bytes(message)[0]), channel_bytes(message).skip(1) + rest)
            == Some(channel_bytes(message)[0]),
{
    let bytes = channel_bytes(message);
    let status = bytes[0];
    let data = bytes.skip(1);
    let input = data + rest;
    let needed = expected_data_bytes(status)->Some_0;
    assert(bytes.len() == needed + 1);
    assert(input[0] == data[0]);
    let window = input.take(needed as int);
    assert(window =~= data);
    lemma_leading_data_is(window, needed);
    if let ChannelBodyView::ChannelVoice(ChannelVoiceView::PitchBendChange { bend }) =
        message.message {
        lemma_septets_round_trip(bend);
    }
}

/// The wire bytes of a system exclusive message: `0xF0`, the payload, `0xF7`.
pub open spec fn exclusive_bytes(payload: Seq<u8>) -> Seq<u8> {
    seq![0xF0u8] + payload + seq![0xF7u8]
}

/// Decoding the wire bytes of a system exclusive message whose payload holds
/// data bytes only gives that payload, consumes exactly those bytes whatever
/// follows them, and clears the running status.
pub proof fn lemma_exclusive_round_trip(running: Option<u8>, payload: Seq<u8>, rest: Seq<u8>)
    requires
        forall|i: int| 0 <= i < payload.len() ==> !is_status(#[trigger] payload[i]),
    ensures
        parse_outcome(running, exclusive_bytes(payload) + rest) == (OutcomeView {
            bytes_consumed: payload.len() + 2,
            status: OutcomeStatusView::Message(
                MessageView::System(SystemMessageView::SystemExclusive(payload)),
            ),
        }),
        parse_running(running, exclusive_bytes(payload) + rest) is None,
{
    let input = exclusive_bytes(payload) + rest;
    let data = input.skip(1);
    assert(input[0] == 0xF0);
    assert forall|i: int| 0 <= i < payload.len() implies data[i] == payload[i] by {}
    assert(data[payload.len() as int] == 0xF7);
    lemma_leading_data_is(data, payload.len());
    assert(data.take(payload.len() as int + 1).drop_last() =~= payload);
}

/// An outcome other than a request for more bytes depends only on the bytes it
/// was found in: bytes that arrive behind them change neither it nor the running
/// status that the call leaves.
pub proof fn lemma_later_bytes_change_nothing(running: Option<u8>, input: Seq<u8>, more: Seq<u8>)
    requires
        !(parse_outcome(running, input).status is NeedMoreBytes),
    ensures
        parse_outcome(running, input + more) == parse_outcome(running, input),
        parse_running(running, input + more) == parse_running(running, input),
{
    let longer = input + more;
    assert(input.len() > 0);
    assert(longer[0] == input[0]);
    if is_status(input[0]) {
        assert(longer.skip(1) =~= input.skip(1) + more);
        lemma_decode_data_later_bytes(input[0], input.skip(1), more);
    } else if let Some(status) = running {
        lemma_decode_data_later_bytes(status, input, more);
    }
}

/// The same of the bytes after a status byte.
pub proof fn lemma_decode_data_later_bytes(status: u8, data: Seq<u8>, more: Seq<u8>)
    requires
        !(decode_data(status, data).status is NeedMoreBytes),
    ensures
        decode_data(status, data + more) == decode_data(status, data),
{
    let longer = data + more;
    lemma_gather(status, data);
    match expected_data_bytes(status) {
        Some(needed) => {
            let window = if data.len() < needed {
                data
            } else {
                data.take(needed as int)
            };
            let longer_window = if longer.len() < needed {
                longer
            } else {
                longer.take(needed as int)
            };
            let index = leading_data(window);
            lemma_leading_data(window);
            if index < window.len() {
                assert forall|i: int| 0 <= i <= index implies longer_window[i] == window[i] by {}
                lemma_leading_data_is(longer_window, index);
                assert(longer[index as int] == data[index as int]);
            } else {
                assert(longer_window =~= window);
            }
        },
        None => {
            let index = leading_data(data);
            lemma_leading_data(data);
            assert forall|i: int| 0 <= i <= index implies longer[i] == data[i] by {}
            lemma_leading_data_is(longer, index);
            assert(longer.take(index as int + 1) =~= data.take(index as int + 1));
        },
    }
}

} // verus!
