use crate::message::ChannelMessage;
use crate::message::ChannelMessageType;
use crate::message::ChannelModeMessage;
use crate::message::ChannelVoiceMessage;
use crate::message::Message;
use crate::message::SystemCommonMessage;
use crate::message::SystemExclusiveMessage;
use crate::message::SystemMessage;
use crate::message::SystemRealTimeMessage;
use vstd::prelude::*;

verus! {

/// What a channel voice message says, over plain numbers.
pub enum ChannelVoiceView {
    NoteOff { note: u8, velocity: u8 },
    NoteOn { note: u8, velocity: u8 },
    PolyphonicKeyPressureAftertouch { note: u8, value: u8 },
    ControlChange { control: u8, value: u8 },
    ProgramChange { program: u8 },
    ChannelPressureAftertouch { value: u8 },
    PitchBendChange { bend: u16 },
}

/// What a channel message carries besides its channel.
pub enum ChannelBodyView {
    ChannelVoice(ChannelVoiceView),
    ChannelMode(ChannelModeMessage, u8),
}

/// A channel message over plain numbers.
pub struct ChannelMessageView {
    pub channel: u8,
    pub message: ChannelBodyView,
}

/// A system common message over plain numbers.
pub enum SystemCommonView {
    MidiTimeQuarterFrame(u8),
    SongPositionPointer(u16),
    SongSelect(u8),
    Undefined1,
    Undefined2,
    TuneRequest,
}

/// A system message; an exclusive one is its payload.
pub enum SystemMessageView {
    SystemCommon(SystemCommonView),
    SystemRealTime(SystemRealTimeMessage),
    SystemExclusive(Seq<u8>),
}

/// A message over plain numbers and sequences.
pub enum MessageView {
    Channel(ChannelMessageView),
    System(SystemMessageView),
}

impl ChannelVoiceView {
    /// Every number lies in the range of the type that holds it: seven bits, and
    /// fourteen for a pitch bend.
    pub open spec fn in_range(self) -> bool {
        match self {
            ChannelVoiceView::NoteOff { note, velocity } => note <= 127 && velocity <= 127,
            ChannelVoiceView::NoteOn { note, velocity } => note <= 127 && velocity <= 127,
            ChannelVoiceView::PolyphonicKeyPressureAftertouch { note, value } => note <= 127
                && value <= 127,
            ChannelVoiceView::ControlChange { control, value } => control <= 127 && value <= 127,
            ChannelVoiceView::ProgramChange { program } => program <= 127,
            ChannelVoiceView::ChannelPressureAftertouch { value } => value <= 127,
            ChannelVoiceView::PitchBendChange { bend } => bend <= 16383,
        }
    }
}

impl ChannelMessageView {
    /// The channel is below sixteen and every number lies in the range of the type
    /// that holds it. This holds of the view of every `ChannelMessage`.
    pub open spec fn in_range(self) -> bool {
        &&& self.channel < 16
        &&& match self.message {
            ChannelBodyView::ChannelVoice(voice) => voice.in_range(),
            ChannelBodyView::ChannelMode(_, value) => value <= 127,
        }
    }
}

impl View for ChannelVoiceMessage {
    type V = ChannelVoiceView;

    open spec fn view(&self) -> ChannelVoiceView {
        match *self {
            ChannelVoiceMessage::NoteOff(m) => ChannelVoiceView::NoteOff {
                note: m.note_number.0@,
                velocity: m.velocity.0@,
            },
            ChannelVoiceMessage::NoteOn(m) => ChannelVoiceView::NoteOn {
                note: m.note_number.0@,
                velocity: m.velocity.0@,
            },
            ChannelVoiceMessage::PolyphonicKeyPressureAftertouch(m) => {
                ChannelVoiceView::PolyphonicKeyPressureAftertouch {
                    note: m.note_number.0@,
                    value: m.value@,
                }
            },
            ChannelVoiceMessage::ControlChange(m) => ChannelVoiceView::ControlChange {
                control: m.control_number.0@,
                value: m.value@,
            },
            ChannelVoiceMessage::ProgramChange(m) => ChannelVoiceView::ProgramChange {
                program: m.program_number.0@,
            },
            ChannelVoiceMessage::ChannelPressureAftertouch(m) => {
                ChannelVoiceView::ChannelPressureAftertouch { value: m.value@ }
            },
            ChannelVoiceMessage::PitchBendChange(m) => ChannelVoiceView::PitchBendChange {
                bend: m.value@,
            },
        }
    }
}

impl View for ChannelMessageType {
    type V = ChannelBodyView;

    open spec fn view(&self) -> ChannelBodyView {
        match *self {
            ChannelMessageType::ChannelVoice(voice) => ChannelBodyView::ChannelVoice(voice@),
            ChannelMessageType::ChannelMode(mode, value) => ChannelBodyView::ChannelMode(
                mode,
                value@,
            ),
        }
    }
}

impl View for ChannelMessage {
    type V = ChannelMessageView;

    open spec fn view(&self) -> ChannelMessageView {
        ChannelMessageView { channel: self.channel@, message: self.message@ }
    }
}

impl View for SystemCommonMessage {
    type V = SystemCommonView;

    open spec fn view(&self) -> SystemCommonView {
        match *self {
            SystemCommonMessage::MidiTimeQuarterFrame(value) => {
                SystemCommonView::MidiTimeQuarterFrame(value@)
            },
            SystemCommonMessage::SongPositionPointer(position) => {
                SystemCommonView::SongPositionPointer(position@)
            },
            SystemCommonMessage::SongSelect(song) => SystemCommonView::SongSelect(song@),
            SystemCommonMessage::Undefined1 => SystemCommonView::Undefined1,
            SystemCommonMessage::Undefined2 => SystemCommonView::Undefined2,
            SystemCommonMessage::TuneRequest => SystemCommonView::TuneRequest,
        }
    }
}

impl View for SystemExclusiveMessage {
    type V = Seq<u8>;

    open spec fn view(&self) -> Seq<u8> {
        self.payload@
    }
}

impl View for SystemMessage {
    type V = SystemMessageView;

    open spec fn view(&self) -> SystemMessageView {
        match *self {
            SystemMessage::SystemCommon(common) => SystemMessageView::SystemCommon(common@),
            SystemMessage::SystemRealTime(real_time) => SystemMessageView::SystemRealTime(
                real_time,
            ),
            SystemMessage::SystemExclusive(exclusive) => SystemMessageView::SystemExclusive(
                exclusive@,
            ),
        }
    }
}

impl View for Message {
    type V = MessageView;

    open spec fn view(&self) -> MessageView {
        match *self {
            Message::Channel(channel) => MessageView::Channel(channel@),
            Message::System(system) => MessageView::System(system@),
        }
    }
}

} // verus!
