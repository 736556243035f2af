use crate::protocol::channel_bytes;
use vstd::prelude::*;
use vstd::std_specs::convert::FromSpecImpl;
use vstd::std_specs::convert::TryFromSpecImpl;

pub mod cvm;
pub mod u14;
pub mod u7;
pub mod view;

verus! {

/// A number lay outside the range of the type it was offered to.
#[derive(Debug, Copy, Clone, PartialEq, Eq)]
pub struct OutOfRange;

/// One decoded message.
#[derive(Debug, Clone, PartialEq, Eq)]
pub enum Message {
    Channel(ChannelMessage),
    System(SystemMessage),
}

/// A message addressed to one of the sixteen channels.
#[derive(Debug, Copy, Clone, PartialEq, Eq)]
pub struct ChannelMessage {
    pub channel: MidiChannelId,
    pub message: ChannelMessageType,
}

#[derive(Debug, Copy, Clone, PartialEq, Eq)]
pub enum ChannelMessageType {
    ChannelVoice(ChannelVoiceMessage),
    /// A control change whose controller number is 120 or above: the mode it
    /// names, and the value byte that came with it.
    ChannelMode(ChannelModeMessage, u7::Unsigned7),
}

#[derive(Debug, Copy, Clone, PartialEq, Eq)]
pub enum ChannelVoiceMessage {
    NoteOff(cvm::NoteOff),
    NoteOn(cvm::NoteOn),
    PolyphonicKeyPressureAftertouch(cvm::PolyphonicKeyPressureAftertouch),
    ControlChange(cvm::ControlChange),
    ProgramChange(cvm::ProgramChange),
    ChannelPressureAftertouch(cvm::ChannelPressureAftertouch),
    PitchBendChange(cvm::PitchBendChange),
}

/// The channel mode messages, each named by a controller number of `120..=127`.
#[derive(Debug, Copy, Clone, PartialEq, Eq)]
pub enum ChannelModeMessage {
    AllSoundOff,
    ResetAllControllers,
    LocalControl,
    AllNotesOff,
    OmniOff,
    OmniOn,
    MonoOn,
    PolyOn,
}

#[derive(Debug, Clone, PartialEq, Eq)]
pub enum SystemMessage {
    SystemCommon(SystemCommonMessage),
    SystemRealTime(SystemRealTimeMessage),
    SystemExclusive(SystemExclusiveMessage),
}

/// One of the sixteen channels, `0..=15`.
///
/// The view is the channel's number.
#[derive(Debug, Copy, Clone, PartialEq, Eq)]
pub struct MidiChannelId(u8);

/// The system common messages, with the data bytes that each carries.
#[derive(Debug, Copy, Clone, PartialEq, Eq)]
pub enum SystemCommonMessage {
    /// Status `0xF1`, one data byte.
    MidiTimeQuarterFrame(u7::Unsigned7),
    /// Status `0xF2`, two data bytes joined least significant first.
    SongPositionPointer(u14::Unsigned14),
    /// Status `0xF3`, one data byte.
    SongSelect(u7::Unsigned7),
    /// Status `0xF4`.
    Undefined1,
    /// Status `0xF5`.
    Undefined2,
    /// Status `0xF6`.
    TuneRequest,
}

/// The system real-time messages, each a single status byte of `0xF8..=0xFF`.
#[derive(Debug, Copy, Clone, PartialEq, Eq)]
pub enum SystemRealTimeMessage {
    TimingClock,
    Undefined1,
    Start,
    Continue,
    Stop,
    Undefined2,
    ActiveSensing,
    SystemReset,
}

/// A system exclusive message: the bytes between `0xF0` and `0xF7`.
#[derive(Debug, Clone, PartialEq, Eq)]
pub struct SystemExclusiveMessage {
    pub payload: Vec<u8>,
}

impl View for MidiChannelId {
    type V = u8;

    closed spec fn view(&self) -> u8 {
        self.0
    }
}

impl MidiChannelId {
    #[verifier::type_invariant]
    spec fn in_range(self) -> bool {
        self.0 < 16
    }

    /// The `MidiChannelId` whose view is `value`.
    pub closed spec fn of(value: u8) -> MidiChannelId {
        MidiChannelId(value)
    }

    /// `of` is the inverse of the view.
    pub broadcast proof fn lemma_view_of(value: u8)
        ensures
            (#[trigger] MidiChannelId::of(value))@ == value,
    {
    }
}

impl TryFromSpecImpl<u8> for MidiChannelId {
    open spec fn obeys_try_from_spec() -> bool {
        true
    }

    open spec fn try_from_spec(value: u8) -> Result<MidiChannelId, OutOfRange> {
        if value < 16 {
            Ok(MidiChannelId::of(value))
        } else {
            Err(OutOfRange)
        }
    }
}

impl TryFrom<u8> for MidiChannelId {
    type Error = OutOfRange;

    /// Accepts exactly the numbers below sixteen.
    fn try_from(value: u8) -> (result: Result<MidiChannelId, OutOfRange>)
        ensures
            result is Ok <==> value < 16,
            result matches Ok(v) ==> v@ == value,
    {
        if value < 16 {
            Ok(MidiChannelId(value))
        } else {
            Err(OutOfRange)
        }
    }
}

impl FromSpecImpl<MidiChannelId> for u8 {
    open spec fn obeys_from_spec() -> bool {
        true
    }

    open spec fn from_spec(other: MidiChannelId) -> u8 {
        other@
    }
}

impl From<MidiChannelId> for u8 {
    /// The channel's number, which is below sixteen.
    fn from(other: MidiChannelId) -> (result: u8)
        ensures
            result == other@,
            result < 16,
    {
        proof {
            use_type_invariant(&other);
        }
        other.0
    }
}

impl ChannelMessage {
    /// The wire bytes of the message: its status byte, then its data bytes.
    /// Every number in the message lies in the range of its type, so the first
    /// byte is a channel status byte and the others are data bytes.
    pub fn to_bytes(&self) -> (bytes: Vec<u8>)
        ensures
            bytes@ == channel_bytes(self@),
            self@.in_range(),
    {
        let channel = u8::from(self.channel);
        let mut bytes: Vec<u8> = Vec::new();
        match self.message {
            ChannelMessageType::ChannelVoice(voice) => match voice {
                ChannelVoiceMessage::NoteOff(m) => {
                    bytes.push(0x80 + channel);
                    bytes.push(u8::from(m.note_number.0));
                    bytes.push(u8::from(m.velocity.0));
                },
                ChannelVoiceMessage::NoteOn(m) => {
                    bytes.push(0x90 + channel);
                    bytes.push(u8::from(m.note_number.0));
                    bytes.push(u8::from(m.velocity.0));
                },
                ChannelVoiceMessage::PolyphonicKeyPressureAftertouch(m) => {
                    bytes.push(0xA0 + channel);
                    bytes.push(u8::from(m.note_number.0));
                    bytes.push(u8::from(m.value));
                },
                ChannelVoiceMessage::ControlChange(m) => {
                    bytes.push(0xB0 + channel);
                    bytes.push(u8::from(m.control_number.0));
                    bytes.push(u8::from(m.value));
                },
                ChannelVoiceMessage::ProgramChange(m) => {
                    bytes.push(0xC0 + channel);
                    bytes.push(u8::from(m.program_number.0));
                },
                ChannelVoiceMessage::ChannelPressureAftertouch(m) => {
                    bytes.push(0xD0 + channel);
                    bytes.push(u8::from(m.value));
                },
                ChannelVoiceMessage::PitchBendChange(m) => {
                    let septets = <[u8; 2]>::from(m.value);
                    let bend = u16::from(m.value);
                    bytes.push(0xE0 + channel);
                    bytes.push(septets[0]);
                    bytes.push(septets[1]);
                },
            },
            ChannelMessageType::ChannelMode(mode, value) => {
                bytes.push(0xB0 + channel);
                bytes.push(u8::from(mode));
                bytes.push(u8::from(value));
            },
        }
        bytes
    }
}

impl ChannelModeMessage {
    /// The controller number that names this mode on the wire.
    pub open spec fn controller(self) -> u8 {
        match self {
            ChannelModeMessage::AllSoundOff => 120,
            ChannelModeMessage::ResetAllControllers => 121,
            ChannelModeMessage::LocalControl => 122,
            ChannelModeMessage::AllNotesOff => 123,
            ChannelModeMessage::OmniOff => 124,
            ChannelModeMessage::OmniOn => 125,
            ChannelModeMessage::MonoOn => 126,
            ChannelModeMessage::PolyOn => 127,
        }
    }

    /// The mode that controller number `number` names, for `120 <= number <= 127`.
    pub open spec fn of_controller(number: u8) -> ChannelModeMessage {
        if number == 120 {
            ChannelModeMessage::AllSoundOff
        } else if number == 121 {
            ChannelModeMessage::ResetAllControllers
        } else if number == 122 {
            ChannelModeMessage::LocalControl
        } else if number == 123 {
            ChannelModeMessage::AllNotesOff
        } else if number == 124 {
            ChannelModeMessage::OmniOff
        } else if number == 125 {
            ChannelModeMessage::OmniOn
        } else if number == 126 {
            ChannelModeMessage::MonoOn
        } else {
            ChannelModeMessage::PolyOn
        }
    }
}

impl TryFromSpecImpl<u8> for ChannelModeMessage {
    open spec fn obeys_try_from_spec() -> bool {
        true
    }

    open spec fn try_from_spec(number: u8) -> Result<ChannelModeMessage, OutOfRange> {
        if 120 <= number <= 127 {
            Ok(ChannelModeMessage::of_controller(number))
        } else {
            Err(OutOfRange)
        }
    }
}

impl TryFrom<u8> for ChannelModeMessage {
    type Error = OutOfRange;

    /// The mode that a controller number names; only `120..=127` name one.
    fn try_from(number: u8) -> (result: Result<ChannelModeMessage, OutOfRange>)
        ensures
            result is Ok <==> 120 <= number <= 127,
            result matches Ok(mode) ==> mode.controller() == number,
    {
        match number {
            120 => Ok(ChannelModeMessage::AllSoundOff),
            121 => Ok(ChannelModeMessage::ResetAllControllers),
            122 => Ok(ChannelModeMessage::LocalControl),
            123 => Ok(ChannelModeMessage::AllNotesOff),
            124 => Ok(ChannelModeMessage::OmniOff),
            125 => Ok(ChannelModeMessage::OmniOn),
            126 => Ok(ChannelModeMessage::MonoOn),
            127 => Ok(ChannelModeMessage::PolyOn),
            _ => Err(OutOfRange),
        }
    }
}

impl FromSpecImpl<ChannelModeMessage> for u8 {
    open spec fn obeys_from_spec() -> bool {
        true
    }

    open spec fn from_spec(mode: ChannelModeMessage) -> u8 {
        mode.controller()
    }
}

impl From<ChannelModeMessage> for u8 {
    /// The controller number that names the mode.
    fn from(mode: ChannelModeMessage) -> (result: u8)
        ensures
            result == mode.controller(),
            120 <= result <= 127,
    {
        match mode {
            ChannelModeMessage::AllSoundOff => 120,
            ChannelModeMessage::ResetAllControllers => 121,
            ChannelModeMessage::LocalControl => 122,
            ChannelModeMessage::AllNotesOff => 123,
            ChannelModeMessage::OmniOff => 124,
            ChannelModeMessage::OmniOn => 125,
            ChannelModeMessage::MonoOn => 126,
            ChannelModeMessage::PolyOn => 127,
        }
    }
}

impl SystemRealTimeMessage {
    /// The status byte that is this message on the wire.
    pub open spec fn status(self) -> u8 {
        match self {
            SystemRealTimeMessage::TimingClock => 0xF8,
            SystemRealTimeMessage::Undefined1 => 0xF9,
            SystemRealTimeMessage::Start => 0xFA,
            SystemRealTimeMessage::Continue => 0xFB,
            SystemRealTimeMessage::Stop => 0xFC,
            SystemRealTimeMessage::Undefined2 => 0xFD,
            SystemRealTimeMessage::ActiveSensing => 0xFE,
            SystemRealTimeMessage::SystemReset => 0xFF,
        }
    }

    /// The message that status byte `byte` is, for `byte >= 0xF8`.
    pub open spec fn of_status(byte: u8) -> SystemRealTimeMessage {
        if byte == 0xF8 {
            SystemRealTimeMessage::TimingClock
        } else if byte == 0xF9 {
            SystemRealTimeMessage::Undefined1
        } else if byte == 0xFA {
            SystemRealTimeMessage::Start
        } else if byte == 0xFB {
            SystemRealTimeMessage::Continue
        } else if byte == 0xFC {
            SystemRealTimeMessage::Stop
        } else if byte == 0xFD {
            SystemRealTimeMessage::Undefined2
        } else if byte == 0xFE {
            SystemRealTimeMessage::ActiveSensing
        } else {
            SystemRealTimeMessage::SystemReset
        }
    }
}

impl TryFromSpecImpl<u8> for SystemRealTimeMessage {
    open spec fn obeys_try_from_spec() -> bool {
        true
    }

    open spec fn try_from_spec(byte: u8) -> Result<SystemRealTimeMessage, OutOfRange> {
        if byte >= 0xF8 {
            Ok(SystemRealTimeMessage::of_status(byte))
        } else {
            Err(OutOfRange)
        }
    }
}

impl TryFrom<u8> for SystemRealTimeMessage {
    type Error = OutOfRange;

    /// The real-time message that a byte is; only `0xF8..=0xFF` are one.
    fn try_from(byte: u8) -> (result: Result<SystemRealTimeMessage, OutOfRange>)
        ensures
            result is Ok <==> byte >= 0xF8,
            result matches Ok(message) ==> message.status() == byte,
    {
        match byte {
            0xF8 => Ok(SystemRealTimeMessage::TimingClock),
            0xF9 => Ok(SystemRealTimeMessage::Undefined1),
            0xFA => Ok(SystemRealTimeMessage::Start),
            0xFB => Ok(SystemRealTimeMessage::Continue),
            0xFC => Ok(SystemRealTimeMessage::Stop),
            0xFD => Ok(SystemRealTimeMessage::Undefined2),
            0xFE => Ok(SystemRealTimeMessage::ActiveSensing),
            0xFF => Ok(SystemRealTimeMessage::SystemReset),
            _ => Err(OutOfRange),
        }
    }
}

impl FromSpecImpl<SystemRealTimeMessage> for u8 {
    open spec fn obeys_from_spec() -> bool {
        true
    }

    open spec fn from_spec(message: SystemRealTimeMessage) -> u8 {
        message.status()
    }
}

impl From<SystemRealTimeMessage> for u8 {
    /// The status byte that is the message.
    fn from(message: SystemRealTimeMessage) -> (result: u8)
        ensures
            result == message.status(),
            result >= 0xF8,
    {
        match message {
            SystemRealTimeMessage::TimingClock => 0xF8,
            SystemRealTimeMessage::Undefined1 => 0xF9,
            SystemRealTimeMessage::Start => 0xFA,
            SystemRealTimeMessage::Continue => 0xFB,
            SystemRealTimeMessage::Stop => 0xFC,
            SystemRealTimeMessage::Undefined2 => 0xFD,
            SystemRealTimeMessage::ActiveSensing => 0xFE,
            SystemRealTimeMessage::SystemReset => 0xFF,
        }
    }
}

impl ChannelVoiceMessage {
    /// The note and velocity of a note that starts sounding: `Some` exactly for a
    /// `NoteOn` whose velocity is not zero.
    pub fn should_note_on(&self) -> (result: Option<(cvm::NoteNumber, cvm::KeyVelocity)>)
        ensures
            result == match *self {
                ChannelVoiceMessage::NoteOn(note_on) => if note_on.velocity.0@ != 0 {
                    Some((note_on.note_number, note_on.velocity))
                } else {
                    None
                },
                _ => None,
            },
    {
        match self {
            ChannelVoiceMessage::NoteOn(note_on) => {
                let velocity = u8::from(note_on.velocity.0);
                if velocity != 0 {
                    Some((note_on.note_number, note_on.velocity))
                } else {
                    None
                }
            },
            _ => None,
        }
    }

    /// The note and velocity of a note that stops sounding: `Some` exactly for a
    /// `NoteOff`, and for a `NoteOn` whose velocity is zero.
    pub fn should_note_off(&self) -> (result: Option<(cvm::NoteNumber, cvm::KeyVelocity)>)
        ensures
            result == match *self {
                ChannelVoiceMessage::NoteOn(note_on) => if note_on.velocity.0@ == 0 {
                    Some((note_on.note_number, note_on.velocity))
                } else {
                    None
                },
                ChannelVoiceMessage::NoteOff(note_off) => Some(
                    (note_off.note_number, note_off.velocity),
                ),
                _ => None,
            },
    {
        match self {
            ChannelVoiceMessage::NoteOn(note_on) => {
                // "note on" + velocity 0 is commonly used to mean "note off"
                let velocity = u8::from(note_on.velocity.0);
                if velocity == 0 {
                    Some((note_on.note_number, note_on.velocity))
                } else {
                    None
                }
            },
            ChannelVoiceMessage::NoteOff(note_off) => Some(
                (note_off.note_number, note_off.velocity),
            ),
            _ => None,
        }
    }
}

} // verus!
