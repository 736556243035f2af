//! Methods that provide some higher-level interpretation of MIDI messages.

use crate::message::cvm;
use crate::message::ChannelVoiceMessage;
use vstd::prelude::*;

verus! {

impl ChannelVoiceMessage {
    /// Returns if the note should turn off.
    ///
    /// Taking into account that NoteOn with velocity 0 means NoteOff.
    ///
    /// Returns `Some` if the note should be turned off,
    /// and the inner value is the off velocity.
    pub fn is_note_off_equiv(&self) -> (result: Option<cvm::KeyVelocity>)
        ensures
            result == match *self {
                ChannelVoiceMessage::NoteOn(note_on) => if note_on.velocity.0@ == 0 {
                    Some(note_on.velocity)
                } else {
                    None
                },
                ChannelVoiceMessage::NoteOff(note_off) => Some(note_off.velocity),
                _ => None,
            },
    {
        match self.should_note_off() {
            Some((_, velocity)) => Some(velocity),
            None => None,
        }
    }
}

impl cvm::PitchBendChange {
    /// Whether the bend is the middle of its range, `0x2000`: no bend at all.
    pub fn is_centered(&self) -> (result: bool)
        ensures
            result == (self.value@ == 0x2000),
    {
        u16::from(self.value) == 0x2000
    }
}

} // verus!
