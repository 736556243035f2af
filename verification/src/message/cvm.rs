use vstd::prelude::*;

pub use crate::message::u14::Unsigned14;
pub use crate::message::u7::Unsigned7;

verus! {

/// The key that a note message is about.
#[derive(Debug, Copy, Clone, PartialEq, Eq)]
pub struct NoteNumber(pub Unsigned7);

/// How fast a key was pressed or released.
#[derive(Debug, Copy, Clone, PartialEq, Eq)]
pub struct KeyVelocity(pub Unsigned7);

/// The controller that a control change is about.
#[derive(Debug, Copy, Clone, PartialEq, Eq)]
pub struct ControlNumber(pub Unsigned7);

/// The program that a program change selects.
#[derive(Debug, Copy, Clone, PartialEq, Eq)]
pub struct ProgramNumber(pub Unsigned7);

#[derive(Debug, Copy, Clone, PartialEq, Eq)]
pub struct NoteOff {
    pub note_number: NoteNumber,
    pub velocity: KeyVelocity,
}

#[derive(Debug, Copy, Clone, PartialEq, Eq)]
pub struct NoteOn {
    pub note_number: NoteNumber,
    pub velocity: KeyVelocity,
}

#[derive(Debug, Copy, Clone, PartialEq, Eq)]
pub struct PolyphonicKeyPressureAftertouch {
    pub note_number: NoteNumber,
    pub value: Unsigned7,
}

#[derive(Debug, Copy, Clone, PartialEq, Eq)]
pub struct ControlChange {
    pub control_number: ControlNumber,
    pub value: Unsigned7,
}

#[derive(Debug, Copy, Clone, PartialEq, Eq)]
pub struct ProgramChange {
    pub program_number: ProgramNumber,
}

#[derive(Debug, Copy, Clone, PartialEq, Eq)]
pub struct ChannelPressureAftertouch {
    pub value: Unsigned7,
}

#[derive(Debug, Copy, Clone, PartialEq, Eq)]
pub struct PitchBendChange {
    pub value: Unsigned14,
}

} // verus!
