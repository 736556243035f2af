use midi_parser::message::cvm::ControlChange;
use midi_parser::message::cvm::ControlNumber;
use midi_parser::message::cvm::KeyVelocity;
use midi_parser::message::cvm::NoteNumber;
use midi_parser::message::cvm::NoteOff;
use midi_parser::message::cvm::NoteOn;
use midi_parser::message::u7::Unsigned7;
use midi_parser::message::ChannelVoiceMessage;

fn note(number: u8) -> NoteNumber {
    NoteNumber(Unsigned7::try_from(number).unwrap())
}

fn velocity(value: u8) -> KeyVelocity {
    KeyVelocity(Unsigned7::try_from(value).unwrap())
}

fn note_on(number: u8, value: u8) -> ChannelVoiceMessage {
    ChannelVoiceMessage::NoteOn(NoteOn { note_number: note(number), velocity: velocity(value) })
}

fn note_off(number: u8, value: u8) -> ChannelVoiceMessage {
    ChannelVoiceMessage::NoteOff(NoteOff { note_number: note(number), velocity: velocity(value) })
}

fn control_change() -> ChannelVoiceMessage {
    ChannelVoiceMessage::ControlChange(ControlChange {
        control_number: ControlNumber(Unsigned7::try_from(7).unwrap()),
        value: Unsigned7::try_from(0).unwrap(),
    })
}

#[test]
fn note_on_with_velocity_starts_a_note() {
    assert_eq!(note_on(60, 64).should_note_on(), Some((note(60), velocity(64))));
    assert_eq!(note_on(0, 1).should_note_on(), Some((note(0), velocity(1))));
    assert_eq!(note_on(127, 127).should_note_on(), Some((note(127), velocity(127))));
}

#[test]
fn note_on_with_velocity_zero_starts_nothing() {
    assert_eq!(note_on(60, 0).should_note_on(), None);
}

#[test]
fn only_note_on_starts_a_note() {
    assert_eq!(note_off(60, 64).should_note_on(), None);
    assert_eq!(control_change().should_note_on(), None);
}

#[test]
fn note_off_stops_a_note() {
    assert_eq!(note_off(60, 64).should_note_off(), Some((note(60), velocity(64))));
    assert_eq!(note_off(60, 0).should_note_off(), Some((note(60), velocity(0))));
}

#[test]
fn note_on_with_velocity_zero_stops_a_note() {
    assert_eq!(note_on(61, 0).should_note_off(), Some((note(61), velocity(0))));
}

#[test]
fn note_on_with_velocity_stops_nothing() {
    assert_eq!(note_on(61, 1).should_note_off(), None);
    assert_eq!(control_change().should_note_off(), None);
}

#[test]
fn note_off_equivalent_gives_the_off_velocity() {
    assert_eq!(note_off(60, 64).is_note_off_equiv(), Some(velocity(64)));
    assert_eq!(note_on(60, 0).is_note_off_equiv(), Some(velocity(0)));
    assert_eq!(note_on(60, 5).is_note_off_equiv(), None);
    assert_eq!(control_change().is_note_off_equiv(), None);
}
