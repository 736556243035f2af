use midi_parser::message::cvm::ChannelPressureAftertouch;
use midi_parser::message::cvm::ControlChange;
use midi_parser::message::cvm::ControlNumber;
use midi_parser::message::cvm::KeyVelocity;
use midi_parser::message::cvm::NoteNumber;
use midi_parser::message::cvm::NoteOff;
use midi_parser::message::cvm::NoteOn;
use midi_parser::message::cvm::PitchBendChange;
use midi_parser::message::cvm::PolyphonicKeyPressureAftertouch;
use midi_parser::message::cvm::ProgramChange;
use midi_parser::message::cvm::ProgramNumber;
use midi_parser::message::u14::Unsigned14;
use midi_parser::message::u7::Unsigned7;
use midi_parser::message::ChannelMessage;
use midi_parser::message::ChannelMessageType;
use midi_parser::message::ChannelModeMessage;
use midi_parser::message::ChannelVoiceMessage;
use midi_parser::message::Message;
use midi_parser::message::MidiChannelId;
use midi_parser::message::SystemCommonMessage;
use midi_parser::message::SystemExclusiveMessage;
use midi_parser::message::SystemMessage;
use midi_parser::message::SystemRealTimeMessage;
use midi_parser::parser::MessageParseOutcome;
use midi_parser::parser::MessageParseOutcomeStatus;
use midi_parser::parser::Parser;
use midi_parser::parser::StatusByte;

fn u7(value: u8) -> Unsigned7 {
    Unsigned7::try_from(value).unwrap()
}

fn u14(value: u16) -> Unsigned14 {
    Unsigned14::try_from([(value & 0x7F) as u8, (value >> 7) as u8]).unwrap()
}

fn voice(channel: u8, message: ChannelVoiceMessage) -> MessageParseOutcomeStatus {
    MessageParseOutcomeStatus::Message(Message::Channel(ChannelMessage {
        channel: MidiChannelId::try_from(channel).unwrap(),
        message: ChannelMessageType::ChannelVoice(message),
    }))
}

fn mode(channel: u8, mode: ChannelModeMessage, value: u8) -> MessageParseOutcomeStatus {
    MessageParseOutcomeStatus::Message(Message::Channel(ChannelMessage {
        channel: MidiChannelId::try_from(channel).unwrap(),
        message: ChannelMessageType::ChannelMode(mode, u7(value)),
    }))
}

fn note_on(channel: u8, note: u8, velocity: u8) -> MessageParseOutcomeStatus {
    voice(
        channel,
        ChannelVoiceMessage::NoteOn(NoteOn {
            note_number: NoteNumber(u7(note)),
            velocity: KeyVelocity(u7(velocity)),
        }),
    )
}

fn common(message: SystemCommonMessage) -> MessageParseOutcomeStatus {
    MessageParseOutcomeStatus::Message(Message::System(SystemMessage::SystemCommon(message)))
}

fn real_time(message: SystemRealTimeMessage) -> MessageParseOutcomeStatus {
    MessageParseOutcomeStatus::Message(Message::System(SystemMessage::SystemRealTime(message)))
}

fn exclusive(payload: &[u8]) -> MessageParseOutcomeStatus {
    MessageParseOutcomeStatus::Message(Message::System(SystemMessage::SystemExclusive(
        SystemExclusiveMessage { payload: payload.to_vec() },
    )))
}

fn interrupting(message: SystemRealTimeMessage, byte_index: usize) -> MessageParseOutcomeStatus {
    MessageParseOutcomeStatus::InterruptingSystemRealTimeMessage { message, byte_index }
}

fn outcome(bytes_consumed: u32, status: MessageParseOutcomeStatus) -> MessageParseOutcome {
    MessageParseOutcome { bytes_consumed, status }
}

/// A parser whose running status is `status`.
fn parser_running(status: u8) -> Parser {
    let mut parser = Parser::new();
    let bytes: Vec<u8> = if status & 0xE0 == 0xC0 { vec![status, 0] } else { vec![status, 0, 0] };
    parser.parse(&bytes);
    assert_eq!(parser.running_status(), Some(status));
    parser
}

#[test]
fn new_parser_has_no_running_status() {
    assert_eq!(Parser::new().running_status(), None);
}

#[test]
fn note_on_with_its_status_byte() {
    let mut parser = Parser::new();
    assert_eq!(parser.parse(&[0x90, 0x3C, 0x40]), outcome(3, note_on(0, 60, 64)));
    assert_eq!(parser.running_status(), Some(0x90));
}

#[test]
fn note_on_under_running_status() {
    let mut parser = Parser::new();
    assert_eq!(parser.parse(&[0x90, 0x3C, 0x40]), outcome(3, note_on(0, 60, 64)));
    assert_eq!(parser.parse(&[0x3E, 0x40]), outcome(2, note_on(0, 62, 64)));
    assert_eq!(parser.running_status(), Some(0x90));
}

#[test]
fn timing_clock_inside_a_note_on() {
    let mut parser = Parser::new();
    assert_eq!(
        parser.parse(&[0x90, 0x3C, 0xF8, 0x40]),
        outcome(0, interrupting(SystemRealTimeMessage::TimingClock, 2))
    );
    assert_eq!(parser.running_status(), None);
    assert_eq!(parser.parse(&[0x90, 0x3C, 0x40]), outcome(3, note_on(0, 60, 64)));
    assert_eq!(parser.running_status(), Some(0x90));
}

#[test]
fn all_notes_off_is_a_channel_mode_message() {
    let mut parser = Parser::new();
    assert_eq!(
        parser.parse(&[0xB0, 0x7B, 0x00]),
        outcome(3, mode(0, ChannelModeMessage::AllNotesOff, 0))
    );
    assert_eq!(parser.running_status(), Some(0xB0));
}

#[test]
fn pitch_bend_at_the_center() {
    let mut parser = Parser::new();
    let result = parser.parse(&[0xE0, 0x00, 0x40]);
    assert_eq!(
        result,
        outcome(3, voice(0, ChannelVoiceMessage::PitchBendChange(PitchBendChange { value: u14(0x2000) })))
    );
    match result.status {
        MessageParseOutcomeStatus::Message(Message::Channel(ChannelMessage {
            message: ChannelMessageType::ChannelVoice(ChannelVoiceMessage::PitchBendChange(bend)),
            ..
        })) => {
            assert!(bend.is_centered());
            assert_eq!(u16::from(bend.value), 0x2000);
        }
        other => panic!("not a pitch bend: {:?}", other),
    }
}

#[test]
fn system_exclusive_message() {
    let mut parser = parser_running(0x90);
    assert_eq!(
        parser.parse(&[0xF0, 0x7E, 0x7F, 0x06, 0x01, 0xF7]),
        outcome(6, exclusive(&[0x7E, 0x7F, 0x06, 0x01]))
    );
    assert_eq!(parser.running_status(), None);
}

#[test]
fn empty_input_asks_for_more() {
    let mut parser = Parser::new();
    assert_eq!(parser.parse(&[]), outcome(0, MessageParseOutcomeStatus::NeedMoreBytes(None)));
    let mut parser = parser_running(0x93);
    assert_eq!(parser.parse(&[]), outcome(0, MessageParseOutcomeStatus::NeedMoreBytes(None)));
    assert_eq!(parser.running_status(), Some(0x93));
}

#[test]
fn channel_status_byte_alone_asks_for_its_data() {
    for status in 0x80u8..=0xEF {
        let needed = if status & 0xE0 == 0xC0 { 1 } else { 2 };
        let mut parser = Parser::new();
        assert_eq!(
            parser.parse(&[status]),
            outcome(0, MessageParseOutcomeStatus::NeedMoreBytes(Some(needed)))
        );
        assert_eq!(parser.running_status(), None);
    }
}

#[test]
fn system_status_byte_alone() {
    let mut parser = parser_running(0x90);
    assert_eq!(parser.parse(&[0xF0]), outcome(0, MessageParseOutcomeStatus::NeedMoreBytes(None)));
    assert_eq!(parser.parse(&[0xF1]), outcome(0, MessageParseOutcomeStatus::NeedMoreBytes(Some(1))));
    assert_eq!(parser.parse(&[0xF2]), outcome(0, MessageParseOutcomeStatus::NeedMoreBytes(Some(2))));
    assert_eq!(parser.parse(&[0xF3]), outcome(0, MessageParseOutcomeStatus::NeedMoreBytes(Some(1))));
    assert_eq!(parser.running_status(), Some(0x90));
    assert_eq!(parser.parse(&[0xF4]), outcome(1, common(SystemCommonMessage::Undefined1)));
    assert_eq!(parser.running_status(), None);
    assert_eq!(parser.parse(&[0xF5]), outcome(1, common(SystemCommonMessage::Undefined2)));
    assert_eq!(parser.parse(&[0xF6]), outcome(1, common(SystemCommonMessage::TuneRequest)));
    assert_eq!(parser.parse(&[0xF7]), outcome(1, MessageParseOutcomeStatus::UnexpectedEox));
}

#[test]
fn real_time_byte_alone_is_its_message() {
    let messages = [
        (0xF8u8, SystemRealTimeMessage::TimingClock),
        (0xF9, SystemRealTimeMessage::Undefined1),
        (0xFA, SystemRealTimeMessage::Start),
        (0xFB, SystemRealTimeMessage::Continue),
        (0xFC, SystemRealTimeMessage::Stop),
        (0xFD, SystemRealTimeMessage::Undefined2),
        (0xFE, SystemRealTimeMessage::ActiveSensing),
        (0xFF, SystemRealTimeMessage::SystemReset),
    ];
    for (byte, message) in messages {
        let mut parser = parser_running(0x95);
        assert_eq!(parser.parse(&[byte]), outcome(1, real_time(message)));
        assert_eq!(parser.running_status(), Some(0x95));
        let mut parser = Parser::new();
        assert_eq!(parser.parse(&[byte, 0x90, 0x3C]), outcome(1, real_time(message)));
        assert_eq!(parser.running_status(), None);
    }
}

#[test]
fn data_byte_alone_without_running_status_is_unexpected() {
    let mut parser = Parser::new();
    assert_eq!(parser.parse(&[0x3C]), outcome(1, MessageParseOutcomeStatus::UnexpectedDataByte));
    assert_eq!(parser.parse(&[0x00, 0x90]), outcome(1, MessageParseOutcomeStatus::UnexpectedDataByte));
    assert_eq!(parser.running_status(), None);
}

#[test]
fn data_byte_alone_under_running_status_asks_for_the_rest() {
    let mut parser = parser_running(0x90);
    assert_eq!(parser.parse(&[0x3C]), outcome(0, MessageParseOutcomeStatus::NeedMoreBytes(Some(1))));
    assert_eq!(parser.running_status(), Some(0x90));
    let mut parser = parser_running(0xC2);
    assert_eq!(
        parser.parse(&[0x05]),
        outcome(
            1,
            voice(2, ChannelVoiceMessage::ProgramChange(ProgramChange { program_number: ProgramNumber(u7(5)) }))
        )
    );
    assert_eq!(parser.running_status(), Some(0xC2));
}

#[test]
fn running_status_carries_a_note_on_across_one_timing_clock() {
    let mut parser = Parser::new();
    assert_eq!(parser.parse(&[0x90, 0x3C, 0x40]), outcome(3, note_on(0, 60, 64)));
    assert_eq!(
        parser.parse(&[0xF8, 0x3E, 0x41]),
        outcome(1, real_time(SystemRealTimeMessage::TimingClock))
    );
    assert_eq!(parser.running_status(), Some(0x90));
    assert_eq!(parser.parse(&[0x3E, 0x41]), outcome(2, note_on(0, 62, 65)));
}

#[test]
fn real_time_message_leaves_what_follows_as_it_was() {
    let later: [&[u8]; 5] = [&[0x3E, 0x41], &[0x3E], &[0x3E, 0xF8, 0x41], &[0x3E, 0x80], &[0xC0, 0x01]];
    for bytes in later {
        let mut before = parser_running(0x91);
        let mut after = parser_running(0x91);
        assert_eq!(after.parse(&[0xFE]), outcome(1, real_time(SystemRealTimeMessage::ActiveSensing)));
        assert_eq!(after.parse(bytes), before.parse(bytes));
        assert_eq!(after.running_status(), before.running_status());
    }
}

#[test]
fn end_of_exclusive_with_empty_parser_state() {
    let mut parser = Parser::new();
    assert_eq!(parser.parse(&[0xF7]), outcome(1, MessageParseOutcomeStatus::UnexpectedEox));
    assert_eq!(parser.running_status(), None);
    assert_eq!(parser.parse(&[0xF7, 0x01, 0x02]), outcome(1, MessageParseOutcomeStatus::UnexpectedEox));
}

#[test]
fn stray_end_of_exclusive_clears_running_status() {
    let mut parser = parser_running(0x90);
    assert_eq!(parser.parse(&[0xF7]), outcome(1, MessageParseOutcomeStatus::UnexpectedEox));
    assert_eq!(parser.running_status(), None);
}

#[test]
fn controller_119_is_a_control_change_and_120_a_channel_mode() {
    let mut parser = Parser::new();
    assert_eq!(
        parser.parse(&[0xB3, 119, 5]),
        outcome(
            3,
            voice(
                3,
                ChannelVoiceMessage::ControlChange(ControlChange {
                    control_number: ControlNumber(u7(119)),
                    value: u7(5),
                })
            )
        )
    );
    assert_eq!(parser.parse(&[0xB3, 120, 5]), outcome(3, mode(3, ChannelModeMessage::AllSoundOff, 5)));
    assert_eq!(parser.parse(&[127, 0]), outcome(2, mode(3, ChannelModeMessage::PolyOn, 0)));
    assert_eq!(
        parser.parse(&[0, 127]),
        outcome(
            2,
            voice(
                3,
                ChannelVoiceMessage::ControlChange(ControlChange {
                    control_number: ControlNumber(u7(0)),
                    value: u7(127),
                })
            )
        )
    );
}

#[test]
fn every_channel_mode_keeps_its_value_byte() {
    let modes = [
        (120u8, ChannelModeMessage::AllSoundOff),
        (121, ChannelModeMessage::ResetAllControllers),
        (122, ChannelModeMessage::LocalControl),
        (123, ChannelModeMessage::AllNotesOff),
        (124, ChannelModeMessage::OmniOff),
        (125, ChannelModeMessage::OmniOn),
        (126, ChannelModeMessage::MonoOn),
        (127, ChannelModeMessage::PolyOn),
    ];
    for (controller, message) in modes {
        let mut parser = Parser::new();
        assert_eq!(parser.parse(&[0xBF, controller, 0x7F]), outcome(3, mode(15, message, 0x7F)));
    }
}

#[test]
fn each_kind_of_channel_voice_message() {
    let mut parser = Parser::new();
    assert_eq!(
        parser.parse(&[0x81, 0x3C, 0x10]),
        outcome(
            3,
            voice(
                1,
                ChannelVoiceMessage::NoteOff(NoteOff {
                    note_number: NoteNumber(u7(0x3C)),
                    velocity: KeyVelocity(u7(0x10)),
                })
            )
        )
    );
    assert_eq!(parser.running_status(), Some(0x81));
    assert_eq!(parser.parse(&[0x9F, 0x7F, 0x00]), outcome(3, note_on(15, 127, 0)));
    assert_eq!(
        parser.parse(&[0xA2, 0x01, 0x02]),
        outcome(
            3,
            voice(
                2,
                ChannelVoiceMessage::PolyphonicKeyPressureAftertouch(PolyphonicKeyPressureAftertouch {
                    note_number: NoteNumber(u7(1)),
                    value: u7(2),
                })
            )
        )
    );
    assert_eq!(
        parser.parse(&[0xC4, 0x21]),
        outcome(
            2,
            voice(4, ChannelVoiceMessage::ProgramChange(ProgramChange { program_number: ProgramNumber(u7(0x21)) }))
        )
    );
    assert_eq!(parser.running_status(), Some(0xC4));
    assert_eq!(
        parser.parse(&[0xD5, 0x22]),
        outcome(
            2,
            voice(5, ChannelVoiceMessage::ChannelPressureAftertouch(ChannelPressureAftertouch { value: u7(0x22) }))
        )
    );
    assert_eq!(
        parser.parse(&[0xE6, 0x7F, 0x7F]),
        outcome(3, voice(6, ChannelVoiceMessage::PitchBendChange(PitchBendChange { value: u14(16383) })))
    );
    assert_eq!(
        parser.parse(&[0x01, 0x00]),
        outcome(2, voice(6, ChannelVoiceMessage::PitchBendChange(PitchBendChange { value: u14(1) })))
    );
    assert_eq!(parser.running_status(), Some(0xE6));
}

#[test]
fn bytes_behind_a_message_are_left_alone() {
    let mut parser = Parser::new();
    assert_eq!(parser.parse(&[0x90, 0x3C, 0x40, 0xFF, 0x80, 0x00]), outcome(3, note_on(0, 60, 64)));
    assert_eq!(parser.parse(&[0xC0, 0x01, 0xF0]).bytes_consumed, 2);
}

#[test]
fn system_common_messages_carry_their_data() {
    let mut parser = parser_running(0x90);
    assert_eq!(
        parser.parse(&[0xF1, 0x35]),
        outcome(2, common(SystemCommonMessage::MidiTimeQuarterFrame(u7(0x35))))
    );
    assert_eq!(parser.running_status(), None);
    assert_eq!(
        parser.parse(&[0xF2, 0x01, 0x02]),
        outcome(3, common(SystemCommonMessage::SongPositionPointer(u14(0x0101))))
    );
    assert_eq!(parser.parse(&[0xF3, 0x7F]), outcome(2, common(SystemCommonMessage::SongSelect(u7(0x7F)))));
    assert_eq!(parser.parse(&[0xF6, 0x7F]), outcome(1, common(SystemCommonMessage::TuneRequest)));
}

#[test]
fn system_common_message_clears_running_status() {
    for bytes in [&[0xF1u8, 0x00][..], &[0xF2, 0x00, 0x00], &[0xF3, 0x00], &[0xF4], &[0xF5], &[0xF6]] {
        let mut parser = parser_running(0x90);
        let result = parser.parse(bytes);
        assert_eq!(result.bytes_consumed as usize, bytes.len());
        assert_eq!(parser.running_status(), None);
    }
}

#[test]
fn short_input_tells_how_many_bytes_are_missing() {
    let mut parser = Parser::new();
    assert_eq!(parser.parse(&[0x90, 0x3C]), outcome(0, MessageParseOutcomeStatus::NeedMoreBytes(Some(1))));
    assert_eq!(parser.parse(&[0xF2, 0x3C]), outcome(0, MessageParseOutcomeStatus::NeedMoreBytes(Some(1))));
    assert_eq!(parser.parse(&[0xE0]), outcome(0, MessageParseOutcomeStatus::NeedMoreBytes(Some(2))));
    assert_eq!(parser.running_status(), None);
}

#[test]
fn real_time_byte_before_the_data_has_all_arrived() {
    let mut parser = Parser::new();
    assert_eq!(
        parser.parse(&[0x90, 0xF8]),
        outcome(0, interrupting(SystemRealTimeMessage::TimingClock, 1))
    );
    assert_eq!(
        parser.parse(&[0x90, 0x3C, 0xFA]),
        outcome(0, interrupting(SystemRealTimeMessage::Start, 2))
    );
}

#[test]
fn real_time_byte_under_running_status() {
    let mut parser = parser_running(0x90);
    assert_eq!(
        parser.parse(&[0x3C, 0xFF, 0x40]),
        outcome(0, interrupting(SystemRealTimeMessage::SystemReset, 1))
    );
    assert_eq!(parser.running_status(), Some(0x90));
    assert_eq!(parser.parse(&[0x3C, 0x40]), outcome(2, note_on(0, 60, 64)));
}

#[test]
fn status_byte_inside_a_message_breaks_it() {
    let mut parser = parser_running(0x90);
    assert_eq!(parser.parse(&[0x90, 0x3C, 0x80, 0x3C, 0x40]), outcome(2, MessageParseOutcomeStatus::BrokenMessage));
    assert_eq!(parser.running_status(), None);
    let mut parser = parser_running(0x90);
    assert_eq!(parser.parse(&[0x90, 0xF0]), outcome(1, MessageParseOutcomeStatus::BrokenMessage));
    assert_eq!(parser.running_status(), None);
    let mut parser = Parser::new();
    assert_eq!(parser.parse(&[0xF2, 0x01, 0xF7]), outcome(2, MessageParseOutcomeStatus::BrokenMessage));
}

#[test]
fn status_byte_inside_a_running_status_message_breaks_it() {
    let mut parser = parser_running(0x90);
    assert_eq!(parser.parse(&[0x3C, 0xB0, 0x01, 0x02]), outcome(1, MessageParseOutcomeStatus::BrokenMessage));
    assert_eq!(parser.running_status(), None);
    assert_eq!(
        parser.parse(&[0xB0, 0x01, 0x02]),
        outcome(
            3,
            voice(
                0,
                ChannelVoiceMessage::ControlChange(ControlChange {
                    control_number: ControlNumber(u7(1)),
                    value: u7(2),
                })
            )
        )
    );
}

#[test]
fn system_exclusive_without_its_end_asks_for_more() {
    let mut parser = parser_running(0x90);
    assert_eq!(parser.parse(&[0xF0, 0x01, 0x02]), outcome(0, MessageParseOutcomeStatus::NeedMoreBytes(None)));
    assert_eq!(parser.running_status(), Some(0x90));
}

#[test]
fn empty_system_exclusive_message() {
    let mut parser = Parser::new();
    assert_eq!(parser.parse(&[0xF0, 0xF7]), outcome(2, exclusive(&[])));
}

#[test]
fn real_time_byte_inside_a_system_exclusive_message() {
    let mut parser = parser_running(0x90);
    assert_eq!(
        parser.parse(&[0xF0, 0x01, 0xF8, 0x02, 0xF7]),
        outcome(0, interrupting(SystemRealTimeMessage::TimingClock, 2))
    );
    assert_eq!(parser.running_status(), Some(0x90));
    assert_eq!(parser.parse(&[0xF0, 0x01, 0x02, 0xF7]), outcome(4, exclusive(&[0x01, 0x02])));
    assert_eq!(parser.running_status(), None);
}

#[test]
fn status_byte_inside_a_system_exclusive_message_breaks_it() {
    let mut parser = parser_running(0x90);
    assert_eq!(parser.parse(&[0xF0, 0x01, 0x02, 0x90, 0x3C]), outcome(3, MessageParseOutcomeStatus::BrokenMessage));
    assert_eq!(parser.running_status(), None);
    let mut parser = Parser::new();
    assert_eq!(parser.parse(&[0xF0, 0xF0, 0xF7]), outcome(1, MessageParseOutcomeStatus::BrokenMessage));
}

#[test]
fn long_system_exclusive_message() {
    let mut bytes = vec![0xF0u8];
    let payload: Vec<u8> = (0..1000u32).map(|i| (i % 128) as u8).collect();
    bytes.extend_from_slice(&payload);
    bytes.push(0xF7);
    bytes.push(0x90);
    let mut parser = Parser::new();
    assert_eq!(parser.parse(&bytes), outcome(1002, exclusive(&payload)));
}

#[test]
fn status_byte_decodes_the_bytes_that_follow_it() {
    let note_on_status = StatusByte::try_from(0x90).unwrap();
    assert_eq!(note_on_status.parse(&[0x3C, 0x40, 0x00]), outcome(2, note_on(0, 60, 64)));
    assert_eq!(note_on_status.parse(&[0x3C]), outcome(0, MessageParseOutcomeStatus::NeedMoreBytes(Some(1))));
    assert_eq!(
        note_on_status.parse(&[0x3C, 0xF8]),
        outcome(0, interrupting(SystemRealTimeMessage::TimingClock, 1))
    );
    assert_eq!(note_on_status.parse(&[0x3C, 0x80]), outcome(1, MessageParseOutcomeStatus::BrokenMessage));
    assert_eq!(note_on_status.parse(&[0x80]), outcome(0, MessageParseOutcomeStatus::BrokenMessage));
    let end = StatusByte::try_from(0xF7).unwrap();
    assert_eq!(end.parse(&[0x01]), outcome(0, MessageParseOutcomeStatus::UnexpectedEox));
    let clock = StatusByte::try_from(0xF8).unwrap();
    assert_eq!(clock.parse(&[]), outcome(0, real_time(SystemRealTimeMessage::TimingClock)));
    let start_of_exclusive = StatusByte::try_from(0xF0).unwrap();
    assert_eq!(start_of_exclusive.parse(&[0x01, 0xF7, 0x02]), outcome(2, exclusive(&[0x01])));
}

#[test]
fn no_call_consumes_more_than_it_was_given_and_every_call_moves_on_or_waits() {
    let alphabet = [0x00u8, 0x40, 0x7F, 0x80, 0x95, 0xB1, 0xC2, 0xE3, 0xF0, 0xF1, 0xF2, 0xF6, 0xF7, 0xF8, 0xFF];
    let states = [None, Some(0x90u8), Some(0xC0), Some(0xB5)];
    for state in states {
        for a in alphabet {
            for b in alphabet {
                for c in alphabet {
                    for length in 0..=3usize {
                        let all = [a, b, c];
                        let input = &all[..length];
                        let mut parser = match state {
                            Some(status) => parser_running(status),
                            None => Parser::new(),
                        };
                        let result = parser.parse(input);
                        assert!(result.bytes_consumed as usize <= input.len());
                        let waits = matches!(
                            result.status,
                            MessageParseOutcomeStatus::NeedMoreBytes(_)
                                | MessageParseOutcomeStatus::InterruptingSystemRealTimeMessage { .. }
                        );
                        assert!(result.bytes_consumed > 0 || waits);
                        if waits {
                            assert_eq!(result.bytes_consumed, 0);
                            assert_eq!(parser.running_status(), state);
                        }
                        match parser.running_status() {
                            Some(status) => assert!((0x80..0xF0).contains(&status)),
                            None => {}
                        }
                    }
                }
            }
        }
    }
}

#[test]
fn encoding_then_parsing_a_channel_message_gives_it_back() {
    let bodies = [
        ChannelMessageType::ChannelVoice(ChannelVoiceMessage::NoteOff(NoteOff {
            note_number: NoteNumber(u7(60)),
            velocity: KeyVelocity(u7(0)),
        })),
        ChannelMessageType::ChannelVoice(ChannelVoiceMessage::NoteOn(NoteOn {
            note_number: NoteNumber(u7(127)),
            velocity: KeyVelocity(u7(1)),
        })),
        ChannelMessageType::ChannelVoice(ChannelVoiceMessage::PolyphonicKeyPressureAftertouch(
            PolyphonicKeyPressureAftertouch { note_number: NoteNumber(u7(3)), value: u7(4) },
        )),
        ChannelMessageType::ChannelVoice(ChannelVoiceMessage::ControlChange(ControlChange {
            control_number: ControlNumber(u7(119)),
            value: u7(127),
        })),
        ChannelMessageType::ChannelVoice(ChannelVoiceMessage::ProgramChange(ProgramChange {
            program_number: ProgramNumber(u7(99)),
        })),
        ChannelMessageType::ChannelVoice(ChannelVoiceMessage::ChannelPressureAftertouch(
            ChannelPressureAftertouch { value: u7(77) },
        )),
        ChannelMessageType::ChannelVoice(ChannelVoiceMessage::PitchBendChange(PitchBendChange {
            value: u14(0x1234),
        })),
        ChannelMessageType::ChannelMode(ChannelModeMessage::LocalControl, u7(127)),
        ChannelMessageType::ChannelMode(ChannelModeMessage::AllSoundOff, u7(0)),
    ];
    for channel in 0u8..16 {
        for body in bodies {
            let message = ChannelMessage { channel: MidiChannelId::try_from(channel).unwrap(), message: body };
            let bytes = message.to_bytes();
            let mut parser = Parser::new();
            let result = parser.parse(&bytes);
            assert_eq!(result.bytes_consumed as usize, bytes.len());
            assert_eq!(result.status, MessageParseOutcomeStatus::Message(Message::Channel(message)));
            assert_eq!(parser.running_status(), Some(bytes[0]));
        }
    }
}

#[test]
fn channel_message_wire_bytes() {
    let message = ChannelMessage {
        channel: MidiChannelId::try_from(9).unwrap(),
        message: ChannelMessageType::ChannelVoice(ChannelVoiceMessage::PitchBendChange(PitchBendChange {
            value: u14(0x2000),
        })),
    };
    assert_eq!(message.to_bytes(), vec![0xE9, 0x00, 0x40]);
    let message = ChannelMessage {
        channel: MidiChannelId::try_from(0).unwrap(),
        message: ChannelMessageType::ChannelMode(ChannelModeMessage::AllNotesOff, u7(0)),
    };
    assert_eq!(message.to_bytes(), vec![0xB0, 0x7B, 0x00]);
    let message = ChannelMessage {
        channel: MidiChannelId::try_from(15).unwrap(),
        message: ChannelMessageType::ChannelVoice(ChannelVoiceMessage::ProgramChange(ProgramChange {
            program_number: ProgramNumber(u7(1)),
        })),
    };
    assert_eq!(message.to_bytes(), vec![0xCF, 0x01]);
}

#[test]
fn control_change_120_does_not_come_back_as_itself() {
    let message = ChannelMessage {
        channel: MidiChannelId::try_from(0).unwrap(),
        message: ChannelMessageType::ChannelVoice(ChannelVoiceMessage::ControlChange(ControlChange {
            control_number: ControlNumber(u7(120)),
            value: u7(0),
        })),
    };
    let bytes = message.to_bytes();
    assert_eq!(bytes, vec![0xB0, 120, 0]);
    let mut parser = Parser::new();
    assert_eq!(parser.parse(&bytes), outcome(3, mode(0, ChannelModeMessage::AllSoundOff, 0)));
}
