use midi_parser::parser::MessageParseOutcome;
use midi_parser::parser::MessageParseOutcomeStatus;
use midi_parser::parser::Parser;

/// Decodes `buffer` call after call until a call asks for more bytes, as a
/// caller of the parser does, and leaves in `buffer` what was not decoded.
fn drain(parser: &mut Parser, buffer: &mut Vec<u8>) -> Vec<MessageParseOutcome> {
    let mut outcomes = Vec::new();
    loop {
        let outcome = parser.parse(buffer);
        match outcome.status {
            MessageParseOutcomeStatus::NeedMoreBytes(_) => return outcomes,
            MessageParseOutcomeStatus::InterruptingSystemRealTimeMessage { byte_index, .. } => {
                buffer.remove(byte_index);
            }
            _ => {
                buffer.drain(..outcome.bytes_consumed as usize);
            }
        }
        outcomes.push(outcome);
    }
}

const STREAM: [u8; 40] = [
    0x90, 0x3C, 0x40, 0x3E, 0x41, 0xF8, 0x40, 0x00, 0xB0, 0x7B, 0x00, 0xF0, 0x7E, 0xF8, 0x7F, 0x06,
    0x01, 0xF7, 0x05, 0xC1, 0x02, 0x03, 0xFA, 0xE0, 0x00, 0xF8, 0x40, 0xF2, 0x01, 0x80, 0x3C, 0x00,
    0xF7, 0xF1, 0x11, 0xF6, 0x91, 0x01, 0xFE, 0x02,
];

#[test]
fn a_buffer_is_decoded_to_its_end() {
    let mut parser = Parser::new();
    let mut buffer = STREAM.to_vec();
    let outcomes = drain(&mut parser, &mut buffer);
    assert!(buffer.is_empty());
    assert_eq!(outcomes.len(), 20);
    assert_eq!(parser.running_status(), Some(0x91));
    let consumed: Vec<u32> = outcomes.iter().map(|outcome| outcome.bytes_consumed).collect();
    assert_eq!(consumed, vec![3, 2, 1, 2, 3, 0, 6, 1, 2, 1, 1, 0, 3, 2, 3, 1, 2, 1, 0, 3]);
    assert_eq!(outcomes[13].status, MessageParseOutcomeStatus::BrokenMessage);
    assert_eq!(outcomes[7].status, MessageParseOutcomeStatus::UnexpectedDataByte);
    assert_eq!(outcomes[15].status, MessageParseOutcomeStatus::UnexpectedEox);
}

#[test]
fn cutting_a_buffer_on_a_message_boundary_changes_nothing() {
    let mut whole_parser = Parser::new();
    let mut whole = STREAM.to_vec();
    let in_one_pass = drain(&mut whole_parser, &mut whole);
    for boundary in [0usize, 3, 5, 6, 8, 11, 18, 19, 21, 22, 23, 27, 32, 33, 35, 36, 40] {
        let mut parser = Parser::new();
        let mut first = STREAM[..boundary].to_vec();
        let mut outcomes = drain(&mut parser, &mut first);
        assert!(first.is_empty(), "{} is no message boundary", boundary);
        let mut second = STREAM[boundary..].to_vec();
        outcomes.extend(drain(&mut parser, &mut second));
        assert!(second.is_empty());
        assert_eq!(outcomes, in_one_pass);
        assert_eq!(parser.running_status(), whole_parser.running_status());
    }
}

#[test]
fn cutting_a_buffer_anywhere_changes_nothing() {
    let mut whole_parser = Parser::new();
    let mut whole = STREAM.to_vec();
    let in_one_pass = drain(&mut whole_parser, &mut whole);
    for cut in 0..=STREAM.len() {
        let mut parser = Parser::new();
        let mut buffer = STREAM[..cut].to_vec();
        let mut outcomes = drain(&mut parser, &mut buffer);
        buffer.extend_from_slice(&STREAM[cut..]);
        outcomes.extend(drain(&mut parser, &mut buffer));
        assert!(buffer.is_empty());
        assert_eq!(outcomes, in_one_pass);
        assert_eq!(parser.running_status(), whole_parser.running_status());
    }
}

#[test]
fn feeding_a_buffer_byte_by_byte_changes_nothing() {
    let mut whole_parser = Parser::new();
    let mut whole = STREAM.to_vec();
    let in_one_pass = drain(&mut whole_parser, &mut whole);
    let mut parser = Parser::new();
    let mut buffer = Vec::new();
    let mut outcomes = Vec::new();
    for byte in STREAM {
        buffer.push(byte);
        outcomes.extend(drain(&mut parser, &mut buffer));
    }
    assert!(buffer.is_empty());
    assert_eq!(outcomes, in_one_pass);
    assert_eq!(parser.running_status(), whole_parser.running_status());
}

#[test]
fn an_unfinished_message_stays_in_the_buffer() {
    let mut parser = Parser::new();
    let mut buffer = vec![0x90, 0x3C, 0x40, 0x3E];
    let outcomes = drain(&mut parser, &mut buffer);
    assert_eq!(outcomes.len(), 1);
    assert_eq!(buffer, vec![0x3E]);
    let mut buffer = vec![0xF0, 0x01, 0xF8, 0x02];
    let outcomes = drain(&mut parser, &mut buffer);
    assert_eq!(outcomes.len(), 1);
    assert_eq!(buffer, vec![0xF0, 0x01, 0x02]);
    assert_eq!(parser.running_status(), Some(0x90));
}
