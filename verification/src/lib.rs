//! An incremental parser for the MIDI 1.0 serial byte protocol.
//!
//! Bytes arrive in fragments of any size. [`parser::Parser::parse`] takes what
//! has arrived so far and reports one message, one anomaly in the stream, or
//! that the message at the head of the buffer is not all there yet.
//! [`protocol`] says, as functions on byte sequences, what each call reports,
//! and [`stream`] what a run of calls over a buffer adds up to.

pub mod assert_from;
pub mod helper_methods;
pub mod message;
pub mod parser;
pub mod protocol;
pub mod stream;
