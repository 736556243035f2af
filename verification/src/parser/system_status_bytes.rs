//! The status bytes of the system messages other than the real-time ones.

use vstd::prelude::*;

verus! {

pub const SYSTEM_EXCLUSIVE: u8 = 0xF0;

pub const SYSTEM_COMMON_MIDI_TIME_QUARTER_FRAME: u8 = 0xF1;

pub const SYSTEM_COMMON_SONG_POSITION_POINTER: u8 = 0xF2;

pub const SYSTEM_COMMON_SONG_SELECT: u8 = 0xF3;

pub const SYSTEM_COMMON_UNDEFINED_1: u8 = 0xF4;

pub const SYSTEM_COMMON_UNDEFINED_2: u8 = 0xF5;

pub const SYSTEM_COMMON_TUNE_REQUEST: u8 = 0xF6;

pub const SYSTEM_END_OF_SYSTEM_EXCLUSIVE_FLAG: u8 = 0xF7;

} // verus!
