//! Machine parameters, fixed when a machine is built.

use crate::model::{FONT_SIZE, MEMORY_SIZE};
use vstd::prelude::*;

verus! {

#[derive(Debug, Clone, Copy)]
pub struct Chip8Config {
    /// How many instruction cycles run per second of delivered time.
    pub instructions_per_second: usize,
    /// The address a program is loaded at, and where execution starts.
    pub program_start: usize,
    /// Sixteen glyphs of `FONT_CHAR_SIZE` bytes each, for the digits 0 to F.
    pub font: [u8; FONT_SIZE],
    /// The address the font is copied to.
    pub font_start: usize,
    /// Shifts take their operand from VY instead of VX.
    pub copy_vy_while_shifting: bool,
    /// Register save and load leave the index register past the last byte.
    pub increment_index_during_save_load: bool,
    /// Adding to the index register sets VF when it leaves the address space.
    pub index_overflow_flag: bool,
}

impl Chip8Config {
    pub const INSTRUCTIONS_PER_SECOND: usize = 700;

    pub const PROGRAM_START: usize = 0x200;

    /// In bytes
    pub const FONT_CHAR_SIZE: usize = 5;

    pub const DEFAULT_FONT: [u8; FONT_SIZE] = [
        0xF0, 0x90, 0x90, 0x90, 0xF0,  // 0
        0x20, 0x60, 0x20, 0x20, 0x70,  // 1
        0xF0, 0x10, 0xF0, 0x80, 0xF0,  // 2
        0xF0, 0x10, 0xF0, 0x10, 0xF0,  // 3
        0x90, 0x90, 0xF0, 0x10, 0x10,  // 4
        0xF0, 0x80, 0xF0, 0x10, 0xF0,  // 5
        0xF0, 0x80, 0xF0, 0x90, 0xF0,  // 6
        0xF0, 0x10, 0x20, 0x40, 0x40,  // 7
        0xF0, 0x90, 0xF0, 0x90, 0xF0,  // 8
        0xF0, 0x90, 0xF0, 0x10, 0xF0,  // 9
        0xF0, 0x90, 0xF0, 0x90, 0x90,  // A
        0xE0, 0x90, 0xE0, 0x90, 0xE0,  // B
        0xF0, 0x80, 0x80, 0x80, 0xF0,  // C
        0xE0, 0x90, 0x90, 0x90, 0xE0,  // D
        0xF0, 0x80, 0xF0, 0x80, 0xF0,  // E
        0xF0, 0x80, 0xF0, 0x80, 0x80,  // F
    ];

    pub const FONT_START: usize = 0x050;

    /// A configuration that a machine can be built from: the clock rate is
    /// not zero, the font fits into memory at `font_start`, and its first
    /// byte is the top row of the glyph for zero.
    pub open spec fn valid(&self) -> bool {
        &&& self.instructions_per_second > 0
        &&& self.font_start + FONT_SIZE <= MEMORY_SIZE
        &&& self.font[0] == 0xF0
    }
}

impl Chip8Config {
    /// Whether a machine can be built from this configuration.
    pub fn is_valid(&self) -> (ok: bool)
        ensures
            ok == self.valid(),
    {
        self.instructions_per_second > 0 && self.font_start <= MEMORY_SIZE - FONT_SIZE
            && self.font[0] == 0xF0
    }
}

impl Default for Chip8Config {
    fn default() -> (c: Self)
        ensures
            c == (Chip8Config {
                instructions_per_second: 700,
                program_start: 0x200,
                font: Chip8Config::DEFAULT_FONT,
                font_start: 0x050,
                copy_vy_while_shifting: false,
                increment_index_during_save_load: false,
                index_overflow_flag: false,
            }),
            c.valid(),
    {
        Self {
            instructions_per_second: Self::INSTRUCTIONS_PER_SECOND,
            program_start: Self::PROGRAM_START,
            font: Self::DEFAULT_FONT,
            font_start: Self::FONT_START,
            copy_vy_while_shifting: false,
            increment_index_during_save_load: false,
            index_overflow_flag: false,
        }
    }
}

} // verus!
