//! The faults an instruction cycle can raise, and how they read.

use vstd::prelude::*;
use vstd::string::StringExecFns;

verus! {

/// A fault raised in place of executing an instruction. `pc` is the address
/// of the faulting instruction itself; the nibbles are its four hex digits.
#[derive(Debug, Clone, Copy, PartialEq, Eq, Structural)]
pub enum Chip8Error {
    InvalidInstruction { pc: usize, nibble_0: u8, nibble_1: u8, nibble_2: u8, nibble_3: u8 },
    PopEmptyStack { pc: usize, nibble_0: u8, nibble_1: u8, nibble_2: u8, nibble_3: u8 },
}

/// The upper-case hex digit for `d`, which is below 16.
pub open spec fn hex_digit(d: nat) -> char {
    if d == 0 {
        '0'
    } else if d == 1 {
        '1'
    } else if d == 2 {
        '2'
    } else if d == 3 {
        '3'
    } else if d == 4 {
        '4'
    } else if d == 5 {
        '5'
    } else if d == 6 {
        '6'
    } else if d == 7 {
        '7'
    } else if d == 8 {
        '8'
    } else if d == 9 {
        '9'
    } else if d == 10 {
        'A'
    } else if d == 11 {
        'B'
    } else if d == 12 {
        'C'
    } else if d == 13 {
        'D'
    } else if d == 14 {
        'E'
    } else {
        'F'
    }
}

/// `n` in upper-case hex, without leading zeros; zero is "0".
pub open spec fn hex(n: nat) -> Seq<char>
    decreases n,
{
    if n < 16 {
        seq![hex_digit(n)]
    } else {
        hex(n / 16).push(hex_digit(n % 16))
    }
}

/// `n` in upper-case hex, with zeros in front up to three digits.
pub open spec fn hex3(n: nat) -> Seq<char> {
    if n < 0x10 {
        seq!['0', '0'] + hex(n)
    } else if n < 0x100 {
        seq!['0'] + hex(n)
    } else {
        hex(n)
    }
}

impl Chip8Error {
    /// The fault as a line of text: where it happened, what happened, and
    /// the four hex digits of the instruction.
    pub open spec fn message_text(self) -> Seq<char> {
        match self {
            Chip8Error::InvalidInstruction { pc, nibble_0, nibble_1, nibble_2, nibble_3 } => {
                "[pc = "@ + hex3(pc as nat) + "]; Illegal instruction: "@ + hex(nibble_0 as nat)
                    + hex(nibble_1 as nat) + hex(nibble_2 as nat) + hex(nibble_3 as nat)
            },
            Chip8Error::PopEmptyStack { pc, nibble_0, nibble_1, nibble_2, nibble_3 } => {
                "[pc = "@ + hex3(pc as nat) + "]; Tried to pop an empty stack: "@ + hex(
                    nibble_0 as nat,
                ) + hex(nibble_1 as nat) + hex(nibble_2 as nat) + hex(nibble_3 as nat)
            },
        }
    }

    /// The fault as a line of text.
    pub fn message(&self) -> (text: String)
        ensures
            text@ == self.message_text(),
    {
        let mut text = String::new();
        match *self {
            Chip8Error::InvalidInstruction { pc, nibble_0, nibble_1, nibble_2, nibble_3 } => {
                text.append("[pc = ");
                append_hex3(&mut text, pc);
                text.append("]; Illegal instruction: ");
                append_hex(&mut text, nibble_0 as usize);
                append_hex(&mut text, nibble_1 as usize);
                append_hex(&mut text, nibble_2 as usize);
                append_hex(&mut text, nibble_3 as usize);
            },
            Chip8Error::PopEmptyStack { pc, nibble_0, nibble_1, nibble_2, nibble_3 } => {
                text.append("[pc = ");
                append_hex3(&mut text, pc);
                text.append("]; Tried to pop an empty stack: ");
                append_hex(&mut text, nibble_0 as usize);
                append_hex(&mut text, nibble_1 as usize);
                append_hex(&mut text, nibble_2 as usize);
                append_hex(&mut text, nibble_3 as usize);
            },
        }
        text
    }
}

/// The hex digit for `d` as a string of one character.
fn hex_digit_str(d: usize) -> (digit: &'static str)
    requires
        d < 16,
    ensures
        digit@ == seq![hex_digit(d as nat)],
{
    proof {
        reveal_strlit("0");
        reveal_strlit("1");
        reveal_strlit("2");
        reveal_strlit("3");
        reveal_strlit("4");
        reveal_strlit("5");
        reveal_strlit("6");
        reveal_strlit("7");
        reveal_strlit("8");
        reveal_strlit("9");
        reveal_strlit("A");
        reveal_strlit("B");
        reveal_strlit("C");
        reveal_strlit("D");
        reveal_strlit("E");
        reveal_strlit("F");
    }
    match d {
        0 => "0",
        1 => "1",
        2 => "2",
        3 => "3",
        4 => "4",
        5 => "5",
        6 => "6",
        7 => "7",
        8 => "8",
        9 => "9",
        10 => "A",
        11 => "B",
        12 => "C",
        13 => "D",
        14 => "E",
        _ => "F",
    }
}

/// Appends `n` in hex to `text`.
fn append_hex(text: &mut String, n: usize)
    ensures
        final(text)@ == old(text)@ + hex(n as nat),
    decreases n,
{
    if n >= 16 {
        append_hex(text, n / 16);
    }
    text.append(hex_digit_str(n % 16));
}

/// Appends `n` in hex to `text`, padded with zeros to three digits.
fn append_hex3(text: &mut String, n: usize)
    ensures
        final(text)@ == old(text)@ + hex3(n as nat),
{
    proof {
        reveal_strlit("0");
        reveal_strlit("00");
    }
    if n < 0x10 {
        text.append("00");
    } else if n < 0x100 {
        text.append("0");
    }
    append_hex(text, n);
}

} // verus!
