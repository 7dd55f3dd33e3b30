//! Instructions, and the two bytes that stand for each.

use vstd::prelude::*;

verus! {

/// One decoded instruction. `x` and `y` name registers, `nn` is a byte,
/// `nnn` an address and `n` a row count.
#[derive(Debug, Clone, Copy, PartialEq, Eq, Structural)]
pub enum Instruction {
    /// 00E0
    ClearScreen,
    /// 00EE
    Return,
    /// 1NNN
    Jump { nnn: u16 },
    /// 2NNN
    Call { nnn: u16 },
    /// 3XNN
    SkipIfEqual { x: u8, nn: u8 },
    /// 4XNN
    SkipIfNotEqual { x: u8, nn: u8 },
    /// 5XY0
    SkipIfRegistersEqual { x: u8, y: u8 },
    /// 6XNN
    Load { x: u8, nn: u8 },
    /// 7XNN
    AddImmediate { x: u8, nn: u8 },
    /// 8XY0
    Move { x: u8, y: u8 },
    /// 8XY1
    Or { x: u8, y: u8 },
    /// 8XY2
    And { x: u8, y: u8 },
    /// 8XY3
    Xor { x: u8, y: u8 },
    /// 8XY4
    Add { x: u8, y: u8 },
    /// 8XY5
    Subtract { x: u8, y: u8 },
    /// 8XY6
    ShiftRight { x: u8, y: u8 },
    /// 8XY7
    SubtractFrom { x: u8, y: u8 },
    /// 8XYE
    ShiftLeft { x: u8, y: u8 },
    /// 9XY0
    SkipIfRegistersDiffer { x: u8, y: u8 },
    /// ANNN
    SetIndex { nnn: u16 },
    /// BNNN
    JumpOffset { nnn: u16 },
    /// CXNN
    Random { x: u8, nn: u8 },
    /// DXYN
    Draw { x: u8, y: u8, n: u8 },
    /// EX9E
    SkipIfKeyDown { x: u8 },
    /// EXA1
    SkipIfKeyUp { x: u8 },
    /// FX07
    ReadDelay { x: u8 },
    /// FX0A
    WaitKey { x: u8 },
    /// FX15
    SetDelay { x: u8 },
    /// FX18
    SetSound { x: u8 },
    /// FX1E
    AddIndex { x: u8 },
    /// FX29
    FontGlyph { x: u8 },
    /// FX33
    Decimal { x: u8 },
    /// FX55
    Save { x: u8 },
    /// FX65
    Restore { x: u8 },
}

impl Instruction {
    /// Whether the operands are in range: register numbers and row counts
    /// are single hex digits, addresses have twelve bits.
    pub open spec fn wf(self) -> bool {
        match self {
            Instruction::ClearScreen => true,
            Instruction::Return => true,
            Instruction::Jump { nnn } => nnn < 0x1000,
            Instruction::Call { nnn } => nnn < 0x1000,
            Instruction::SkipIfEqual { x, nn } => x < 16,
            Instruction::SkipIfNotEqual { x, nn } => x < 16,
            Instruction::SkipIfRegistersEqual { x, y } => x < 16 && y < 16,
            Instruction::Load { x, nn } => x < 16,
            Instruction::AddImmediate { x, nn } => x < 16,
            Instruction::Move { x, y } => x < 16 && y < 16,
            Instruction::Or { x, y } => x < 16 && y < 16,
            Instruction::And { x, y } => x < 16 && y < 16,
            Instruction::Xor { x, y } => x < 16 && y < 16,
            Instruction::Add { x, y } => x < 16 && y < 16,
            Instruction::Subtract { x, y } => x < 16 && y < 16,
            Instruction::ShiftRight { x, y } => x < 16 && y < 16,
            Instruction::SubtractFrom { x, y } => x < 16 && y < 16,
            Instruction::ShiftLeft { x, y } => x < 16 && y < 16,
            Instruction::SkipIfRegistersDiffer { x, y } => x < 16 && y < 16,
            Instruction::SetIndex { nnn } => nnn < 0x1000,
            Instruction::JumpOffset { nnn } => nnn < 0x1000,
            Instruction::Random { x, nn } => x < 16,
            Instruction::Draw { x, y, n } => x < 16 && y < 16 && n < 16,
            Instruction::SkipIfKeyDown { x } => x < 16,
            Instruction::SkipIfKeyUp { x } => x < 16,
            Instruction::ReadDelay { x } => x < 16,
            Instruction::WaitKey { x } => x < 16,
            Instruction::SetDelay { x } => x < 16,
            Instruction::SetSound { x } => x < 16,
            Instruction::AddIndex { x } => x < 16,
            Instruction::FontGlyph { x } => x < 16,
            Instruction::Decimal { x } => x < 16,
            Instruction::Save { x } => x < 16,
            Instruction::Restore { x } => x < 16,
        }
    }

    /// The byte pair that stands for the instruction, as its two bytes
    /// `(hi, lo)`.
    pub open spec fn encode(self) -> (u8, u8) {
        match self {
            Instruction::ClearScreen => (0x00, 0xE0),
            Instruction::Return => (0x00, 0xEE),
            Instruction::Jump { nnn } => ((0x10 + nnn / 256) as u8, (nnn % 256) as u8),
            Instruction::Call { nnn } => ((0x20 + nnn / 256) as u8, (nnn % 256) as u8),
            Instruction::SkipIfEqual { x, nn } => ((0x30 + x) as u8, nn),
            Instruction::SkipIfNotEqual { x, nn } => ((0x40 + x) as u8, nn),
            Instruction::SkipIfRegistersEqual { x, y } => ((0x50 + x) as u8, (16 * y) as u8),
            Instruction::Load { x, nn } => ((0x60 + x) as u8, nn),
            Instruction::AddImmediate { x, nn } => ((0x70 + x) as u8, nn),
            Instruction::Move { x, y } => ((0x80 + x) as u8, (16 * y + 0x0) as u8),
            Instruction::Or { x, y } => ((0x80 + x) as u8, (16 * y + 0x1) as u8),
            Instruction::And { x, y } => ((0x80 + x) as u8, (16 * y + 0x2) as u8),
            Instruction::Xor { x, y } => ((0x80 + x) as u8, (16 * y + 0x3) as u8),
            Instruction::Add { x, y } => ((0x80 + x) as u8, (16 * y + 0x4) as u8),
            Instruction::Subtract { x, y } => ((0x80 + x) as u8, (16 * y + 0x5) as u8),
            Instruction::ShiftRight { x, y } => ((0x80 + x) as u8, (16 * y + 0x6) as u8),
            Instruction::SubtractFrom { x, y } => ((0x80 + x) as u8, (16 * y + 0x7) as u8),
            Instruction::ShiftLeft { x, y } => ((0x80 + x) as u8, (16 * y + 0xE) as u8),
            Instruction::SkipIfRegistersDiffer { x, y } => ((0x90 + x) as u8, (16 * y) as u8),
            Instruction::SetIndex { nnn } => ((0xA0 + nnn / 256) as u8, (nnn % 256) as u8),
            Instruction::JumpOffset { nnn } => ((0xB0 + nnn / 256) as u8, (nnn % 256) as u8),
            Instruction::Random { x, nn } => ((0xC0 + x) as u8, nn),
            Instruction::Draw { x, y, n } => ((0xD0 + x) as u8, (16 * y + n) as u8),
            Instruction::SkipIfKeyDown { x } => ((0xE0 + x) as u8, 0x9E),
            Instruction::SkipIfKeyUp { x } => ((0xE0 + x) as u8, 0xA1),
            Instruction::ReadDelay { x } => ((0xF0 + x) as u8, 0x07),
            Instruction::WaitKey { x } => ((0xF0 + x) as u8, 0x0A),
            Instruction::SetDelay { x } => ((0xF0 + x) as u8, 0x15),
            Instruction::SetSound { x } => ((0xF0 + x) as u8, 0x18),
            Instruction::AddIndex { x } => ((0xF0 + x) as u8, 0x1E),
            Instruction::FontGlyph { x } => ((0xF0 + x) as u8, 0x29),
            Instruction::Decimal { x } => ((0xF0 + x) as u8, 0x33),
            Instruction::Save { x } => ((0xF0 + x) as u8, 0x55),
            Instruction::Restore { x } => ((0xF0 + x) as u8, 0x65),
        }
    }
}

/// The instruction that the bytes `hi lo` encode, if they encode one. With
/// the four hex digits of the pair written `n0 n1 n2 n3`: X is `n1`, Y is
/// `n2`, N is `n3`, NN is `lo`, and NNN is the low twelve bits.
///
/// The first digit picks the family. The families 0, 8, E and F have
/// several members, told apart by further digits. A digit that an
/// instruction fixes must be as written: 5XY0 and 9XY0 end in 0, and a
/// byte pair that fits no instruction encodes none.
pub open spec fn decode(hi: u8, lo: u8) -> Option<Instruction> {
    let x = hi % 16;
    let y = lo / 16;
    let n = lo % 16;
    let nn = lo;
    let nnn = (x * 256 + lo) as u16;
    match hi / 16 {
        0x0 => if hi == 0x00 && lo == 0xE0 {
            Some(Instruction::ClearScreen)
        } else if hi == 0x00 && lo == 0xEE {
            Some(Instruction::Return)
        } else {
            None
        },
        0x1 => Some(Instruction::Jump { nnn }),
        0x2 => Some(Instruction::Call { nnn }),
        0x3 => Some(Instruction::SkipIfEqual { x, nn }),
        0x4 => Some(Instruction::SkipIfNotEqual { x, nn }),
        0x5 => if n == 0 {
            Some(Instruction::SkipIfRegistersEqual { x, y })
        } else {
            None
        },
        0x6 => Some(Instruction::Load { x, nn }),
        0x7 => Some(Instruction::AddImmediate { x, nn }),
        0x8 => match n {
            0x0 => Some(Instruction::Move { x, y }),
            0x1 => Some(Instruction::Or { x, y }),
            0x2 => Some(Instruction::And { x, y }),
            0x3 => Some(Instruction::Xor { x, y }),
            0x4 => Some(Instruction::Add { x, y }),
            0x5 => Some(Instruction::Subtract { x, y }),
            0x6 => Some(Instruction::ShiftRight { x, y }),
            0x7 => Some(Instruction::SubtractFrom { x, y }),
            0xE => Some(Instruction::ShiftLeft { x, y }),
            _ => None,
        },
        0x9 => if n == 0 {
            Some(Instruction::SkipIfRegistersDiffer { x, y })
        } else {
            None
        },
        0xA => Some(Instruction::SetIndex { nnn }),
        0xB => Some(Instruction::JumpOffset { nnn }),
        0xC => Some(Instruction::Random { x, nn }),
        0xD => Some(Instruction::Draw { x, y, n }),
        0xE => match lo {
            0x9E => Some(Instruction::SkipIfKeyDown { x }),
            0xA1 => Some(Instruction::SkipIfKeyUp { x }),
            _ => None,
        },
        _ => match lo {
            0x07 => Some(Instruction::ReadDelay { x }),
            0x0A => Some(Instruction::WaitKey { x }),
            0x15 => Some(Instruction::SetDelay { x }),
            0x18 => Some(Instruction::SetSound { x }),
            0x1E => Some(Instruction::AddIndex { x }),
            0x29 => Some(Instruction::FontGlyph { x }),
            0x33 => Some(Instruction::Decimal { x }),
            0x55 => Some(Instruction::Save { x }),
            0x65 => Some(Instruction::Restore { x }),
            _ => None,
        },
    }
}

/// The high and the low hex digit of `byte`.
pub fn nibbles(byte: u8) -> (digits: (u8, u8))
    ensures
        digits.0 == byte / 16,
        digits.1 == byte % 16,
{
    assert(byte >> 4 == byte / 16) by (bit_vector);
    assert(byte & 0x0F == byte % 16) by (bit_vector);
    (byte >> 4, byte & 0x0F)
}

/// The twelve-bit address whose top hex digit is `digit` and whose low
/// byte is `lo`.
pub fn address(digit: u8, lo: u8) -> (nnn: u16)
    requires
        digit < 16,
    ensures
        nnn == digit * 256 + lo,
{
    let high = digit as u16;
    let low = lo as u16;
    assert((high << 8) | low == high * 256 + low) by (bit_vector)
        requires
            high < 16,
            low < 256,
    ;
    (high << 8) | low
}

impl Instruction {
    /// Decodes the byte pair `hi lo`. `None` means that the pair encodes
    /// no instruction.
    pub fn decode(hi: u8, lo: u8) -> (instruction: Option<Instruction>)
        ensures
            instruction == decode(hi, lo),
            instruction matches Some(i) ==> i.wf(),
    {
        let (n0, x) = nibbles(hi);
        let (y, n) = nibbles(lo);
        let nn = lo;
        let nnn = address(x, lo);
        match n0 {
            0x0 => if hi == 0x00 && lo == 0xE0 {
                Some(Instruction::ClearScreen)
            } else if hi == 0x00 && lo == 0xEE {
                Some(Instruction::Return)
            } else {
                None
            },
            0x1 => Some(Instruction::Jump { nnn }),
            0x2 => Some(Instruction::Call { nnn }),
            0x3 => Some(Instruction::SkipIfEqual { x, nn }),
            0x4 => Some(Instruction::SkipIfNotEqual { x, nn }),
            0x5 => if n == 0 {
                Some(Instruction::SkipIfRegistersEqual { x, y })
            } else {
                None
            },
            0x6 => Some(Instruction::Load { x, nn }),
            0x7 => Some(Instruction::AddImmediate { x, nn }),
            0x8 => match n {
                0x0 => Some(Instruction::Move { x, y }),
                0x1 => Some(Instruction::Or { x, y }),
                0x2 => Some(Instruction::And { x, y }),
                0x3 => Some(Instruction::Xor { x, y }),
                0x4 => Some(Instruction::Add { x, y }),
                0x5 => Some(Instruction::Subtract { x, y }),
                0x6 => Some(Instruction::ShiftRight { x, y }),
                0x7 => Some(Instruction::SubtractFrom { x, y }),
                0xE => Some(Instruction::ShiftLeft { x, y }),
                _ => None,
            },
            0x9 => if n == 0 {
                Some(Instruction::SkipIfRegistersDiffer { x, y })
            } else {
                None
            },
            0xA => Some(Instruction::SetIndex { nnn }),
            0xB => Some(Instruction::JumpOffset { nnn }),
            0xC => Some(Instruction::Random { x, nn }),
            0xD => Some(Instruction::Draw { x, y, n }),
            0xE => match lo {
                0x9E => Some(Instruction::SkipIfKeyDown { x }),
                0xA1 => Some(Instruction::SkipIfKeyUp { x }),
                _ => None,
            },
            _ => match lo {
                0x07 => Some(Instruction::ReadDelay { x }),
                0x0A => Some(Instruction::WaitKey { x }),
                0x15 => Some(Instruction::SetDelay { x }),
                0x18 => Some(Instruction::SetSound { x }),
                0x1E => Some(Instruction::AddIndex { x }),
                0x29 => Some(Instruction::FontGlyph { x }),
                0x33 => Some(Instruction::Decimal { x }),
                0x55 => Some(Instruction::Save { x }),
                0x65 => Some(Instruction::Restore { x }),
                _ => None,
            },
        }
    }
}

} // verus!
