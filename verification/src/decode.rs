//! Instruction words: how one is read from memory, what its fields are, and
//! which instruction it encodes.

use vstd::prelude::*;

verus! {

/// The operand fields of an instruction word.
#[derive(Clone, Copy, Debug, PartialEq, Eq, Structural)]
pub struct Operands {
    /// Bits 8 to 11: a register index.
    pub X: usize,
    /// Bits 4 to 7: a register index.
    pub Y: usize,
    /// Bits 0 to 3: a small immediate.
    pub N: u8,
    /// Bits 0 to 7: a byte immediate.
    pub NN: u8,
    /// Bits 0 to 11: an address.
    pub NNN: u16,
}

/// The word whose high byte is `high` and whose low byte is `low`.
pub open spec fn word(high: u8, low: u8) -> u16 {
    (high as int * 256 + low as int) as u16
}

/// The register index X of an instruction word.
pub open spec fn field_x(opcode: u16) -> int {
    (opcode as int / 256) % 16
}

/// The register index Y of an instruction word.
pub open spec fn field_y(opcode: u16) -> int {
    (opcode as int / 16) % 16
}

/// The immediate N of an instruction word.
pub open spec fn field_n(opcode: u16) -> int {
    opcode as int % 16
}

/// The immediate NN of an instruction word.
pub open spec fn field_nn(opcode: u16) -> int {
    opcode as int % 256
}

/// The address NNN of an instruction word.
pub open spec fn field_nnn(opcode: u16) -> int {
    opcode as int % 4096
}

/// The instructions of the machine.
pub enum Instruction {
    /// 00E0
    ClearDisplay,
    /// 00EE
    Return,
    /// 1NNN
    Jump,
    /// 2NNN
    Call,
    /// 3XNN
    SkipIfEqual,
    /// 4XNN
    SkipIfNotEqual,
    /// 5XY0
    SkipIfSame,
    /// 6XNN
    Load,
    /// 7XNN
    Add,
    /// 8XY0
    Copy,
    /// 8XY1
    Or,
    /// 8XY2
    And,
    /// 8XY3
    Xor,
    /// 8XY4
    AddCarry,
    /// 8XY5
    Subtract,
    /// 8XY6
    ShiftRight,
    /// 8XY7
    SubtractFrom,
    /// 8XYE
    ShiftLeft,
    /// 9XY0
    SkipIfDifferent,
    /// ANNN
    Index,
    /// BNNN
    JumpOffset,
    /// CXNN
    Random,
    /// DXYN
    Draw,
    /// EX9E
    SkipIfKey,
    /// EXA1
    SkipIfNoKey,
    /// FX07
    ReadDelay,
    /// FX0A
    WaitKey,
    /// FX15
    SetDelay,
    /// FX18
    SetSound,
    /// FX1E
    AddIndex,
    /// FX29
    Glyph,
    /// FX33
    Decimal,
    /// FX55
    Store,
    /// FX65
    Restore,
}

/// The instruction that a word encodes, or `None` where it encodes none.
pub open spec fn classify(opcode: u16) -> Option<Instruction> {
    let family = opcode as int / 4096;
    let low = opcode as int % 16;
    let byte = opcode as int % 256;
    if opcode == 0x00E0 {
        Some(Instruction::ClearDisplay)
    } else if opcode == 0x00EE {
        Some(Instruction::Return)
    } else if family == 0x1 {
        Some(Instruction::Jump)
    } else if family == 0x2 {
        Some(Instruction::Call)
    } else if family == 0x3 {
        Some(Instruction::SkipIfEqual)
    } else if family == 0x4 {
        Some(Instruction::SkipIfNotEqual)
    } else if family == 0x5 && low == 0x0 {
        Some(Instruction::SkipIfSame)
    } else if family == 0x6 {
        Some(Instruction::Load)
    } else if family == 0x7 {
        Some(Instruction::Add)
    } else if family == 0x8 && low == 0x0 {
        Some(Instruction::Copy)
    } else if family == 0x8 && low == 0x1 {
        Some(Instruction::Or)
    } else if family == 0x8 && low == 0x2 {
        Some(Instruction::And)
    } else if family == 0x8 && low == 0x3 {
        Some(Instruction::Xor)
    } else if family == 0x8 && low == 0x4 {
        Some(Instruction::AddCarry)
    } else if family == 0x8 && low == 0x5 {
        Some(Instruction::Subtract)
    } else if family == 0x8 && low == 0x6 {
        Some(Instruction::ShiftRight)
    } else if family == 0x8 && low == 0x7 {
        Some(Instruction::SubtractFrom)
    } else if family == 0x8 && low == 0xE {
        Some(Instruction::ShiftLeft)
    } else if family == 0x9 && low == 0x0 {
        Some(Instruction::SkipIfDifferent)
    } else if family == 0xA {
        Some(Instruction::Index)
    } else if family == 0xB {
        Some(Instruction::JumpOffset)
    } else if family == 0xC {
        Some(Instruction::Random)
    } else if family == 0xD {
        Some(Instruction::Draw)
    } else if family == 0xE && byte == 0x9E {
        Some(Instruction::SkipIfKey)
    } else if family == 0xE && byte == 0xA1 {
        Some(Instruction::SkipIfNoKey)
    } else if family == 0xF && byte == 0x07 {
        Some(Instruction::ReadDelay)
    } else if family == 0xF && byte == 0x0A {
        Some(Instruction::WaitKey)
    } else if family == 0xF && byte == 0x15 {
        Some(Instruction::SetDelay)
    } else if family == 0xF && byte == 0x18 {
        Some(Instruction::SetSound)
    } else if family == 0xF && byte == 0x1E {
        Some(Instruction::AddIndex)
    } else if family == 0xF && byte == 0x29 {
        Some(Instruction::Glyph)
    } else if family == 0xF && byte == 0x33 {
        Some(Instruction::Decimal)
    } else if family == 0xF && byte == 0x55 {
        Some(Instruction::Store)
    } else if family == 0xF && byte == 0x65 {
        Some(Instruction::Restore)
    } else {
        None
    }
}

/// The fields of a 16-bit word, taken by shifts and masks, are its digits in
/// base 16.
pub proof fn lemma_fields(opcode: u16)
    by (bit_vector)
    ensures
        (opcode >> 8) & 0xF == (opcode / 256) % 16,
        (opcode >> 4) & 0xF == (opcode / 16) % 16,
        opcode & 0xF == opcode % 16,
        opcode & 0xFF == opcode % 256,
        opcode & 0xFFF == opcode % 4096,
        opcode >> 12 == opcode / 4096,
{
}

/// Agreement with a pattern on the bits of a mask, in terms of the digits of
/// the word in base 16.
proof fn lemma_masks(opcode: u16)
    by (bit_vector)
    ensures
        (opcode & 0xF000 == 0x1000) == (opcode / 4096 == 0x1),
        (opcode & 0xF000 == 0x2000) == (opcode / 4096 == 0x2),
        (opcode & 0xF000 == 0x3000) == (opcode / 4096 == 0x3),
        (opcode & 0xF000 == 0x4000) == (opcode / 4096 == 0x4),
        (opcode & 0xF00F == 0x5000) == (opcode / 4096 == 0x5 && opcode % 16 == 0x0),
        (opcode & 0xF000 == 0x6000) == (opcode / 4096 == 0x6),
        (opcode & 0xF000 == 0x7000) == (opcode / 4096 == 0x7),
        (opcode & 0xF00F == 0x8000) == (opcode / 4096 == 0x8 && opcode % 16 == 0x0),
        (opcode & 0xF00F == 0x8001) == (opcode / 4096 == 0x8 && opcode % 16 == 0x1),
        (opcode & 0xF00F == 0x8002) == (opcode / 4096 == 0x8 && opcode % 16 == 0x2),
        (opcode & 0xF00F == 0x8003) == (opcode / 4096 == 0x8 && opcode % 16 == 0x3),
        (opcode & 0xF00F == 0x8004) == (opcode / 4096 == 0x8 && opcode % 16 == 0x4),
        (opcode & 0xF00F == 0x8005) == (opcode / 4096 == 0x8 && opcode % 16 == 0x5),
        (opcode & 0xF00F == 0x8006) == (opcode / 4096 == 0x8 && opcode % 16 == 0x6),
        (opcode & 0xF00F == 0x8007) == (opcode / 4096 == 0x8 && opcode % 16 == 0x7),
        (opcode & 0xF00F == 0x800E) == (opcode / 4096 == 0x8 && opcode % 16 == 0xE),
        (opcode & 0xF00F == 0x9000) == (opcode / 4096 == 0x9 && opcode % 16 == 0x0),
        (opcode & 0xF000 == 0xA000) == (opcode / 4096 == 0xA),
        (opcode & 0xF000 == 0xB000) == (opcode / 4096 == 0xB),
        (opcode & 0xF000 == 0xC000) == (opcode / 4096 == 0xC),
        (opcode & 0xF000 == 0xD000) == (opcode / 4096 == 0xD),
        (opcode & 0xF0FF == 0xE09E) == (opcode / 4096 == 0xE && opcode % 256 == 0x9E),
        (opcode & 0xF0FF == 0xE0A1) == (opcode / 4096 == 0xE && opcode % 256 == 0xA1),
        (opcode & 0xF0FF == 0xF007) == (opcode / 4096 == 0xF && opcode % 256 == 0x07),
        (opcode & 0xF0FF == 0xF00A) == (opcode / 4096 == 0xF && opcode % 256 == 0x0A),
        (opcode & 0xF0FF == 0xF015) == (opcode / 4096 == 0xF && opcode % 256 == 0x15),
        (opcode & 0xF0FF == 0xF018) == (opcode / 4096 == 0xF && opcode % 256 == 0x18),
        (opcode & 0xF0FF == 0xF01E) == (opcode / 4096 == 0xF && opcode % 256 == 0x1E),
        (opcode & 0xF0FF == 0xF029) == (opcode / 4096 == 0xF && opcode % 256 == 0x29),
        (opcode & 0xF0FF == 0xF033) == (opcode / 4096 == 0xF && opcode % 256 == 0x33),
        (opcode & 0xF0FF == 0xF055) == (opcode / 4096 == 0xF && opcode % 256 == 0x55),
        (opcode & 0xF0FF == 0xF065) == (opcode / 4096 == 0xF && opcode % 256 == 0x65),
{
}

/// The encoding of each instruction as a mask and a value: a word encodes the
/// instruction exactly where it agrees with the value on the bits of the
/// mask. The bits outside the mask are the operand fields.
pub proof fn lemma_encoding(opcode: u16)
    ensures
        classify(opcode) == Some(Instruction::ClearDisplay) <==> opcode == 0x00E0,
        classify(opcode) == Some(Instruction::Return) <==> opcode == 0x00EE,
        classify(opcode) == Some(Instruction::Jump) <==> opcode & 0xF000 == 0x1000,
        classify(opcode) == Some(Instruction::Call) <==> opcode & 0xF000 == 0x2000,
        classify(opcode) == Some(Instruction::SkipIfEqual) <==> opcode & 0xF000 == 0x3000,
        classify(opcode) == Some(Instruction::SkipIfNotEqual) <==> opcode & 0xF000 == 0x4000,
        classify(opcode) == Some(Instruction::SkipIfSame) <==> opcode & 0xF00F == 0x5000,
        classify(opcode) == Some(Instruction::Load) <==> opcode & 0xF000 == 0x6000,
        classify(opcode) == Some(Instruction::Add) <==> opcode & 0xF000 == 0x7000,
        classify(opcode) == Some(Instruction::Copy) <==> opcode & 0xF00F == 0x8000,
        classify(opcode) == Some(Instruction::Or) <==> opcode & 0xF00F == 0x8001,
        classify(opcode) == Some(Instruction::And) <==> opcode & 0xF00F == 0x8002,
        classify(opcode) == Some(Instruction::Xor) <==> opcode & 0xF00F == 0x8003,
        classify(opcode) == Some(Instruction::AddCarry) <==> opcode & 0xF00F == 0x8004,
        classify(opcode) == Some(Instruction::Subtract) <==> opcode & 0xF00F == 0x8005,
        classify(opcode) == Some(Instruction::ShiftRight) <==> opcode & 0xF00F == 0x8006,
        classify(opcode) == Some(Instruction::SubtractFrom) <==> opcode & 0xF00F == 0x8007,
        classify(opcode) == Some(Instruction::ShiftLeft) <==> opcode & 0xF00F == 0x800E,
        classify(opcode) == Some(Instruction::SkipIfDifferent) <==> opcode & 0xF00F == 0x9000,
        classify(opcode) == Some(Instruction::Index) <==> opcode & 0xF000 == 0xA000,
        classify(opcode) == Some(Instruction::JumpOffset) <==> opcode & 0xF000 == 0xB000,
        classify(opcode) == Some(Instruction::Random) <==> opcode & 0xF000 == 0xC000,
        classify(opcode) == Some(Instruction::Draw) <==> opcode & 0xF000 == 0xD000,
        classify(opcode) == Some(Instruction::SkipIfKey) <==> opcode & 0xF0FF == 0xE09E,
        classify(opcode) == Some(Instruction::SkipIfNoKey) <==> opcode & 0xF0FF == 0xE0A1,
        classify(opcode) == Some(Instruction::ReadDelay) <==> opcode & 0xF0FF == 0xF007,
        classify(opcode) == Some(Instruction::WaitKey) <==> opcode & 0xF0FF == 0xF00A,
        classify(opcode) == Some(Instruction::SetDelay) <==> opcode & 0xF0FF == 0xF015,
        classify(opcode) == Some(Instruction::SetSound) <==> opcode & 0xF0FF == 0xF018,
        classify(opcode) == Some(Instruction::AddIndex) <==> opcode & 0xF0FF == 0xF01E,
        classify(opcode) == Some(Instruction::Glyph) <==> opcode & 0xF0FF == 0xF029,
        classify(opcode) == Some(Instruction::Decimal) <==> opcode & 0xF0FF == 0xF033,
        classify(opcode) == Some(Instruction::Store) <==> opcode & 0xF0FF == 0xF055,
        classify(opcode) == Some(Instruction::Restore) <==> opcode & 0xF0FF == 0xF065,
{
    lemma_masks(opcode);
}

impl Operands {
    /// The fields of `opcode` as a mathematical value.
    pub open spec fn of(opcode: u16) -> Operands {
        Operands {
            X: field_x(opcode) as usize,
            Y: field_y(opcode) as usize,
            N: field_n(opcode) as u8,
            NN: field_nn(opcode) as u8,
            NNN: field_nnn(opcode) as u16,
        }
    }

    /// Splits an instruction word into its operand fields.
    pub fn from(opcode: u16) -> (operands: Operands)
        ensures
            operands == Operands::of(opcode),
            operands.X < 16,
            operands.Y < 16,
            operands.N < 16,
            operands.NNN < 4096,
    {
        proof {
            lemma_fields(opcode);
        }
        Operands {
            X: ((opcode >> 8) & 0xF) as usize,
            Y: ((opcode >> 4) & 0xF) as usize,
            N: (opcode & 0xF) as u8,
            NN: (opcode & 0xFF) as u8,
            NNN: opcode & 0xFFF,
        }
    }
}

} // verus!
