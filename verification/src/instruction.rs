//! Instruction words: their operand fields and the operation they select.
use vstd::prelude::*;

verus! {

/// The operand fields of one 16-bit instruction word.
///
/// Every word has all six fields, whether or not it selects an operation;
/// the fields overlap (`nn` is `y` and `n` together, `nnn` is `x` and `nn`).
#[derive(Clone, Copy, Debug, PartialEq, Eq, Structural)]
pub struct Instruction {
    /// The opcode class: the most significant nibble.
    pub class: u8,
    /// The first register selector: the second nibble.
    pub x: usize,
    /// The second register selector: the third nibble.
    pub y: usize,
    /// The immediate nibble: the least significant nibble.
    pub n: u8,
    /// The immediate byte: the low byte.
    pub nn: u8,
    /// The immediate address: the low twelve bits.
    pub nnn: usize,
}

/// The operations of the instruction set, and `Unknown` for every word that
/// selects none of them.
#[derive(Clone, Copy, Debug, PartialEq, Eq, Structural)]
pub enum Operation {
    ClearScreen,
    Return,
    Jump,
    Call,
    SkipIfEqualImmediate,
    SkipIfNotEqualImmediate,
    SkipIfEqualRegister,
    LoadImmediate,
    AddImmediate,
    Copy,
    Or,
    And,
    Xor,
    AddRegister,
    SubtractRegister,
    ShiftRight,
    SubtractFromRegister,
    ShiftLeft,
    SkipIfNotEqualRegister,
    LoadIndex,
    JumpOffset,
    Random,
    Draw,
    SkipIfKeyDown,
    SkipIfKeyUp,
    ReadDelayTimer,
    WaitForKey,
    SetDelayTimer,
    SetSoundTimer,
    AddToIndex,
    FontGlyph,
    StoreDecimal,
    StoreRegisters,
    LoadRegisters,
    Unknown,
}

impl Instruction {
    /// The fields of `opcode`, by position: each nibble is a base-16 digit of
    /// the word.
    pub open spec fn of(opcode: u16) -> Instruction {
        Instruction {
            class: (opcode / 0x1000) as u8,
            x: ((opcode / 0x100) % 0x10) as usize,
            y: ((opcode / 0x10) % 0x10) as usize,
            n: (opcode % 0x10) as u8,
            nn: (opcode % 0x100) as u8,
            nnn: (opcode % 0x1000) as usize,
        }
    }

    /// Splits an instruction word into its fields. Total: every word decodes.
    pub fn decode(opcode: u16) -> (ins: Instruction)
        ensures
            ins == Instruction::of(opcode),
    {
        assert(opcode >> 12 == opcode / 0x1000 && (opcode >> 8) & 0xF == (opcode / 0x100) % 0x10
            && (opcode >> 4) & 0xF == (opcode / 0x10) % 0x10 && opcode & 0xF == opcode % 0x10
            && opcode & 0xFF == opcode % 0x100 && opcode & 0xFFF == opcode % 0x1000)
            by (bit_vector);
        Instruction {
            class: (opcode >> 12) as u8,
            x: ((opcode >> 8) & 0xF) as usize,
            y: ((opcode >> 4) & 0xF) as usize,
            n: (opcode & 0xF) as u8,
            nn: (opcode & 0xFF) as u8,
            nnn: (opcode & 0xFFF) as usize,
        }
    }

    /// The operation that the fields select.
    ///
    /// The class alone decides, except in four classes: class 0 looks at the
    /// whole word, class 8 at the low nibble, classes E and F at the low byte.
    pub open spec fn operation(self) -> Operation {
        if self.class == 0x0 {
            if self.nnn == 0x0E0 {
                Operation::ClearScreen
            } else if self.nnn == 0x0EE {
                Operation::Return
            } else {
                Operation::Unknown
            }
        } else if self.class == 0x1 {
            Operation::Jump
        } else if self.class == 0x2 {
            Operation::Call
        } else if self.class == 0x3 {
            Operation::SkipIfEqualImmediate
        } else if self.class == 0x4 {
            Operation::SkipIfNotEqualImmediate
        } else if self.class == 0x5 {
            Operation::SkipIfEqualRegister
        } else if self.class == 0x6 {
            Operation::LoadImmediate
        } else if self.class == 0x7 {
            Operation::AddImmediate
        } else if self.class == 0x8 {
            if self.n == 0x0 {
                Operation::Copy
            } else if self.n == 0x1 {
                Operation::Or
            } else if self.n == 0x2 {
                Operation::And
            } else if self.n == 0x3 {
                Operation::Xor
            } else if self.n == 0x4 {
                Operation::AddRegister
            } else if self.n == 0x5 {
                Operation::SubtractRegister
            } else if self.n == 0x6 {
                Operation::ShiftRight
            } else if self.n == 0x7 {
                Operation::SubtractFromRegister
            } else if self.n == 0xE {
                Operation::ShiftLeft
            } else {
                Operation::Unknown
            }
        } else if self.class == 0x9 {
            Operation::SkipIfNotEqualRegister
        } else if self.class == 0xA {
            Operation::LoadIndex
        } else if self.class == 0xB {
            Operation::JumpOffset
        } else if self.class == 0xC {
            Operation::Random
        } else if self.class == 0xD {
            Operation::Draw
        } else if self.class == 0xE {
            if self.nn == 0x9E {
                Operation::SkipIfKeyDown
            } else if self.nn == 0xA1 {
                Operation::SkipIfKeyUp
            } else {
                Operation::Unknown
            }
        } else if self.class == 0xF {
            if self.nn == 0x07 {
                Operation::ReadDelayTimer
            } else if self.nn == 0x0A {
                Operation::WaitForKey
            } else if self.nn == 0x15 {
                Operation::SetDelayTimer
            } else if self.nn == 0x18 {
                Operation::SetSoundTimer
            } else if self.nn == 0x1E {
                Operation::AddToIndex
            } else if self.nn == 0x29 {
                Operation::FontGlyph
            } else if self.nn == 0x33 {
                Operation::StoreDecimal
            } else if self.nn == 0x55 {
                Operation::StoreRegisters
            } else if self.nn == 0x65 {
                Operation::LoadRegisters
            } else {
                Operation::Unknown
            }
        } else {
            Operation::Unknown
        }
    }

    /// Selects the operation: the first level of dispatch is on the class, the
    /// second, where the class has one, on the field that it uses.
    pub fn classify(&self) -> (op: Operation)
        ensures
            op == self.operation(),
    {
        match self.class {
            0x0 => match self.nnn {
                0x0E0 => Operation::ClearScreen,
                0x0EE => Operation::Return,
                _ => Operation::Unknown,
            },
            0x1 => Operation::Jump,
            0x2 => Operation::Call,
            0x3 => Operation::SkipIfEqualImmediate,
            0x4 => Operation::SkipIfNotEqualImmediate,
            0x5 => Operation::SkipIfEqualRegister,
            0x6 => Operation::LoadImmediate,
            0x7 => Operation::AddImmediate,
            0x8 => match self.n {
                0x0 => Operation::Copy,
                0x1 => Operation::Or,
                0x2 => Operation::And,
                0x3 => Operation::Xor,
                0x4 => Operation::AddRegister,
                0x5 => Operation::SubtractRegister,
                0x6 => Operation::ShiftRight,
                0x7 => Operation::SubtractFromRegister,
                0xE => Operation::ShiftLeft,
                _ => Operation::Unknown,
            },
            0x9 => Operation::SkipIfNotEqualRegister,
            0xA => Operation::LoadIndex,
            0xB => Operation::JumpOffset,
            0xC => Operation::Random,
            0xD => Operation::Draw,
            0xE => match self.nn {
                0x9E => Operation::SkipIfKeyDown,
                0xA1 => Operation::SkipIfKeyUp,
                _ => Operation::Unknown,
            },
            0xF => match self.nn {
                0x07 => Operation::ReadDelayTimer,
                0x0A => Operation::WaitForKey,
                0x15 => Operation::SetDelayTimer,
                0x18 => Operation::SetSoundTimer,
                0x1E => Operation::AddToIndex,
                0x29 => Operation::FontGlyph,
                0x33 => Operation::StoreDecimal,
                0x55 => Operation::StoreRegisters,
                0x65 => Operation::LoadRegisters,
                _ => Operation::Unknown,
            },
            _ => Operation::Unknown,
        }
    }

    /// The fields are the digits of the word: put back together by position
    /// they give the word again, and the wider fields are made of the
    /// narrower ones.
    pub proof fn lemma_fields_recompose(opcode: u16)
        ensures
            Instruction::of(opcode).class < 16,
            Instruction::of(opcode).x < 16,
            Instruction::of(opcode).y < 16,
            Instruction::of(opcode).n < 16,
            Instruction::of(opcode).nnn < 4096,
            Instruction::of(opcode).nn == 16 * Instruction::of(opcode).y + Instruction::of(opcode).n,
            Instruction::of(opcode).nnn == 256 * Instruction::of(opcode).x + Instruction::of(
                opcode,
            ).nn,
            opcode == 4096 * Instruction::of(opcode).class + Instruction::of(opcode).nnn,
    {
        assert(opcode / 0x1000 < 16 && opcode % 0x100 == 16 * ((opcode / 0x10) % 0x10) + opcode
            % 0x10 && opcode % 0x1000 == 256 * ((opcode / 0x100) % 0x10) + opcode % 0x100
            && opcode == 4096 * (opcode / 0x1000) + opcode % 0x1000) by (bit_vector);
    }

    /// Two words with the same fields are the same word.
    pub proof fn lemma_fields_determine_word(a: u16, b: u16)
        requires
            Instruction::of(a) == Instruction::of(b),
        ensures
            a == b,
    {
        Instruction::lemma_fields_recompose(a);
        Instruction::lemma_fields_recompose(b);
    }
}

} // verus!
