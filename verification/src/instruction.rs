//! The instruction set and its decoder.
//!
//! An instruction word has sixteen bits. Its top nibble is the opcode group;
//! the remaining twelve bits are read, depending on the group, as a register
//! index `x`, a second register index `y`, a four-bit value `n`, an eight-bit
//! value `nn`, or a twelve-bit address `nnn`.

use vstd::prelude::*;
use crate::fault::DecodeError;

verus! {

/// A decoded instruction: one variant for each of the 35 opcodes, with the
/// operands that the opcode reads.
#[derive(Debug, Clone, Copy, PartialEq, Eq, Structural)]
pub enum Instruction {
    /// 0x00E0: Clear screen
    ClearScreen,
    /// 0x00EE: Return from subroutine
    SubroutineReturn,
    /// 0x1NNN: Jump to NNN
    Jump { nnn: u16 },
    /// 0x2NNN: Subroutine call at NNN
    SubroutineCall { nnn: u16 },
    /// 0x3XNN: Skip if VX == NN
    SkipVxEqNn { x: usize, nn: u8 },
    /// 0x4XNN: Skip if VX != NN
    SkipVxNeqNn { x: usize, nn: u8 },
    /// 0x5XY0: Skip if VX == VY
    SkipVxEqVy { x: usize, y: usize },
    /// 0x6XNN: Set register VX to NN
    SetVxNn { x: usize, nn: u8 },
    /// 0x7XNN: Add NN to VX, ignoring carry
    AddNnVx { x: usize, nn: u8 },
    /// 0x8XY0: Set VX to VY
    SetVxVy { x: usize, y: usize },
    /// 0x8XY1: Set VX to VX | VY
    SetVxOrVy { x: usize, y: usize },
    /// 0x8XY2: Set VX to VX & VY
    SetVxAndVy { x: usize, y: usize },
    /// 0x8XY3: Set VX to VX XOR VY
    SetVxXorVy { x: usize, y: usize },
    /// 0x8XY4: Set VX to VX + VY, VF to the carry
    SetVxPlusVy { x: usize, y: usize },
    /// 0x8XY5: Set VX to VX - VY, VF to "no borrow"
    SetVxMinusVy { x: usize, y: usize },
    /// 0x8XY6: Store least significant bit of VX in VF and shift VX right by 1
    ShiftVxRight { x: usize },
    /// 0x8XY7: Set VX to VY - VX, VF to "no borrow"
    SetVyMinusVx { x: usize, y: usize },
    /// 0x8XYE: Store most significant bit of VX in VF and shift VX left by 1
    ShiftVxLeft { x: usize },
    /// 0x9XY0: Skip if VX != VY
    SkipVxNeqVy { x: usize, y: usize },
    /// 0xANNN: Set index register to NNN
    SetIndexNnn { nnn: u16 },
    /// 0xBNNN: Jump to V0 + NNN
    JumpV0Nnn { nnn: u16 },
    /// 0xCXNN: Set VX to a random number AND'ed with NN
    SetVxRandNn { x: usize, nn: u8 },
    /// 0xDXYN: Draw the N-row sprite at I at (VX, VY), VF to the collision
    Display { x: usize, y: usize, n: u8 },
    /// 0xEX9E: Skip instruction if key VX is being pressed
    SkipIfVxPressed { x: usize },
    /// 0xEXA1: Skip instruction if key VX is not being pressed
    SkipIfVxNotPressed { x: usize },
    /// 0xFX07: Set VX to the current value of the delay timer
    SetVxDelay { x: usize },
    /// 0xFX15: Set the delay timer to the value in VX
    SetDelayVx { x: usize },
    /// 0xFX18: Set the sound timer to the value in VX
    SetSoundVx { x: usize },
    /// 0xFX1E: Add VX to I
    AddVxI { x: usize },
    /// 0xFX0A: Block until any key is pressed, put key in VX
    BlockUntilAnyKey { x: usize },
    /// 0xFX29: Set I to font character in VX
    SetIFontVx { x: usize },
    /// 0xFX33: Store 3 decimal digits of VX in I, I+1, I+2
    StoreVxDigitsI { x: usize },
    /// 0xFX55: Store all registers from V0 to VX in I, I+1, I+2, ... I+X
    StoreVxI { x: usize },
    /// 0xFX65: Store all memory from I, I+1, I+2, ... I+X in registers V0 to VX
    StoreIVx { x: usize },
}

impl Instruction {
    /// Every operand lies in the range that its field of the word can hold:
    /// register indices below 16, addresses below 0x1000, sprite heights
    /// below 16.
    pub open spec fn wf(self) -> bool {
        match self {
            Instruction::ClearScreen | Instruction::SubroutineReturn => true,
            Instruction::Jump { nnn }
            | Instruction::SubroutineCall { nnn }
            | Instruction::SetIndexNnn { nnn }
            | Instruction::JumpV0Nnn { nnn } => nnn < 0x1000,
            Instruction::SkipVxEqNn { x, .. }
            | Instruction::SkipVxNeqNn { x, .. }
            | Instruction::SetVxNn { x, .. }
            | Instruction::AddNnVx { x, .. }
            | Instruction::SetVxRandNn { x, .. } => x < 16,
            Instruction::SkipVxEqVy { x, y }
            | Instruction::SkipVxNeqVy { x, y }
            | Instruction::SetVxVy { x, y }
            | Instruction::SetVxOrVy { x, y }
            | Instruction::SetVxAndVy { x, y }
            | Instruction::SetVxXorVy { x, y }
            | Instruction::SetVxPlusVy { x, y }
            | Instruction::SetVxMinusVy { x, y }
            | Instruction::SetVyMinusVx { x, y } => x < 16 && y < 16,
            Instruction::Display { x, y, n } => x < 16 && y < 16 && n < 16,
            Instruction::ShiftVxRight { x }
            | Instruction::ShiftVxLeft { x }
            | Instruction::SkipIfVxPressed { x }
            | Instruction::SkipIfVxNotPressed { x }
            | Instruction::SetVxDelay { x }
            | Instruction::SetDelayVx { x }
            | Instruction::SetSoundVx { x }
            | Instruction::AddVxI { x }
            | Instruction::BlockUntilAnyKey { x }
            | Instruction::SetIFontVx { x }
            | Instruction::StoreVxDigitsI { x }
            | Instruction::StoreVxI { x }
            | Instruction::StoreIVx { x } => x < 16,
        }
    }

    /// The opcode group under which the instruction is encoded.
    pub open spec fn group(self) -> int {
        match self {
            Instruction::ClearScreen | Instruction::SubroutineReturn => 0x0,
            Instruction::Jump { .. } => 0x1,
            Instruction::SubroutineCall { .. } => 0x2,
            Instruction::SkipVxEqNn { .. } => 0x3,
            Instruction::SkipVxNeqNn { .. } => 0x4,
            Instruction::SkipVxEqVy { .. } => 0x5,
            Instruction::SetVxNn { .. } => 0x6,
            Instruction::AddNnVx { .. } => 0x7,
            Instruction::SetVxVy { .. }
            | Instruction::SetVxOrVy { .. }
            | Instruction::SetVxAndVy { .. }
            | Instruction::SetVxXorVy { .. }
            | Instruction::SetVxPlusVy { .. }
            | Instruction::SetVxMinusVy { .. }
            | Instruction::ShiftVxRight { .. }
            | Instruction::SetVyMinusVx { .. }
            | Instruction::ShiftVxLeft { .. } => 0x8,
            Instruction::SkipVxNeqVy { .. } => 0x9,
            Instruction::SetIndexNnn { .. } => 0xA,
            Instruction::JumpV0Nnn { .. } => 0xB,
            Instruction::SetVxRandNn { .. } => 0xC,
            Instruction::Display { .. } => 0xD,
            Instruction::SkipIfVxPressed { .. } | Instruction::SkipIfVxNotPressed { .. } => 0xE,
            Instruction::SetVxDelay { .. }
            | Instruction::SetDelayVx { .. }
            | Instruction::SetSoundVx { .. }
            | Instruction::AddVxI { .. }
            | Instruction::BlockUntilAnyKey { .. }
            | Instruction::SetIFontVx { .. }
            | Instruction::StoreVxDigitsI { .. }
            | Instruction::StoreVxI { .. }
            | Instruction::StoreIVx { .. } => 0xF,
        }
    }
}

/// The opcode group of a word: its top nibble.
pub open spec fn word_group(word: u16) -> int {
    word as int / 0x1000
}

/// The second nibble of a word, read as a register index.
pub open spec fn word_x(word: u16) -> usize {
    ((word as int / 0x100) % 0x10) as usize
}

/// The third nibble of a word, read as a register index.
pub open spec fn word_y(word: u16) -> usize {
    ((word as int / 0x10) % 0x10) as usize
}

/// The lowest nibble of a word.
pub open spec fn word_n(word: u16) -> u8 {
    (word as int % 0x10) as u8
}

/// The low byte of a word.
pub open spec fn word_nn(word: u16) -> u8 {
    (word as int % 0x100) as u8
}

/// The low twelve bits of a word.
pub open spec fn word_nnn(word: u16) -> u16 {
    (word as int % 0x1000) as u16
}

/// The instruction table of group 8, keyed by the lowest nibble.
pub open spec fn decode_arithmetic(word: u16) -> Option<Instruction> {
    let x = word_x(word);
    let y = word_y(word);
    let n = word_n(word);
    if n == 0x0 {
        Some(Instruction::SetVxVy { x, y })
    } else if n == 0x1 {
        Some(Instruction::SetVxOrVy { x, y })
    } else if n == 0x2 {
        Some(Instruction::SetVxAndVy { x, y })
    } else if n == 0x3 {
        Some(Instruction::SetVxXorVy { x, y })
    } else if n == 0x4 {
        Some(Instruction::SetVxPlusVy { x, y })
    } else if n == 0x5 {
        Some(Instruction::SetVxMinusVy { x, y })
    } else if n == 0x6 {
        Some(Instruction::ShiftVxRight { x })
    } else if n == 0x7 {
        Some(Instruction::SetVyMinusVx { x, y })
    } else if n == 0xE {
        Some(Instruction::ShiftVxLeft { x })
    } else {
        None
    }
}

/// The instruction table of group F, keyed by the low byte.
pub open spec fn decode_misc(word: u16) -> Option<Instruction> {
    let x = word_x(word);
    let nn = word_nn(word);
    if nn == 0x07 {
        Some(Instruction::SetVxDelay { x })
    } else if nn == 0x0A {
        Some(Instruction::BlockUntilAnyKey { x })
    } else if nn == 0x15 {
        Some(Instruction::SetDelayVx { x })
    } else if nn == 0x18 {
        Some(Instruction::SetSoundVx { x })
    } else if nn == 0x1E {
        Some(Instruction::AddVxI { x })
    } else if nn == 0x29 {
        Some(Instruction::SetIFontVx { x })
    } else if nn == 0x33 {
        Some(Instruction::StoreVxDigitsI { x })
    } else if nn == 0x55 {
        Some(Instruction::StoreVxI { x })
    } else if nn == 0x65 {
        Some(Instruction::StoreIVx { x })
    } else {
        None
    }
}

/// The instruction table: the instruction that a word encodes, if any.
///
/// Group 0 holds two words only, 0x00E0 and 0x00EE. Groups 1 to 7 and 9 to D
/// take every operand, with the exception of groups 5 and 9, whose lowest
/// nibble must be 0. Group 8 is keyed by the lowest nibble, groups E and F by
/// the low byte.
pub open spec fn decode(word: u16) -> Option<Instruction> {
    let g = word_group(word);
    let x = word_x(word);
    let y = word_y(word);
    let n = word_n(word);
    let nn = word_nn(word);
    let nnn = word_nnn(word);
    if g == 0x0 {
        if nnn == 0x0E0 {
            Some(Instruction::ClearScreen)
        } else if nnn == 0x0EE {
            Some(Instruction::SubroutineReturn)
        } else {
            None
        }
    } else if g == 0x1 {
        Some(Instruction::Jump { nnn })
    } else if g == 0x2 {
        Some(Instruction::SubroutineCall { nnn })
    } else if g == 0x3 {
        Some(Instruction::SkipVxEqNn { x, nn })
    } else if g == 0x4 {
        Some(Instruction::SkipVxNeqNn { x, nn })
    } else if g == 0x5 {
        if n == 0 {
            Some(Instruction::SkipVxEqVy { x, y })
        } else {
            None
        }
    } else if g == 0x6 {
        Some(Instruction::SetVxNn { x, nn })
    } else if g == 0x7 {
        Some(Instruction::AddNnVx { x, nn })
    } else if g == 0x8 {
        decode_arithmetic(word)
    } else if g == 0x9 {
        if n == 0 {
            Some(Instruction::SkipVxNeqVy { x, y })
        } else {
            None
        }
    } else if g == 0xA {
        Some(Instruction::SetIndexNnn { nnn })
    } else if g == 0xB {
        Some(Instruction::JumpV0Nnn { nnn })
    } else if g == 0xC {
        Some(Instruction::SetVxRandNn { x, nn })
    } else if g == 0xD {
        Some(Instruction::Display { x, y, n })
    } else if g == 0xE {
        if nn == 0x9E {
            Some(Instruction::SkipIfVxPressed { x })
        } else if nn == 0xA1 {
            Some(Instruction::SkipIfVxNotPressed { x })
        } else {
            None
        }
    } else {
        decode_misc(word)
    }
}

/// Decodes one instruction word.
///
/// Returns the instruction that the table gives for the word, and for a word
/// that the table does not hold an error that carries the word. The operands
/// of a decoded instruction are in range, and its opcode group is that of the
/// word.
pub fn parse_instruction(instruction: u16) -> (r: Result<Instruction, DecodeError>)
    ensures
        match decode(instruction) {
            Some(i) => r == Ok::<Instruction, DecodeError>(i),
            None => r == Err::<Instruction, DecodeError>(DecodeError { word: instruction }),
        },
        r matches Ok(i) ==> i.wf() && i.group() == word_group(instruction),
{
    let op: u8 = (instruction >> 12) as u8;
    let x: usize = ((instruction & 0x0F00) >> 8) as usize;
    let y: usize = ((instruction & 0x00F0) >> 4) as usize;
    let nnn: u16 = instruction & 0x0FFF;
    let nn: u8 = (instruction & 0x00FF) as u8;
    let n: u8 = (instruction & 0x000F) as u8;

    proof {
        assert(instruction >> 12 == instruction / 0x1000) by (bit_vector);
        assert((instruction & 0x0F00) >> 8 == (instruction / 0x100) % 0x10) by (bit_vector);
        assert((instruction & 0x00F0) >> 4 == (instruction / 0x10) % 0x10) by (bit_vector);
        assert(instruction & 0x0FFF == instruction % 0x1000) by (bit_vector);
        assert(instruction & 0x00FF == instruction % 0x100) by (bit_vector);
        assert(instruction & 0x000F == instruction % 0x10) by (bit_vector);
    }

    match (op, x, y, n) {
        (0, 0, 0xE, 0) => Ok(Instruction::ClearScreen),
        (0, 0, 0xE, 0xE) => Ok(Instruction::SubroutineReturn),
        (1, _, _, _) => Ok(Instruction::Jump { nnn }),
        (2, _, _, _) => Ok(Instruction::SubroutineCall { nnn }),
        (3, _, _, _) => Ok(Instruction::SkipVxEqNn { x, nn }),
        (4, _, _, _) => Ok(Instruction::SkipVxNeqNn { x, nn }),
        (5, _, _, 0) => Ok(Instruction::SkipVxEqVy { x, y }),
        (6, _, _, _) => Ok(Instruction::SetVxNn { x, nn }),
        (7, _, _, _) => Ok(Instruction::AddNnVx { x, nn }),
        (8, _, _, 0) => Ok(Instruction::SetVxVy { x, y }),
        (8, _, _, 1) => Ok(Instruction::SetVxOrVy { x, y }),
        (8, _, _, 2) => Ok(Instruction::SetVxAndVy { x, y }),
        (8, _, _, 3) => Ok(Instruction::SetVxXorVy { x, y }),
        (8, _, _, 4) => Ok(Instruction::SetVxPlusVy { x, y }),
        (8, _, _, 5) => Ok(Instruction::SetVxMinusVy { x, y }),
        (8, _, _, 6) => Ok(Instruction::ShiftVxRight { x }),
        (8, _, _, 7) => Ok(Instruction::SetVyMinusVx { x, y }),
        (8, _, _, 0xE) => Ok(Instruction::ShiftVxLeft { x }),
        (9, _, _, 0) => Ok(Instruction::SkipVxNeqVy { x, y }),
        (0xA, _, _, _) => Ok(Instruction::SetIndexNnn { nnn }),
        (0xB, _, _, _) => Ok(Instruction::JumpV0Nnn { nnn }),
        (0xC, _, _, _) => Ok(Instruction::SetVxRandNn { x, nn }),
        (0xD, _, _, _) => Ok(Instruction::Display { x, y, n }),
        (0xE, _, 9, 0xE) => Ok(Instruction::SkipIfVxPressed { x }),
        (0xE, _, 0xA, 1) => Ok(Instruction::SkipIfVxNotPressed { x }),
        (0xF, _, 0, 7) => Ok(Instruction::SetVxDelay { x }),
        (0xF, _, 1, 5) => Ok(Instruction::SetDelayVx { x }),
        (0xF, _, 1, 8) => Ok(Instruction::SetSoundVx { x }),
        (0xF, _, 1, 0xE) => Ok(Instruction::AddVxI { x }),
        (0xF, _, 0, 0xA) => Ok(Instruction::BlockUntilAnyKey { x }),
        (0xF, _, 2, 9) => Ok(Instruction::SetIFontVx { x }),
        (0xF, _, 3, 3) => Ok(Instruction::StoreVxDigitsI { x }),
        (0xF, _, 5, 5) => Ok(Instruction::StoreVxI { x }),
        (0xF, _, 6, 5) => Ok(Instruction::StoreIVx { x }),
        _ => Err(DecodeError { word: instruction }),
    }
}

} // verus!
