use vstd::prelude::*;

use crate::error::ChipError;

verus! {

/// Instruction family: the top four bits of a word.
pub open spec fn nibble_c(w: u16) -> u8 {
    (w / 4096) as u8
}

/// Second nibble, most often a register index.
pub open spec fn nibble_x(w: u16) -> u8 {
    ((w / 256) % 16) as u8
}

/// Third nibble, most often a register index.
pub open spec fn nibble_y(w: u16) -> u8 {
    ((w / 16) % 16) as u8
}

/// Lowest nibble, a sub-opcode or part of an immediate.
pub open spec fn nibble_d(w: u16) -> u8 {
    (w % 16) as u8
}

pub open spec fn immediate8_of(y: u8, d: u8) -> u8 {
    (y * 16 + d) as u8
}

pub open spec fn immediate12_of(x: u8, y: u8, d: u8) -> u16 {
    (x * 256 + y * 16 + d) as u16
}

/// One decoded instruction word with its operands. `x` and `y` name registers.
#[derive(Debug, Clone, Copy, PartialEq, Eq, Structural)]
pub enum Instruction {
    /// `0000`: stop the run loop.
    Halt,
    /// `00EE`: return from a subroutine.
    Return,
    /// `1nnn`: continue at `address`.
    Jump { address: u16 },
    /// `2nnn`: push the read cursor and continue at `address`.
    Call { address: u16 },
    /// `3xnn`: skip the next instruction if `Vx == value`.
    SkipIfEqual { x: u8, value: u8 },
    /// `4xnn`: skip the next instruction if `Vx != value`.
    SkipIfNotEqual { x: u8, value: u8 },
    /// `5xy0`: skip the next instruction if `Vx == Vy`.
    SkipIfRegistersEqual { x: u8, y: u8 },
    /// `6xnn`: `Vx = value`.
    LoadValue { x: u8, value: u8 },
    /// `7xnn`: `Vx += value`, wrapping, no flag.
    AddValue { x: u8, value: u8 },
    /// `8xy0`: `Vx = Vy`.
    Move { x: u8, y: u8 },
    /// `8xy1`: `Vx |= Vy`.
    Or { x: u8, y: u8 },
    /// `8xy2`: `Vx &= Vy`.
    And { x: u8, y: u8 },
    /// `8xy3`: `Vx ^= Vy`.
    Xor { x: u8, y: u8 },
    /// `8xy4`: `Vx += Vy`; on a carry only the flag is set.
    Add { x: u8, y: u8 },
    /// `8xy5`: `Vx -= Vy`; on a borrow only the flag is set.
    Sub { x: u8, y: u8 },
    /// `8xy6`: `Vx >>= 1` with a flag.
    ShiftRight { x: u8 },
    /// `8xy7`: `Vx = Vy - Vx`, or only the flag when `Vy < Vx`.
    SubReversed { x: u8, y: u8 },
    /// `8xyE`: `Vx <<= 1` with the old top bit as flag.
    ShiftLeft { x: u8 },
    /// `9xy0`: skip the next instruction if `Vx != Vy`.
    SkipIfRegistersNotEqual { x: u8, y: u8 },
}

/// The instruction that a word stands for, if any.
pub open spec fn decode_spec(w: u16) -> Option<Instruction> {
    let c = nibble_c(w);
    let x = nibble_x(w);
    let y = nibble_y(w);
    let d = nibble_d(w);
    if w == 0x0000 {
        Some(Instruction::Halt)
    } else if w == 0x00EE {
        Some(Instruction::Return)
    } else if c == 1 {
        Some(Instruction::Jump { address: immediate12_of(x, y, d) })
    } else if c == 2 {
        Some(Instruction::Call { address: immediate12_of(x, y, d) })
    } else if c == 3 {
        Some(Instruction::SkipIfEqual { x, value: immediate8_of(y, d) })
    } else if c == 4 {
        Some(Instruction::SkipIfNotEqual { x, value: immediate8_of(y, d) })
    } else if c == 5 && d == 0 {
        Some(Instruction::SkipIfRegistersEqual { x, y })
    } else if c == 6 {
        Some(Instruction::LoadValue { x, value: immediate8_of(y, d) })
    } else if c == 7 {
        Some(Instruction::AddValue { x, value: immediate8_of(y, d) })
    } else if c == 8 && d == 0 {
        Some(Instruction::Move { x, y })
    } else if c == 8 && d == 1 {
        Some(Instruction::Or { x, y })
    } else if c == 8 && d == 2 {
        Some(Instruction::And { x, y })
    } else if c == 8 && d == 3 {
        Some(Instruction::Xor { x, y })
    } else if c == 8 && d == 4 {
        Some(Instruction::Add { x, y })
    } else if c == 8 && d == 5 {
        Some(Instruction::Sub { x, y })
    } else if c == 8 && d == 6 {
        Some(Instruction::ShiftRight { x })
    } else if c == 8 && d == 7 {
        Some(Instruction::SubReversed { x, y })
    } else if c == 8 && d == 0xE {
        Some(Instruction::ShiftLeft { x })
    } else if c == 9 && d == 0 {
        Some(Instruction::SkipIfRegistersNotEqual { x, y })
    } else {
        None
    }
}

/// Splits a word into its four nibbles, most significant first.
pub fn split_nibbles(word: u16) -> (r: (u8, u8, u8, u8))
    ensures
        r == (nibble_c(word), nibble_x(word), nibble_y(word), nibble_d(word)),
        r.0 < 16 && r.1 < 16 && r.2 < 16 && r.3 < 16,
{
    let c = (word / 4096) as u8;
    let x = ((word / 256) % 16) as u8;
    let y = ((word / 16) % 16) as u8;
    let d = (word % 16) as u8;
    (c, x, y, d)
}

/// Joins two nibbles into a byte: `(y << 4) | d`.
pub fn immediate8(y: u8, d: u8) -> (r: u8)
    requires
        y < 16,
        d < 16,
    ensures
        r == immediate8_of(y, d),
        r == y * 16 + d,
{
    y * 16 + d
}

/// Joins three nibbles into a 12-bit address: `(x << 8) | (y << 4) | d`.
pub fn immediate12(x: u8, y: u8, d: u8) -> (r: u16)
    requires
        x < 16,
        y < 16,
        d < 16,
    ensures
        r == immediate12_of(x, y, d),
        r == x * 256 + y * 16 + d,
        r < 4096,
{
    (x as u16) * 256 + (y as u16) * 16 + (d as u16)
}

/// Decodes a word; a word that matches no instruction is an error carrying it.
pub fn decode(word: u16) -> (r: Result<Instruction, ChipError>)
    ensures
        decode_spec(word) matches Some(ins) ==> r == Ok::<Instruction, ChipError>(ins),
        decode_spec(word) is None ==> r == Err::<Instruction, ChipError>(
            ChipError::UnrecognizedInstruction(word),
        ),
{
    let (c, x, y, d) = split_nibbles(word);
    if word == 0x0000 {
        Ok(Instruction::Halt)
    } else if word == 0x00EE {
        Ok(Instruction::Return)
    } else {
        match (c, d) {
            (1, _) => Ok(Instruction::Jump { address: immediate12(x, y, d) }),
            (2, _) => Ok(Instruction::Call { address: immediate12(x, y, d) }),
            (3, _) => Ok(Instruction::SkipIfEqual { x, value: immediate8(y, d) }),
            (4, _) => Ok(Instruction::SkipIfNotEqual { x, value: immediate8(y, d) }),
            (5, 0) => Ok(Instruction::SkipIfRegistersEqual { x, y }),
            (6, _) => Ok(Instruction::LoadValue { x, value: immediate8(y, d) }),
            (7, _) => Ok(Instruction::AddValue { x, value: immediate8(y, d) }),
            (8, 0) => Ok(Instruction::Move { x, y }),
            (8, 1) => Ok(Instruction::Or { x, y }),
            (8, 2) => Ok(Instruction::And { x, y }),
            (8, 3) => Ok(Instruction::Xor { x, y }),
            (8, 4) => Ok(Instruction::Add { x, y }),
            (8, 5) => Ok(Instruction::Sub { x, y }),
            (8, 6) => Ok(Instruction::ShiftRight { x }),
            (8, 7) => Ok(Instruction::SubReversed { x, y }),
            (8, 0xE) => Ok(Instruction::ShiftLeft { x }),
            (9, 0) => Ok(Instruction::SkipIfRegistersNotEqual { x, y }),
            _ => Err(ChipError::UnrecognizedInstruction(word)),
        }
    }
}

} // verus!
