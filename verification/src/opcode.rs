//! The instruction catalog and its decoder.
//!
//! An instruction is one 16-bit word. Its most significant nibble selects a
//! category; the remaining three nibbles hold register indices, an 8-bit
//! immediate or a 12-bit address, depending on the category.

use vstd::prelude::*;

verus! {

/// One decoded instruction together with its operand fields.
///
/// In the variant documentation `X` and `Y` are the second and third nibble of
/// the word (register indices), `N` is the last nibble, `NN` the low byte and
/// `NNN` the low twelve bits.
#[derive(Clone, Copy, Debug, PartialEq, Eq, Structural)]
pub enum Operation {
    /// `0NNN`: call the machine code routine at `NNN`.
    CallSysC(u16),
    /// `00E0`: clear the display.
    Clear,
    /// `00EE`: return from a subroutine.
    Return,
    /// `1NNN`: jump to `NNN`.
    JumpC(u16),
    /// `2NNN`: call the subroutine at `NNN`.
    CallC(u16),
    /// `3XNN`: skip the next instruction if `VX == NN`.
    SkipEqC(u8, u8),
    /// `4XNN`: skip the next instruction if `VX != NN`.
    SkipNeC(u8, u8),
    /// `5XY_`: skip the next instruction if `VX == VY`.
    SkipEq(u8, u8),
    /// `6XNN`: set `VX` to `NN`.
    SetC(u8, u8),
    /// `7XNN`: add `NN` to `VX`, modulo 256.
    AddC(u8, u8),
    /// `8XY0`: set `VX` to `VY`.
    Assign(u8, u8),
    /// `8XY1`: set `VX` to `VX | VY`.
    Or(u8, u8),
    /// `8XY2`: set `VX` to `VX & VY`.
    And(u8, u8),
    /// `8XY3`: set `VX` to `VX ^ VY`.
    Xor(u8, u8),
    /// `8XY4`: add `VY` to `VX`; `VF` records the carry.
    Add(u8, u8),
    /// `8XY5`: subtract `VY` from `VX`; `VF` is 0 on a borrow and 1 otherwise.
    Sub(u8, u8),
    /// `8XY6`: set `VX` to `VY >> 1`; `VF` receives the bit shifted out.
    Shr(u8, u8),
    /// `8XY7`: set `VX` to `VY - VX`; `VF` is 0 on a borrow and 1 otherwise.
    SubRev(u8, u8),
    /// `8XYE`: set `VX` to `VY << 1`; `VF` receives the bit shifted out.
    Shl(u8, u8),
    /// `9XY0`: skip the next instruction if `VX != VY`.
    SkipNe(u8, u8),
    /// `ANNN`: set the index register to `NNN`.
    SetIC(u16),
    /// `BNNN`: jump to `NNN + V0`.
    JumpV0C(u16),
    /// `CXNN`: set `VX` to a random byte masked with `NN`.
    RandC(u8, u8),
    /// `DXYN`: draw the `N`-row sprite at the index register to `(VX, VY)`.
    DrawC(u8, u8, u8),
    /// `EX9E`: skip the next instruction if the key held in `VX` is down.
    SkipEqKey(u8),
    /// `EXA1`: skip the next instruction if the key held in `VX` is up.
    SkipNeKey(u8),
    /// `FX07`: set `VX` to the delay timer.
    GetDelayTimer(u8),
    /// `FX0A`: wait for a key press and release, then store the key in `VX`.
    GetKey(u8),
    /// `FX15`: set the delay timer to `VX`.
    SetDelayTimer(u8),
    /// `FX18`: set the sound timer to `VX`.
    SetSoundTimer(u8),
    /// `FX1E`: add `VX` to the index register.
    AddI(u8),
    /// `FX29`: point the index register at the glyph of the digit in `VX`.
    SetIFont(u8),
    /// `FX33`: store the three decimal digits of `VX` at the index register.
    Bcd(u8),
    /// `FX55`: store `V0..=VX` to memory at the index register.
    Store(u8),
    /// `FX65`: load `V0..=VX` from memory at the index register.
    Restore(u8),
    /// Any word that matches no entry of the catalog; carries the raw word.
    Unknown(u16),
}

/// The most significant nibble of a word: the instruction's category.
pub open spec fn category_of(word: u16) -> u8 {
    (word as int / 0x1000) as u8
}

/// The second nibble of a word: the `X` register index.
pub open spec fn x_of(word: u16) -> u8 {
    ((word as int / 0x100) % 0x10) as u8
}

/// The third nibble of a word: the `Y` register index.
pub open spec fn y_of(word: u16) -> u8 {
    ((word as int / 0x10) % 0x10) as u8
}

/// The least significant nibble of a word.
pub open spec fn n_of(word: u16) -> u8 {
    (word as int % 0x10) as u8
}

/// The low byte of a word: the 8-bit immediate.
pub open spec fn byte_of(word: u16) -> u8 {
    (word as int % 0x100) as u8
}

/// The low twelve bits of a word: the address operand.
pub open spec fn address_of(word: u16) -> u16 {
    (word as int % 0x1000) as u16
}

/// The operation that a word in category 8 (register arithmetic) encodes.
pub open spec fn decode_arithmetic(word: u16) -> Operation {
    let x = x_of(word);
    let y = y_of(word);
    let n = n_of(word);
    if n == 0x0 {
        Operation::Assign(x, y)
    } else if n == 0x1 {
        Operation::Or(x, y)
    } else if n == 0x2 {
        Operation::And(x, y)
    } else if n == 0x3 {
        Operation::Xor(x, y)
    } else if n == 0x4 {
        Operation::Add(x, y)
    } else if n == 0x5 {
        Operation::Sub(x, y)
    } else if n == 0x6 {
        Operation::Shr(x, y)
    } else if n == 0x7 {
        Operation::SubRev(x, y)
    } else if n == 0xE {
        Operation::Shl(x, y)
    } else {
        Operation::Unknown(word)
    }
}

/// The operation that a word in category F (timers, keys, memory) encodes.
pub open spec fn decode_misc(word: u16) -> Operation {
    let x = x_of(word);
    let low = byte_of(word);
    if low == 0x07 {
        Operation::GetDelayTimer(x)
    } else if low == 0x0A {
        Operation::GetKey(x)
    } else if low == 0x15 {
        Operation::SetDelayTimer(x)
    } else if low == 0x18 {
        Operation::SetSoundTimer(x)
    } else if low == 0x1E {
        Operation::AddI(x)
    } else if low == 0x29 {
        Operation::SetIFont(x)
    } else if low == 0x33 {
        Operation::Bcd(x)
    } else if low == 0x55 {
        Operation::Store(x)
    } else if low == 0x65 {
        Operation::Restore(x)
    } else {
        Operation::Unknown(word)
    }
}

/// The operation that a word encodes.
///
/// The category selects the operation; categories 0, 8, 9, E and F dispatch
/// a second time on the low nibble or the low byte. A word that matches no
/// entry decodes to `Unknown` carrying the word itself.
pub open spec fn decode(word: u16) -> Operation {
    let category = category_of(word);
    let x = x_of(word);
    let y = y_of(word);
    let low = byte_of(word);
    let address = address_of(word);
    if category == 0x0 {
        if low == 0xEE {
            Operation::Return
        } else if low == 0xE0 {
            Operation::Clear
        } else {
            Operation::CallSysC(address)
        }
    } else if category == 0x1 {
        Operation::JumpC(address)
    } else if category == 0x2 {
        Operation::CallC(address)
    } else if category == 0x3 {
        Operation::SkipEqC(x, low)
    } else if category == 0x4 {
        Operation::SkipNeC(x, low)
    } else if category == 0x5 {
        Operation::SkipEq(x, y)
    } else if category == 0x6 {
        Operation::SetC(x, low)
    } else if category == 0x7 {
        Operation::AddC(x, low)
    } else if category == 0x8 {
        decode_arithmetic(word)
    } else if category == 0x9 {
        if n_of(word) == 0 {
            Operation::SkipNe(x, y)
        } else {
            Operation::Unknown(word)
        }
    } else if category == 0xA {
        Operation::SetIC(address)
    } else if category == 0xB {
        Operation::JumpV0C(address)
    } else if category == 0xC {
        Operation::RandC(x, low)
    } else if category == 0xD {
        Operation::DrawC(x, y, n_of(word))
    } else if category == 0xE {
        if low == 0x9E {
            Operation::SkipEqKey(x)
        } else if low == 0xA1 {
            Operation::SkipNeKey(x)
        } else {
            Operation::Unknown(word)
        }
    } else {
        decode_misc(word)
    }
}

/// Returns the low byte of a word.
pub fn oph1(opcode: u16) -> (r: u8)
    ensures
        r == byte_of(opcode),
{
    assert((opcode & 0xFF) == opcode % 0x100) by (bit_vector);
    (opcode & 0xFF) as u8
}

/// Returns the most significant nibble of a word.
pub fn op0(opcode: u16) -> (r: u8)
    ensures
        r == category_of(opcode),
        r < 0x10,
{
    assert(((opcode & 0xF000) >> 12) == opcode / 0x1000) by (bit_vector);
    ((opcode & 0xF000) >> 12) as u8
}

/// Returns the second nibble of a word.
pub fn op1(opcode: u16) -> (r: u8)
    ensures
        r == x_of(opcode),
        r < 0x10,
{
    assert(((opcode & 0x0F00) >> 8) == (opcode / 0x100) % 0x10) by (bit_vector);
    ((opcode & 0x0F00) >> 8) as u8
}

/// Returns the third nibble of a word.
pub fn op2(opcode: u16) -> (r: u8)
    ensures
        r == y_of(opcode),
        r < 0x10,
{
    assert(((opcode & 0x00F0) >> 4) == (opcode / 0x10) % 0x10) by (bit_vector);
    ((opcode & 0x00F0) >> 4) as u8
}

/// Returns the least significant nibble of a word.
pub fn op3(opcode: u16) -> (r: u8)
    ensures
        r == n_of(opcode),
        r < 0x10,
{
    assert((opcode & 0x000F) == opcode % 0x10) by (bit_vector);
    (opcode & 0x000F) as u8
}

/// Returns the low twelve bits of a word.
fn address_field(opcode: u16) -> (r: u16)
    ensures
        r == address_of(opcode),
        r < 0x1000,
{
    assert((opcode & 0xFFF) == opcode % 0x1000) by (bit_vector);
    opcode & 0xFFF
}

/// Decodes one instruction word.
///
/// Decoding is total: every word yields exactly one operation.
pub fn parse_opcode(opcode: u16) -> (operation: Operation)
    ensures
        operation == decode(opcode),
{
    let op_category = op0(opcode);
    match op_category {
        0x0 => match oph1(opcode) {
            0xEE => Operation::Return,
            0xE0 => Operation::Clear,
            _ => Operation::CallSysC(address_field(opcode)),
        },
        0x1 => Operation::JumpC(address_field(opcode)),
        0x2 => Operation::CallC(address_field(opcode)),
        0x3 => Operation::SkipEqC(op1(opcode), oph1(opcode)),
        0x4 => Operation::SkipNeC(op1(opcode), oph1(opcode)),
        0x5 => Operation::SkipEq(op1(opcode), op2(opcode)),
        0x6 => Operation::SetC(op1(opcode), oph1(opcode)),
        0x7 => Operation::AddC(op1(opcode), oph1(opcode)),
        0x8 => match op3(opcode) {
            0 => Operation::Assign(op1(opcode), op2(opcode)),
            1 => Operation::Or(op1(opcode), op2(opcode)),
            2 => Operation::And(op1(opcode), op2(opcode)),
            3 => Operation::Xor(op1(opcode), op2(opcode)),
            4 => Operation::Add(op1(opcode), op2(opcode)),
            5 => Operation::Sub(op1(opcode), op2(opcode)),
            6 => Operation::Shr(op1(opcode), op2(opcode)),
            7 => Operation::SubRev(op1(opcode), op2(opcode)),
            0xE => Operation::Shl(op1(opcode), op2(opcode)),
            _ => Operation::Unknown(opcode),
        },
        0x9 => {
            if op3(opcode) == 0 {
                Operation::SkipNe(op1(opcode), op2(opcode))
            } else {
                Operation::Unknown(opcode)
            }
        },
        0xA => Operation::SetIC(address_field(opcode)),
        0xB => Operation::JumpV0C(address_field(opcode)),
        0xC => Operation::RandC(op1(opcode), oph1(opcode)),
        0xD => Operation::DrawC(op1(opcode), op2(opcode), op3(opcode)),
        0xE => match oph1(opcode) {
            0x9E => Operation::SkipEqKey(op1(opcode)),
            0xA1 => Operation::SkipNeKey(op1(opcode)),
            _ => Operation::Unknown(opcode),
        },
        0xF => match oph1(opcode) {
            0x07 => Operation::GetDelayTimer(op1(opcode)),
            0x0A => Operation::GetKey(op1(opcode)),
            0x15 => Operation::SetDelayTimer(op1(opcode)),
            0x18 => Operation::SetSoundTimer(op1(opcode)),
            0x1E => Operation::AddI(op1(opcode)),
            0x29 => Operation::SetIFont(op1(opcode)),
            0x33 => Operation::Bcd(op1(opcode)),
            0x55 => Operation::Store(op1(opcode)),
            0x65 => Operation::Restore(op1(opcode)),
            _ => Operation::Unknown(opcode),
        },
        _ => Operation::Unknown(opcode),
    }
}

} // verus!
