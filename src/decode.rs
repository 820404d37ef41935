//! Decoding of 16-bit instruction words into operations.
//!
//! A word splits into a 4-bit class (bits 12-15) and the fields `x` (bits
//! 8-11), `y` (bits 4-7), `n` (bits 0-3), `nn` (bits 0-7) and `nnn` (bits
//! 0-11). `x` and `y` name registers.
use vstd::prelude::*;

verus! {

/// The operations of the arithmetic and logic group, all of the form
/// `Vx = Vx op Vy`.
#[derive(Clone, Copy, Debug, PartialEq, Eq, Structural)]
pub enum AluOp {
    Assign,
    Or,
    And,
    Xor,
    AddWithCarry,
    SubWithBorrow,
    ShiftRight,
    SubReversed,
    ShiftLeft,
}

/// A decoded instruction. `x` and `y` are register numbers below 16.
#[derive(Clone, Copy, Debug, PartialEq, Eq, Structural)]
pub enum Instruction {
    /// `00E0`: turn every pixel off.
    ClearDisplay,
    /// `00EE`: return from a subroutine.
    Return,
    /// `1nnn`: jump to `nnn`.
    Jump(u16),
    /// `2nnn`: call the subroutine at `nnn`.
    Call(u16),
    /// `3xnn`: skip the next instruction if `Vx == nn`.
    SkipIfEqual(u8, u8),
    /// `4xnn`: skip the next instruction if `Vx != nn`.
    SkipIfNotEqual(u8, u8),
    /// `5xy_`: skip the next instruction if `Vx == Vy`.
    SkipIfRegistersEqual(u8, u8),
    /// `6xnn`: `Vx = nn`.
    SetRegister(u8, u8),
    /// `7xnn`: `Vx = Vx + nn`, wrapping, with no flag.
    AddToRegister(u8, u8),
    /// `8xyk`: the arithmetic and logic group.
    Alu(AluOp, u8, u8),
    /// `9xy_`: skip the next instruction if `Vx != Vy`.
    SkipIfRegistersNotEqual(u8, u8),
    /// `Annn`: `I = nnn`.
    SetIndex(u16),
    /// `Bnnn`: jump to `nnn + V0`.
    JumpWithOffset(u16),
    /// `Cxnn`: `Vx = random byte & nn`.
    Random(u8, u8),
    /// `Dxyn`: draw the `n`-row sprite at `I` at column `Vx`, row `Vy`.
    Draw(u8, u8, u8),
    /// `Ex9E`: skip the next instruction if the pressed key is `Vx`.
    SkipIfKeyPressed(u8),
    /// `ExA1`: skip the next instruction if a key other than `Vx` is pressed.
    SkipIfKeyNotPressed(u8),
    /// `Fx07`: `Vx = delay timer`.
    ReadDelayTimer(u8),
    /// `Fx0A`: wait for a key and store it in `Vx`.
    WaitForKey(u8),
    /// `Fx15`: `delay timer = Vx`.
    SetDelayTimer(u8),
    /// `Fx18`: `sound timer = Vx`.
    SetSoundTimer(u8),
    /// `Fx1E`: `I = I + Vx`, wrapping at 16 bits.
    AddToIndex(u8),
    /// `Fx29`: `I = address of the glyph for digit Vx`.
    SetIndexToGlyph(u8),
    /// `Fx33`: store the decimal digits of `Vx` at `I`, `I + 1`, `I + 2`.
    StoreBcd(u8),
    /// `Fx55`: store `V0..=Vx` at `I..=I + x`.
    StoreRegisters(u8),
    /// `Fx65`: load `V0..=Vx` from `I..=I + x`.
    LoadRegisters(u8),
}

/// Bits 12-15 of a word.
pub open spec fn class_of(w: u16) -> u16 {
    w / 0x1000
}

/// Bits 8-11 of a word.
pub open spec fn x_of(w: u16) -> u8 {
    ((w / 0x100) % 0x10) as u8
}

/// Bits 4-7 of a word.
pub open spec fn y_of(w: u16) -> u8 {
    ((w / 0x10) % 0x10) as u8
}

/// Bits 0-3 of a word.
pub open spec fn n_of(w: u16) -> u8 {
    (w % 0x10) as u8
}

/// Bits 0-7 of a word.
pub open spec fn nn_of(w: u16) -> u8 {
    (w % 0x100) as u8
}

/// Bits 0-11 of a word.
pub open spec fn nnn_of(w: u16) -> u16 {
    w % 0x1000
}

/// The operation of the arithmetic and logic group that low nibble `n` selects.
pub open spec fn alu_op_of(n: u8) -> Option<AluOp> {
    if n == 0x0 {
        Some(AluOp::Assign)
    } else if n == 0x1 {
        Some(AluOp::Or)
    } else if n == 0x2 {
        Some(AluOp::And)
    } else if n == 0x3 {
        Some(AluOp::Xor)
    } else if n == 0x4 {
        Some(AluOp::AddWithCarry)
    } else if n == 0x5 {
        Some(AluOp::SubWithBorrow)
    } else if n == 0x6 {
        Some(AluOp::ShiftRight)
    } else if n == 0x7 {
        Some(AluOp::SubReversed)
    } else if n == 0xE {
        Some(AluOp::ShiftLeft)
    } else {
        None
    }
}

/// The instruction of the extended group (class `F`) that low byte `nn` selects.
pub open spec fn extended_of(x: u8, nn: u8) -> Option<Instruction> {
    if nn == 0x07 {
        Some(Instruction::ReadDelayTimer(x))
    } else if nn == 0x0A {
        Some(Instruction::WaitForKey(x))
    } else if nn == 0x15 {
        Some(Instruction::SetDelayTimer(x))
    } else if nn == 0x18 {
        Some(Instruction::SetSoundTimer(x))
    } else if nn == 0x1E {
        Some(Instruction::AddToIndex(x))
    } else if nn == 0x29 {
        Some(Instruction::SetIndexToGlyph(x))
    } else if nn == 0x33 {
        Some(Instruction::StoreBcd(x))
    } else if nn == 0x55 {
        Some(Instruction::StoreRegisters(x))
    } else if nn == 0x65 {
        Some(Instruction::LoadRegisters(x))
    } else {
        None
    }
}

/// The instruction that word `w` encodes, or `None` where `w` is outside
/// the instruction set.
pub open spec fn decode_spec(w: u16) -> Option<Instruction> {
    let c = class_of(w);
    let x = x_of(w);
    let y = y_of(w);
    let nn = nn_of(w);
    let nnn = nnn_of(w);
    if c == 0x0 {
        if nnn == 0x0E0 {
            Some(Instruction::ClearDisplay)
        } else if nnn == 0x0EE {
            Some(Instruction::Return)
        } else {
            None
        }
    } else if c == 0x1 {
        Some(Instruction::Jump(nnn))
    } else if c == 0x2 {
        Some(Instruction::Call(nnn))
    } else if c == 0x3 {
        Some(Instruction::SkipIfEqual(x, nn))
    } else if c == 0x4 {
        Some(Instruction::SkipIfNotEqual(x, nn))
    } else if c == 0x5 {
        Some(Instruction::SkipIfRegistersEqual(x, y))
    } else if c == 0x6 {
        Some(Instruction::SetRegister(x, nn))
    } else if c == 0x7 {
        Some(Instruction::AddToRegister(x, nn))
    } else if c == 0x8 {
        match alu_op_of(n_of(w)) {
            Some(op) => Some(Instruction::Alu(op, x, y)),
            None => None,
        }
    } else if c == 0x9 {
        Some(Instruction::SkipIfRegistersNotEqual(x, y))
    } else if c == 0xA {
        Some(Instruction::SetIndex(nnn))
    } else if c == 0xB {
        Some(Instruction::JumpWithOffset(nnn))
    } else if c == 0xC {
        Some(Instruction::Random(x, nn))
    } else if c == 0xD {
        Some(Instruction::Draw(x, y, n_of(w)))
    } else if c == 0xE {
        if nn == 0x9E {
            Some(Instruction::SkipIfKeyPressed(x))
        } else if nn == 0xA1 {
            Some(Instruction::SkipIfKeyNotPressed(x))
        } else {
            None
        }
    } else {
        extended_of(x, nn)
    }
}

/// Every register number that an instruction names is below 16, every
/// address fits in 12 bits, and a sprite has at most 15 rows.
pub open spec fn operands_in_range(ins: Instruction) -> bool {
    match ins {
        Instruction::SkipIfEqual(x, _) | Instruction::SkipIfNotEqual(x, _)
        | Instruction::SetRegister(x, _) | Instruction::AddToRegister(x, _)
        | Instruction::Random(x, _) | Instruction::SkipIfKeyPressed(x)
        | Instruction::SkipIfKeyNotPressed(x) | Instruction::ReadDelayTimer(x)
        | Instruction::WaitForKey(x) | Instruction::SetDelayTimer(x)
        | Instruction::SetSoundTimer(x) | Instruction::AddToIndex(x)
        | Instruction::SetIndexToGlyph(x) | Instruction::StoreBcd(x)
        | Instruction::StoreRegisters(x) | Instruction::LoadRegisters(x) => x < 16,
        Instruction::SkipIfRegistersEqual(x, y) | Instruction::SkipIfRegistersNotEqual(x, y)
        | Instruction::Alu(_, x, y) => x < 16 && y < 16,
        Instruction::Draw(x, y, n) => x < 16 && y < 16 && n < 16,
        Instruction::Jump(a) | Instruction::Call(a) | Instruction::SetIndex(a)
        | Instruction::JumpWithOffset(a) => a < 0x1000,
        _ => true,
    }
}

/// The operation of the arithmetic and logic group for low nibble `n`.
fn decode_alu_op(n: u8) -> (r: Option<AluOp>)
    ensures
        r == alu_op_of(n),
{
    match n {
        0x0 => Some(AluOp::Assign),
        0x1 => Some(AluOp::Or),
        0x2 => Some(AluOp::And),
        0x3 => Some(AluOp::Xor),
        0x4 => Some(AluOp::AddWithCarry),
        0x5 => Some(AluOp::SubWithBorrow),
        0x6 => Some(AluOp::ShiftRight),
        0x7 => Some(AluOp::SubReversed),
        0xE => Some(AluOp::ShiftLeft),
        _ => None,
    }
}

/// The instruction of the extended group for low byte `nn`.
fn decode_extended(x: u8, nn: u8) -> (r: Option<Instruction>)
    ensures
        r == extended_of(x, nn),
{
    match nn {
        0x07 => Some(Instruction::ReadDelayTimer(x)),
        0x0A => Some(Instruction::WaitForKey(x)),
        0x15 => Some(Instruction::SetDelayTimer(x)),
        0x18 => Some(Instruction::SetSoundTimer(x)),
        0x1E => Some(Instruction::AddToIndex(x)),
        0x29 => Some(Instruction::SetIndexToGlyph(x)),
        0x33 => Some(Instruction::StoreBcd(x)),
        0x55 => Some(Instruction::StoreRegisters(x)),
        0x65 => Some(Instruction::LoadRegisters(x)),
        _ => None,
    }
}

/// Decodes one instruction word; `None` where the word is outside the
/// instruction set.
pub fn decode(word: u16) -> (r: Option<Instruction>)
    ensures
        r == decode_spec(word),
        r matches Some(ins) ==> operands_in_range(ins),
{
    let class = word / 0x1000;
    let x = ((word / 0x100) % 0x10) as u8;
    let y = ((word / 0x10) % 0x10) as u8;
    let n = (word % 0x10) as u8;
    let nn = (word % 0x100) as u8;
    let nnn = word % 0x1000;
    match class {
        0x0 => match nnn {
            0x0E0 => Some(Instruction::ClearDisplay),
            0x0EE => Some(Instruction::Return),
            _ => None,
        },
        0x1 => Some(Instruction::Jump(nnn)),
        0x2 => Some(Instruction::Call(nnn)),
        0x3 => Some(Instruction::SkipIfEqual(x, nn)),
        0x4 => Some(Instruction::SkipIfNotEqual(x, nn)),
        0x5 => Some(Instruction::SkipIfRegistersEqual(x, y)),
        0x6 => Some(Instruction::SetRegister(x, nn)),
        0x7 => Some(Instruction::AddToRegister(x, nn)),
        0x8 => match decode_alu_op(n) {
            Some(op) => Some(Instruction::Alu(op, x, y)),
            None => None,
        },
        0x9 => Some(Instruction::SkipIfRegistersNotEqual(x, y)),
        0xA => Some(Instruction::SetIndex(nnn)),
        0xB => Some(Instruction::JumpWithOffset(nnn)),
        0xC => Some(Instruction::Random(x, nn)),
        0xD => Some(Instruction::Draw(x, y, n)),
        0xE => match nn {
            0x9E => Some(Instruction::SkipIfKeyPressed(x)),
            0xA1 => Some(Instruction::SkipIfKeyNotPressed(x)),
            _ => None,
        },
        _ => decode_extended(x, nn),
    }
}

} // verus!
