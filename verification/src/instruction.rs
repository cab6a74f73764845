//! The instruction set: one variant per operation, and the decoder from
//! 16-bit instruction words.
//!
//! A word is read as four nibbles `f x y n`. `f` selects the family; `x` and
//! `y` name registers; `kk` is the low byte and `nnn` the low twelve bits.

use vstd::prelude::*;

verus! {

/// One decoded instruction with its operands.
///
/// `x` and `y` are register numbers, `kk` an immediate byte, `addr` a 12-bit
/// address and `n` a sprite height.
#[derive(Clone, Copy, Debug, PartialEq, Eq, Structural)]
pub enum Instruction {
    /// `00E0`: switch every pixel off.
    ClearScreen,
    /// `00EE`: return from a subroutine.
    Return,
    /// `1nnn`: jump to `addr`.
    Jump { addr: u16 },
    /// `2nnn`: call the subroutine at `addr`.
    Call { addr: u16 },
    /// `3xkk`: skip the next instruction if `Vx == kk`.
    SkipEqByte { x: u8, kk: u8 },
    /// `4xkk`: skip the next instruction if `Vx != kk`.
    SkipNeByte { x: u8, kk: u8 },
    /// `5xy_`: skip the next instruction if `Vx == Vy`.
    SkipEqReg { x: u8, y: u8 },
    /// `6xkk`: `Vx = kk`.
    LoadByte { x: u8, kk: u8 },
    /// `7xkk`: `Vx += kk`, wrapping, no flag.
    AddByte { x: u8, kk: u8 },
    /// `8xy0`: `Vx = Vy`.
    Move { x: u8, y: u8 },
    /// `8xy1`: `Vx |= Vy`.
    Or { x: u8, y: u8 },
    /// `8xy2`: `Vx &= Vy`.
    And { x: u8, y: u8 },
    /// `8xy3`: `Vx ^= Vy`.
    Xor { x: u8, y: u8 },
    /// `8xy4`: `Vx += Vy`, `VF` = carry.
    AddReg { x: u8, y: u8 },
    /// `8xy5`: `Vx -= Vy`, `VF` = borrow.
    SubReg { x: u8, y: u8 },
    /// `8xy6`: `Vx >>= 1`, `VF` = the bit shifted out.
    ShiftRight { x: u8 },
    /// `8xy7`: `Vy -= Vx`, `VF` = borrow.
    SubFrom { x: u8, y: u8 },
    /// `8xyE`: `Vx <<= 1`, `VF` = the bit shifted out.
    ShiftLeft { x: u8 },
    /// `9xy_`: skip the next instruction if `Vx != Vy`.
    SkipNeReg { x: u8, y: u8 },
    /// `Annn`: `I = addr`.
    LoadIndex { addr: u16 },
    /// `Bnnn`: jump to `addr + V0`.
    JumpOffset { addr: u16 },
    /// `Cxkk`: `Vx = random & kk`.
    Random { x: u8, kk: u8 },
    /// `Dxyn`: draw the `n`-row sprite at `I` at `(Vx, Vy)`, `VF` = collision.
    Draw { x: u8, y: u8, n: u8 },
    /// `Ex9E`: skip the next instruction if key `Vx` is down.
    SkipKeyDown { x: u8 },
    /// `ExA1`: skip the next instruction if key `Vx` is up.
    SkipKeyUp { x: u8 },
    /// `Fx07`: `Vx = delay timer`.
    ReadDelay { x: u8 },
    /// `Fx0A`: wait for a key and store its number in `Vx`.
    WaitKey { x: u8 },
    /// `Fx15`: `delay timer = Vx`.
    SetDelay { x: u8 },
    /// `Fx18`: `sound timer = Vx`.
    SetSound { x: u8 },
    /// `Fx1E`: `I += Vx`.
    AddIndex { x: u8 },
    /// `Fx29`: `I` = address of the glyph for the low nibble of `Vx`.
    FontGlyph { x: u8 },
    /// `Fx33`: store the three decimal digits of `Vx` at `I`, `I+1`, `I+2`.
    Bcd { x: u8 },
    /// `Fx55`: store `V0..=Vx` at `I..`.
    StoreRegisters { x: u8 },
    /// `Fx66`: load `V0..=Vx` from `I..`.
    LoadRegisters { x: u8 },
    /// Any word that encodes none of the above: a no-op that is reported.
    Unknown,
}

impl Instruction {
    /// Operands are in range: registers and heights below 16, addresses
    /// below 4096.
    pub open spec fn wf(self) -> bool {
        match self {
            Instruction::ClearScreen | Instruction::Return | Instruction::Unknown => true,
            Instruction::Jump { addr }
            | Instruction::Call { addr }
            | Instruction::LoadIndex { addr }
            | Instruction::JumpOffset { addr } => addr < 0x1000,
            Instruction::SkipEqByte { x, .. }
            | Instruction::SkipNeByte { x, .. }
            | Instruction::LoadByte { x, .. }
            | Instruction::AddByte { x, .. }
            | Instruction::Random { x, .. }
            | Instruction::ShiftRight { x }
            | Instruction::ShiftLeft { x }
            | Instruction::SkipKeyDown { x }
            | Instruction::SkipKeyUp { x }
            | Instruction::ReadDelay { x }
            | Instruction::WaitKey { x }
            | Instruction::SetDelay { x }
            | Instruction::SetSound { x }
            | Instruction::AddIndex { x }
            | Instruction::FontGlyph { x }
            | Instruction::Bcd { x }
            | Instruction::StoreRegisters { x }
            | Instruction::LoadRegisters { x } => x < 16,
            Instruction::SkipEqReg { x, y }
            | Instruction::Move { x, y }
            | Instruction::Or { x, y }
            | Instruction::And { x, y }
            | Instruction::Xor { x, y }
            | Instruction::AddReg { x, y }
            | Instruction::SubReg { x, y }
            | Instruction::SubFrom { x, y }
            | Instruction::SkipNeReg { x, y } => x < 16 && y < 16,
            Instruction::Draw { x, y, n } => x < 16 && y < 16 && n < 16,
        }
    }

    /// The instruction is one of the six conditional skips.
    pub open spec fn is_skip(self) -> bool {
        self is SkipEqByte || self is SkipNeByte || self is SkipEqReg || self is SkipNeReg
            || self is SkipKeyDown || self is SkipKeyUp
    }
}

/// The family nibble `f` of `f x y n`.
pub open spec fn family(word: u16) -> int {
    word as int / 0x1000
}

/// The register nibble `x` of `f x y n`.
pub open spec fn reg_x(word: u16) -> u8 {
    ((word as int / 0x100) % 0x10) as u8
}

/// The register nibble `y` of `f x y n`.
pub open spec fn reg_y(word: u16) -> u8 {
    ((word as int / 0x10) % 0x10) as u8
}

/// The last nibble `n` of `f x y n`.
pub open spec fn low_nibble(word: u16) -> u8 {
    (word as int % 0x10) as u8
}

/// The low byte `kk`.
pub open spec fn low_byte(word: u16) -> u8 {
    (word as int % 0x100) as u8
}

/// The low twelve bits `nnn`.
pub open spec fn address(word: u16) -> u16 {
    (word as int % 0x1000) as u16
}

/// What the family-8 word `8xyn` encodes.
pub open spec fn decode_alu(word: u16) -> Instruction {
    let x = reg_x(word);
    let y = reg_y(word);
    let n = low_nibble(word);
    if n == 0x0 {
        Instruction::Move { x, y }
    } else if n == 0x1 {
        Instruction::Or { x, y }
    } else if n == 0x2 {
        Instruction::And { x, y }
    } else if n == 0x3 {
        Instruction::Xor { x, y }
    } else if n == 0x4 {
        Instruction::AddReg { x, y }
    } else if n == 0x5 {
        Instruction::SubReg { x, y }
    } else if n == 0x6 {
        Instruction::ShiftRight { x }
    } else if n == 0x7 {
        Instruction::SubFrom { x, y }
    } else if n == 0xE {
        Instruction::ShiftLeft { x }
    } else {
        Instruction::Unknown
    }
}

/// What the family-F word `Fxkk` encodes.
pub open spec fn decode_misc(word: u16) -> Instruction {
    let x = reg_x(word);
    let kk = low_byte(word);
    if kk == 0x07 {
        Instruction::ReadDelay { x }
    } else if kk == 0x0A {
        Instruction::WaitKey { x }
    } else if kk == 0x15 {
        Instruction::SetDelay { x }
    } else if kk == 0x18 {
        Instruction::SetSound { x }
    } else if kk == 0x1E {
        Instruction::AddIndex { x }
    } else if kk == 0x29 {
        Instruction::FontGlyph { x }
    } else if kk == 0x33 {
        Instruction::Bcd { x }
    } else if kk == 0x55 {
        Instruction::StoreRegisters { x }
    } else if kk == 0x66 {
        Instruction::LoadRegisters { x }
    } else {
        Instruction::Unknown
    }
}

/// The instruction that `word` encodes.
pub open spec fn decode_spec(word: u16) -> Instruction {
    let f = family(word);
    let x = reg_x(word);
    let y = reg_y(word);
    let n = low_nibble(word);
    let kk = low_byte(word);
    let addr = address(word);
    if f == 0x0 {
        if word == 0x00E0 {
            Instruction::ClearScreen
        } else if word == 0x00EE {
            Instruction::Return
        } else {
            Instruction::Unknown
        }
    } else if f == 0x1 {
        Instruction::Jump { addr }
    } else if f == 0x2 {
        Instruction::Call { addr }
    } else if f == 0x3 {
        Instruction::SkipEqByte { x, kk }
    } else if f == 0x4 {
        Instruction::SkipNeByte { x, kk }
    } else if f == 0x5 {
        Instruction::SkipEqReg { x, y }
    } else if f == 0x6 {
        Instruction::LoadByte { x, kk }
    } else if f == 0x7 {
        Instruction::AddByte { x, kk }
    } else if f == 0x8 {
        decode_alu(word)
    } else if f == 0x9 {
        Instruction::SkipNeReg { x, y }
    } else if f == 0xA {
        Instruction::LoadIndex { addr }
    } else if f == 0xB {
        Instruction::JumpOffset { addr }
    } else if f == 0xC {
        Instruction::Random { x, kk }
    } else if f == 0xD {
        Instruction::Draw { x, y, n }
    } else if f == 0xE {
        if kk == 0x9E {
            Instruction::SkipKeyDown { x }
        } else if kk == 0xA1 {
            Instruction::SkipKeyUp { x }
        } else {
            Instruction::Unknown
        }
    } else {
        decode_misc(word)
    }
}

/// Every word decodes to an instruction whose operands are in range.
pub proof fn lemma_decode_wf(word: u16)
    ensures
        decode_spec(word).wf(),
{
}

/// Shifts and masks select the same fields as division and remainder.
proof fn lemma_fields(word: u16)
    ensures
        (word >> 12) as int == family(word),
        ((word >> 8) & 0xF) as u8 == reg_x(word),
        ((word >> 4) & 0xF) as u8 == reg_y(word),
        (word & 0xF) as u8 == low_nibble(word),
        (word & 0xFF) as u8 == low_byte(word),
        word & 0xFFF == address(word),
{
    assert(word >> 12 == word / 0x1000) by (bit_vector);
    assert((word >> 8) & 0xF == (word / 0x100) % 0x10) by (bit_vector);
    assert((word >> 4) & 0xF == (word / 0x10) % 0x10) by (bit_vector);
    assert(word & 0xF == word % 0x10) by (bit_vector);
    assert(word & 0xFF == word % 0x100) by (bit_vector);
    assert(word & 0xFFF == word % 0x1000) by (bit_vector);
}

/// Decodes one instruction word.
pub fn decode(word: u16) -> (instr: Instruction)
    ensures
        instr == decode_spec(word),
        instr.wf(),
{
    proof {
        lemma_fields(word);
    }
    let f: u16 = word >> 12;
    let x: u8 = ((word >> 8) & 0xF) as u8;
    let y: u8 = ((word >> 4) & 0xF) as u8;
    let n: u8 = (word & 0xF) as u8;
    let kk: u8 = (word & 0xFF) as u8;
    let addr: u16 = word & 0xFFF;
    match f {
        0x0 => match word {
            0x00E0 => Instruction::ClearScreen,
            0x00EE => Instruction::Return,
            _ => Instruction::Unknown,
        },
        0x1 => Instruction::Jump { addr },
        0x2 => Instruction::Call { addr },
        0x3 => Instruction::SkipEqByte { x, kk },
        0x4 => Instruction::SkipNeByte { x, kk },
        0x5 => Instruction::SkipEqReg { x, y },
        0x6 => Instruction::LoadByte { x, kk },
        0x7 => Instruction::AddByte { x, kk },
        0x8 => match n {
            0x0 => Instruction::Move { x, y },
            0x1 => Instruction::Or { x, y },
            0x2 => Instruction::And { x, y },
            0x3 => Instruction::Xor { x, y },
            0x4 => Instruction::AddReg { x, y },
            0x5 => Instruction::SubReg { x, y },
            0x6 => Instruction::ShiftRight { x },
            0x7 => Instruction::SubFrom { x, y },
            0xE => Instruction::ShiftLeft { x },
            _ => Instruction::Unknown,
        },
        0x9 => Instruction::SkipNeReg { x, y },
        0xA => Instruction::LoadIndex { addr },
        0xB => Instruction::JumpOffset { addr },
        0xC => Instruction::Random { x, kk },
        0xD => Instruction::Draw { x, y, n },
        0xE => match kk {
            0x9E => Instruction::SkipKeyDown { x },
            0xA1 => Instruction::SkipKeyUp { x },
            _ => Instruction::Unknown,
        },
        _ => match kk {
            0x07 => Instruction::ReadDelay { x },
            0x0A => Instruction::WaitKey { x },
            0x15 => Instruction::SetDelay { x },
            0x18 => Instruction::SetSound { x },
            0x1E => Instruction::AddIndex { x },
            0x29 => Instruction::FontGlyph { x },
            0x33 => Instruction::Bcd { x },
            0x55 => Instruction::StoreRegisters { x },
            0x66 => Instruction::LoadRegisters { x },
            _ => Instruction::Unknown,
        },
    }
}

} // verus!
