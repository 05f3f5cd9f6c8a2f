use vstd::prelude::*;

verus! {

/// The addressing fields of an instruction word `0xCXYD`: its four nibbles,
/// its low twelve bits (`nnn`) and its low byte (`kk`).
#[derive(Clone, Copy, Debug, PartialEq, Eq, Structural)]
pub struct Fields {
    pub category: u8,
    pub x: u8,
    pub y: u8,
    pub d: u8,
    pub nnn: u16,
    pub kk: u8,
}

/// The fields of `word`.
pub open spec fn fields_of(word: u16) -> Fields {
    Fields {
        category: (word / 0x1000) as u8,
        x: (word / 0x100 % 0x10) as u8,
        y: (word / 0x10 % 0x10) as u8,
        d: (word % 0x10) as u8,
        nnn: (word % 0x1000) as u16,
        kk: (word % 0x100) as u8,
    }
}

/// Splits an instruction word into its fields.
pub fn split(word: u16) -> (f: Fields)
    ensures
        f == fields_of(word),
{
    let f = Fields {
        category: (word >> 12) as u8,
        x: ((word >> 8) & 0xF) as u8,
        y: ((word >> 4) & 0xF) as u8,
        d: (word & 0xF) as u8,
        nnn: word & 0xFFF,
        kk: (word & 0xFF) as u8,
    };
    assert(word >> 12 == word / 0x1000) by (bit_vector);
    assert((word >> 8) & 0xF == word / 0x100 % 0x10) by (bit_vector);
    assert((word >> 4) & 0xF == word / 0x10 % 0x10) by (bit_vector);
    assert(word & 0xF == word % 0x10) by (bit_vector);
    assert(word & 0xFFF == word % 0x1000) by (bit_vector);
    assert(word & 0xFF == word % 0x100) by (bit_vector);
    f
}

/// One operation of the instruction set. `x` and `y` name registers, `kk` is
/// a byte literal, `nnn` an address literal and `n` a sprite's row count.
#[derive(Clone, Copy, Debug, PartialEq, Eq, Structural)]
pub enum Instruction {
    /// `0000`: stop the machine.
    Halt,
    /// `00E0`: clear the display.
    Clear,
    /// `00EE`: return from a subroutine.
    Return,
    /// `1nnn`: jump to `nnn`.
    Jump { nnn: u16 },
    /// `2nnn`: call the subroutine at `nnn`.
    Call { nnn: u16 },
    /// `3xkk`: skip the next instruction if `Vx == kk`.
    SkipIfEqualByte { x: u8, kk: u8 },
    /// `4xkk`: skip the next instruction if `Vx != kk`.
    SkipIfNotEqualByte { x: u8, kk: u8 },
    /// `5xy0`: skip the next instruction if `Vx == Vy`.
    SkipIfEqual { x: u8, y: u8 },
    /// `6xkk`: `Vx = kk`.
    SetRegister { x: u8, kk: u8 },
    /// `7xkk`: `Vx = Vx + kk`, wrapping, flag untouched.
    Add { x: u8, kk: u8 },
    /// `8xy0`: `Vx = Vy`.
    CopyRegister { x: u8, y: u8 },
    /// `8xy1`: `Vx = Vx | Vy`.
    Or { x: u8, y: u8 },
    /// `8xy2`: `Vx = Vx & Vy`.
    And { x: u8, y: u8 },
    /// `8xy3`: `Vx = Vx ^ Vy`.
    Xor { x: u8, y: u8 },
    /// `8xy4`: `Vx = Vx + Vy`, flag set on carry.
    AddRegisters { x: u8, y: u8 },
    /// `8xy5`: `Vx = Vx - Vy`, flag cleared on borrow.
    SubRegisters { x: u8, y: u8 },
    /// `8xy6`: `Vx = Vx >> 1`, flag takes the bit shifted out.
    ShiftRight { x: u8 },
    /// `8xy7`: `Vx = Vy - Vx`, flag cleared on borrow.
    SubReversed { x: u8, y: u8 },
    /// `8xyE`: `Vx = Vx << 1`, flag takes the bit shifted out.
    ShiftLeft { x: u8 },
    /// `9xy0`: skip the next instruction if `Vx != Vy`.
    SkipIfNotEqual { x: u8, y: u8 },
    /// `Annn`: `I = nnn`.
    SetIndex { nnn: u16 },
    /// `Bnnn`: jump to `nnn + V0`.
    JumpOffset { nnn: u16 },
    /// `Cxkk`: `Vx = random byte & kk`.
    Random { x: u8, kk: u8 },
    /// `Dxyn`: draw the `n`-row sprite at `I` at (`Vx`, `Vy`).
    Draw { x: u8, y: u8, n: u8 },
    /// `Ex9E`: skip the next instruction if the key `Vx` is held.
    SkipIfKey { x: u8 },
    /// `ExA1`: skip the next instruction if the key `Vx` is not held.
    SkipIfNotKey { x: u8 },
    /// `Fx07`: `Vx = delay timer`.
    ReadTimer { x: u8 },
    /// `Fx0A`: wait until a key is held and put its code in `Vx`.
    WaitKey { x: u8 },
    /// `Fx15`: `delay timer = Vx`.
    SetTimer { x: u8 },
    /// `Fx18`: sound timer; there is no sound, so nothing happens.
    SetSoundTimer { x: u8 },
    /// `Fx1E`: `I = I + Vx`, flag set on overflow of the 16-bit index.
    AddToIndex { x: u8 },
    /// `Fx29`: `I` = address of the font glyph for the low nibble of `Vx`.
    Font { x: u8 },
    /// `Fx33`: store the decimal digits of `Vx` at `I`.
    Decimal { x: u8 },
    /// `Fx55`: store `V0` to `Vx` at `I`.
    StoreRegisters { x: u8 },
    /// `Fx65`: load `V0` to `Vx` from `I`.
    LoadRegisters { x: u8 },
    /// Any other word.
    Unknown { word: u16 },
}

/// The operation that `word` encodes.
pub open spec fn instruction_of(word: u16) -> Instruction {
    let f = fields_of(word);
    let (c, x, y, d, nnn, kk) = (f.category, f.x, f.y, f.d, f.nnn, f.kk);
    if word == 0 {
        Instruction::Halt
    } else if word == 0x00E0 {
        Instruction::Clear
    } else if word == 0x00EE {
        Instruction::Return
    } else if c == 0x1 {
        Instruction::Jump { nnn }
    } else if c == 0x2 {
        Instruction::Call { nnn }
    } else if c == 0x3 {
        Instruction::SkipIfEqualByte { x, kk }
    } else if c == 0x4 {
        Instruction::SkipIfNotEqualByte { x, kk }
    } else if c == 0x5 && d == 0 {
        Instruction::SkipIfEqual { x, y }
    } else if c == 0x6 {
        Instruction::SetRegister { x, kk }
    } else if c == 0x7 {
        Instruction::Add { x, kk }
    } else if c == 0x8 && d == 0x0 {
        Instruction::CopyRegister { x, y }
    } else if c == 0x8 && d == 0x1 {
        Instruction::Or { x, y }
    } else if c == 0x8 && d == 0x2 {
        Instruction::And { x, y }
    } else if c == 0x8 && d == 0x3 {
        Instruction::Xor { x, y }
    } else if c == 0x8 && d == 0x4 {
        Instruction::AddRegisters { x, y }
    } else if c == 0x8 && d == 0x5 {
        Instruction::SubRegisters { x, y }
    } else if c == 0x8 && d == 0x6 {
        Instruction::ShiftRight { x }
    } else if c == 0x8 && d == 0x7 {
        Instruction::SubReversed { x, y }
    } else if c == 0x8 && d == 0xE {
        Instruction::ShiftLeft { x }
    } else if c == 0x9 && d == 0 {
        Instruction::SkipIfNotEqual { x, y }
    } else if c == 0xA {
        Instruction::SetIndex { nnn }
    } else if c == 0xB {
        Instruction::JumpOffset { nnn }
    } else if c == 0xC {
        Instruction::Random { x, kk }
    } else if c == 0xD {
        Instruction::Draw { x, y, n: d }
    } else if c == 0xE && kk == 0x9E {
        Instruction::SkipIfKey { x }
    } else if c == 0xE && kk == 0xA1 {
        Instruction::SkipIfNotKey { x }
    } else if c == 0xF && kk == 0x07 {
        Instruction::ReadTimer { x }
    } else if c == 0xF && kk == 0x0A {
        Instruction::WaitKey { x }
    } else if c == 0xF && kk == 0x15 {
        Instruction::SetTimer { x }
    } else if c == 0xF && kk == 0x18 {
        Instruction::SetSoundTimer { x }
    } else if c == 0xF && kk == 0x1E {
        Instruction::AddToIndex { x }
    } else if c == 0xF && kk == 0x29 {
        Instruction::Font { x }
    } else if c == 0xF && kk == 0x33 {
        Instruction::Decimal { x }
    } else if c == 0xF && kk == 0x55 {
        Instruction::StoreRegisters { x }
    } else if c == 0xF && kk == 0x65 {
        Instruction::LoadRegisters { x }
    } else {
        Instruction::Unknown { word }
    }
}

/// Every register that an operation names is one of the sixteen.
pub open spec fn registers_in_range(i: Instruction) -> bool {
    match i {
        Instruction::SkipIfEqualByte { x, .. } | Instruction::SkipIfNotEqualByte { x, .. }
        | Instruction::SetRegister { x, .. } | Instruction::Add { x, .. } | Instruction::ShiftRight { x }
        | Instruction::ShiftLeft { x } | Instruction::Random { x, .. } | Instruction::SkipIfKey { x }
        | Instruction::SkipIfNotKey { x } | Instruction::ReadTimer { x } | Instruction::WaitKey { x }
        | Instruction::SetTimer { x } | Instruction::SetSoundTimer { x } | Instruction::AddToIndex { x }
        | Instruction::Font { x } | Instruction::Decimal { x } | Instruction::StoreRegisters { x }
        | Instruction::LoadRegisters { x } => x < 16,
        Instruction::SkipIfEqual { x, y } | Instruction::CopyRegister { x, y } | Instruction::Or { x, y }
        | Instruction::And { x, y } | Instruction::Xor { x, y } | Instruction::AddRegisters { x, y }
        | Instruction::SubRegisters { x, y } | Instruction::SubReversed { x, y }
        | Instruction::SkipIfNotEqual { x, y } | Instruction::Draw { x, y, .. } => x < 16 && y < 16,
        _ => true,
    }
}

/// Decodes an instruction word.
pub fn decode(word: u16) -> (r: Instruction)
    ensures
        r == instruction_of(word),
        registers_in_range(r),
{
    let f = split(word);
    let (c, x, y, d, nnn, kk) = (f.category, f.x, f.y, f.d, f.nnn, f.kk);
    if word == 0 {
        Instruction::Halt
    } else if word == 0x00E0 {
        Instruction::Clear
    } else if word == 0x00EE {
        Instruction::Return
    } else if c == 0x1 {
        Instruction::Jump { nnn }
    } else if c == 0x2 {
        Instruction::Call { nnn }
    } else if c == 0x3 {
        Instruction::SkipIfEqualByte { x, kk }
    } else if c == 0x4 {
        Instruction::SkipIfNotEqualByte { x, kk }
    } else if c == 0x5 && d == 0 {
        Instruction::SkipIfEqual { x, y }
    } else if c == 0x6 {
        Instruction::SetRegister { x, kk }
    } else if c == 0x7 {
        Instruction::Add { x, kk }
    } else if c == 0x8 && d == 0x0 {
        Instruction::CopyRegister { x, y }
    } else if c == 0x8 && d == 0x1 {
        Instruction::Or { x, y }
    } else if c == 0x8 && d == 0x2 {
        Instruction::And { x, y }
    } else if c == 0x8 && d == 0x3 {
        Instruction::Xor { x, y }
    } else if c == 0x8 && d == 0x4 {
        Instruction::AddRegisters { x, y }
    } else if c == 0x8 && d == 0x5 {
        Instruction::SubRegisters { x, y }
    } else if c == 0x8 && d == 0x6 {
        Instruction::ShiftRight { x }
    } else if c == 0x8 && d == 0x7 {
        Instruction::SubReversed { x, y }
    } else if c == 0x8 && d == 0xE {
        Instruction::ShiftLeft { x }
    } else if c == 0x9 && d == 0 {
        Instruction::SkipIfNotEqual { x, y }
    } else if c == 0xA {
        Instruction::SetIndex { nnn }
    } else if c == 0xB {
        Instruction::JumpOffset { nnn }
    } else if c == 0xC {
        Instruction::Random { x, kk }
    } else if c == 0xD {
        Instruction::Draw { x, y, n: d }
    } else if c == 0xE && kk == 0x9E {
        Instruction::SkipIfKey { x }
    } else if c == 0xE && kk == 0xA1 {
        Instruction::SkipIfNotKey { x }
    } else if c == 0xF && kk == 0x07 {
        Instruction::ReadTimer { x }
    } else if c == 0xF && kk == 0x0A {
        Instruction::WaitKey { x }
    } else if c == 0xF && kk == 0x15 {
        Instruction::SetTimer { x }
    } else if c == 0xF && kk == 0x18 {
        Instruction::SetSoundTimer { x }
    } else if c == 0xF && kk == 0x1E {
        Instruction::AddToIndex { x }
    } else if c == 0xF && kk == 0x29 {
        Instruction::Font { x }
    } else if c == 0xF && kk == 0x33 {
        Instruction::Decimal { x }
    } else if c == 0xF && kk == 0x55 {
        Instruction::StoreRegisters { x }
    } else if c == 0xF && kk == 0x65 {
        Instruction::LoadRegisters { x }
    } else {
        Instruction::Unknown { word }
    }
}

} // verus!
