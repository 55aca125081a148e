//! Instruction decoding.
//!
//! A fetched 16-bit word splits into four nibbles `(a, b, c, d)`. The high
//! nibble selects the instruction family; the rest parametrize it as
//! register indices (`x`, `y`), a 4-bit immediate (`n`), an 8-bit immediate
//! (`kk`) or a 12-bit address (`nnn`). The table is exhaustive and mutually
//! exclusive over all 65536 words: anything unmatched decodes to
//! `Unknown`, which executes as a reported one-instruction no-op.

use vstd::prelude::*;

verus! {

/// One decoded instruction. Operand order follows the conventional
/// mnemonics: `x` and `y` are register indices, `kk` an 8-bit immediate,
/// `nnn` a 12-bit address, `n` a 4-bit immediate.
#[derive(Clone, Copy, Debug, PartialEq, Eq, Structural)]
pub enum Instruction {
    /// `00Cn`: scroll down `n` lines (SCHIP only).
    Scd(u8),
    /// `00E0`: clear the screen.
    Cls,
    /// `00EE`: return from a call.
    Ret,
    /// `00FB`: scroll right four pixels (SCHIP only).
    Scr,
    /// `00FC`: scroll left four pixels (SCHIP only).
    Scl,
    /// `00FD`: stop the interpreter (SCHIP only).
    Exit,
    /// `00FE`: leave high-resolution mode (SCHIP only).
    Low,
    /// `00FF`: enter high-resolution mode (SCHIP only).
    High,
    /// `1nnn`: jump.
    Jp(u16),
    /// `2nnn`: call a subroutine.
    Call(u16),
    /// `3xkk`: skip next if `Vx == kk`.
    SeVx(u8, u8),
    /// `4xkk`: skip next if `Vx != kk`.
    SneVx(u8, u8),
    /// `5xy0`: skip next if `Vx == Vy`.
    SeVxVy(u8, u8),
    /// `6xkk`: load `kk` into `Vx`.
    LdVx(u8, u8),
    /// `7xkk`: add `kk` to `Vx`, wrapping, no flag.
    AddVx(u8, u8),
    /// `8xy0`: copy `Vy` into `Vx`.
    LdVxVy(u8, u8),
    /// `8xy1`: bitwise or.
    OrVxVy(u8, u8),
    /// `8xy2`: bitwise and.
    AndVxVy(u8, u8),
    /// `8xy3`: bitwise exclusive or.
    XorVxVy(u8, u8),
    /// `8xy4`: add with carry flag.
    AddVxVy(u8, u8),
    /// `8xy5`: subtract with borrow flag.
    SubVxVy(u8, u8),
    /// `8xy6`: shift right (operand source depends on mode).
    ShrVxVy(u8, u8),
    /// `8xy7`: reversed subtract with borrow flag.
    SubnVxVy(u8, u8),
    /// `8xyE`: shift left (operand source depends on mode).
    ShlVxVy(u8, u8),
    /// `9xy0`: skip next if `Vx != Vy`.
    SneVxVy(u8, u8),
    /// `Annn`: load `nnn` into the index register.
    LdI(u16),
    /// `Bnnn`: jump to `V0 + nnn`.
    JpV0(u16),
    /// `Cxkk`: random byte masked by `kk` into `Vx`.
    RndVx(u8, u8),
    /// `Dxyn`: draw an `n`-byte sprite at `(Vx, Vy)`.
    DrwVxVy(u8, u8, u8),
    /// `Ex9E`: skip next if key `Vx` is down.
    SkpVx(u8),
    /// `ExA1`: skip next if key `Vx` is up.
    SknpVx(u8),
    /// `Fx07`: read the delay timer into `Vx`.
    LdVxDt(u8),
    /// `Fx0A`: block until a key press lands in `Vx`.
    LdVxK(u8),
    /// `Fx15`: load `Vx` into the delay timer.
    LdDtVx(u8),
    /// `Fx18`: load `Vx` into the sound timer.
    LdStVx(u8),
    /// `Fx1E`: add `Vx` to the index register, wrapping.
    AddIVx(u8),
    /// `Fx29`: point the index register at the small glyph for `Vx`.
    LdFVx(u8),
    /// `Fx30`: point the index register at the large glyph for `Vx` (SCHIP only).
    LdHfVx(u8),
    /// `Fx33`: store the decimal digits of `Vx` at `I`, `I+1`, `I+2`.
    LdBVx(u8),
    /// `Fx55`: copy `V0..=Vx` into memory at `I`.
    LdIVx(u8),
    /// `Fx65`: read `V0..=Vx` from memory at `I`.
    LdVxI(u8),
    /// `Fx75`: save `V0..=Vx` to the RPL flags (SCHIP only).
    LdRVx(u8),
    /// `Fx85`: restore `V0..=Vx` from the RPL flags (SCHIP only).
    LdVxR(u8),
    /// Any word outside the table: a reported no-op, never fatal.
    Unknown(u16),
}

/// The decoding function, stated mathematically.
pub open spec fn spec_decode(instruction: u16) -> Instruction {
    let a = instruction / 0x1000;
    let b = (instruction / 0x100) % 0x10;
    let c = (instruction / 0x10) % 0x10;
    let d = instruction % 0x10;
    let x = b as u8;
    let y = c as u8;
    let n = d as u8;
    let kk = (instruction % 0x100) as u8;
    let nnn = instruction % 0x1000;
    if a == 0x0 && b == 0x0 && c == 0xC {
        Instruction::Scd(n)
    } else if instruction == 0x00E0 {
        Instruction::Cls
    } else if instruction == 0x00EE {
        Instruction::Ret
    } else if instruction == 0x00FB {
        Instruction::Scr
    } else if instruction == 0x00FC {
        Instruction::Scl
    } else if instruction == 0x00FD {
        Instruction::Exit
    } else if instruction == 0x00FE {
        Instruction::Low
    } else if instruction == 0x00FF {
        Instruction::High
    } else if a == 0x1 {
        Instruction::Jp(nnn)
    } else if a == 0x2 {
        Instruction::Call(nnn)
    } else if a == 0x3 {
        Instruction::SeVx(x, kk)
    } else if a == 0x4 {
        Instruction::SneVx(x, kk)
    } else if a == 0x5 && d == 0x0 {
        Instruction::SeVxVy(x, y)
    } else if a == 0x6 {
        Instruction::LdVx(x, kk)
    } else if a == 0x7 {
        Instruction::AddVx(x, kk)
    } else if a == 0x8 && d == 0x0 {
        Instruction::LdVxVy(x, y)
    } else if a == 0x8 && d == 0x1 {
        Instruction::OrVxVy(x, y)
    } else if a == 0x8 && d == 0x2 {
        Instruction::AndVxVy(x, y)
    } else if a == 0x8 && d == 0x3 {
        Instruction::XorVxVy(x, y)
    } else if a == 0x8 && d == 0x4 {
        Instruction::AddVxVy(x, y)
    } else if a == 0x8 && d == 0x5 {
        Instruction::SubVxVy(x, y)
    } else if a == 0x8 && d == 0x6 {
        Instruction::ShrVxVy(x, y)
    } else if a == 0x8 && d == 0x7 {
        Instruction::SubnVxVy(x, y)
    } else if a == 0x8 && d == 0xE {
        Instruction::ShlVxVy(x, y)
    } else if a == 0x9 && d == 0x0 {
        Instruction::SneVxVy(x, y)
    } else if a == 0xA {
        Instruction::LdI(nnn)
    } else if a == 0xB {
        Instruction::JpV0(nnn)
    } else if a == 0xC {
        Instruction::RndVx(x, kk)
    } else if a == 0xD {
        Instruction::DrwVxVy(x, y, n)
    } else if a == 0xE && kk == 0x9E {
        Instruction::SkpVx(x)
    } else if a == 0xE && kk == 0xA1 {
        Instruction::SknpVx(x)
    } else if a == 0xF && kk == 0x07 {
        Instruction::LdVxDt(x)
    } else if a == 0xF && kk == 0x0A {
        Instruction::LdVxK(x)
    } else if a == 0xF && kk == 0x15 {
        Instruction::LdDtVx(x)
    } else if a == 0xF && kk == 0x18 {
        Instruction::LdStVx(x)
    } else if a == 0xF && kk == 0x1E {
        Instruction::AddIVx(x)
    } else if a == 0xF && kk == 0x29 {
        Instruction::LdFVx(x)
    } else if a == 0xF && kk == 0x30 {
        Instruction::LdHfVx(x)
    } else if a == 0xF && kk == 0x33 {
        Instruction::LdBVx(x)
    } else if a == 0xF && kk == 0x55 {
        Instruction::LdIVx(x)
    } else if a == 0xF && kk == 0x65 {
        Instruction::LdVxI(x)
    } else if a == 0xF && kk == 0x75 {
        Instruction::LdRVx(x)
    } else if a == 0xF && kk == 0x85 {
        Instruction::LdVxR(x)
    } else {
        Instruction::Unknown(instruction)
    }
}

/// Register indices and the 4-bit immediate of a decoded instruction are
/// always nibbles.
pub proof fn lemma_decode_operands_bounded(instruction: u16)
    ensures
        match spec_decode(instruction) {
            Instruction::SeVx(x, _)
            | Instruction::SneVx(x, _)
            | Instruction::LdVx(x, _)
            | Instruction::AddVx(x, _)
            | Instruction::RndVx(x, _)
            | Instruction::SkpVx(x)
            | Instruction::SknpVx(x)
            | Instruction::LdVxDt(x)
            | Instruction::LdVxK(x)
            | Instruction::LdDtVx(x)
            | Instruction::LdStVx(x)
            | Instruction::AddIVx(x)
            | Instruction::LdFVx(x)
            | Instruction::LdHfVx(x)
            | Instruction::LdBVx(x)
            | Instruction::LdIVx(x)
            | Instruction::LdVxI(x)
            | Instruction::LdRVx(x)
            | Instruction::LdVxR(x) => x < 16,
            Instruction::SeVxVy(x, y)
            | Instruction::SneVxVy(x, y)
            | Instruction::LdVxVy(x, y)
            | Instruction::OrVxVy(x, y)
            | Instruction::AndVxVy(x, y)
            | Instruction::XorVxVy(x, y)
            | Instruction::AddVxVy(x, y)
            | Instruction::SubVxVy(x, y)
            | Instruction::ShrVxVy(x, y)
            | Instruction::SubnVxVy(x, y)
            | Instruction::ShlVxVy(x, y) => x < 16 && y < 16,
            Instruction::DrwVxVy(x, y, n) => x < 16 && y < 16 && n < 16,
            Instruction::Jp(nnn) | Instruction::Call(nnn) | Instruction::LdI(nnn)
            | Instruction::JpV0(nnn) => nnn < 0x1000,
            Instruction::Scd(n) => n < 16,
            _ => true,
        },
{
}

/// Split a fetched word into its decoded instruction.
pub fn decode(instruction: u16) -> (r: Instruction)
    ensures
        r == spec_decode(instruction),
{
    let a: u16 = instruction / 0x1000;
    let b: u16 = (instruction / 0x100) % 0x10;
    let c: u16 = (instruction / 0x10) % 0x10;
    let d: u16 = instruction % 0x10;
    let x: u8 = b as u8;
    let y: u8 = c as u8;
    let n: u8 = d as u8;
    let kk: u8 = (instruction % 0x100) as u8;
    let nnn: u16 = instruction % 0x1000;
    if a == 0x0 && b == 0x0 && c == 0xC {
        Instruction::Scd(n)
    } else if instruction == 0x00E0 {
        Instruction::Cls
    } else if instruction == 0x00EE {
        Instruction::Ret
    } else if instruction == 0x00FB {
        Instruction::Scr
    } else if instruction == 0x00FC {
        Instruction::Scl
    } else if instruction == 0x00FD {
        Instruction::Exit
    } else if instruction == 0x00FE {
        Instruction::Low
    } else if instruction == 0x00FF {
        Instruction::High
    } else if a == 0x1 {
        Instruction::Jp(nnn)
    } else if a == 0x2 {
        Instruction::Call(nnn)
    } else if a == 0x3 {
        Instruction::SeVx(x, kk)
    } else if a == 0x4 {
        Instruction::SneVx(x, kk)
    } else if a == 0x5 && d == 0x0 {
        Instruction::SeVxVy(x, y)
    } else if a == 0x6 {
        Instruction::LdVx(x, kk)
    } else if a == 0x7 {
        Instruction::AddVx(x, kk)
    } else if a == 0x8 && d == 0x0 {
        Instruction::LdVxVy(x, y)
    } else if a == 0x8 && d == 0x1 {
        Instruction::OrVxVy(x, y)
    } else if a == 0x8 && d == 0x2 {
        Instruction::AndVxVy(x, y)
    } else if a == 0x8 && d == 0x3 {
        Instruction::XorVxVy(x, y)
    } else if a == 0x8 && d == 0x4 {
        Instruction::AddVxVy(x, y)
    } else if a == 0x8 && d == 0x5 {
        Instruction::SubVxVy(x, y)
    } else if a == 0x8 && d == 0x6 {
        Instruction::ShrVxVy(x, y)
    } else if a == 0x8 && d == 0x7 {
        Instruction::SubnVxVy(x, y)
    } else if a == 0x8 && d == 0xE {
        Instruction::ShlVxVy(x, y)
    } else if a == 0x9 && d == 0x0 {
        Instruction::SneVxVy(x, y)
    } else if a == 0xA {
        Instruction::LdI(nnn)
    } else if a == 0xB {
        Instruction::JpV0(nnn)
    } else if a == 0xC {
        Instruction::RndVx(x, kk)
    } else if a == 0xD {
        Instruction::DrwVxVy(x, y, n)
    } else if a == 0xE && kk == 0x9E {
        Instruction::SkpVx(x)
    } else if a == 0xE && kk == 0xA1 {
        Instruction::SknpVx(x)
    } else if a == 0xF && kk == 0x07 {
        Instruction::LdVxDt(x)
    } else if a == 0xF && kk == 0x0A {
        Instruction::LdVxK(x)
    } else if a == 0xF && kk == 0x15 {
        Instruction::LdDtVx(x)
    } else if a == 0xF && kk == 0x18 {
        Instruction::LdStVx(x)
    } else if a == 0xF && kk == 0x1E {
        Instruction::AddIVx(x)
    } else if a == 0xF && kk == 0x29 {
        Instruction::LdFVx(x)
    } else if a == 0xF && kk == 0x30 {
        Instruction::LdHfVx(x)
    } else if a == 0xF && kk == 0x33 {
        Instruction::LdBVx(x)
    } else if a == 0xF && kk == 0x55 {
        Instruction::LdIVx(x)
    } else if a == 0xF && kk == 0x65 {
        Instruction::LdVxI(x)
    } else if a == 0xF && kk == 0x75 {
        Instruction::LdRVx(x)
    } else if a == 0xF && kk == 0x85 {
        Instruction::LdVxR(x)
    } else {
        Instruction::Unknown(instruction)
    }
}

} // verus!
