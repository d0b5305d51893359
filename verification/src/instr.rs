//! The 35-entry opcode table: a structured instruction value decoded once
//! from the four nibbles of a 2-byte instruction word.

use vstd::prelude::*;

verus! {

/// One decoded instruction. `x` and `y` are register numbers (always below
/// 16, being nibbles), `nn` an 8-bit immediate, `nnn` a 12-bit address and
/// `n` a 4-bit row count.
#[derive(Clone, Copy, Debug)]
pub enum Instr {
    /// 0000: no operation.
    Nop,
    /// 00E0: clear the display.
    ClearScreen,
    /// 00EE: return from a subroutine.
    Return,
    /// 1NNN: jump to NNN.
    Jump { nnn: u16 },
    /// 2NNN: call the subroutine at NNN.
    Call { nnn: u16 },
    /// 3XNN: skip the next instruction if VX == NN.
    SkipEqImm { x: u8, nn: u8 },
    /// 4XNN: skip the next instruction if VX != NN.
    SkipNeImm { x: u8, nn: u8 },
    /// 5XY0: skip the next instruction if VX == VY.
    SkipEqReg { x: u8, y: u8 },
    /// 6XNN: VX = NN.
    SetImm { x: u8, nn: u8 },
    /// 7XNN: VX += NN, wrapping, flags untouched.
    AddImm { x: u8, nn: u8 },
    /// 8XY0: VX = VY.
    Copy { x: u8, y: u8 },
    /// 8XY1: VX |= VY, then the flags register is cleared.
    Or { x: u8, y: u8 },
    /// 8XY2: VX &= VY, then the flags register is cleared.
    And { x: u8, y: u8 },
    /// 8XY3: VX ^= VY, then the flags register is cleared.
    Xor { x: u8, y: u8 },
    /// 8XY4: VX += VY; the flags register reports unsigned overflow.
    Add { x: u8, y: u8 },
    /// 8XY5: VX -= VY; the flags register is 1 when no borrow occurred.
    Sub { x: u8, y: u8 },
    /// 8XY6: VX = VY >> 1; the flags register takes VY's old low bit.
    ShiftRight { x: u8, y: u8 },
    /// 8XY7: VX = VY - VX; the flags register is 1 when no borrow occurred.
    SubFrom { x: u8, y: u8 },
    /// 8XYE: VX = VY << 1; the flags register takes VY's old high bit.
    ShiftLeft { x: u8, y: u8 },
    /// 9XY0: skip the next instruction if VX != VY.
    SkipNeReg { x: u8, y: u8 },
    /// ANNN: I = NNN.
    SetIndex { nnn: u16 },
    /// BNNN: jump to V0 + NNN.
    JumpOffset { nnn: u16 },
    /// CXNN: VX = random byte AND NN.
    Random { x: u8, nn: u8 },
    /// DXYN: draw the N-row sprite at I to (VX, VY).
    Draw { x: u8, y: u8, n: u8 },
    /// EX9E: skip the next instruction if the key named by VX is pressed.
    SkipKey { x: u8 },
    /// EXA1: skip the next instruction if the key named by VX is not pressed.
    SkipNoKey { x: u8 },
    /// FX07: VX = delay timer.
    ReadDelay { x: u8 },
    /// FX0A: wait for a key press and store the key index in VX.
    WaitKey { x: u8 },
    /// FX15: delay timer = VX.
    SetDelay { x: u8 },
    /// FX18: sound timer = VX.
    SetSound { x: u8 },
    /// FX1E: I += VX, wrapping modulo 16 bits.
    AddIndex { x: u8 },
    /// FX29: I = the font address of the glyph named by VX.
    FontAddr { x: u8 },
    /// FX33: store VX's three decimal digits at I, most significant first.
    StoreBcd { x: u8 },
    /// FX55: store V0..=VX at I, advancing I by X + 1.
    StoreRegs { x: u8 },
    /// FX65: load V0..=VX from I, advancing I by X + 1.
    LoadRegs { x: u8 },
}

/// The 12-bit address held in the low three nibbles of an instruction word.
pub open spec fn nnn_of(n1: u8, n2: u8, n3: u8) -> u16 {
    (n1 * 256 + n2 * 16 + n3) as u16
}

/// The 8-bit immediate held in the low two nibbles of an instruction word.
pub open spec fn nn_of(n2: u8, n3: u8) -> u8 {
    (n2 * 16 + n3) as u8
}

/// The opcode table: which instruction, if any, the four nibbles of an
/// instruction word select. `None` is a fatal decode error.
pub open spec fn decode(w: (u8, u8, u8, u8)) -> Option<Instr> {
    let (n0, n1, n2, n3) = w;
    if n0 == 0 && n1 == 0 && n2 == 0 && n3 == 0 {
        Some(Instr::Nop)
    } else if n0 == 0 && n1 == 0 && n2 == 0xE && n3 == 0 {
        Some(Instr::ClearScreen)
    } else if n0 == 0 && n1 == 0 && n2 == 0xE && n3 == 0xE {
        Some(Instr::Return)
    } else if n0 == 1 {
        Some(Instr::Jump { nnn: nnn_of(n1, n2, n3) })
    } else if n0 == 2 {
        Some(Instr::Call { nnn: nnn_of(n1, n2, n3) })
    } else if n0 == 3 {
        Some(Instr::SkipEqImm { x: n1, nn: nn_of(n2, n3) })
    } else if n0 == 4 {
        Some(Instr::SkipNeImm { x: n1, nn: nn_of(n2, n3) })
    } else if n0 == 5 && n3 == 0 {
        Some(Instr::SkipEqReg { x: n1, y: n2 })
    } else if n0 == 6 {
        Some(Instr::SetImm { x: n1, nn: nn_of(n2, n3) })
    } else if n0 == 7 {
        Some(Instr::AddImm { x: n1, nn: nn_of(n2, n3) })
    } else if n0 == 8 && n3 == 0 {
        Some(Instr::Copy { x: n1, y: n2 })
    } else if n0 == 8 && n3 == 1 {
        Some(Instr::Or { x: n1, y: n2 })
    } else if n0 == 8 && n3 == 2 {
        Some(Instr::And { x: n1, y: n2 })
    } else if n0 == 8 && n3 == 3 {
        Some(Instr::Xor { x: n1, y: n2 })
    } else if n0 == 8 && n3 == 4 {
        Some(Instr::Add { x: n1, y: n2 })
    } else if n0 == 8 && n3 == 5 {
        Some(Instr::Sub { x: n1, y: n2 })
    } else if n0 == 8 && n3 == 6 {
        Some(Instr::ShiftRight { x: n1, y: n2 })
    } else if n0 == 8 && n3 == 7 {
        Some(Instr::SubFrom { x: n1, y: n2 })
    } else if n0 == 8 && n3 == 0xE {
        Some(Instr::ShiftLeft { x: n1, y: n2 })
    } else if n0 == 9 && n3 == 0 {
        Some(Instr::SkipNeReg { x: n1, y: n2 })
    } else if n0 == 0xA {
        Some(Instr::SetIndex { nnn: nnn_of(n1, n2, n3) })
    } else if n0 == 0xB {
        Some(Instr::JumpOffset { nnn: nnn_of(n1, n2, n3) })
    } else if n0 == 0xC {
        Some(Instr::Random { x: n1, nn: nn_of(n2, n3) })
    } else if n0 == 0xD {
        Some(Instr::Draw { x: n1, y: n2, n: n3 })
    } else if n0 == 0xE && n2 == 9 && n3 == 0xE {
        Some(Instr::SkipKey { x: n1 })
    } else if n0 == 0xE && n2 == 0xA && n3 == 1 {
        Some(Instr::SkipNoKey { x: n1 })
    } else if n0 == 0xF && n2 == 0 && n3 == 7 {
        Some(Instr::ReadDelay { x: n1 })
    } else if n0 == 0xF && n2 == 0 && n3 == 0xA {
        Some(Instr::WaitKey { x: n1 })
    } else if n0 == 0xF && n2 == 1 && n3 == 5 {
        Some(Instr::SetDelay { x: n1 })
    } else if n0 == 0xF && n2 == 1 && n3 == 8 {
        Some(Instr::SetSound { x: n1 })
    } else if n0 == 0xF && n2 == 1 && n3 == 0xE {
        Some(Instr::AddIndex { x: n1 })
    } else if n0 == 0xF && n2 == 2 && n3 == 9 {
        Some(Instr::FontAddr { x: n1 })
    } else if n0 == 0xF && n2 == 3 && n3 == 3 {
        Some(Instr::StoreBcd { x: n1 })
    } else if n0 == 0xF && n2 == 5 && n3 == 5 {
        Some(Instr::StoreRegs { x: n1 })
    } else if n0 == 0xF && n2 == 6 && n3 == 5 {
        Some(Instr::LoadRegs { x: n1 })
    } else {
        None
    }
}

/// Field bounds that decoding a word of nibbles guarantees: register
/// numbers and row counts below 16, addresses below 4096.
pub open spec fn instr_valid(i: Instr) -> bool {
    match i {
        Instr::Nop => true,
        Instr::ClearScreen => true,
        Instr::Return => true,
        Instr::Jump { nnn } => nnn < 4096,
        Instr::Call { nnn } => nnn < 4096,
        Instr::SkipEqImm { x, nn } => x < 16,
        Instr::SkipNeImm { x, nn } => x < 16,
        Instr::SkipEqReg { x, y } => x < 16 && y < 16,
        Instr::SetImm { x, nn } => x < 16,
        Instr::AddImm { x, nn } => x < 16,
        Instr::Copy { x, y } => x < 16 && y < 16,
        Instr::Or { x, y } => x < 16 && y < 16,
        Instr::And { x, y } => x < 16 && y < 16,
        Instr::Xor { x, y } => x < 16 && y < 16,
        Instr::Add { x, y } => x < 16 && y < 16,
        Instr::Sub { x, y } => x < 16 && y < 16,
        Instr::ShiftRight { x, y } => x < 16 && y < 16,
        Instr::SubFrom { x, y } => x < 16 && y < 16,
        Instr::ShiftLeft { x, y } => x < 16 && y < 16,
        Instr::SkipNeReg { x, y } => x < 16 && y < 16,
        Instr::SetIndex { nnn } => nnn < 4096,
        Instr::JumpOffset { nnn } => nnn < 4096,
        Instr::Random { x, nn } => x < 16,
        Instr::Draw { x, y, n } => x < 16 && y < 16 && n < 16,
        Instr::SkipKey { x } => x < 16,
        Instr::SkipNoKey { x } => x < 16,
        Instr::ReadDelay { x } => x < 16,
        Instr::WaitKey { x } => x < 16,
        Instr::SetDelay { x } => x < 16,
        Instr::SetSound { x } => x < 16,
        Instr::AddIndex { x } => x < 16,
        Instr::FontAddr { x } => x < 16,
        Instr::StoreBcd { x } => x < 16,
        Instr::StoreRegs { x } => x < 16,
        Instr::LoadRegs { x } => x < 16,
    }
}

/// Decoding nibbles always yields an instruction within [`instr_valid`].
pub proof fn lemma_decode_valid(w: (u8, u8, u8, u8))
    requires
        w.0 < 16,
        w.1 < 16,
        w.2 < 16,
        w.3 < 16,
    ensures
        match decode(w) {
            Some(i) => instr_valid(i),
            None => true,
        },
{
}

/// Executable decoder, exact to the opcode table.
pub fn decode_instr(n0: u8, n1: u8, n2: u8, n3: u8) -> (r: Option<Instr>)
    requires
        n0 < 16,
        n1 < 16,
        n2 < 16,
        n3 < 16,
    ensures
        r == decode((n0, n1, n2, n3)),
{
    if n0 == 0 && n1 == 0 && n2 == 0 && n3 == 0 {
        Some(Instr::Nop)
    } else if n0 == 0 && n1 == 0 && n2 == 0xE && n3 == 0 {
        Some(Instr::ClearScreen)
    } else if n0 == 0 && n1 == 0 && n2 == 0xE && n3 == 0xE {
        Some(Instr::Return)
    } else if n0 == 1 {
        Some(Instr::Jump { nnn: n1 as u16 * 256 + n2 as u16 * 16 + n3 as u16 })
    } else if n0 == 2 {
        Some(Instr::Call { nnn: n1 as u16 * 256 + n2 as u16 * 16 + n3 as u16 })
    } else if n0 == 3 {
        Some(Instr::SkipEqImm { x: n1, nn: n2 * 16 + n3 })
    } else if n0 == 4 {
        Some(Instr::SkipNeImm { x: n1, nn: n2 * 16 + n3 })
    } else if n0 == 5 && n3 == 0 {
        Some(Instr::SkipEqReg { x: n1, y: n2 })
    } else if n0 == 6 {
        Some(Instr::SetImm { x: n1, nn: n2 * 16 + n3 })
    } else if n0 == 7 {
        Some(Instr::AddImm { x: n1, nn: n2 * 16 + n3 })
    } else if n0 == 8 && n3 == 0 {
        Some(Instr::Copy { x: n1, y: n2 })
    } else if n0 == 8 && n3 == 1 {
        Some(Instr::Or { x: n1, y: n2 })
    } else if n0 == 8 && n3 == 2 {
        Some(Instr::And { x: n1, y: n2 })
    } else if n0 == 8 && n3 == 3 {
        Some(Instr::Xor { x: n1, y: n2 })
    } else if n0 == 8 && n3 == 4 {
        Some(Instr::Add { x: n1, y: n2 })
    } else if n0 == 8 && n3 == 5 {
        Some(Instr::Sub { x: n1, y: n2 })
    } else if n0 == 8 && n3 == 6 {
        Some(Instr::ShiftRight { x: n1, y: n2 })
    } else if n0 == 8 && n3 == 7 {
        Some(Instr::SubFrom { x: n1, y: n2 })
    } else if n0 == 8 && n3 == 0xE {
        Some(Instr::ShiftLeft { x: n1, y: n2 })
    } else if n0 == 9 && n3 == 0 {
        Some(Instr::SkipNeReg { x: n1, y: n2 })
    } else if n0 == 0xA {
        Some(Instr::SetIndex { nnn: n1 as u16 * 256 + n2 as u16 * 16 + n3 as u16 })
    } else if n0 == 0xB {
        Some(Instr::JumpOffset { nnn: n1 as u16 * 256 + n2 as u16 * 16 + n3 as u16 })
    } else if n0 == 0xC {
        Some(Instr::Random { x: n1, nn: n2 * 16 + n3 })
    } else if n0 == 0xD {
        Some(Instr::Draw { x: n1, y: n2, n: n3 })
    } else if n0 == 0xE && n2 == 9 && n3 == 0xE {
        Some(Instr::SkipKey { x: n1 })
    } else if n0 == 0xE && n2 == 0xA && n3 == 1 {
        Some(Instr::SkipNoKey { x: n1 })
    } else if n0 == 0xF && n2 == 0 && n3 == 7 {
        Some(Instr::ReadDelay { x: n1 })
    } else if n0 == 0xF && n2 == 0 && n3 == 0xA {
        Some(Instr::WaitKey { x: n1 })
    } else if n0 == 0xF && n2 == 1 && n3 == 5 {
        Some(Instr::SetDelay { x: n1 })
    } else if n0 == 0xF && n2 == 1 && n3 == 8 {
        Some(Instr::SetSound { x: n1 })
    } else if n0 == 0xF && n2 == 1 && n3 == 0xE {
        Some(Instr::AddIndex { x: n1 })
    } else if n0 == 0xF && n2 == 2 && n3 == 9 {
        Some(Instr::FontAddr { x: n1 })
    } else if n0 == 0xF && n2 == 3 && n3 == 3 {
        Some(Instr::StoreBcd { x: n1 })
    } else if n0 == 0xF && n2 == 5 && n3 == 5 {
        Some(Instr::StoreRegs { x: n1 })
    } else if n0 == 0xF && n2 == 6 && n3 == 5 {
        Some(Instr::LoadRegs { x: n1 })
    } else {
        None
    }
}

} // verus!
