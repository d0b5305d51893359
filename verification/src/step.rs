//! The fetch-decode-execute cycle as a mathematical relation: what one step
//! of the machine does to the model state, for every instruction shape.

use vstd::prelude::*;

use crate::instr::Instr;
use crate::instr::decode;
use crate::state::ChipError;
use crate::state::State;

verus! {

/// The memory cell that index-register arithmetic reaches: the index wraps
/// modulo 16 bits and addressing wraps modulo the 4096-byte address space.
pub open spec fn mem_addr(i: u16, off: int) -> int {
    (i + off) % 4096
}

/// The state with the program counter moved past one 2-byte instruction,
/// wrapping at the end of the address space.
pub open spec fn advance_pc(s: State) -> State {
    State { pc: ((s.pc + 2) % 4096) as u16, ..s }
}

/// The four nibbles of the instruction word at the program counter, most
/// significant first.
pub open spec fn fetched(s: State) -> (u8, u8, u8, u8) {
    let hi = s.ram[s.pc as int];
    let lo = s.ram[(s.pc + 1) % 4096];
    ((hi / 16) as u8, (hi % 16) as u8, (lo / 16) as u8, (lo % 16) as u8)
}

/// 8-bit addition: the wrapped sum and the carry flag, 1 exactly when the
/// true sum reaches 256.
pub open spec fn add8(a: u8, b: u8) -> (u8, u8) {
    (((a + b) % 256) as u8, if a + b >= 256 { 1u8 } else { 0u8 })
}

/// 8-bit subtraction `a - b`: the wrapped difference and the no-borrow
/// flag, 1 exactly when `a >= b`.
pub open spec fn sub8(a: u8, b: u8) -> (u8, u8) {
    (
        if a >= b { (a - b) as u8 } else { (a + 256 - b) as u8 },
        if a >= b { 1u8 } else { 0u8 },
    )
}

/// The lowest pressed key index at or above `j`, scanning upward.
pub open spec fn first_pressed_from(keys: Seq<bool>, j: int) -> Option<u8>
    decreases 16 - j,
{
    if j < 0 || j >= 16 {
        None
    } else if keys[j] {
        Some(j as u8)
    } else {
        first_pressed_from(keys, j + 1)
    }
}

/// The lowest pressed key index, if any key is pressed.
pub open spec fn first_pressed(keys: Seq<bool>) -> Option<u8> {
    first_pressed_from(keys, 0)
}

/// A pressed key at `idx` guarantees the ascending scan finds some key.
pub proof fn lemma_pressed_found(keys: Seq<bool>, j: int, idx: int)
    requires
        0 <= j <= idx < 16,
        keys[idx],
    ensures
        first_pressed_from(keys, j) is Some,
    decreases idx - j,
{
    if !keys[j] {
        lemma_pressed_found(keys, j + 1, idx);
    }
}

/// Whether bit `col` (counting from the most significant) of a sprite row
/// byte is set.
pub open spec fn row_bit(b: u8, col: u8) -> bool
    recommends
        col < 8,
{
    (b >> ((7 - col) as u8)) & 1 == 1
}

/// The row-major framebuffer cell of column `cx`, row `ry`.
pub open spec fn pix_idx(cx: int, ry: int) -> int {
    cx + 64 * ry
}

/// Whether sprite pixel (`row`, `col`) of the sprite anchored at
/// (`xs`, `ys`) is drawn (its bit set, and not clipped) and lands on cell
/// `idx`.
pub open spec fn lit_in(s: State, xs: int, ys: int, row: int, col: int, idx: int) -> bool {
    &&& 0 <= row
    &&& 0 <= col < 8
    &&& xs + col < 64
    &&& ys + row < 32
    &&& idx == pix_idx(xs + col, ys + row)
    &&& row_bit(s.ram[mem_addr(s.i_reg, row)], col as u8)
}

/// Whether any of the first `k` sprite pixels, in row-major order, is drawn
/// onto cell `idx`.
pub open spec fn lit_upto(s: State, xs: int, ys: int, k: int, idx: int) -> bool {
    exists|row: int, col: int| 8 * row + col < k && lit_in(s, xs, ys, row, col, idx)
}

/// Whether any of the first `k` sprite pixels lands on a cell that is
/// already lit: the collision condition.
pub open spec fn hit_upto(s: State, xs: int, ys: int, k: int) -> bool {
    exists|idx: int| 0 <= idx < 2048 && s.display[idx] && lit_upto(s, xs, ys, k, idx)
}

/// The framebuffer after drawing an `n`-row sprite anchored at
/// (`xs`, `ys`): each drawn pixel flips its cell, clipped pixels fall away.
pub open spec fn draw_display(s: State, xs: int, ys: int, n: int) -> Seq<bool> {
    Seq::new(2048, |idx: int| s.display[idx] != lit_upto(s, xs, ys, 8 * n, idx))
}

/// The whole effect of the draw instruction: the anchor wraps into the
/// grid, pixels combine by XOR, and the flags register reports whether any
/// pixel anywhere in the sprite turned a lit cell off.
pub open spec fn draw_state(s: State, x: u8, y: u8, n: u8) -> State {
    let xs = (s.v_regs[x as int] % 64) as int;
    let ys = (s.v_regs[y as int] % 32) as int;
    State {
        display: draw_display(s, xs, ys, n as int),
        v_regs: s.v_regs.update(
            15,
            if hit_upto(s, xs, ys, 8 * (n as int)) { 1u8 } else { 0u8 },
        ),
        ..s
    }
}

/// Memory after storing registers 0 up to (not including) `k` at
/// consecutive cells from the index register onward.
pub open spec fn store_seq(ram: Seq<u8>, v: Seq<u8>, i: u16, k: int) -> Seq<u8>
    decreases k,
{
    if k <= 0 {
        ram
    } else {
        store_seq(ram, v, i, k - 1).update(mem_addr(i, k - 1), v[k - 1])
    }
}

/// The skip applied by the conditional-skip instructions.
pub open spec fn skip_if(s: State, cond: bool) -> State {
    if cond {
        advance_pc(s)
    } else {
        s
    }
}

/// What executing one decoded instruction does to the state. `s` is the
/// state with the program counter already moved past the instruction; `rb`
/// is the byte the random-load instruction drew, ignored by every other
/// instruction. Stack capacity faults are ruled out by the caller.
pub open spec fn step_instr(s: State, instr: Instr, rb: u8) -> State {
    match instr {
        Instr::Nop => s,
        Instr::ClearScreen => State { display: Seq::new(2048, |i: int| false), ..s },
        Instr::Return => State {
            pc: s.stack[s.sp - 1],
            sp: (s.sp - 1) as u16,
            ..s
        },
        Instr::Jump { nnn } => State { pc: nnn, ..s },
        Instr::Call { nnn } => State {
            stack: s.stack.update(s.sp as int, s.pc),
            sp: (s.sp + 1) as u16,
            pc: nnn,
            ..s
        },
        Instr::SkipEqImm { x, nn } => skip_if(s, s.v_regs[x as int] == nn),
        Instr::SkipNeImm { x, nn } => skip_if(s, s.v_regs[x as int] != nn),
        Instr::SkipEqReg { x, y } => skip_if(s, s.v_regs[x as int] == s.v_regs[y as int]),
        Instr::SetImm { x, nn } => State { v_regs: s.v_regs.update(x as int, nn), ..s },
        Instr::AddImm { x, nn } => State {
            v_regs: s.v_regs.update(x as int, add8(s.v_regs[x as int], nn).0),
            ..s
        },
        Instr::Copy { x, y } => State {
            v_regs: s.v_regs.update(x as int, s.v_regs[y as int]),
            ..s
        },
        Instr::Or { x, y } => State {
            v_regs: s.v_regs.update(
                x as int,
                s.v_regs[x as int] | s.v_regs[y as int],
            ).update(15, 0u8),
            ..s
        },
        Instr::And { x, y } => State {
            v_regs: s.v_regs.update(
                x as int,
                s.v_regs[x as int] & s.v_regs[y as int],
            ).update(15, 0u8),
            ..s
        },
        Instr::Xor { x, y } => State {
            v_regs: s.v_regs.update(
                x as int,
                s.v_regs[x as int] ^ s.v_regs[y as int],
            ).update(15, 0u8),
            ..s
        },
        Instr::Add { x, y } => State {
            v_regs: s.v_regs.update(
                x as int,
                add8(s.v_regs[x as int], s.v_regs[y as int]).0,
            ).update(15, add8(s.v_regs[x as int], s.v_regs[y as int]).1),
            ..s
        },
        Instr::Sub { x, y } => State {
            v_regs: s.v_regs.update(
                x as int,
                sub8(s.v_regs[x as int], s.v_regs[y as int]).0,
            ).update(15, sub8(s.v_regs[x as int], s.v_regs[y as int]).1),
            ..s
        },
        Instr::ShiftRight { x, y } => State {
            v_regs: s.v_regs.update(
                x as int,
                (s.v_regs[y as int] / 2) as u8,
            ).update(15, (s.v_regs[y as int] % 2) as u8),
            ..s
        },
        Instr::SubFrom { x, y } => State {
            v_regs: s.v_regs.update(
                x as int,
                sub8(s.v_regs[y as int], s.v_regs[x as int]).0,
            ).update(15, sub8(s.v_regs[y as int], s.v_regs[x as int]).1),
            ..s
        },
        Instr::ShiftLeft { x, y } => State {
            v_regs: s.v_regs.update(
                x as int,
                ((s.v_regs[y as int] * 2) % 256) as u8,
            ).update(15, (s.v_regs[y as int] / 128) as u8),
            ..s
        },
        Instr::SkipNeReg { x, y } => skip_if(s, s.v_regs[x as int] != s.v_regs[y as int]),
        Instr::SetIndex { nnn } => State { i_reg: nnn, ..s },
        Instr::JumpOffset { nnn } => State {
            pc: ((s.v_regs[0] + nnn) % 4096) as u16,
            ..s
        },
        Instr::Random { x, nn } => State {
            v_regs: s.v_regs.update(x as int, rb & nn),
            ..s
        },
        Instr::Draw { x, y, n } => draw_state(s, x, y, n),
        Instr::SkipKey { x } => skip_if(s, s.keys[(s.v_regs[x as int] % 16) as int]),
        Instr::SkipNoKey { x } => skip_if(s, !s.keys[(s.v_regs[x as int] % 16) as int]),
        Instr::ReadDelay { x } => State { v_regs: s.v_regs.update(x as int, s.dt), ..s },
        Instr::WaitKey { x } => match first_pressed(s.keys) {
            Some(k) => State { v_regs: s.v_regs.update(x as int, k), ..s },
            None => State { pc: ((s.pc + 4094) % 4096) as u16, ..s },
        },
        Instr::SetDelay { x } => State { dt: s.v_regs[x as int], ..s },
        Instr::SetSound { x } => State { st: s.v_regs[x as int], ..s },
        Instr::AddIndex { x } => State {
            i_reg: ((s.i_reg + s.v_regs[x as int]) % 65536) as u16,
            ..s
        },
        Instr::FontAddr { x } => State {
            i_reg: (0x50 + s.v_regs[x as int] * 5) as u16,
            ..s
        },
        Instr::StoreBcd { x } => State {
            ram: s.ram
                .update(mem_addr(s.i_reg, 0), (s.v_regs[x as int] / 100) as u8)
                .update(mem_addr(s.i_reg, 1), ((s.v_regs[x as int] / 10) % 10) as u8)
                .update(mem_addr(s.i_reg, 2), (s.v_regs[x as int] % 10) as u8),
            ..s
        },
        Instr::StoreRegs { x } => State {
            ram: store_seq(s.ram, s.v_regs, s.i_reg, x + 1),
            i_reg: ((s.i_reg + x + 1) % 65536) as u16,
            ..s
        },
        Instr::LoadRegs { x } => State {
            v_regs: Seq::new(
                16,
                |j: int| if j <= x { s.ram[mem_addr(s.i_reg, j)] } else { s.v_regs[j] },
            ),
            i_reg: ((s.i_reg + x + 1) % 65536) as u16,
            ..s
        },
    }
}

/// What one whole step does: nothing while the machine is latched waiting
/// for a key release; otherwise fetch, advance the program counter, then
/// either fail on an unrecognized word or a stack capacity fault (the
/// pre-increment already applied), or execute the instruction with some
/// drawn random byte.
pub open spec fn tick_rel(pre: State, post: State, r: Result<(), ChipError>) -> bool {
    if pre.latched {
        r == Ok::<(), ChipError>(()) && post == pre
    } else {
        let mid = advance_pc(pre);
        match decode(fetched(pre)) {
            None => r == Err::<(), ChipError>(ChipError::InvalidOpcode) && post == mid,
            Some(instr) => {
                if (instr matches Instr::Call { .. }) && pre.sp == 16 {
                    r == Err::<(), ChipError>(ChipError::StackOverflow) && post == mid
                } else if (instr matches Instr::Return) && pre.sp == 0 {
                    r == Err::<(), ChipError>(ChipError::StackUnderflow) && post == mid
                } else {
                    r == Ok::<(), ChipError>(())
                        && exists|rb: u8| post == step_instr(mid, instr, rb)
                }
            },
        }
    }
}

/// Whether the instruction the program counter rests on is the
/// wait-for-key form: the one instruction a key press interacts with.
pub open spec fn wait_pending(s: State) -> bool {
    decode(fetched(s)) matches Some(Instr::WaitKey { .. })
}

/// The destination register of a pending wait-for-key instruction.
pub open spec fn wait_reg(s: State) -> u8 {
    match decode(fetched(s)) {
        Some(Instr::WaitKey { x }) => x,
        _ => 0,
    }
}

/// What pressing key `idx` does: the latch is set; if the instruction the
/// machine rests on is wait-for-key, the press satisfies it at once — the
/// lowest pressed key index is stored in its destination register, the
/// program counter moves past it, and the machine enters latched mode.
pub open spec fn key_down_spec(s: State, idx: int) -> State {
    let s1 = State { keys: s.keys.update(idx, true), ..s };
    if wait_pending(s1) {
        match first_pressed(s1.keys) {
            Some(k) => State {
                v_regs: s1.v_regs.update(wait_reg(s1) as int, k),
                pc: ((s1.pc + 2) % 4096) as u16,
                latched: true,
                ..s1
            },
            None => s1,
        }
    } else {
        s1
    }
}

} // verus!
