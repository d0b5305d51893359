//! Laws of the machine, stated over the model and proved once for every
//! input.

use vstd::prelude::*;

use crate::instr::Instr;
use crate::state::State;
use crate::state::init_state;
use crate::state::load_state;
use crate::state::reset_state;
use crate::step::advance_pc;
use crate::step::first_pressed;
use crate::step::step_instr;

verus! {

/// Adding register values `a` and `b` stores their sum modulo 256 and sets
/// the flags register to 1 exactly when the true sum reaches 256. When the
/// destination is the flags register itself, the flag overwrites the sum.
pub proof fn lemma_add_carry(s: State, x: u8, y: u8, rb: u8)
    requires
        s.wf(),
        x < 16,
        y < 16,
    ensures
        ({
            let a = s.v_regs[x as int];
            let b = s.v_regs[y as int];
            let post = step_instr(s, Instr::Add { x, y }, rb);
            &&& post.v_regs[15] == (if a + b >= 256 { 1u8 } else { 0u8 })
            &&& x != 15 ==> post.v_regs[x as int] == (a + b) % 256
        }),
{
}

/// Subtracting register value `b` from `a` stores their difference modulo
/// 256 and sets the flags register to 1 exactly when no borrow occurred,
/// that is, when `a >= b`. When the destination is the flags register
/// itself, the flag overwrites the difference.
pub proof fn lemma_sub_borrow(s: State, x: u8, y: u8, rb: u8)
    requires
        s.wf(),
        x < 16,
        y < 16,
    ensures
        ({
            let a = s.v_regs[x as int];
            let b = s.v_regs[y as int];
            let post = step_instr(s, Instr::Sub { x, y }, rb);
            &&& post.v_regs[15] == (if a >= b { 1u8 } else { 0u8 })
            &&& x != 15 ==> post.v_regs[x as int] == (a - b + 256) % 256
        }),
{
    let a = s.v_regs[x as int];
    let b = s.v_regs[y as int];
    if a >= b {
        assert((a - b + 256) % 256 == a - b);
    } else {
        assert((a - b + 256) % 256 == a - b + 256);
    }
}

/// The OR, AND and XOR instructions always leave the flags register at 0,
/// whatever value it held before.
pub proof fn lemma_logic_clears_flags(s: State, x: u8, y: u8, rb: u8)
    requires
        s.wf(),
        x < 16,
        y < 16,
    ensures
        step_instr(s, Instr::Or { x, y }, rb).v_regs[15] == 0,
        step_instr(s, Instr::And { x, y }, rb).v_regs[15] == 0,
        step_instr(s, Instr::Xor { x, y }, rb).v_regs[15] == 0,
{
}

/// The shifts read their source from register `y`: a right-shift stores
/// `y`'s low bit in the flags register and a left-shift its high bit, both
/// read before the shift; the shifted value lands in register `x`.
pub proof fn lemma_shift_flags(s: State, x: u8, y: u8, rb: u8)
    requires
        s.wf(),
        x < 16,
        y < 16,
    ensures
        step_instr(s, Instr::ShiftRight { x, y }, rb).v_regs[15] == s.v_regs[y as int] % 2,
        step_instr(s, Instr::ShiftLeft { x, y }, rb).v_regs[15] == s.v_regs[y as int] / 128,
        x != 15 ==> step_instr(s, Instr::ShiftRight { x, y }, rb).v_regs[x as int] == s.v_regs[y as int] / 2,
        x != 15 ==> step_instr(s, Instr::ShiftLeft { x, y }, rb).v_regs[x as int] == (s.v_regs[y as int] * 2) % 256,
{
}

/// A block store of registers 0 through `x` advances the index register by
/// exactly `x + 1`, wrapping modulo 16 bits.
pub proof fn lemma_store_advances_index(s: State, x: u8, rb: u8)
    requires
        s.wf(),
        x < 16,
    ensures
        step_instr(s, Instr::StoreRegs { x }, rb).i_reg == (s.i_reg + x + 1) % 65536,
{
}

/// Executing wait-for-key with no key pressed returns the machine to
/// exactly the state it was in before the step: the pre-incremented
/// program counter is rewound, so the instruction repeats itself.
pub proof fn lemma_wait_self_repeats(s: State, x: u8, rb: u8)
    requires
        s.wf(),
        x < 16,
        first_pressed(s.keys) is None,
    ensures
        step_instr(advance_pc(s), Instr::WaitKey { x }, rb) == s,
{
    assert(step_instr(advance_pc(s), Instr::WaitKey { x }, rb) =~~= s);
}

/// A jump whose target is its own address makes the whole step a fixed
/// point: the machine comes back to exactly the state it was in.
pub proof fn lemma_jump_self_fixed_point(s: State, rb: u8)
    requires
        s.wf(),
    ensures
        step_instr(advance_pc(s), Instr::Jump { nnn: s.pc }, rb) == s,
{
    assert(step_instr(advance_pc(s), Instr::Jump { nnn: s.pc }, rb) =~~= s);
}

/// Resetting a machine in any state and then loading a program reproduces
/// exactly the state of a freshly constructed machine with that program
/// loaded.
pub proof fn lemma_reset_load_round_trip(s: State, prog: Seq<u8>)
    ensures
        load_state(reset_state(s), prog) == load_state(init_state(), prog),
{
}

} // verus!
