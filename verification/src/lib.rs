//! A verified virtual machine core for the classic 8-bit CHIP-8 instruction
//! set: 4 KiB of memory, sixteen 8-bit registers, a 16-bit index register, a
//! call stack, two countdown timers, a 16-key input latch, and a 64x32
//! monochrome framebuffer, advanced one instruction at a time.

use vstd::prelude::*;

mod cycle;
mod draw;
mod instr;
mod laws;
mod state;
mod step;

pub use instr::Instr;
pub use instr::decode;
pub use instr::instr_valid;
pub use instr::lemma_decode_valid;
pub use laws::lemma_add_carry;
pub use laws::lemma_jump_self_fixed_point;
pub use laws::lemma_logic_clears_flags;
pub use laws::lemma_reset_load_round_trip;
pub use laws::lemma_shift_flags;
pub use laws::lemma_store_advances_index;
pub use laws::lemma_sub_borrow;
pub use laws::lemma_wait_self_repeats;
pub use state::Chip;
pub use state::ChipError;
pub use state::State;
pub use state::font_seq;
pub use state::init_state;
pub use state::load_state;
pub use state::reset_state;
pub use step::advance_pc;
pub use step::draw_state;
pub use step::fetched;
pub use step::first_pressed;
pub use step::key_down_spec;
pub use step::step_instr;
pub use step::tick_rel;
pub use step::wait_pending;

verus! {

/// Width of the monochrome display, in pixels.
pub const DISPLAY_WIDTH: usize = 64;

/// Height of the monochrome display, in pixels.
pub const DISPLAY_HEIGHT: usize = 32;

} // verus!
