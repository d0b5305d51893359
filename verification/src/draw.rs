//! The sprite-draw instruction: an imperative double loop over sprite rows
//! and bits, proved equal to the pointwise XOR-and-clip description in
//! [`crate::step::draw_state`].

use vstd::prelude::*;

use vstd::arithmetic::div_mod::lemma_fundamental_div_mod;
use vstd::arithmetic::div_mod::lemma_mod_multiples_vanish;

use crate::state::Chip;
use crate::state::State;
use crate::step::draw_display;
use crate::step::draw_state;
use crate::step::hit_upto;
use crate::step::lit_in;
use crate::step::lit_upto;
use crate::step::mem_addr;
use crate::step::pix_idx;
use crate::step::row_bit;

verus! {

/// Taking a nonnegative number modulo 16 bits and then modulo the 4096-byte
/// address space is the same as the one step, 4096 dividing 65536.
proof fn lemma_wrap_mod(a: int)
    requires
        0 <= a,
    ensures
        (a % 65536) % 4096 == a % 4096,
{
    let q = a / 65536;
    lemma_fundamental_div_mod(a, 65536);
    assert(4096 * (16 * q) == 65536 * q) by (nonlinear_arith);
    lemma_mod_multiples_vanish(16 * q, a % 65536, 4096);
}

/// Before any pixel is processed, no cell is touched.
proof fn lemma_lit_zero(s: State, xs: int, ys: int)
    ensures
        forall|idx: int| !lit_upto(s, xs, ys, 0, idx),
{
    assert forall|idx: int| !lit_upto(s, xs, ys, 0, idx) by {
        if lit_upto(s, xs, ys, 0, idx) {
            let (row, col) = choose|row: int, col: int|
                8 * row + col < 0 && lit_in(s, xs, ys, row, col, idx);
            assert(false);
        }
    }
}

/// Passing over sprite pixel (`r`, `c`) without drawing it — its bit clear,
/// or the pixel clipped off the grid — changes nothing.
proof fn lemma_pixel_skip(s: State, xs: int, ys: int, r: int, c: int)
    requires
        0 <= r,
        0 <= c < 8,
        !(xs + c < 64 && ys + r < 32 && row_bit(s.ram[mem_addr(s.i_reg, r)], c as u8)),
    ensures
        forall|idx: int| #![trigger lit_upto(s, xs, ys, 8 * r + c + 1, idx)]
            lit_upto(s, xs, ys, 8 * r + c + 1, idx) == lit_upto(s, xs, ys, 8 * r + c, idx),
        hit_upto(s, xs, ys, 8 * r + c + 1) == hit_upto(s, xs, ys, 8 * r + c),
{
    let k = 8 * r + c;
    assert forall|idx: int| #![trigger lit_upto(s, xs, ys, k + 1, idx)]
        lit_upto(s, xs, ys, k + 1, idx) == lit_upto(s, xs, ys, k, idx) by {
        if lit_upto(s, xs, ys, k + 1, idx) {
            let (row, col) = choose|row: int, col: int|
                8 * row + col < k + 1 && lit_in(s, xs, ys, row, col, idx);
            if 8 * row + col == k {
                assert(row == r && col == c);
                assert(false);
            } else {
                assert(lit_in(s, xs, ys, row, col, idx));
                assert(lit_upto(s, xs, ys, k, idx));
            }
        }
        if lit_upto(s, xs, ys, k, idx) {
            let (row, col) = choose|row: int, col: int|
                8 * row + col < k && lit_in(s, xs, ys, row, col, idx);
            assert(lit_in(s, xs, ys, row, col, idx));
            assert(lit_upto(s, xs, ys, k + 1, idx));
        }
    }
    if hit_upto(s, xs, ys, k + 1) {
        let idx = choose|idx: int|
            0 <= idx < 2048 && s.display[idx] && lit_upto(s, xs, ys, k + 1, idx);
        assert(lit_upto(s, xs, ys, k, idx));
        assert(hit_upto(s, xs, ys, k));
    }
    if hit_upto(s, xs, ys, k) {
        let idx = choose|idx: int|
            0 <= idx < 2048 && s.display[idx] && lit_upto(s, xs, ys, k, idx);
        assert(lit_upto(s, xs, ys, k + 1, idx));
        assert(hit_upto(s, xs, ys, k + 1));
    }
}

/// Drawing sprite pixel (`r`, `c`) onto the grid: it lands on a cell no
/// earlier pixel touched, flips exactly that cell, and contributes that
/// cell's prior content to the collision condition.
proof fn lemma_pixel_hit(s: State, xs: int, ys: int, r: int, c: int)
    requires
        0 <= r,
        0 <= c < 8,
        0 <= xs,
        0 <= ys,
        xs + c < 64,
        ys + r < 32,
        row_bit(s.ram[mem_addr(s.i_reg, r)], c as u8),
    ensures
        0 <= pix_idx(xs + c, ys + r) < 2048,
        !lit_upto(s, xs, ys, 8 * r + c, pix_idx(xs + c, ys + r)),
        forall|idx: int| #![trigger lit_upto(s, xs, ys, 8 * r + c + 1, idx)]
            lit_upto(s, xs, ys, 8 * r + c + 1, idx) == (lit_upto(s, xs, ys, 8 * r + c, idx)
                || idx == pix_idx(xs + c, ys + r)),
        hit_upto(s, xs, ys, 8 * r + c + 1) == (hit_upto(s, xs, ys, 8 * r + c)
            || s.display[pix_idx(xs + c, ys + r)]),
{
    let k = 8 * r + c;
    let idx0 = pix_idx(xs + c, ys + r);
    assert(lit_in(s, xs, ys, r, c, idx0));
    assert(!lit_upto(s, xs, ys, k, idx0)) by {
        if lit_upto(s, xs, ys, k, idx0) {
            let (row, col) = choose|row: int, col: int|
                8 * row + col < k && lit_in(s, xs, ys, row, col, idx0);
            assert((xs + col) + 64 * (ys + row) == (xs + c) + 64 * (ys + r));
            assert(col - c == 64 * (r - row));
            assert(row == r && col == c);
            assert(false);
        }
    }
    assert forall|idx: int| #![trigger lit_upto(s, xs, ys, k + 1, idx)]
        lit_upto(s, xs, ys, k + 1, idx) == (lit_upto(s, xs, ys, k, idx) || idx == idx0) by {
        if lit_upto(s, xs, ys, k + 1, idx) {
            let (row, col) = choose|row: int, col: int|
                8 * row + col < k + 1 && lit_in(s, xs, ys, row, col, idx);
            if 8 * row + col == k {
                assert(row == r && col == c);
                assert(idx == idx0);
            } else {
                assert(lit_in(s, xs, ys, row, col, idx));
                assert(lit_upto(s, xs, ys, k, idx));
            }
        }
        if lit_upto(s, xs, ys, k, idx) {
            let (row, col) = choose|row: int, col: int|
                8 * row + col < k && lit_in(s, xs, ys, row, col, idx);
            assert(lit_in(s, xs, ys, row, col, idx));
            assert(lit_upto(s, xs, ys, k + 1, idx));
        }
        if idx == idx0 {
            assert(lit_upto(s, xs, ys, k + 1, idx0));
        }
    }
    if hit_upto(s, xs, ys, k + 1) {
        let idx = choose|idx: int|
            0 <= idx < 2048 && s.display[idx] && lit_upto(s, xs, ys, k + 1, idx);
        if !lit_upto(s, xs, ys, k, idx) {
            assert(idx == idx0);
        } else {
            assert(hit_upto(s, xs, ys, k));
        }
    }
    if hit_upto(s, xs, ys, k) {
        let idx = choose|idx: int|
            0 <= idx < 2048 && s.display[idx] && lit_upto(s, xs, ys, k, idx);
        assert(lit_upto(s, xs, ys, k + 1, idx));
        assert(hit_upto(s, xs, ys, k + 1));
    }
    if s.display[idx0] {
        assert(lit_upto(s, xs, ys, k + 1, idx0));
        assert(hit_upto(s, xs, ys, k + 1));
    }
}

impl Chip {
    /// Draws the `n`-row sprite at the index register to the position named
    /// by registers `x` and `y`: the anchor wraps into the grid, each drawn
    /// pixel flips its cell, pixels past the right or bottom edge are
    /// clipped, and the flags register reports whether any cell was turned
    /// off anywhere in the sprite.
    pub(crate) fn op_draw(&mut self, x: u8, y: u8, n: u8)
        requires
            old(self).wf(),
            x < 16,
            y < 16,
        ensures
            final(self).wf(),
            final(self)@ == draw_state(old(self)@, x, y, n),
    {
        let xs = (self.v_regs[x as usize] % 64) as usize;
        let ys = (self.v_regs[y as usize] % 32) as usize;
        let mut inverted = false;
        let mut row: u8 = 0;
        proof {
            lemma_lit_zero(old(self)@, xs as int, ys as int);
        }
        while row < n
            invariant
                old(self).wf(),
                x < 16,
                y < 16,
                row <= n,
                xs == old(self)@.v_regs[x as int] % 64,
                ys == old(self)@.v_regs[y as int] % 32,
                self@ == (State { display: self@.display, ..old(self)@ }),
                self.display@.len() == 2048,
                forall|idx: int|
                    0 <= idx < 2048 ==> self.display@[idx] == (old(self)@.display[idx]
                        != lit_upto(old(self)@, xs as int, ys as int, 8 * (row as int), idx)),
                inverted == hit_upto(old(self)@, xs as int, ys as int, 8 * (row as int)),
            decreases n - row,
        {
            let addr = (self.i_reg.wrapping_add(row as u16) as usize) % 4096;
            proof {
                lemma_wrap_mod(old(self)@.i_reg + row);
            }
            let pixels = self.ram[addr];
            assert(pixels == old(self)@.ram[mem_addr(old(self)@.i_reg, row as int)]);
            let mut col: u8 = 0;
            while col < 8
                invariant
                    old(self).wf(),
                    x < 16,
                    y < 16,
                    row < n,
                    col <= 8,
                    xs == old(self)@.v_regs[x as int] % 64,
                    ys == old(self)@.v_regs[y as int] % 32,
                    pixels == old(self)@.ram[mem_addr(old(self)@.i_reg, row as int)],
                    self@ == (State { display: self@.display, ..old(self)@ }),
                    self.display@.len() == 2048,
                    forall|idx: int|
                        0 <= idx < 2048 ==> self.display@[idx] == (old(self)@.display[idx]
                            != lit_upto(
                            old(self)@,
                            xs as int,
                            ys as int,
                            8 * (row as int) + (col as int),
                            idx,
                        )),
                    inverted == hit_upto(
                        old(self)@,
                        xs as int,
                        ys as int,
                        8 * (row as int) + (col as int),
                    ),
                decreases 8 - col,
            {
                let ghost k = 8 * (row as int) + (col as int);
                if (pixels >> (7 - col)) & 1 == 1 {
                    let cx = xs + col as usize;
                    let ry = ys + row as usize;
                    if cx < 64 && ry < 32 {
                        proof {
                            lemma_pixel_hit(
                                old(self)@,
                                xs as int,
                                ys as int,
                                row as int,
                                col as int,
                            );
                        }
                        let idx = cx + 64 * ry;
                        let cur = self.display[idx];
                        inverted = inverted || cur;
                        self.display[idx] = !cur;
                    } else {
                        proof {
                            lemma_pixel_skip(
                                old(self)@,
                                xs as int,
                                ys as int,
                                row as int,
                                col as int,
                            );
                        }
                    }
                } else {
                    proof {
                        lemma_pixel_skip(
                            old(self)@,
                            xs as int,
                            ys as int,
                            row as int,
                            col as int,
                        );
                    }
                }
                col += 1;
            }
            row += 1;
        }
        self.v_regs[15] = if inverted {
            1
        } else {
            0
        };
        proof {
            assert(self.display@ =~= draw_display(
                old(self)@,
                xs as int,
                ys as int,
                n as int,
            ));
            assert(self@ =~~= draw_state(old(self)@, x, y, n));
        }
    }
}

} // verus!
