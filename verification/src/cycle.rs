//! The cycle engine: fetch, decode, execute, and the key-press interaction
//! with the wait-for-key instruction.

use vstd::prelude::*;

use crate::instr::Instr;
use crate::instr::decode_instr;
use crate::instr::instr_valid;
use crate::instr::lemma_decode_valid;
use crate::state::Chip;
use crate::state::ChipError;
use crate::state::State;
use crate::state::filled;
use crate::step::advance_pc;
use crate::step::fetched;
use crate::step::first_pressed;
use crate::step::first_pressed_from;
use crate::step::key_down_spec;
use crate::step::lemma_pressed_found;
use crate::step::mem_addr;
use crate::step::step_instr;
use crate::step::store_seq;
use crate::step::tick_rel;
use crate::step::wait_pending;

verus! {

/// Relies on rand::random: one byte drawn from the thread-local generator.
/// Nothing is assumed of the value.
#[verifier::external_body]
fn random_byte() -> u8 {
    rand::random::<u8>()
}

impl Chip {
    /// The four nibbles of the instruction word at the program counter,
    /// most significant first, without committing the program-counter
    /// advance.
    fn fetch(&self) -> (r: (u8, u8, u8, u8))
        requires
            self.wf(),
        ensures
            r == fetched(self@),
            r.0 < 16,
            r.1 < 16,
            r.2 < 16,
            r.3 < 16,
    {
        let hi = self.ram[self.pc as usize];
        let lo = self.ram[((self.pc as usize) + 1) % 4096];
        (hi / 16, hi % 16, lo / 16, lo % 16)
    }

    /// Pushes a return address onto the call stack.
    fn push(&mut self, val: u16)
        requires
            old(self).wf(),
            old(self).sp < 16,
            val < 4096,
        ensures
            final(self).wf(),
            final(self)@ == (State {
                stack: old(self)@.stack.update(old(self)@.sp as int, val),
                sp: (old(self)@.sp + 1) as u16,
                ..old(self)@
            }),
    {
        let sp = self.sp as usize;
        self.stack[sp] = val;
        self.sp = self.sp + 1;
    }

    /// Pops the most recent return address off the call stack.
    fn pop(&mut self) -> (r: u16)
        requires
            old(self).wf(),
            old(self).sp > 0,
        ensures
            final(self).wf(),
            r == old(self)@.stack[old(self)@.sp - 1],
            r < 4096,
            final(self)@ == (State { sp: (old(self)@.sp - 1) as u16, ..old(self)@ }),
    {
        self.sp = self.sp - 1;
        self.stack[self.sp as usize]
    }

    /// The lowest pressed key index, scanning upward, if any key is
    /// pressed.
    fn first_key(&self) -> (r: Option<u8>)
        requires
            self.keys@.len() == 16,
        ensures
            r == first_pressed(self@.keys),
    {
        let mut i: usize = 0;
        while i < 16
            invariant
                i <= 16,
                self.keys@.len() == 16,
                first_pressed(self@.keys) == first_pressed_from(self@.keys, i as int),
            decreases 16 - i,
        {
            if self.keys[i] {
                return Some(i as u8);
            }
            i += 1;
        }
        None
    }

    /// Stores registers 0 through `x` at consecutive memory cells from the
    /// index register onward, then advances the index register by `x + 1`.
    fn op_store_regs(&mut self, x: u8)
        requires
            old(self).wf(),
            x < 16,
        ensures
            final(self).wf(),
            final(self)@ == (State {
                ram: store_seq(old(self)@.ram, old(self)@.v_regs, old(self)@.i_reg, x + 1),
                i_reg: ((old(self)@.i_reg + x + 1) % 65536) as u16,
                ..old(self)@
            }),
    {
        let i0 = self.i_reg;
        let mut j: u8 = 0;
        while j <= x
            invariant
                old(self).wf(),
                x < 16,
                j <= x + 1,
                i0 == old(self)@.i_reg,
                self.ram@.len() == 4096,
                self.ram@ == store_seq(old(self)@.ram, old(self)@.v_regs, old(self)@.i_reg, j as int),
                self@ == (State { ram: self@.ram, ..old(self)@ }),
            decreases x + 1 - j,
        {
            let a = (i0 as usize + j as usize) % 4096;
            self.ram[a] = self.v_regs[j as usize];
            j += 1;
        }
        self.i_reg = i0.wrapping_add(x as u16 + 1);
    }

    /// Loads registers 0 through `x` from consecutive memory cells from the
    /// index register onward, then advances the index register by `x + 1`.
    fn op_load_regs(&mut self, x: u8)
        requires
            old(self).wf(),
            x < 16,
        ensures
            final(self).wf(),
            final(self)@ == (State {
                v_regs: Seq::new(
                    16,
                    |jj: int| if jj <= x {
                        old(self)@.ram[mem_addr(old(self)@.i_reg, jj)]
                    } else {
                        old(self)@.v_regs[jj]
                    },
                ),
                i_reg: ((old(self)@.i_reg + x + 1) % 65536) as u16,
                ..old(self)@
            }),
    {
        let i0 = self.i_reg;
        let mut j: u8 = 0;
        while j <= x
            invariant
                old(self).wf(),
                x < 16,
                j <= x + 1,
                i0 == old(self)@.i_reg,
                self.v_regs@.len() == 16,
                forall|jj: int|
                    0 <= jj < j ==> self.v_regs@[jj] == old(self)@.ram[mem_addr(
                        old(self)@.i_reg,
                        jj,
                    )],
                forall|jj: int| j <= jj < 16 ==> self.v_regs@[jj] == old(self)@.v_regs[jj],
                self@ == (State { v_regs: self@.v_regs, ..old(self)@ }),
            decreases x + 1 - j,
        {
            let a = (i0 as usize + j as usize) % 4096;
            self.v_regs[j as usize] = self.ram[a];
            j += 1;
        }
        self.i_reg = i0.wrapping_add(x as u16 + 1);
        proof {
            assert(self.v_regs@ =~= Seq::new(
                16,
                |jj: int| if jj <= x {
                    old(self)@.ram[mem_addr(old(self)@.i_reg, jj)]
                } else {
                    old(self)@.v_regs[jj]
                },
            ));
        }
    }

    /// Marks key `idx` pressed. If the instruction the machine rests on is
    /// the wait-for-key form, the press satisfies it at once — the lowest
    /// pressed key index goes to the destination register, the program
    /// counter moves past the instruction, and the machine latches until a
    /// release. Returns whether that happened, so the host knows stepping
    /// is suspended.
    pub fn key_down(&mut self, idx: usize) -> (r: bool)
        requires
            old(self).wf(),
            idx < 16,
        ensures
            final(self).wf(),
            final(self)@ == key_down_spec(old(self)@, idx as int),
            r == wait_pending(old(self)@),
    {
        self.keys[idx] = true;
        let (n0, n1, n2, n3) = self.fetch();
        if n0 == 0xF && n2 == 0 && n3 == 0xA {
            proof {
                lemma_pressed_found(self@.keys, 0, idx as int);
            }
            let k = match self.first_key() {
                Some(k) => k,
                None => 0,
            };
            self.v_regs[n1 as usize] = k;
            self.pc = (self.pc + 2) % 4096;
            self.latched = true;
            proof {
                assert(self@ =~~= key_down_spec(old(self)@, idx as int));
            }
            true
        } else {
            proof {
                assert(self@ =~~= key_down_spec(old(self)@, idx as int));
            }
            false
        }
    }

    /// The control instructions: no-op, clear, return, jump and call. The
    /// two stack capacity faults surface here, before anything changes.
    fn exec_sys(&mut self, instr: Instr) -> (r: Result<(), ChipError>)
        requires
            old(self).wf(),
            instr_valid(instr),
            instr matches Instr::Nop || instr matches Instr::ClearScreen
                || instr matches Instr::Return || (instr matches Instr::Jump { .. })
                || (instr matches Instr::Call { .. }),
        ensures
            final(self).wf(),
            if (instr matches Instr::Call { .. }) && old(self).sp == 16 {
                r == Err::<(), ChipError>(ChipError::StackOverflow) && final(self)@ == old(self)@
            } else if (instr matches Instr::Return) && old(self).sp == 0 {
                r == Err::<(), ChipError>(ChipError::StackUnderflow) && final(self)@ == old(self)@
            } else {
                r == Ok::<(), ChipError>(()) && final(self)@ == step_instr(old(self)@, instr, 0u8)
            },
    {
        match instr {
            Instr::Nop => {
                proof {
                    assert(self@ =~~= step_instr(old(self)@, instr, 0u8));
                }
                Ok(())
            },
            Instr::ClearScreen => {
                self.display = filled(false, 2048);
                proof {
                    assert(self@.display =~= step_instr(old(self)@, instr, 0u8).display);
                    assert(self@ =~~= step_instr(old(self)@, instr, 0u8));
                }
                Ok(())
            },
            Instr::Return => {
                if self.sp == 0 {
                    return Err(ChipError::StackUnderflow);
                }
                let target = self.pop();
                self.pc = target;
                proof {
                    assert(self@ =~~= step_instr(old(self)@, instr, 0u8));
                }
                Ok(())
            },
            Instr::Jump { nnn } => {
                self.pc = nnn;
                proof {
                    assert(self@ =~~= step_instr(old(self)@, instr, 0u8));
                }
                Ok(())
            },
            Instr::Call { nnn } => {
                if self.sp == 16 {
                    return Err(ChipError::StackOverflow);
                }
                let ret = self.pc;
                self.push(ret);
                self.pc = nnn;
                proof {
                    assert(self@ =~~= step_instr(old(self)@, instr, 0u8));
                }
                Ok(())
            },
            _ => {
                proof {
                    assert(false);
                }
                Ok(())
            },
        }
    }

    /// The six conditional-skip instructions.
    fn exec_skip(&mut self, instr: Instr)
        requires
            old(self).wf(),
            instr_valid(instr),
            (instr matches Instr::SkipEqImm { .. }) || (instr matches Instr::SkipNeImm { .. })
                || (instr matches Instr::SkipEqReg { .. })
                || (instr matches Instr::SkipNeReg { .. })
                || (instr matches Instr::SkipKey { .. })
                || (instr matches Instr::SkipNoKey { .. }),
        ensures
            final(self).wf(),
            final(self)@ == step_instr(old(self)@, instr, 0u8),
    {
        let skip: bool = match instr {
            Instr::SkipEqImm { x, nn } => self.v_regs[x as usize] == nn,
            Instr::SkipNeImm { x, nn } => self.v_regs[x as usize] != nn,
            Instr::SkipEqReg { x, y } => self.v_regs[x as usize] == self.v_regs[y as usize],
            Instr::SkipNeReg { x, y } => self.v_regs[x as usize] != self.v_regs[y as usize],
            Instr::SkipKey { x } => self.keys[(self.v_regs[x as usize] % 16) as usize],
            Instr::SkipNoKey { x } => !self.keys[(self.v_regs[x as usize] % 16) as usize],
            _ => {
                proof {
                    assert(false);
                }
                false
            },
        };
        if skip {
            self.pc = (self.pc + 2) % 4096;
        }
        proof {
            assert(self@ =~~= step_instr(old(self)@, instr, 0u8));
        }
    }

    /// The register-file instructions: immediate and register-to-register
    /// moves, arithmetic, logic and shifts, with their flags-register side
    /// effects.
    fn exec_alu(&mut self, instr: Instr)
        requires
            old(self).wf(),
            instr_valid(instr),
            (instr matches Instr::SetImm { .. }) || (instr matches Instr::AddImm { .. })
                || (instr matches Instr::Copy { .. }) || (instr matches Instr::Or { .. })
                || (instr matches Instr::And { .. }) || (instr matches Instr::Xor { .. })
                || (instr matches Instr::Add { .. }) || (instr matches Instr::Sub { .. })
                || (instr matches Instr::ShiftRight { .. })
                || (instr matches Instr::SubFrom { .. })
                || (instr matches Instr::ShiftLeft { .. }),
        ensures
            final(self).wf(),
            final(self)@ == step_instr(old(self)@, instr, 0u8),
    {
        match instr {
            Instr::SetImm { x, nn } => {
                self.v_regs[x as usize] = nn;
            },
            Instr::AddImm { x, nn } => {
                let sum = self.v_regs[x as usize] as u16 + nn as u16;
                self.v_regs[x as usize] = (sum % 256) as u8;
            },
            Instr::Copy { x, y } => {
                self.v_regs[x as usize] = self.v_regs[y as usize];
            },
            Instr::Or { x, y } => {
                let vy = self.v_regs[y as usize];
                self.v_regs[x as usize] = self.v_regs[x as usize] | vy;
                self.v_regs[15] = 0;
            },
            Instr::And { x, y } => {
                let vy = self.v_regs[y as usize];
                self.v_regs[x as usize] = self.v_regs[x as usize] & vy;
                self.v_regs[15] = 0;
            },
            Instr::Xor { x, y } => {
                let vy = self.v_regs[y as usize];
                self.v_regs[x as usize] = self.v_regs[x as usize] ^ vy;
                self.v_regs[15] = 0;
            },
            Instr::Add { x, y } => {
                let sum = self.v_regs[x as usize] as u16 + self.v_regs[y as usize] as u16;
                self.v_regs[x as usize] = (sum % 256) as u8;
                self.v_regs[15] = if sum >= 256 {
                    1
                } else {
                    0
                };
            },
            Instr::Sub { x, y } => {
                let vx = self.v_regs[x as usize];
                let vy = self.v_regs[y as usize];
                self.v_regs[x as usize] = if vx >= vy {
                    vx - vy
                } else {
                    ((vx as u16 + 256) - vy as u16) as u8
                };
                self.v_regs[15] = if vx >= vy {
                    1
                } else {
                    0
                };
            },
            Instr::ShiftRight { x, y } => {
                let vy = self.v_regs[y as usize];
                self.v_regs[x as usize] = vy / 2;
                self.v_regs[15] = vy % 2;
            },
            Instr::SubFrom { x, y } => {
                let vx = self.v_regs[x as usize];
                let vy = self.v_regs[y as usize];
                self.v_regs[x as usize] = if vy >= vx {
                    vy - vx
                } else {
                    ((vy as u16 + 256) - vx as u16) as u8
                };
                self.v_regs[15] = if vy >= vx {
                    1
                } else {
                    0
                };
            },
            Instr::ShiftLeft { x, y } => {
                let vy = self.v_regs[y as usize];
                self.v_regs[x as usize] = ((vy as u16 * 2) % 256) as u8;
                self.v_regs[15] = vy / 128;
            },
            _ => {
                proof {
                    assert(false);
                }
            },
        }
        proof {
            assert(self@ =~~= step_instr(old(self)@, instr, 0u8));
        }
    }

    /// The memory-indexed instructions: index loads and arithmetic, the
    /// font lookup, the decimal store and the register block transfers.
    fn exec_mem(&mut self, instr: Instr)
        requires
            old(self).wf(),
            instr_valid(instr),
            (instr matches Instr::SetIndex { .. }) || (instr matches Instr::JumpOffset { .. })
                || (instr matches Instr::AddIndex { .. })
                || (instr matches Instr::FontAddr { .. })
                || (instr matches Instr::StoreBcd { .. })
                || (instr matches Instr::StoreRegs { .. })
                || (instr matches Instr::LoadRegs { .. }),
        ensures
            final(self).wf(),
            final(self)@ == step_instr(old(self)@, instr, 0u8),
    {
        match instr {
            Instr::SetIndex { nnn } => {
                self.i_reg = nnn;
            },
            Instr::JumpOffset { nnn } => {
                self.pc = (self.v_regs[0] as u16 + nnn) % 4096;
            },
            Instr::AddIndex { x } => {
                self.i_reg = self.i_reg.wrapping_add(self.v_regs[x as usize] as u16);
            },
            Instr::FontAddr { x } => {
                self.i_reg = 0x50 + self.v_regs[x as usize] as u16 * 5;
            },
            Instr::StoreBcd { x } => {
                let val = self.v_regs[x as usize];
                let base = self.i_reg as usize;
                self.ram[base % 4096] = val / 100;
                self.ram[(base + 1) % 4096] = (val / 10) % 10;
                self.ram[(base + 2) % 4096] = val % 10;
            },
            Instr::StoreRegs { x } => {
                self.op_store_regs(x);
            },
            Instr::LoadRegs { x } => {
                self.op_load_regs(x);
            },
            _ => {
                proof {
                    assert(false);
                }
            },
        }
        proof {
            assert(self@ =~~= step_instr(old(self)@, instr, 0u8));
        }
    }

    /// The timer and input instructions: timer reads and writes, and the
    /// wait-for-key form, which self-repeats while no key is pressed.
    fn exec_timer(&mut self, instr: Instr)
        requires
            old(self).wf(),
            instr_valid(instr),
            (instr matches Instr::ReadDelay { .. }) || (instr matches Instr::WaitKey { .. })
                || (instr matches Instr::SetDelay { .. })
                || (instr matches Instr::SetSound { .. }),
        ensures
            final(self).wf(),
            final(self)@ == step_instr(old(self)@, instr, 0u8),
    {
        match instr {
            Instr::ReadDelay { x } => {
                self.v_regs[x as usize] = self.dt;
            },
            Instr::WaitKey { x } => {
                match self.first_key() {
                    Some(k) => {
                        self.v_regs[x as usize] = k;
                    },
                    None => {
                        self.pc = (self.pc + 4094) % 4096;
                    },
                }
            },
            Instr::SetDelay { x } => {
                self.dt = self.v_regs[x as usize];
            },
            Instr::SetSound { x } => {
                self.st = self.v_regs[x as usize];
            },
            _ => {
                proof {
                    assert(false);
                }
            },
        }
        proof {
            assert(self@ =~~= step_instr(old(self)@, instr, 0u8));
        }
    }

    /// The random-load instruction: a drawn byte masked with `nn`. Which
    /// byte is drawn is not specified; what holds of every outcome is.
    fn exec_random(&mut self, x: u8, nn: u8)
        requires
            old(self).wf(),
            x < 16,
        ensures
            final(self).wf(),
            exists|rb: u8| final(self)@ == step_instr(old(self)@, Instr::Random { x, nn }, rb),
    {
        let rb = random_byte();
        self.v_regs[x as usize] = rb & nn;
        proof {
            assert(self@ =~~= step_instr(old(self)@, Instr::Random { x, nn }, rb));
        }
    }

    /// Executes one decoded instruction; the program counter has already
    /// moved past it. A subroutine call with a full stack and a return
    /// with an empty one fail without touching the state further.
    fn execute(&mut self, instr: Instr) -> (r: Result<(), ChipError>)
        requires
            old(self).wf(),
            instr_valid(instr),
        ensures
            final(self).wf(),
            if (instr matches Instr::Call { .. }) && old(self).sp == 16 {
                r == Err::<(), ChipError>(ChipError::StackOverflow) && final(self)@ == old(self)@
            } else if (instr matches Instr::Return) && old(self).sp == 0 {
                r == Err::<(), ChipError>(ChipError::StackUnderflow) && final(self)@ == old(self)@
            } else {
                r == Ok::<(), ChipError>(()) && exists|rb: u8|
                    final(self)@ == step_instr(old(self)@, instr, rb)
            },
    {
        match instr {
            Instr::Nop | Instr::ClearScreen | Instr::Return | Instr::Jump { .. }
                | Instr::Call { .. } => self.exec_sys(instr),
            Instr::SkipEqImm { .. } | Instr::SkipNeImm { .. } | Instr::SkipEqReg { .. }
                | Instr::SkipNeReg { .. } | Instr::SkipKey { .. } | Instr::SkipNoKey { .. } => {
                self.exec_skip(instr);
                Ok(())
            },
            Instr::SetImm { .. } | Instr::AddImm { .. } | Instr::Copy { .. } | Instr::Or { .. }
                | Instr::And { .. } | Instr::Xor { .. } | Instr::Add { .. } | Instr::Sub { .. }
                | Instr::ShiftRight { .. } | Instr::SubFrom { .. } | Instr::ShiftLeft { .. } => {
                self.exec_alu(instr);
                Ok(())
            },
            Instr::SetIndex { .. } | Instr::JumpOffset { .. } | Instr::AddIndex { .. }
                | Instr::FontAddr { .. } | Instr::StoreBcd { .. } | Instr::StoreRegs { .. }
                | Instr::LoadRegs { .. } => {
                self.exec_mem(instr);
                Ok(())
            },
            Instr::ReadDelay { .. } | Instr::WaitKey { .. } | Instr::SetDelay { .. }
                | Instr::SetSound { .. } => {
                self.exec_timer(instr);
                Ok(())
            },
            Instr::Random { x, nn } => {
                self.exec_random(x, nn);
                Ok(())
            },
            Instr::Draw { x, y, n } => {
                self.op_draw(x, y, n);
                proof {
                    assert(self@ =~~= step_instr(old(self)@, instr, 0u8));
                }
                Ok(())
            },
        }
    }

    /// One fetch-decode-execute step. While the machine is latched waiting
    /// for a key release nothing changes. Otherwise the program counter is
    /// moved past the instruction before it executes, so jumps and calls
    /// are undisturbed — and a fault reports with that pre-increment
    /// already applied.
    pub fn tick(&mut self) -> (r: Result<(), ChipError>)
        requires
            old(self).wf(),
        ensures
            final(self).wf(),
            tick_rel(old(self)@, final(self)@, r),
    {
        if self.latched {
            return Ok(());
        }
        let (n0, n1, n2, n3) = self.fetch();
        self.pc = (self.pc + 2) % 4096;
        proof {
            assert(self@ =~~= advance_pc(old(self)@));
        }
        match decode_instr(n0, n1, n2, n3) {
            None => Err(ChipError::InvalidOpcode),
            Some(instr) => {
                proof {
                    lemma_decode_valid((n0, n1, n2, n3));
                }
                self.execute(instr)
            },
        }
    }
}

} // verus!
