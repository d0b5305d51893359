//! The machine state: memory, registers, call stack, timers, input latches
//! and the framebuffer, together with its mathematical model.

use vstd::prelude::*;

verus! {

/// Mathematical model of a whole machine: every field of [`Chip`] as a plain
/// value or a sequence.
#[verifier::ext_equal]
pub ghost struct State {
    pub pc: u16,
    pub ram: Seq<u8>,
    pub display: Seq<bool>,
    pub v_regs: Seq<u8>,
    pub i_reg: u16,
    pub stack: Seq<u16>,
    pub sp: u16,
    pub keys: Seq<bool>,
    pub dt: u8,
    pub st: u8,
    pub latched: bool,
}

/// The CHIP-8 machine: 4096 bytes of memory, sixteen 8-bit registers
/// (register 15 doubles as the flags register), a 16-bit index register, a
/// 16-entry call stack, two countdown timers, sixteen key latches and a
/// 64x32 monochrome framebuffer.
///
/// `latched` is the explicit wait-for-key mode: while it is set, stepping is
/// suspended until a key release clears it.
#[derive(Debug)]
pub struct Chip {
    pub pc: u16,
    pub ram: Vec<u8>,
    pub display: Vec<bool>,
    pub v_regs: Vec<u8>,
    pub i_reg: u16,
    pub stack: Vec<u16>,
    pub sp: u16,
    pub keys: Vec<bool>,
    pub dt: u8,
    pub st: u8,
    pub latched: bool,
}

impl View for Chip {
    type V = State;

    open spec fn view(&self) -> State {
        State {
            pc: self.pc,
            ram: self.ram@,
            display: self.display@,
            v_regs: self.v_regs@,
            i_reg: self.i_reg,
            stack: self.stack@,
            sp: self.sp,
            keys: self.keys@,
            dt: self.dt,
            st: self.st,
            latched: self.latched,
        }
    }
}

impl State {
    /// Well-formedness: every array has its fixed size, the program counter
    /// and every stacked return address lie inside memory, and the stack
    /// pointer is within capacity.
    pub open spec fn wf(self) -> bool {
        &&& self.pc < 4096
        &&& self.ram.len() == 4096
        &&& self.display.len() == 2048
        &&& self.v_regs.len() == 16
        &&& self.stack.len() == 16
        &&& self.sp <= 16
        &&& self.keys.len() == 16
        &&& forall|j: int| 0 <= j < 16 ==> self.stack[j] < 4096
    }
}

/// The font table: sixteen glyphs (hexadecimal digits 0 through F), five
/// bytes each, one display row per byte, most significant bit first.
pub open spec fn font_seq() -> Seq<u8> {
    seq![
        0xF0u8, 0x90, 0x90, 0x90, 0xF0, // 0
        0x20, 0x60, 0x20, 0x20, 0x70, // 1
        0xF0, 0x10, 0xF0, 0x80, 0xF0, // 2
        0xF0, 0x10, 0xF0, 0x10, 0xF0, // 3
        0x90, 0x90, 0xF0, 0x10, 0x10, // 4
        0xF0, 0x80, 0xF0, 0x10, 0xF0, // 5
        0xF0, 0x80, 0xF0, 0x90, 0xF0, // 6
        0xF0, 0x10, 0x20, 0x40, 0x40, // 7
        0xF0, 0x90, 0xF0, 0x90, 0xF0, // 8
        0xF0, 0x90, 0xF0, 0x10, 0xF0, // 9
        0xF0, 0x90, 0xF0, 0x90, 0x90, // A
        0xE0, 0x90, 0xE0, 0x90, 0xE0, // B
        0xF0, 0x80, 0x80, 0x80, 0xF0, // C
        0xE0, 0x90, 0x90, 0x90, 0xE0, // D
        0xF0, 0x80, 0xF0, 0x80, 0xF0, // E
        0xF0, 0x80, 0xF0, 0x80, 0x80, // F
    ]
}

/// The state of a freshly constructed machine: all zeroes except the font
/// table at 0x050..0x0A0 and the program counter at 0x200.
pub open spec fn init_state() -> State {
    State {
        pc: 0x200,
        ram: Seq::new(4096, |a: int| if 0x50 <= a < 0xA0 { font_seq()[a - 0x50] } else { 0u8 }),
        display: Seq::new(2048, |i: int| false),
        v_regs: Seq::new(16, |i: int| 0u8),
        i_reg: 0,
        stack: Seq::new(16, |i: int| 0u16),
        sp: 0,
        keys: Seq::new(16, |i: int| false),
        dt: 0,
        st: 0,
        latched: false,
    }
}

/// What a reset leaves behind, whatever the machine held before: the
/// freshly constructed state.
pub open spec fn reset_state(s: State) -> State {
    init_state()
}

/// The state after copying `prog` into memory starting at 0x200; the rest of
/// the machine is untouched.
pub open spec fn load_state(s: State, prog: Seq<u8>) -> State {
    State {
        ram: Seq::new(
            4096,
            |a: int| if 0x200 <= a < 0x200 + prog.len() { prog[a - 0x200] } else { s.ram[a] },
        ),
        ..s
    }
}

/// A vector holding `n` copies of `val`.
pub(crate) fn filled<T: Copy>(val: T, n: usize) -> (v: Vec<T>)
    ensures
        v@.len() == n,
        forall|i: int| 0 <= i < n ==> v@[i] == val,
{
    let mut v: Vec<T> = Vec::new();
    while v.len() < n
        invariant
            v@.len() <= n,
            forall|i: int| 0 <= i < v@.len() ==> v@[i] == val,
        decreases n - v.len(),
    {
        v.push(val);
    }
    v
}

/// The font table as a vector, for copying into memory.
fn font_table() -> (f: Vec<u8>)
    ensures
        f@ == font_seq(),
{
    let mut f: Vec<u8> = Vec::new();
    f.push(0xF0); f.push(0x90); f.push(0x90); f.push(0x90); f.push(0xF0);
    f.push(0x20); f.push(0x60); f.push(0x20); f.push(0x20); f.push(0x70);
    f.push(0xF0); f.push(0x10); f.push(0xF0); f.push(0x80); f.push(0xF0);
    f.push(0xF0); f.push(0x10); f.push(0xF0); f.push(0x10); f.push(0xF0);
    f.push(0x90); f.push(0x90); f.push(0xF0); f.push(0x10); f.push(0x10);
    f.push(0xF0); f.push(0x80); f.push(0xF0); f.push(0x10); f.push(0xF0);
    f.push(0xF0); f.push(0x80); f.push(0xF0); f.push(0x90); f.push(0xF0);
    f.push(0xF0); f.push(0x10); f.push(0x20); f.push(0x40); f.push(0x40);
    f.push(0xF0); f.push(0x90); f.push(0xF0); f.push(0x90); f.push(0xF0);
    f.push(0xF0); f.push(0x90); f.push(0xF0); f.push(0x10); f.push(0xF0);
    f.push(0xF0); f.push(0x90); f.push(0xF0); f.push(0x90); f.push(0x90);
    f.push(0xE0); f.push(0x90); f.push(0xE0); f.push(0x90); f.push(0xE0);
    f.push(0xF0); f.push(0x80); f.push(0x80); f.push(0x80); f.push(0xF0);
    f.push(0xE0); f.push(0x90); f.push(0x90); f.push(0x90); f.push(0xE0);
    f.push(0xF0); f.push(0x80); f.push(0xF0); f.push(0x80); f.push(0xF0);
    f.push(0xF0); f.push(0x80); f.push(0xF0); f.push(0x80); f.push(0x80);
    proof {
        assert(f@ =~= font_seq());
    }
    f
}

impl Chip {
    /// Well-formedness of the executable machine, via its model.
    pub open spec fn wf(&self) -> bool {
        self@.wf()
    }

    /// A freshly constructed machine: font preloaded, everything else
    /// zeroed, program counter at 0x200.
    pub fn new() -> (c: Chip)
        ensures
            c.wf(),
            c@ == init_state(),
    {
        let mut c = Chip {
            pc: 0x200,
            ram: filled(0u8, 4096),
            display: filled(false, 2048),
            v_regs: filled(0u8, 16),
            i_reg: 0,
            stack: filled(0u16, 16),
            sp: 0,
            keys: filled(false, 16),
            dt: 0,
            st: 0,
            latched: false,
        };
        c.load_font();
        proof {
            assert(c@.ram =~= init_state().ram);
            assert(c@.display =~= init_state().display);
            assert(c@.v_regs =~= init_state().v_regs);
            assert(c@.stack =~= init_state().stack);
            assert(c@.keys =~= init_state().keys);
            assert(c@ =~= init_state());
        }
        c
    }

    /// Returns the machine to the freshly constructed condition.
    pub fn reset(&mut self)
        ensures
            final(self).wf(),
            final(self)@ == reset_state(old(self)@),
            final(self)@ == init_state(),
    {
        self.pc = 0x200;
        self.ram = filled(0u8, 4096);
        self.display = filled(false, 2048);
        self.v_regs = filled(0u8, 16);
        self.i_reg = 0;
        self.stack = filled(0u16, 16);
        self.sp = 0;
        self.keys = filled(false, 16);
        self.dt = 0;
        self.st = 0;
        self.latched = false;
        self.load_font();
        proof {
            assert(self@.ram =~= init_state().ram);
            assert(self@.display =~= init_state().display);
            assert(self@.v_regs =~= init_state().v_regs);
            assert(self@.stack =~= init_state().stack);
            assert(self@.keys =~= init_state().keys);
            assert(self@ =~= init_state());
        }
    }

    /// Copies the font table into memory at 0x050..0x0A0.
    fn load_font(&mut self)
        requires
            old(self).ram@.len() == 4096,
        ensures
            final(self).ram@.len() == 4096,
            forall|a: int|
                0 <= a < 4096 ==> final(self).ram@[a] == (if 0x50 <= a < 0xA0 {
                    font_seq()[a - 0x50]
                } else {
                    old(self).ram@[a]
                }),
            final(self)@ == (State { ram: final(self)@.ram, ..old(self)@ }),
    {
        let font = font_table();
        let mut j: usize = 0;
        while j < 80
            invariant
                j <= 80,
                font@ == font_seq(),
                self.ram@.len() == 4096,
                forall|a: int|
                    0 <= a < 4096 ==> self.ram@[a] == (if 0x50 <= a < 0x50 + j {
                        font_seq()[a - 0x50]
                    } else {
                        old(self).ram@[a]
                    }),
                self@ == (State { ram: self@.ram, ..old(self)@ }),
            decreases 80 - j,
        {
            self.ram[0x50 + j] = font[j];
            j += 1;
        }
    }

    /// Copies a program into memory starting at 0x200. A program longer than
    /// the 3584 bytes of space above 0x200 is rejected whole.
    pub fn load(&mut self, data: &[u8]) -> (r: Result<(), ChipError>)
        requires
            old(self).wf(),
        ensures
            final(self).wf(),
            data@.len() <= 3584 ==> r == Ok::<(), ChipError>(())
                && final(self)@ == load_state(old(self)@, data@),
            data@.len() > 3584 ==> r == Err::<(), ChipError>(ChipError::ProgramTooLarge)
                && final(self)@ == old(self)@,
    {
        if data.len() > 3584 {
            return Err(ChipError::ProgramTooLarge);
        }
        let mut j: usize = 0;
        while j < data.len()
            invariant
                j <= data@.len() <= 3584,
                self.ram@.len() == 4096,
                forall|a: int|
                    0 <= a < 4096 ==> self.ram@[a] == (if 0x200 <= a < 0x200 + j {
                        data@[a - 0x200]
                    } else {
                        old(self).ram@[a]
                    }),
                self@ == (State { ram: self@.ram, ..old(self)@ }),
            decreases data@.len() - j,
        {
            self.ram[0x200 + j] = data[j];
            j += 1;
        }
        proof {
            assert(self@.ram =~= load_state(old(self)@, data@).ram);
            assert(self@ =~= load_state(old(self)@, data@));
        }
        Ok(())
    }

    /// Read-only view of the display grid, row-major, `true` for a lit cell.
    pub fn display(&self) -> (d: &Vec<bool>)
        ensures
            d@ == self@.display,
    {
        &self.display
    }

    /// One externally paced timer step: each nonzero timer counts down by
    /// one. Returns whether sound should be audible for this call, which
    /// holds exactly when the sound timer was nonzero before decrementing.
    pub fn tick_timers(&mut self) -> (beep: bool)
        ensures
            final(self).dt == (if old(self).dt > 0 { (old(self).dt - 1) as u8 } else { 0u8 }),
            final(self).st == (if old(self).st > 0 { (old(self).st - 1) as u8 } else { 0u8 }),
            beep == (old(self).st > 0),
            final(self)@ == (State { dt: final(self)@.dt, st: final(self)@.st, ..old(self)@ }),
    {
        if self.dt > 0 {
            self.dt -= 1;
        }
        if self.st > 0 {
            self.st -= 1;
            true
        } else {
            false
        }
    }

    /// Marks key `idx` released and leaves wait-for-key mode.
    pub fn key_up(&mut self, idx: usize)
        requires
            old(self).keys@.len() == 16,
            idx < 16,
        ensures
            final(self)@ == (State {
                keys: old(self)@.keys.update(idx as int, false),
                latched: false,
                ..old(self)@
            }),
    {
        self.keys[idx] = false;
        self.latched = false;
    }
}

/// A fault in a step or a load: an unrecognized opcode is fatal, and the
/// capacity faults report what the unchecked machine would silently corrupt.
#[derive(Clone, Copy, Debug, PartialEq, Eq, Structural)]
pub enum ChipError {
    /// The fetched instruction word matches none of the 35 opcode shapes.
    InvalidOpcode,
    /// A subroutine call with all 16 stack slots in use.
    StackOverflow,
    /// A return with an empty call stack.
    StackUnderflow,
    /// A program longer than the memory above 0x200.
    ProgramTooLarge,
}

} // verus!
