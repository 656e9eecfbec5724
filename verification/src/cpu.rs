//! The processor: sixteen byte registers, a twelve-bit index register, a
//! program counter, a sixteen-frame call stack, two countdown registers and
//! the 4096-byte memory. Each public instruction method performs exactly one
//! instruction, including its own program-counter discipline; `cycle` strings
//! together the timer ticks, the fetch, the decode and the execution of one
//! instruction.

use vstd::prelude::*;

verus! {

use crate::EmuError;
use crate::gpu::{draw_collides, post_draw, Gpu};
use crate::keypad::Keypad;
use crate::timer::{gate_fires, post_tick, Timer};
use vstd::pervasive::VecAdditionalExecFns;

/// The register index in the high nibble of the low byte is `x`; the
/// operand fields of a word are fixed bit slices of it.
pub open spec fn op_x(w: u16) -> u16 {
    (w & 0x0f00) >> 8
}

/// The register index in the high nibble of the low byte.
pub open spec fn op_y(w: u16) -> u16 {
    (w & 0x00f0) >> 4
}

/// The twelve-bit address field.
pub open spec fn op_nnn(w: u16) -> u16 {
    w & 0x0fff
}

/// The eight-bit immediate field.
pub open spec fn op_nn(w: u16) -> u8 {
    (w & 0x00ff) as u8
}

/// The four-bit immediate field.
pub open spec fn op_n(w: u16) -> u8 {
    (w & 0x000f) as u8
}

/// Bounds of the operand fields.
pub proof fn lemma_op_fields(w: u16)
    by (bit_vector)
    ensures
        op_x(w) < 16,
        op_y(w) < 16,
        op_nnn(w) < 0x1000,
        op_n(w) < 16,
{
}

/// Masking to twelve bits leaves a twelve-bit value unchanged.
proof fn lemma_mask12(w: u16)
    by (bit_vector)
    ensures
        w & 0x0fff < 0x1000,
        w < 0x1000 ==> w & 0x0fff == w,
{
}

/// The low nibble of a byte is below sixteen.
proof fn lemma_low_nibble(b: u8)
    by (bit_vector)
    ensures
        b & 0x0f < 16,
{
}

/// A decoded instruction's raw word, from which the instruction methods read
/// their operand fields.
#[derive(Clone, Copy)]
pub struct CpuContext {
    /// The sixteen-bit instruction word being executed.
    pub opcode: u16,
}

impl CpuContext {
    /// The first register index field.
    pub fn vx(&self) -> (r: usize)
        ensures
            r == op_x(self.opcode) as usize,
            r < 16,
    {
        proof {
            lemma_op_fields(self.opcode);
        }
        ((self.opcode & 0x0f00) >> 8) as usize
    }

    /// The second register index field.
    pub fn vy(&self) -> (r: usize)
        ensures
            r == op_y(self.opcode) as usize,
            r < 16,
    {
        proof {
            lemma_op_fields(self.opcode);
        }
        ((self.opcode & 0x00f0) >> 4) as usize
    }

    /// The twelve-bit address field.
    pub fn nnn(&self) -> (r: u16)
        ensures
            r == op_nnn(self.opcode),
            r < 0x1000,
    {
        proof {
            lemma_op_fields(self.opcode);
        }
        self.opcode & 0x0fff
    }

    /// The eight-bit immediate field.
    pub fn nn(&self) -> (r: u8)
        ensures
            r == op_nn(self.opcode),
    {
        (self.opcode & 0x00ff) as u8
    }

    /// The four-bit immediate field.
    pub fn n(&self) -> (r: u8)
        ensures
            r == op_n(self.opcode),
            r < 16,
    {
        proof {
            lemma_op_fields(self.opcode);
        }
        (self.opcode & 0x000f) as u8
    }

    /// The most significant bit of `v`, as 0 or 1.
    pub fn msb(&self, v: u8) -> (r: u8)
        ensures
            r == (v & 0x80) >> 7,
    {
        (v & 0x80) >> 7
    }

    /// The same context with the instruction word replaced.
    pub fn op(self, opcode: u16) -> (r: Self)
        ensures
            r.opcode == opcode,
    {
        CpuContext { opcode }
    }
}

/// The glyph table seeded into the reserved memory region on reset: sixteen
/// characters of five bytes each.
pub open spec fn font() -> Seq<u8> {
    seq![
        0xf0u8, 0x90, 0x90, 0x90, 0xf0,
        0x20, 0x60, 0x20, 0x20, 0x70,
        0xf0, 0x10, 0xf0, 0x80, 0xf0,
        0xf0, 0x10, 0xf0, 0x10, 0xf0,
        0x90, 0x90, 0xf0, 0x10, 0x10,
        0xf0, 0x80, 0xf0, 0x10, 0xf0,
        0xf0, 0x80, 0xf0, 0x90, 0xf0,
        0xf0, 0x10, 0x20, 0x40, 0x40,
        0xf0, 0x90, 0xf0, 0x90, 0xf0,
        0xf0, 0x90, 0xf0, 0x10, 0xf0,
        0xf0, 0x90, 0xf0, 0x90, 0x90,
        0xe0, 0x90, 0xe0, 0x90, 0xe0,
        0xf0, 0x80, 0x80, 0x80, 0xf0,
        0xe0, 0x90, 0x90, 0x90, 0xe0,
        0xf0, 0x80, 0xf0, 0x80, 0xf0,
        0xf0, 0x80, 0xf0, 0x80, 0x80,
    ]
}

/// The glyph table as a byte vector.
fn font_table() -> (r: Vec<u8>)
    ensures
        r@ == font(),
{
    let r: Vec<u8> = vec![
        0xf0u8, 0x90, 0x90, 0x90, 0xf0,
        0x20, 0x60, 0x20, 0x20, 0x70,
        0xf0, 0x10, 0xf0, 0x80, 0xf0,
        0xf0, 0x10, 0xf0, 0x10, 0xf0,
        0x90, 0x90, 0xf0, 0x10, 0x10,
        0xf0, 0x80, 0xf0, 0x10, 0xf0,
        0xf0, 0x80, 0xf0, 0x90, 0xf0,
        0xf0, 0x10, 0x20, 0x40, 0x40,
        0xf0, 0x90, 0xf0, 0x90, 0xf0,
        0xf0, 0x90, 0xf0, 0x10, 0xf0,
        0xf0, 0x90, 0xf0, 0x90, 0x90,
        0xe0, 0x90, 0xe0, 0x90, 0xe0,
        0xf0, 0x80, 0x80, 0x80, 0xf0,
        0xe0, 0x90, 0x90, 0x90, 0xe0,
        0xf0, 0x80, 0xf0, 0x80, 0xf0,
        0xf0, 0x80, 0xf0, 0x80, 0x80,
    ];
    proof {
        assert(r@ =~= font());
    }
    r
}

/// The processor state. The host may read every part of it; the instruction
/// methods keep `wf` intact.
pub struct Cpu {
    /// Whether the machine has reached the terminal halted state.
    pub halted: bool,
    /// The 4096 addressable bytes.
    pub memory: Vec<u8>,
    /// The sixteen return-address slots.
    pub stack: Vec<u16>,
    /// The sixteen general registers; index 15 is the flags register.
    pub v: Vec<u8>,
    /// The index register, always below 0x1000.
    pub i: u16,
    /// The program counter, always below 0x1000.
    pub pc: u16,
    /// The stack pointer: the number of frames on the call stack.
    pub sp: u8,
    /// The delay countdown register.
    pub dt: u8,
    /// The sound countdown register.
    pub st: u8,
}

/// Neither the memory nor the call stack changed.
pub open spec fn same_mem(pre: Cpu, post: Cpu) -> bool {
    post.memory@ == pre.memory@
}

/// Neither the stack contents nor the stack pointer changed.
pub open spec fn same_stack(pre: Cpu, post: Cpu) -> bool {
    &&& post.stack@ == pre.stack@
    &&& post.sp == pre.sp
}

/// The general registers did not change.
pub open spec fn same_v(pre: Cpu, post: Cpu) -> bool {
    post.v@ == pre.v@
}

/// The index register did not change.
pub open spec fn same_i(pre: Cpu, post: Cpu) -> bool {
    post.i == pre.i
}

/// Neither countdown register changed.
pub open spec fn same_counters(pre: Cpu, post: Cpu) -> bool {
    &&& post.dt == pre.dt
    &&& post.st == pre.st
}

/// Everything except the program counter and the halt flag is unchanged.
pub open spec fn same_but_flow(pre: Cpu, post: Cpu) -> bool {
    &&& same_mem(pre, post)
    &&& same_stack(pre, post)
    &&& same_v(pre, post)
    &&& same_i(pre, post)
    &&& same_counters(pre, post)
}

/// The program counter advanced by `n`, or the machine halted in place
/// because that would run past the end of memory.
pub open spec fn stepped(pre: Cpu, post: Cpu, n: int) -> bool {
    if pre.pc + n <= 0xfff {
        &&& post.pc == pre.pc + n
        &&& post.halted == pre.halted
    } else {
        &&& post.pc == pre.pc
        &&& post.halted
    }
}

/// The instruction only advanced the program counter by two.
pub open spec fn post_advance(pre: Cpu, post: Cpu) -> bool {
    &&& same_but_flow(pre, post)
    &&& stepped(pre, post, 2)
}

/// The sixteen-bit word at the program counter, high byte first.
pub open spec fn fetch_spec(c: Cpu) -> u16 {
    ((c.memory@[c.pc as int] as u16) << 8) | (c.memory@[c.pc as int + 1] as u16)
}

/// The machine state after a reset: glyph table seeded, program region and
/// registers cleared, program counter at the start of the program region,
/// running. The stack contents are irrelevant once the stack pointer is zero
/// and are left alone.
pub open spec fn post_reset(pre: Cpu, post: Cpu) -> bool {
    &&& post.memory@.len() == 4096
    &&& forall|k: int| 0 <= k < 80 ==> post.memory@[k] == font()[k]
    &&& forall|k: int| 80 <= k < 4096 ==> post.memory@[k] == 0
    &&& post.v@ == Seq::new(16, |k: int| 0u8)
    &&& post.stack@ == pre.stack@
    &&& post.i == 0
    &&& post.pc == 0x200
    &&& post.sp == 0
    &&& post.dt == 0
    &&& post.st == 0
    &&& !post.halted
}

impl Cpu {
    /// The structural invariant every instruction preserves: the memory,
    /// stack and register file have their fixed sizes, and the index
    /// register, program counter and stack pointer stay in range.
    pub open spec fn wf(&self) -> bool {
        &&& self.memory@.len() == 4096
        &&& self.stack@.len() == 16
        &&& self.v@.len() == 16
        &&& self.i < 0x1000
        &&& self.pc <= 0xfff
        &&& self.sp <= 16
    }

    /// A machine with cleared memory and registers. The glyph table is
    /// seeded by `reset` and `load`.
    pub fn new() -> (c: Cpu)
        ensures
            c.wf(),
            !c.halted,
            forall|k: int| 0 <= k < 4096 ==> c.memory@[k] == 0,
            forall|k: int| 0 <= k < 16 ==> c.stack@[k] == 0,
            c.v@ == Seq::new(16, |k: int| 0u8),
            c.i == 0,
            c.pc == 0,
            c.sp == 0,
            c.dt == 0,
            c.st == 0,
    {
        let mut memory: Vec<u8> = Vec::new();
        let mut k: usize = 0;
        while k < 4096
            invariant
                k <= 4096,
                memory@.len() == k,
                forall|j: int| 0 <= j < k ==> memory@[j] == 0,
            decreases 4096 - k,
        {
            memory.push(0);
            k += 1;
        }
        let mut stack: Vec<u16> = Vec::new();
        let mut k2: usize = 0;
        while k2 < 16
            invariant
                k2 <= 16,
                stack@.len() == k2,
                forall|j: int| 0 <= j < k2 ==> stack@[j] == 0,
            decreases 16 - k2,
        {
            stack.push(0);
            k2 += 1;
        }
        let mut v: Vec<u8> = Vec::new();
        let mut k3: usize = 0;
        while k3 < 16
            invariant
                k3 <= 16,
                v@.len() == k3,
                forall|j: int| 0 <= j < k3 ==> v@[j] == 0,
            decreases 16 - k3,
        {
            v.push(0);
            k3 += 1;
        }
        let c = Cpu { halted: false, memory, stack, v, i: 0, pc: 0, sp: 0, dt: 0, st: 0 };
        proof {
            assert(c.v@ =~= Seq::new(16, |k: int| 0u8));
        }
        c
    }

    /// The index register as a memory address.
    pub fn addr(&self) -> (r: usize)
        requires
            self.wf(),
        ensures
            r == self.i as usize,
            r < 0x1000,
    {
        proof {
            lemma_mask12(self.i);
        }
        (self.i & 0x0fff) as usize
    }

    /// Re-seeds the glyph table, clears the program region and the
    /// registers, points the program counter at the program region and
    /// forces the machine back to the running state.
    pub fn reset(&mut self)
        requires
            old(self).wf(),
        ensures
            final(self).wf(),
            post_reset(*old(self), *final(self)),
    {
        let mut k: usize = 0;
        while k < 4096
            invariant
                self.wf(),
                k <= 4096,
                self.stack@ == old(self).stack@,
                forall|j: int| 0 <= j < k ==> self.memory@[j] == 0,
            decreases 4096 - k,
        {
            self.memory.set(k, 0);
            k += 1;
        }
        let glyphs = font_table();
        let mut k2: usize = 0;
        while k2 < 80
            invariant
                self.wf(),
                k2 <= 80,
                glyphs@ == font(),
                self.stack@ == old(self).stack@,
                forall|j: int| 0 <= j < k2 ==> self.memory@[j] == font()[j],
                forall|j: int| k2 <= j < 4096 ==> self.memory@[j] == 0,
            decreases 80 - k2,
        {
            self.memory.set(k2, glyphs[k2]);
            k2 += 1;
        }
        let mut k3: usize = 0;
        while k3 < 16
            invariant
                self.wf(),
                k3 <= 16,
                self.stack@ == old(self).stack@,
                forall|j: int| 0 <= j < 80 ==> self.memory@[j] == font()[j],
                forall|j: int| 80 <= j < 4096 ==> self.memory@[j] == 0,
                forall|j: int| 0 <= j < k3 ==> self.v@[j] == 0,
            decreases 16 - k3,
        {
            self.v.set(k3, 0);
            k3 += 1;
        }
        self.i = 0;
        self.pc = 0x200;
        self.sp = 0;
        self.dt = 0;
        self.st = 0;
        self.halted = false;
        proof {
            assert(self.v@ =~= Seq::new(16, |k: int| 0u8));
        }
    }

    /// Resets the machine and copies the program image into the program
    /// region. An image longer than the region is refused unchanged.
    pub fn load(&mut self, code: &[u8]) -> (r: Result<(), EmuError>)
        requires
            old(self).wf(),
        ensures
            final(self).wf(),
            code@.len() > 0xe00 ==> r == Err::<(), EmuError>(EmuError::RomTooLarge) && *final(self)
                == *old(self),
            code@.len() <= 0xe00 ==> {
                &&& r == Ok::<(), EmuError>(())
                &&& final(self).memory@.len() == 4096
                &&& forall|k: int| 0 <= k < 80 ==> final(self).memory@[k] == font()[k]
                &&& forall|k: int| 80 <= k < 0x200 ==> final(self).memory@[k] == 0
                &&& forall|j: int|
                    0 <= j < code@.len() ==> final(self).memory@[0x200 + j] == code@[j]
                &&& forall|k: int|
                    0x200 + code@.len() <= k < 4096 ==> final(self).memory@[k] == 0
                &&& final(self).v@ == Seq::new(16, |k: int| 0u8)
                &&& final(self).stack@ == old(self).stack@
                &&& final(self).i == 0
                &&& final(self).pc == 0x200
                &&& final(self).sp == 0
                &&& final(self).dt == 0
                &&& final(self).st == 0
                &&& !final(self).halted
            },
    {
        if code.len() > 0xe00 {
            return Err(EmuError::RomTooLarge);
        }
        self.reset();
        let mut j: usize = 0;
        while j < code.len()
            invariant
                self.wf(),
                j <= code@.len(),
                code@.len() <= 0xe00,
                post_reset(*old(self), *self) || j > 0,
                self.stack@ == old(self).stack@,
                forall|k: int| 0 <= k < 80 ==> self.memory@[k] == font()[k],
                forall|k: int| 80 <= k < 0x200 ==> self.memory@[k] == 0,
                forall|k: int| 0 <= k < j ==> self.memory@[0x200 + k] == code@[k],
                forall|k: int| 0x200 + j <= k < 4096 ==> self.memory@[k] == 0,
                self.v@ == Seq::new(16, |k: int| 0u8),
                self.i == 0,
                self.pc == 0x200,
                self.sp == 0,
                self.dt == 0,
                self.st == 0,
                !self.halted,
            decreases code@.len() - j,
        {
            let b = code[j];
            self.memory.set(0x200 + j, b);
            j += 1;
        }
        Ok(())
    }

    /// Marks the machine halted; every later `cycle` is a no-op.
    pub fn halt(&mut self)
        ensures
            final(self).halted,
            same_but_flow(*old(self), *final(self)),
            final(self).pc == old(self).pc,
            final(self).wf() == old(self).wf(),
    {
        self.halted = true;
    }

    /// Advances the program counter by `n`, or halts in place if that would
    /// run past the end of memory.
    pub fn step(&mut self, n: u16)
        requires
            old(self).wf(),
            n <= 4,
        ensures
            final(self).wf(),
            same_but_flow(*old(self), *final(self)),
            stepped(*old(self), *final(self), n as int),
    {
        let t: usize = self.pc as usize + n as usize;
        if t > 0xfff {
            self.halted = true;
        } else {
            self.pc = t as u16;
        }
    }

    /// Whether the tone signal handed to the audio host is active: exactly
    /// while the sound counter is nonzero.
    pub fn tone_active(&self) -> (r: bool)
        ensures
            r == (self.st > 0),
    {
        self.st > 0
    }

    /// Reads the instruction word at the program counter, high byte first.
    pub fn fetch(&self) -> (r: u16)
        requires
            self.wf(),
            self.pc + 1 <= 0xfff,
        ensures
            r == fetch_spec(*self),
    {
        let hi = self.memory[self.pc as usize] as u16;
        let lo = self.memory[self.pc as usize + 1] as u16;
        (hi << 8) | lo
    }

    /// Maps an instruction word to the operation it encodes. The high nibble
    /// selects the category; the categories 0x0, 0x8, 0xe and 0xf dispatch
    /// further on the low byte or low nibble. A word matching no defined
    /// pattern is a decode error, never a silent no-op.
    pub fn decode(&self, opcode: u16) -> (r: Result<Op, EmuError>)
        ensures
            r == decode_spec(opcode),
    {
        let hi = opcode & 0xf000;
        if hi == 0x0000 {
            if opcode == 0x00e0 {
                Ok(Op::Cls)
            } else if opcode == 0x00ee {
                Ok(Op::Ret)
            } else if opcode == 0x00fd {
                Ok(Op::Exit)
            } else {
                Ok(Op::Sys)
            }
        } else if hi == 0x1000 {
            Ok(Op::Jp)
        } else if hi == 0x2000 {
            Ok(Op::Call)
        } else if hi == 0x3000 {
            Ok(Op::SeVxKk)
        } else if hi == 0x4000 {
            Ok(Op::SneVxKk)
        } else if hi == 0x5000 {
            Ok(Op::SeVxVy)
        } else if hi == 0x6000 {
            Ok(Op::LdVxKk)
        } else if hi == 0x7000 {
            Ok(Op::AddVxKk)
        } else if hi == 0x8000 {
            let lo = opcode & 0x000f;
            if lo == 0x0 {
                Ok(Op::LdVxVy)
            } else if lo == 0x1 {
                Ok(Op::Or)
            } else if lo == 0x2 {
                Ok(Op::And)
            } else if lo == 0x3 {
                Ok(Op::Xor)
            } else if lo == 0x4 {
                Ok(Op::AddVxVy)
            } else if lo == 0x5 {
                Ok(Op::SubVxVy)
            } else if lo == 0x6 {
                Ok(Op::Shr)
            } else if lo == 0x7 {
                Ok(Op::Subn)
            } else if lo == 0xe {
                Ok(Op::Shl)
            } else {
                Err(EmuError::Decode)
            }
        } else if hi == 0x9000 {
            Ok(Op::SneVxVy)
        } else if hi == 0xa000 {
            Ok(Op::LdI)
        } else if hi == 0xb000 {
            Ok(Op::JpV0)
        } else if hi == 0xc000 {
            Ok(Op::Rnd)
        } else if hi == 0xd000 {
            Ok(Op::Drw)
        } else if hi == 0xe000 {
            let lo = opcode & 0x00ff;
            if lo == 0x9e {
                Ok(Op::Skp)
            } else if lo == 0xa1 {
                Ok(Op::Sknp)
            } else {
                Err(EmuError::Decode)
            }
        } else {
            let lo = opcode & 0x00ff;
            if lo == 0x07 {
                Ok(Op::LdVxDt)
            } else if lo == 0x0a {
                Ok(Op::LdVxK)
            } else if lo == 0x15 {
                Ok(Op::LdDtVx)
            } else if lo == 0x18 {
                Ok(Op::LdStVx)
            } else if lo == 0x1e {
                Ok(Op::AddIVx)
            } else if lo == 0x29 {
                Ok(Op::LdISpr)
            } else if lo == 0x33 {
                Ok(Op::LdBVx)
            } else if lo == 0x55 {
                Ok(Op::LdIVx)
            } else if lo == 0x65 {
                Ok(Op::LdVxI)
            } else {
                Err(EmuError::Decode)
            }
        }
    }
}

/// The roughly thirty-five operations an instruction word can encode. The
/// operand fields stay in the word; each variant names the semantics only.
#[derive(Clone, Copy, Debug, PartialEq, Eq, Structural)]
pub enum Op {
    /// Clear the framebuffer.
    Cls,
    /// Pop the call stack into the program counter.
    Ret,
    /// Halt the machine.
    Exit,
    /// Legacy machine call: architecturally a no-op that advances.
    Sys,
    /// Unconditional jump to the address field.
    Jp,
    /// Push the return address and jump to the address field.
    Call,
    /// Skip the next instruction if a register equals an immediate.
    SeVxKk,
    /// Skip the next instruction if a register differs from an immediate.
    SneVxKk,
    /// Skip the next instruction if two registers are equal.
    SeVxVy,
    /// Load an immediate into a register.
    LdVxKk,
    /// Add an immediate into a register, wrapping, flags untouched.
    AddVxKk,
    /// Copy one register into another.
    LdVxVy,
    /// Bitwise or into the first register.
    Or,
    /// Bitwise and into the first register.
    And,
    /// Bitwise exclusive-or into the first register.
    Xor,
    /// Add two registers; the flags register records the carry.
    AddVxVy,
    /// Subtract the second register; the flags register records no-borrow.
    SubVxVy,
    /// Shift right by one; the flags register takes the old low bit.
    Shr,
    /// Reverse subtract; the flags register records no-borrow.
    Subn,
    /// Shift left by one; the flags register takes the old high bit.
    Shl,
    /// Skip the next instruction if two registers differ.
    SneVxVy,
    /// Load the address field into the index register.
    LdI,
    /// Jump to the address field plus register zero.
    JpV0,
    /// Load a random byte masked by an immediate.
    Rnd,
    /// Draw a sprite and record collisions in the flags register.
    Drw,
    /// Skip the next instruction if a key is pressed.
    Skp,
    /// Skip the next instruction if a key is not pressed.
    Sknp,
    /// Read the delay counter into a register.
    LdVxDt,
    /// Wait for a key press and read its code into a register.
    LdVxK,
    /// Load a register into the delay counter.
    LdDtVx,
    /// Load a register into the sound counter.
    LdStVx,
    /// Add a register into the index register, modulo 4096.
    AddIVx,
    /// Point the index register at a glyph.
    LdISpr,
    /// Store a register's decimal digits at the index register.
    LdBVx,
    /// Store registers zero through x into memory.
    LdIVx,
    /// Load registers zero through x from memory.
    LdVxI,
}

/// The framebuffer did not change.
pub open spec fn same_gpu(a: Gpu, b: Gpu) -> bool {
    &&& b.width == a.width
    &&& b.height == a.height
    &&& b.vram@ == a.vram@
}

/// The instruction wrote the register file and advanced by two; nothing else
/// changed.
pub open spec fn v_written(pre: Cpu, post: Cpu, newv: Seq<u8>) -> bool {
    &&& same_mem(pre, post)
    &&& same_stack(pre, post)
    &&& same_i(pre, post)
    &&& same_counters(pre, post)
    &&& post.v@ == newv
    &&& stepped(pre, post, 2)
}

/// The instruction wrote the index register and advanced by two; nothing
/// else changed.
pub open spec fn i_written(pre: Cpu, post: Cpu, ni: u16) -> bool {
    &&& same_mem(pre, post)
    &&& same_stack(pre, post)
    &&& same_v(pre, post)
    &&& same_counters(pre, post)
    &&& post.i == ni
    &&& stepped(pre, post, 2)
}

/// The machine halted in place with nothing else changed.
pub open spec fn halted_in_place(pre: Cpu, post: Cpu) -> bool {
    &&& same_but_flow(pre, post)
    &&& post.pc == pre.pc
    &&& post.halted
}

/// Clear screen: the framebuffer is blank and the machine advanced.
pub open spec fn post_cls(pre: Cpu, post: Cpu, gpre: Gpu, gpost: Gpu) -> bool {
    &&& post_advance(pre, post)
    &&& gpost.width == gpre.width
    &&& gpost.height == gpre.height
    &&& gpost.vram@.len() == gpre.vram@.len()
    &&& forall|p: int| 0 <= p < 2048 ==> gpost.vram@[p] == 0
}

/// Return: pops the stack into the program counter. With no frame on the
/// stack this is a fatal underflow; a popped address past the end of memory
/// halts the machine in place of a jump.
pub open spec fn post_ret(pre: Cpu, post: Cpu, r: Result<(), EmuError>) -> bool {
    if pre.sp == 0 {
        &&& halted_in_place(pre, post)
        &&& r == Err::<(), EmuError>(EmuError::StackUnderflow)
    } else {
        let e = pre.stack@[pre.sp as int - 1];
        &&& post.stack@ == pre.stack@
        &&& post.sp == pre.sp - 1
        &&& same_mem(pre, post)
        &&& same_v(pre, post)
        &&& same_i(pre, post)
        &&& same_counters(pre, post)
        &&& r == Ok::<(), EmuError>(())
        &&& if e <= 0xfff {
            post.pc == e && post.halted == pre.halted
        } else {
            post.pc == pre.pc && post.halted
        }
    }
}

/// Exit: the machine halts in place.
pub open spec fn post_exit(pre: Cpu, post: Cpu) -> bool {
    halted_in_place(pre, post)
}

/// Call: pushes the address of the next instruction and jumps; a full stack
/// is a fatal overflow.
pub open spec fn post_call(pre: Cpu, post: Cpu, w: u16, r: Result<(), EmuError>) -> bool {
    if pre.sp >= 16 {
        &&& halted_in_place(pre, post)
        &&& r == Err::<(), EmuError>(EmuError::StackOverflow)
    } else {
        &&& post.stack@ == pre.stack@.update(pre.sp as int, (pre.pc + 2) as u16)
        &&& post.sp == pre.sp + 1
        &&& post.pc == op_nnn(w)
        &&& post.halted == pre.halted
        &&& same_mem(pre, post)
        &&& same_v(pre, post)
        &&& same_i(pre, post)
        &&& same_counters(pre, post)
        &&& r == Ok::<(), EmuError>(())
    }
}

/// Unconditional jump to the address field.
pub open spec fn post_jp(pre: Cpu, post: Cpu, w: u16) -> bool {
    &&& same_but_flow(pre, post)
    &&& post.pc == op_nnn(w)
    &&& post.halted == pre.halted
}

/// Jump to the address field plus register zero; a target past the end of
/// memory halts in place.
pub open spec fn post_jp_v0(pre: Cpu, post: Cpu, w: u16) -> bool {
    let t = op_nnn(w) + pre.v@[0];
    &&& same_but_flow(pre, post)
    &&& if t <= 0xfff {
        post.pc == t && post.halted == pre.halted
    } else {
        post.pc == pre.pc && post.halted
    }
}

/// Skip if the register equals the immediate.
pub open spec fn post_se_vx_kk(pre: Cpu, post: Cpu, w: u16) -> bool {
    &&& same_but_flow(pre, post)
    &&& stepped(pre, post, if pre.v@[op_x(w) as int] == op_nn(w) { 4int } else { 2int })
}

/// Skip if the register differs from the immediate.
pub open spec fn post_sne_vx_kk(pre: Cpu, post: Cpu, w: u16) -> bool {
    &&& same_but_flow(pre, post)
    &&& stepped(pre, post, if pre.v@[op_x(w) as int] != op_nn(w) { 4int } else { 2int })
}

/// Skip if the two registers are equal.
pub open spec fn post_se_vx_vy(pre: Cpu, post: Cpu, w: u16) -> bool {
    &&& same_but_flow(pre, post)
    &&& stepped(
        pre,
        post,
        if pre.v@[op_x(w) as int] == pre.v@[op_y(w) as int] {
            4int
        } else {
            2int
        },
    )
}

/// Skip if the two registers differ.
pub open spec fn post_sne_vx_vy(pre: Cpu, post: Cpu, w: u16) -> bool {
    &&& same_but_flow(pre, post)
    &&& stepped(
        pre,
        post,
        if pre.v@[op_x(w) as int] != pre.v@[op_y(w) as int] {
            4int
        } else {
            2int
        },
    )
}

/// Load the immediate into the register.
pub open spec fn post_ld_vx_kk(pre: Cpu, post: Cpu, w: u16) -> bool {
    v_written(pre, post, pre.v@.update(op_x(w) as int, op_nn(w)))
}

/// Add the immediate into the register, wrapping, flags untouched.
pub open spec fn post_add_vx_kk(pre: Cpu, post: Cpu, w: u16) -> bool {
    let x = op_x(w) as int;
    v_written(pre, post, pre.v@.update(x, ((pre.v@[x] + op_nn(w)) % 256) as u8))
}

/// Copy the second register into the first.
pub open spec fn post_ld_vx_vy(pre: Cpu, post: Cpu, w: u16) -> bool {
    v_written(pre, post, pre.v@.update(op_x(w) as int, pre.v@[op_y(w) as int]))
}

/// Bitwise or into the first register.
pub open spec fn post_or(pre: Cpu, post: Cpu, w: u16) -> bool {
    let x = op_x(w) as int;
    v_written(pre, post, pre.v@.update(x, pre.v@[x] | pre.v@[op_y(w) as int]))
}

/// Bitwise and into the first register.
pub open spec fn post_and(pre: Cpu, post: Cpu, w: u16) -> bool {
    let x = op_x(w) as int;
    v_written(pre, post, pre.v@.update(x, pre.v@[x] & pre.v@[op_y(w) as int]))
}

/// Bitwise exclusive-or into the first register.
pub open spec fn post_xor(pre: Cpu, post: Cpu, w: u16) -> bool {
    let x = op_x(w) as int;
    v_written(pre, post, pre.v@.update(x, pre.v@[x] ^ pre.v@[op_y(w) as int]))
}

/// Add the registers: the flags register takes the carry first, then the
/// first register takes the sum modulo 256, both from the pre-instruction
/// operand values.
pub open spec fn post_add_vx_vy(pre: Cpu, post: Cpu, w: u16) -> bool {
    let x = op_x(w) as int;
    let sum = pre.v@[x] + pre.v@[op_y(w) as int];
    let flag: u8 = if sum > 255 {
        1u8
    } else {
        0u8
    };
    v_written(pre, post, pre.v@.update(15, flag).update(x, (sum % 256) as u8))
}

/// Subtract the second register from the first: the flags register records
/// the absence of a borrow, the difference wraps.
pub open spec fn post_sub_vx_vy(pre: Cpu, post: Cpu, w: u16) -> bool {
    let x = op_x(w) as int;
    let vx = pre.v@[x];
    let vy = pre.v@[op_y(w) as int];
    let flag: u8 = if vx >= vy {
        1u8
    } else {
        0u8
    };
    v_written(pre, post, pre.v@.update(15, flag).update(x, ((vx - vy) % 256) as u8))
}

/// Shift right: the flags register takes the pre-shift low bit.
pub open spec fn post_shr(pre: Cpu, post: Cpu, w: u16) -> bool {
    let x = op_x(w) as int;
    let orig = pre.v@[x];
    v_written(pre, post, pre.v@.update(15, orig & 1).update(x, orig >> 1))
}

/// Reverse subtract: the flags register records the absence of a borrow.
pub open spec fn post_subn(pre: Cpu, post: Cpu, w: u16) -> bool {
    let x = op_x(w) as int;
    let vx = pre.v@[x];
    let vy = pre.v@[op_y(w) as int];
    let flag: u8 = if vy >= vx {
        1u8
    } else {
        0u8
    };
    v_written(pre, post, pre.v@.update(15, flag).update(x, ((vy - vx) % 256) as u8))
}

/// Shift left: the flags register takes the pre-shift high bit.
pub open spec fn post_shl(pre: Cpu, post: Cpu, w: u16) -> bool {
    let x = op_x(w) as int;
    let orig = pre.v@[x];
    v_written(pre, post, pre.v@.update(15, (orig & 0x80) >> 7).update(x, orig << 1))
}

/// Load the address field into the index register.
pub open spec fn post_ld_i(pre: Cpu, post: Cpu, w: u16) -> bool {
    i_written(pre, post, op_nnn(w))
}

/// Add the register into the index register, modulo 4096.
pub open spec fn post_add_i_vx(pre: Cpu, post: Cpu, w: u16) -> bool {
    i_written(pre, post, ((pre.i + pre.v@[op_x(w) as int]) % 4096) as u16)
}

/// Point the index register at the register's glyph: five bytes per glyph
/// from the start of memory, masked to twelve bits.
pub open spec fn post_ld_i_spr(pre: Cpu, post: Cpu, w: u16) -> bool {
    i_written(pre, post, ((pre.v@[op_x(w) as int] * 5) as u16) & 0x0fff)
}

/// Load the random byte masked by the immediate into the register.
pub open spec fn post_rnd_with(pre: Cpu, post: Cpu, w: u16, b: u8) -> bool {
    v_written(pre, post, pre.v@.update(op_x(w) as int, b & op_nn(w)))
}

/// Some byte, masked by the immediate, landed in the register; a zero mask
/// therefore always yields zero.
pub open spec fn post_rnd(pre: Cpu, post: Cpu, w: u16) -> bool {
    &&& exists|b: u8| post_rnd_with(pre, post, w, b)
    &&& op_nn(w) == 0 ==> post.v@[op_x(w) as int] == 0
}

/// Skip if the key named by the register's low nibble is pressed.
pub open spec fn post_skp(pre: Cpu, post: Cpu, w: u16, keys: Seq<bool>) -> bool {
    &&& same_but_flow(pre, post)
    &&& stepped(
        pre,
        post,
        if keys[(pre.v@[op_x(w) as int] & 0x0f) as int] {
            4int
        } else {
            2int
        },
    )
}

/// Skip if the key named by the register's low nibble is not pressed.
pub open spec fn post_sknp(pre: Cpu, post: Cpu, w: u16, keys: Seq<bool>) -> bool {
    &&& same_but_flow(pre, post)
    &&& stepped(
        pre,
        post,
        if keys[(pre.v@[op_x(w) as int] & 0x0f) as int] {
            2int
        } else {
            4int
        },
    )
}

/// Wait for a key: with some key pressed, the lowest pressed key code lands
/// in the register and the machine advances; with none pressed nothing
/// changes, so the instruction is fetched again on the next cycle.
pub open spec fn post_ld_vx_k(pre: Cpu, post: Cpu, w: u16, keys: Seq<bool>) -> bool {
    if exists|k: int| 0 <= k < 16 && keys[k] {
        exists|k: int|
            {
                &&& 0 <= k < 16
                &&& keys[k]
                &&& forall|j: int| 0 <= j < k ==> !keys[j]
                &&& v_written(pre, post, pre.v@.update(op_x(w) as int, k as u8))
            }
    } else {
        &&& same_but_flow(pre, post)
        &&& post.pc == pre.pc
        &&& post.halted == pre.halted
    }
}

/// Read the delay counter into the register.
pub open spec fn post_ld_vx_dt(pre: Cpu, post: Cpu, w: u16) -> bool {
    v_written(pre, post, pre.v@.update(op_x(w) as int, pre.dt))
}

/// Load the register into the delay counter.
pub open spec fn post_ld_dt_vx(pre: Cpu, post: Cpu, w: u16) -> bool {
    &&& same_mem(pre, post)
    &&& same_stack(pre, post)
    &&& same_v(pre, post)
    &&& same_i(pre, post)
    &&& post.dt == pre.v@[op_x(w) as int]
    &&& post.st == pre.st
    &&& stepped(pre, post, 2)
}

/// Load the register into the sound counter.
pub open spec fn post_ld_st_vx(pre: Cpu, post: Cpu, w: u16) -> bool {
    &&& same_mem(pre, post)
    &&& same_stack(pre, post)
    &&& same_v(pre, post)
    &&& same_i(pre, post)
    &&& post.st == pre.v@[op_x(w) as int]
    &&& post.dt == pre.dt
    &&& stepped(pre, post, 2)
}

/// Store the register's decimal digits at the index register: hundreds,
/// tens, ones. A range past the end of memory is a fatal bounds error.
pub open spec fn post_ld_b_vx(pre: Cpu, post: Cpu, w: u16, r: Result<(), EmuError>) -> bool {
    let val = pre.v@[op_x(w) as int];
    let a = pre.i as int;
    if a + 2 <= 0xfff {
        &&& same_stack(pre, post)
        &&& same_v(pre, post)
        &&& same_i(pre, post)
        &&& same_counters(pre, post)
        &&& post.memory@ == pre.memory@.update(a, (val / 100) as u8).update(
            a + 1,
            ((val / 10) % 10) as u8,
        ).update(a + 2, (val % 10) as u8)
        &&& stepped(pre, post, 2)
        &&& r == Ok::<(), EmuError>(())
    } else {
        &&& halted_in_place(pre, post)
        &&& r == Err::<(), EmuError>(EmuError::MemoryBounds)
    }
}

/// Store registers zero through x into memory at the index register. A range
/// past the end of memory is a fatal bounds error.
pub open spec fn post_ld_i_vx(pre: Cpu, post: Cpu, w: u16, r: Result<(), EmuError>) -> bool {
    let x = op_x(w) as int;
    let a = pre.i as int;
    if a + x <= 0xfff {
        &&& same_stack(pre, post)
        &&& same_v(pre, post)
        &&& same_i(pre, post)
        &&& same_counters(pre, post)
        &&& post.memory@.len() == pre.memory@.len()
        &&& forall|m: int|
            0 <= m < 4096 ==> post.memory@[m] == (if a <= m <= a + x {
                pre.v@[m - a]
            } else {
                pre.memory@[m]
            })
        &&& stepped(pre, post, 2)
        &&& r == Ok::<(), EmuError>(())
    } else {
        &&& halted_in_place(pre, post)
        &&& r == Err::<(), EmuError>(EmuError::MemoryBounds)
    }
}

/// Load registers zero through x from memory at the index register. A range
/// past the end of memory is a fatal bounds error.
pub open spec fn post_ld_vx_i(pre: Cpu, post: Cpu, w: u16, r: Result<(), EmuError>) -> bool {
    let x = op_x(w) as int;
    let a = pre.i as int;
    if a + x <= 0xfff {
        &&& same_mem(pre, post)
        &&& same_stack(pre, post)
        &&& same_i(pre, post)
        &&& same_counters(pre, post)
        &&& post.v@.len() == 16
        &&& forall|j: int|
            0 <= j < 16 ==> post.v@[j] == (if j <= x {
                pre.memory@[a + j]
            } else {
                pre.v@[j]
            })
        &&& stepped(pre, post, 2)
        &&& r == Ok::<(), EmuError>(())
    } else {
        &&& halted_in_place(pre, post)
        &&& r == Err::<(), EmuError>(EmuError::MemoryBounds)
    }
}

/// Draw the sprite the index register points at, at the coordinates in the
/// two registers: the flags register records whether any set pixel was
/// cleared. A sprite running past the end of memory is a fatal bounds error.
pub open spec fn post_drw(
    pre: Cpu,
    post: Cpu,
    gpre: Gpu,
    gpost: Gpu,
    w: u16,
    r: Result<(), EmuError>,
) -> bool {
    let n = op_n(w);
    let x = pre.v@[op_x(w) as int];
    let y = pre.v@[op_y(w) as int];
    let a = pre.i as int;
    if a + n <= 4096 {
        let c = draw_collides(gpre, pre.memory@, a, n, x, y);
        &&& post_draw(gpre, gpost, pre.memory@, a, n, x, y, c)
        &&& same_mem(pre, post)
        &&& same_stack(pre, post)
        &&& same_i(pre, post)
        &&& same_counters(pre, post)
        &&& post.v@ == pre.v@.update(
            15,
            if c {
                1u8
            } else {
                0u8
            },
        )
        &&& stepped(pre, post, 2)
        &&& r == Ok::<(), EmuError>(())
    } else {
        &&& halted_in_place(pre, post)
        &&& same_gpu(gpre, gpost)
        &&& r == Err::<(), EmuError>(EmuError::MemoryBounds)
    }
}

/// The decode table: the exact operation, if any, each word encodes.
pub open spec fn decode_spec(w: u16) -> Result<Op, EmuError> {
    let hi = w & 0xf000;
    if hi == 0x0000 {
        if w == 0x00e0 {
            Ok(Op::Cls)
        } else if w == 0x00ee {
            Ok(Op::Ret)
        } else if w == 0x00fd {
            Ok(Op::Exit)
        } else {
            Ok(Op::Sys)
        }
    } else if hi == 0x1000 {
        Ok(Op::Jp)
    } else if hi == 0x2000 {
        Ok(Op::Call)
    } else if hi == 0x3000 {
        Ok(Op::SeVxKk)
    } else if hi == 0x4000 {
        Ok(Op::SneVxKk)
    } else if hi == 0x5000 {
        Ok(Op::SeVxVy)
    } else if hi == 0x6000 {
        Ok(Op::LdVxKk)
    } else if hi == 0x7000 {
        Ok(Op::AddVxKk)
    } else if hi == 0x8000 {
        let lo = w & 0x000f;
        if lo == 0x0 {
            Ok(Op::LdVxVy)
        } else if lo == 0x1 {
            Ok(Op::Or)
        } else if lo == 0x2 {
            Ok(Op::And)
        } else if lo == 0x3 {
            Ok(Op::Xor)
        } else if lo == 0x4 {
            Ok(Op::AddVxVy)
        } else if lo == 0x5 {
            Ok(Op::SubVxVy)
        } else if lo == 0x6 {
            Ok(Op::Shr)
        } else if lo == 0x7 {
            Ok(Op::Subn)
        } else if lo == 0xe {
            Ok(Op::Shl)
        } else {
            Err(EmuError::Decode)
        }
    } else if hi == 0x9000 {
        Ok(Op::SneVxVy)
    } else if hi == 0xa000 {
        Ok(Op::LdI)
    } else if hi == 0xb000 {
        Ok(Op::JpV0)
    } else if hi == 0xc000 {
        Ok(Op::Rnd)
    } else if hi == 0xd000 {
        Ok(Op::Drw)
    } else if hi == 0xe000 {
        let lo = w & 0x00ff;
        if lo == 0x9e {
            Ok(Op::Skp)
        } else if lo == 0xa1 {
            Ok(Op::Sknp)
        } else {
            Err(EmuError::Decode)
        }
    } else {
        let lo = w & 0x00ff;
        if lo == 0x07 {
            Ok(Op::LdVxDt)
        } else if lo == 0x0a {
            Ok(Op::LdVxK)
        } else if lo == 0x15 {
            Ok(Op::LdDtVx)
        } else if lo == 0x18 {
            Ok(Op::LdStVx)
        } else if lo == 0x1e {
            Ok(Op::AddIVx)
        } else if lo == 0x29 {
            Ok(Op::LdISpr)
        } else if lo == 0x33 {
            Ok(Op::LdBVx)
        } else if lo == 0x55 {
            Ok(Op::LdIVx)
        } else if lo == 0x65 {
            Ok(Op::LdVxI)
        } else {
            Err(EmuError::Decode)
        }
    }
}

/// Relies on rand::random: some byte from the thread-local generator. Which
/// byte depends on the generator's state, so nothing is promised of it.
#[verifier::external_body]
fn random_byte() -> u8 {
    rand::random::<u8>()
}

impl Cpu {
    /// Architectural no-op that advances past itself.
    pub fn nop(&mut self, _ctx: CpuContext)
        requires
            old(self).wf(),
        ensures
            final(self).wf(),
            post_advance(*old(self), *final(self)),
    {
        self.step(2);
    }

    /// Legacy machine call: ignored, the machine advances.
    pub fn sys(&mut self, _ctx: CpuContext)
        requires
            old(self).wf(),
        ensures
            final(self).wf(),
            post_advance(*old(self), *final(self)),
    {
        self.step(2);
    }

    /// Clears the framebuffer and advances.
    pub fn cls(&mut self, _ctx: CpuContext, gpu: &mut Gpu)
        requires
            old(self).wf(),
            old(gpu).wf(),
        ensures
            final(self).wf(),
            final(gpu).wf(),
            post_cls(*old(self), *final(self), *old(gpu), *final(gpu)),
    {
        gpu.clear();
        self.step(2);
    }

    /// Halts the machine in place.
    pub fn exit(&mut self, _ctx: CpuContext)
        requires
            old(self).wf(),
        ensures
            final(self).wf(),
            post_exit(*old(self), *final(self)),
    {
        self.halt();
    }

    /// Pops the call stack into the program counter. An empty stack is a
    /// fatal underflow; a popped address past the end of memory halts the
    /// machine where it stands.
    pub fn ret(&mut self, _ctx: CpuContext) -> (r: Result<(), EmuError>)
        requires
            old(self).wf(),
        ensures
            final(self).wf(),
            post_ret(*old(self), *final(self), r),
    {
        if self.sp == 0 {
            self.halt();
            return Err(EmuError::StackUnderflow);
        }
        self.sp = self.sp - 1;
        let e = self.stack[self.sp as usize];
        if e > 0xfff {
            self.halted = true;
        } else {
            self.pc = e;
        }
        Ok(())
    }

    /// Pushes the address of the next instruction and jumps to the address
    /// field. A full stack is a fatal overflow.
    pub fn call(&mut self, ctx: CpuContext) -> (r: Result<(), EmuError>)
        requires
            old(self).wf(),
        ensures
            final(self).wf(),
            post_call(*old(self), *final(self), ctx.opcode, r),
    {
        if self.sp >= 16 {
            self.halt();
            return Err(EmuError::StackOverflow);
        }
        let ra = self.pc + 2;
        self.stack.set(self.sp as usize, ra);
        self.sp = self.sp + 1;
        self.pc = ctx.nnn();
        Ok(())
    }

    /// Jumps to the address field.
    pub fn jp(&mut self, ctx: CpuContext)
        requires
            old(self).wf(),
        ensures
            final(self).wf(),
            post_jp(*old(self), *final(self), ctx.opcode),
    {
        self.pc = ctx.nnn();
    }

    /// Jumps to the address field plus register zero; a target past the end
    /// of memory halts in place.
    pub fn jp_v0_addr(&mut self, ctx: CpuContext)
        requires
            old(self).wf(),
        ensures
            final(self).wf(),
            post_jp_v0(*old(self), *final(self), ctx.opcode),
    {
        let t: usize = ctx.nnn() as usize + self.v[0] as usize;
        if t > 0xfff {
            self.halted = true;
        } else {
            self.pc = t as u16;
        }
    }

    /// Skips the next instruction if the register equals the immediate.
    pub fn se_vx_kk(&mut self, ctx: CpuContext)
        requires
            old(self).wf(),
        ensures
            final(self).wf(),
            post_se_vx_kk(*old(self), *final(self), ctx.opcode),
    {
        if self.v[ctx.vx()] == ctx.nn() {
            self.step(4);
        } else {
            self.step(2);
        }
    }

    /// Skips the next instruction if the register differs from the
    /// immediate.
    pub fn sne_vx_kk(&mut self, ctx: CpuContext)
        requires
            old(self).wf(),
        ensures
            final(self).wf(),
            post_sne_vx_kk(*old(self), *final(self), ctx.opcode),
    {
        if self.v[ctx.vx()] != ctx.nn() {
            self.step(4);
        } else {
            self.step(2);
        }
    }

    /// Skips the next instruction if the two registers are equal.
    pub fn se_vx_vy(&mut self, ctx: CpuContext)
        requires
            old(self).wf(),
        ensures
            final(self).wf(),
            post_se_vx_vy(*old(self), *final(self), ctx.opcode),
    {
        if self.v[ctx.vx()] == self.v[ctx.vy()] {
            self.step(4);
        } else {
            self.step(2);
        }
    }

    /// Skips the next instruction if the two registers differ.
    pub fn sne_vx_vy(&mut self, ctx: CpuContext)
        requires
            old(self).wf(),
        ensures
            final(self).wf(),
            post_sne_vx_vy(*old(self), *final(self), ctx.opcode),
    {
        if self.v[ctx.vx()] != self.v[ctx.vy()] {
            self.step(4);
        } else {
            self.step(2);
        }
    }

    /// Loads the immediate into the register.
    pub fn ld_vx_kk(&mut self, ctx: CpuContext)
        requires
            old(self).wf(),
        ensures
            final(self).wf(),
            post_ld_vx_kk(*old(self), *final(self), ctx.opcode),
    {
        self.v.set(ctx.vx(), ctx.nn());
        self.step(2);
    }

    /// Adds the immediate into the register, wrapping; the flags register is
    /// untouched.
    pub fn add_vx_kk(&mut self, ctx: CpuContext)
        requires
            old(self).wf(),
        ensures
            final(self).wf(),
            post_add_vx_kk(*old(self), *final(self), ctx.opcode),
    {
        let x = ctx.vx();
        let sum: u16 = self.v[x] as u16 + ctx.nn() as u16;
        self.v.set(x, (sum % 256) as u8);
        self.step(2);
    }

    /// Copies the second register into the first.
    pub fn ld_vx_vy(&mut self, ctx: CpuContext)
        requires
            old(self).wf(),
        ensures
            final(self).wf(),
            post_ld_vx_vy(*old(self), *final(self), ctx.opcode),
    {
        let val = self.v[ctx.vy()];
        self.v.set(ctx.vx(), val);
        self.step(2);
    }

    /// Bitwise or of the two registers, into the first.
    pub fn or(&mut self, ctx: CpuContext)
        requires
            old(self).wf(),
        ensures
            final(self).wf(),
            post_or(*old(self), *final(self), ctx.opcode),
    {
        let x = ctx.vx();
        let val = self.v[x] | self.v[ctx.vy()];
        self.v.set(x, val);
        self.step(2);
    }

    /// Bitwise and of the two registers, into the first.
    pub fn and(&mut self, ctx: CpuContext)
        requires
            old(self).wf(),
        ensures
            final(self).wf(),
            post_and(*old(self), *final(self), ctx.opcode),
    {
        let x = ctx.vx();
        let val = self.v[x] & self.v[ctx.vy()];
        self.v.set(x, val);
        self.step(2);
    }

    /// Bitwise exclusive-or of the two registers, into the first.
    pub fn xor(&mut self, ctx: CpuContext)
        requires
            old(self).wf(),
        ensures
            final(self).wf(),
            post_xor(*old(self), *final(self), ctx.opcode),
    {
        let x = ctx.vx();
        let val = self.v[x] ^ self.v[ctx.vy()];
        self.v.set(x, val);
        self.step(2);
    }

    /// Adds the two registers into the first; the flags register takes the
    /// carry, computed from the values before the write.
    pub fn add_vx_vy(&mut self, ctx: CpuContext)
        requires
            old(self).wf(),
        ensures
            final(self).wf(),
            post_add_vx_vy(*old(self), *final(self), ctx.opcode),
    {
        let x = ctx.vx();
        let sum: u16 = self.v[x] as u16 + self.v[ctx.vy()] as u16;
        self.v.set(15, if sum > 255 { 1 } else { 0 });
        self.v.set(x, (sum % 256) as u8);
        self.step(2);
    }

    /// Subtracts the second register from the first, wrapping; the flags
    /// register records the absence of a borrow.
    pub fn sub_vx_vy(&mut self, ctx: CpuContext)
        requires
            old(self).wf(),
        ensures
            final(self).wf(),
            post_sub_vx_vy(*old(self), *final(self), ctx.opcode),
    {
        let x = ctx.vx();
        let vx = self.v[x];
        let vy = self.v[ctx.vy()];
        let d: u16 = (vx as u16 + 256 - vy as u16) % 256;
        self.v.set(15, if vx >= vy { 1 } else { 0 });
        self.v.set(x, d as u8);
        proof {
            vstd::arithmetic::div_mod::lemma_mod_multiples_vanish(
                1,
                vx as int - vy as int,
                256,
            );
        }
        self.step(2);
    }

    /// Shifts the register right by one; the flags register takes the
    /// pre-shift low bit.
    pub fn shr(&mut self, ctx: CpuContext)
        requires
            old(self).wf(),
        ensures
            final(self).wf(),
            post_shr(*old(self), *final(self), ctx.opcode),
    {
        let x = ctx.vx();
        let orig = self.v[x];
        self.v.set(15, orig & 1);
        self.v.set(x, orig >> 1);
        self.step(2);
    }

    /// Subtracts the first register from the second, into the first,
    /// wrapping; the flags register records the absence of a borrow.
    pub fn subn(&mut self, ctx: CpuContext)
        requires
            old(self).wf(),
        ensures
            final(self).wf(),
            post_subn(*old(self), *final(self), ctx.opcode),
    {
        let x = ctx.vx();
        let vx = self.v[x];
        let vy = self.v[ctx.vy()];
        let d: u16 = (vy as u16 + 256 - vx as u16) % 256;
        self.v.set(15, if vy >= vx { 1 } else { 0 });
        self.v.set(x, d as u8);
        proof {
            vstd::arithmetic::div_mod::lemma_mod_multiples_vanish(
                1,
                vy as int - vx as int,
                256,
            );
        }
        self.step(2);
    }

    /// Shifts the register left by one; the flags register takes the
    /// pre-shift high bit.
    pub fn shl(&mut self, ctx: CpuContext)
        requires
            old(self).wf(),
        ensures
            final(self).wf(),
            post_shl(*old(self), *final(self), ctx.opcode),
    {
        let x = ctx.vx();
        let orig = self.v[x];
        self.v.set(15, ctx.msb(orig));
        self.v.set(x, orig << 1);
        self.step(2);
    }

    /// Loads the address field into the index register.
    pub fn ld(&mut self, ctx: CpuContext)
        requires
            old(self).wf(),
        ensures
            final(self).wf(),
            post_ld_i(*old(self), *final(self), ctx.opcode),
    {
        self.i = ctx.nnn();
        self.step(2);
    }

    /// Adds the register into the index register, modulo 4096.
    pub fn add_i_vx(&mut self, ctx: CpuContext)
        requires
            old(self).wf(),
        ensures
            final(self).wf(),
            post_add_i_vx(*old(self), *final(self), ctx.opcode),
    {
        let t: u32 = self.i as u32 + self.v[ctx.vx()] as u32;
        self.i = (t % 4096) as u16;
        self.step(2);
    }

    /// Points the index register at the glyph for the register's value:
    /// five bytes per glyph from the start of memory, masked to twelve bits.
    pub fn ld_i_spr(&mut self, ctx: CpuContext)
        requires
            old(self).wf(),
        ensures
            final(self).wf(),
            post_ld_i_spr(*old(self), *final(self), ctx.opcode),
    {
        let vx = self.v[ctx.vx()] as u16;
        let t = vx * 5;
        proof {
            lemma_mask12(t);
        }
        self.i = t & 0x0fff;
        self.step(2);
    }

    /// Loads `byte` masked by the immediate into the register: the whole
    /// effect of the random-load instruction once the byte is fixed.
    pub fn rnd_with(&mut self, ctx: CpuContext, byte: u8)
        requires
            old(self).wf(),
        ensures
            final(self).wf(),
            post_rnd_with(*old(self), *final(self), ctx.opcode, byte),
    {
        self.v.set(ctx.vx(), byte & ctx.nn());
        self.step(2);
    }

    /// Draws a random byte, masks it with the immediate and loads the result
    /// into the register. A zero mask yields zero whatever byte was drawn.
    pub fn rnd(&mut self, ctx: CpuContext)
        requires
            old(self).wf(),
        ensures
            final(self).wf(),
            post_rnd(*old(self), *final(self), ctx.opcode),
    {
        let b = random_byte();
        self.rnd_with(ctx, b);
        proof {
            lemma_op_fields(ctx.opcode);
            assert(b & 0 == 0) by (bit_vector);
        }
    }

    /// Skips the next instruction if the key named by the register's low
    /// nibble is pressed.
    pub fn skp(&mut self, ctx: CpuContext, keypad: &Keypad)
        requires
            old(self).wf(),
            keypad.wf(),
        ensures
            final(self).wf(),
            post_skp(*old(self), *final(self), ctx.opcode, keypad.keys()),
    {
        let key = self.v[ctx.vx()] & 0x0f;
        proof {
            lemma_low_nibble(self.v@[op_x(ctx.opcode) as int]);
        }
        if keypad.get(key as usize) {
            self.step(4);
        } else {
            self.step(2);
        }
    }

    /// Skips the next instruction if the key named by the register's low
    /// nibble is not pressed.
    pub fn sknp(&mut self, ctx: CpuContext, keypad: &Keypad)
        requires
            old(self).wf(),
            keypad.wf(),
        ensures
            final(self).wf(),
            post_sknp(*old(self), *final(self), ctx.opcode, keypad.keys()),
    {
        let key = self.v[ctx.vx()] & 0x0f;
        proof {
            lemma_low_nibble(self.v@[op_x(ctx.opcode) as int]);
        }
        if keypad.get(key as usize) {
            self.step(2);
        } else {
            self.step(4);
        }
    }

    /// Waits for a key: with some key pressed, the lowest pressed code lands
    /// in the register and the machine advances; otherwise nothing changes
    /// and the instruction will be fetched again next cycle.
    pub fn ld_vx_k(&mut self, ctx: CpuContext, keypad: &Keypad)
        requires
            old(self).wf(),
            keypad.wf(),
        ensures
            final(self).wf(),
            post_ld_vx_k(*old(self), *final(self), ctx.opcode, keypad.keys()),
    {
        let mut found: usize = 16;
        let mut k: usize = 0;
        while k < 16
            invariant
                keypad.wf(),
                k <= 16,
                found == 16 || (found < k && keypad.keys()[found as int] && forall|j: int|
                    0 <= j < found ==> !keypad.keys()[j]),
                found == 16 ==> forall|j: int| 0 <= j < k ==> !keypad.keys()[j],
            decreases 16 - k,
        {
            if found == 16 && keypad.get(k) {
                found = k;
            }
            k += 1;
        }
        if found < 16 {
            self.v.set(ctx.vx(), found as u8);
            self.step(2);
            proof {
                let keys = keypad.keys();
                let pre = *old(self);
                let post = *self;
                let w = ctx.opcode;
                assert(found < 16 && keys[found as int] && (forall|j: int|
                    0 <= j < found as int ==> !keys[j]) && v_written(
                    pre,
                    post,
                    pre.v@.update(op_x(w) as int, found as u8),
                ));
            }
        }
    }

    /// Reads the delay counter into the register.
    pub fn ld_vx_dt(&mut self, ctx: CpuContext)
        requires
            old(self).wf(),
        ensures
            final(self).wf(),
            post_ld_vx_dt(*old(self), *final(self), ctx.opcode),
    {
        let val = self.dt;
        self.v.set(ctx.vx(), val);
        self.step(2);
    }

    /// Loads the register into the delay counter.
    pub fn ld_dt_vx(&mut self, ctx: CpuContext)
        requires
            old(self).wf(),
        ensures
            final(self).wf(),
            post_ld_dt_vx(*old(self), *final(self), ctx.opcode),
    {
        self.dt = self.v[ctx.vx()];
        self.step(2);
    }

    /// Loads the register into the sound counter.
    pub fn ld_st_vx(&mut self, ctx: CpuContext)
        requires
            old(self).wf(),
        ensures
            final(self).wf(),
            post_ld_st_vx(*old(self), *final(self), ctx.opcode),
    {
        self.st = self.v[ctx.vx()];
        self.step(2);
    }

    /// Stores the register's decimal digits at the index register: hundreds,
    /// tens, ones. A range past the end of memory is a fatal bounds error.
    pub fn ld_b_vx(&mut self, ctx: CpuContext) -> (r: Result<(), EmuError>)
        requires
            old(self).wf(),
        ensures
            final(self).wf(),
            post_ld_b_vx(*old(self), *final(self), ctx.opcode, r),
    {
        let a = self.addr();
        if a + 2 > 0xfff {
            self.halt();
            return Err(EmuError::MemoryBounds);
        }
        let val = self.v[ctx.vx()];
        self.memory.set(a, val / 100);
        self.memory.set(a + 1, (val / 10) % 10);
        self.memory.set(a + 2, val % 10);
        self.step(2);
        Ok(())
    }

    /// Stores registers zero through x into memory at the index register. A
    /// range past the end of memory is a fatal bounds error.
    pub fn ld_i_vx(&mut self, ctx: CpuContext) -> (r: Result<(), EmuError>)
        requires
            old(self).wf(),
        ensures
            final(self).wf(),
            post_ld_i_vx(*old(self), *final(self), ctx.opcode, r),
    {
        let x = ctx.vx();
        let a = self.addr();
        if a + x > 0xfff {
            self.halt();
            return Err(EmuError::MemoryBounds);
        }
        let mut k: usize = 0;
        while k <= x
            invariant
                self.wf(),
                k <= x + 1,
                x < 16,
                a == old(self).i as usize,
                a + x <= 0xfff,
                self.stack@ == old(self).stack@,
                self.sp == old(self).sp,
                self.v@ == old(self).v@,
                self.i == old(self).i,
                self.pc == old(self).pc,
                self.dt == old(self).dt,
                self.st == old(self).st,
                self.halted == old(self).halted,
                forall|m: int|
                    0 <= m < 4096 ==> self.memory@[m] == (if a <= m < a + k {
                        old(self).v@[m - a]
                    } else {
                        old(self).memory@[m]
                    }),
            decreases x + 1 - k,
        {
            let b = self.v[k];
            self.memory.set(a + k, b);
            k += 1;
        }
        self.step(2);
        Ok(())
    }

    /// Loads registers zero through x from memory at the index register. A
    /// range past the end of memory is a fatal bounds error.
    pub fn ld_vx_i(&mut self, ctx: CpuContext) -> (r: Result<(), EmuError>)
        requires
            old(self).wf(),
        ensures
            final(self).wf(),
            post_ld_vx_i(*old(self), *final(self), ctx.opcode, r),
    {
        let x = ctx.vx();
        let a = self.addr();
        if a + x > 0xfff {
            self.halt();
            return Err(EmuError::MemoryBounds);
        }
        let mut k: usize = 0;
        while k <= x
            invariant
                self.wf(),
                k <= x + 1,
                x < 16,
                a == old(self).i as usize,
                a + x <= 0xfff,
                self.memory@ == old(self).memory@,
                self.stack@ == old(self).stack@,
                self.sp == old(self).sp,
                self.i == old(self).i,
                self.pc == old(self).pc,
                self.dt == old(self).dt,
                self.st == old(self).st,
                self.halted == old(self).halted,
                forall|j: int|
                    0 <= j < 16 ==> self.v@[j] == (if 0 <= j < k {
                        old(self).memory@[a + j]
                    } else {
                        old(self).v@[j]
                    }),
            decreases x + 1 - k,
        {
            let b = self.memory[a + k];
            self.v.set(k, b);
            k += 1;
        }
        self.step(2);
        Ok(())
    }

    /// Draws the sprite at the index register at the coordinates held in the
    /// two registers; the flags register records collisions. A sprite
    /// running past the end of memory is a fatal bounds error.
    pub fn drw(&mut self, ctx: CpuContext, gpu: &mut Gpu) -> (r: Result<(), EmuError>)
        requires
            old(self).wf(),
            old(gpu).wf(),
        ensures
            final(self).wf(),
            final(gpu).wf(),
            post_drw(*old(self), *final(self), *old(gpu), *final(gpu), ctx.opcode, r),
    {
        let n = ctx.n();
        let x = self.v[ctx.vx()];
        let y = self.v[ctx.vy()];
        let a = self.addr();
        if a + n as usize > 4096 {
            self.halt();
            return Err(EmuError::MemoryBounds);
        }
        let collision = gpu.draw_sprite(self.memory.as_slice(), self.i, n, x, y);
        self.v.set(15, if collision { 1 } else { 0 });
        self.step(2);
        Ok(())
    }
}

/// The exact effect of executing operation `op` of word `w`: the matching
/// instruction relation, with the framebuffer untouched by instructions that
/// do not draw, and success wherever the instruction cannot fault.
pub open spec fn post_exec(
    op: Op,
    w: u16,
    pre: Cpu,
    post: Cpu,
    gpre: Gpu,
    gpost: Gpu,
    keys: Seq<bool>,
    r: Result<(), EmuError>,
) -> bool {
    match op {
        Op::Cls => post_cls(pre, post, gpre, gpost) && r == Ok::<(), EmuError>(()),
        Op::Ret => post_ret(pre, post, r) && same_gpu(gpre, gpost),
        Op::Exit => post_exit(pre, post) && same_gpu(gpre, gpost) && r == Ok::<(), EmuError>(()),
        Op::Sys => post_advance(pre, post) && same_gpu(gpre, gpost) && r == Ok::<(), EmuError>(()),
        Op::Jp => post_jp(pre, post, w) && same_gpu(gpre, gpost) && r == Ok::<(), EmuError>(()),
        Op::Call => post_call(pre, post, w, r) && same_gpu(gpre, gpost),
        Op::SeVxKk => post_se_vx_kk(pre, post, w) && same_gpu(gpre, gpost) && r == Ok::<(
            ),
            EmuError,
        >(()),
        Op::SneVxKk => post_sne_vx_kk(pre, post, w) && same_gpu(gpre, gpost) && r == Ok::<(
            ),
            EmuError,
        >(()),
        Op::SeVxVy => post_se_vx_vy(pre, post, w) && same_gpu(gpre, gpost) && r == Ok::<(
            ),
            EmuError,
        >(()),
        Op::LdVxKk => post_ld_vx_kk(pre, post, w) && same_gpu(gpre, gpost) && r == Ok::<(
            ),
            EmuError,
        >(()),
        Op::AddVxKk => post_add_vx_kk(pre, post, w) && same_gpu(gpre, gpost) && r == Ok::<(
            ),
            EmuError,
        >(()),
        Op::LdVxVy => post_ld_vx_vy(pre, post, w) && same_gpu(gpre, gpost) && r == Ok::<(
            ),
            EmuError,
        >(()),
        Op::Or => post_or(pre, post, w) && same_gpu(gpre, gpost) && r == Ok::<(), EmuError>(()),
        Op::And => post_and(pre, post, w) && same_gpu(gpre, gpost) && r == Ok::<(), EmuError>(()),
        Op::Xor => post_xor(pre, post, w) && same_gpu(gpre, gpost) && r == Ok::<(), EmuError>(()),
        Op::AddVxVy => post_add_vx_vy(pre, post, w) && same_gpu(gpre, gpost) && r == Ok::<(
            ),
            EmuError,
        >(()),
        Op::SubVxVy => post_sub_vx_vy(pre, post, w) && same_gpu(gpre, gpost) && r == Ok::<(
            ),
            EmuError,
        >(()),
        Op::Shr => post_shr(pre, post, w) && same_gpu(gpre, gpost) && r == Ok::<(), EmuError>(()),
        Op::Subn => post_subn(pre, post, w) && same_gpu(gpre, gpost) && r == Ok::<(), EmuError>(()),
        Op::Shl => post_shl(pre, post, w) && same_gpu(gpre, gpost) && r == Ok::<(), EmuError>(()),
        Op::SneVxVy => post_sne_vx_vy(pre, post, w) && same_gpu(gpre, gpost) && r == Ok::<(
            ),
            EmuError,
        >(()),
        Op::LdI => post_ld_i(pre, post, w) && same_gpu(gpre, gpost) && r == Ok::<(), EmuError>(()),
        Op::JpV0 => post_jp_v0(pre, post, w) && same_gpu(gpre, gpost) && r == Ok::<(), EmuError>(
            (),
        ),
        Op::Rnd => post_rnd(pre, post, w) && same_gpu(gpre, gpost) && r == Ok::<(), EmuError>(()),
        Op::Drw => post_drw(pre, post, gpre, gpost, w, r),
        Op::Skp => post_skp(pre, post, w, keys) && same_gpu(gpre, gpost) && r == Ok::<(
            ),
            EmuError,
        >(()),
        Op::Sknp => post_sknp(pre, post, w, keys) && same_gpu(gpre, gpost) && r == Ok::<(
            ),
            EmuError,
        >(()),
        Op::LdVxDt => post_ld_vx_dt(pre, post, w) && same_gpu(gpre, gpost) && r == Ok::<(
            ),
            EmuError,
        >(()),
        Op::LdVxK => post_ld_vx_k(pre, post, w, keys) && same_gpu(gpre, gpost) && r == Ok::<(
            ),
            EmuError,
        >(()),
        Op::LdDtVx => post_ld_dt_vx(pre, post, w) && same_gpu(gpre, gpost) && r == Ok::<(
            ),
            EmuError,
        >(()),
        Op::LdStVx => post_ld_st_vx(pre, post, w) && same_gpu(gpre, gpost) && r == Ok::<(
            ),
            EmuError,
        >(()),
        Op::AddIVx => post_add_i_vx(pre, post, w) && same_gpu(gpre, gpost) && r == Ok::<(
            ),
            EmuError,
        >(()),
        Op::LdISpr => post_ld_i_spr(pre, post, w) && same_gpu(gpre, gpost) && r == Ok::<(
            ),
            EmuError,
        >(()),
        Op::LdBVx => post_ld_b_vx(pre, post, w, r) && same_gpu(gpre, gpost),
        Op::LdIVx => post_ld_i_vx(pre, post, w, r) && same_gpu(gpre, gpost),
        Op::LdVxI => post_ld_vx_i(pre, post, w, r) && same_gpu(gpre, gpost),
    }
}

/// The countdown phase of a cycle: each counter drops by one exactly when it
/// is nonzero and its timer fired; nothing else changes.
pub open spec fn mid_phase(pre: Cpu, mid: Cpu, fire_d: bool, fire_s: bool) -> bool {
    &&& mid.dt == if pre.dt > 0 && fire_d {
        (pre.dt - 1) as u8
    } else {
        pre.dt
    }
    &&& mid.st == if pre.st > 0 && fire_s {
        (pre.st - 1) as u8
    } else {
        pre.st
    }
    &&& same_mem(pre, mid)
    &&& same_stack(pre, mid)
    &&& same_v(pre, mid)
    &&& same_i(pre, mid)
    &&& mid.pc == pre.pc
    &&& mid.halted == pre.halted
}

/// The instruction phase of a cycle: a fatal bounds error if no whole word
/// sits at the program counter, a fatal decode error if the word matches no
/// pattern, and otherwise the decoded operation's exact effect.
pub open spec fn instr_phase(
    mid: Cpu,
    post: Cpu,
    gpre: Gpu,
    gpost: Gpu,
    keys: Seq<bool>,
    r: Result<(), EmuError>,
) -> bool {
    if mid.pc + 1 > 0xfff {
        &&& halted_in_place(mid, post)
        &&& same_gpu(gpre, gpost)
        &&& r == Err::<(), EmuError>(EmuError::MemoryBounds)
    } else {
        let w = fetch_spec(mid);
        match decode_spec(w) {
            Result::Err(e) => {
                &&& halted_in_place(mid, post)
                &&& same_gpu(gpre, gpost)
                &&& r == Err::<(), EmuError>(e)
            },
            Result::Ok(op) => post_exec(op, w, mid, post, gpre, gpost, keys, r),
        }
    }
}

/// The exact effect of one machine step: a halted machine does nothing;
/// otherwise both timers are checked against the host clock, the counters
/// drop where a timer fired, and the instruction at the program
/// counter runs.
pub open spec fn post_cycle(
    pre: Cpu,
    post: Cpu,
    gpre: Gpu,
    gpost: Gpu,
    dpre: Timer,
    dpost: Timer,
    spre: Timer,
    spost: Timer,
    keys: Seq<bool>,
    now_ns: u64,
    r: Result<(), EmuError>,
) -> bool {
    if pre.halted {
        &&& post == pre
        &&& same_gpu(gpre, gpost)
        &&& dpost == dpre
        &&& spost == spre
        &&& r == Ok::<(), EmuError>(())
    } else {
        &&& post_tick(dpre, dpost, now_ns)
        &&& post_tick(spre, spost, now_ns)
        &&& exists|mid: Cpu|
            #[trigger] mid_phase(pre, mid, gate_fires(dpre, now_ns), gate_fires(spre, now_ns))
                && instr_phase(mid, post, gpre, gpost, keys, r)
    }
}

impl Cpu {
    /// Runs the operation `op`, decoded from `ctx`'s word, against this
    /// machine, the framebuffer and the keypad snapshot.
    pub fn execute(&mut self, op: Op, ctx: CpuContext, gpu: &mut Gpu, keypad: &Keypad) -> (r:
        Result<(), EmuError>)
        requires
            old(self).wf(),
            old(gpu).wf(),
            keypad.wf(),
        ensures
            final(self).wf(),
            final(gpu).wf(),
            post_exec(
                op,
                ctx.opcode,
                *old(self),
                *final(self),
                *old(gpu),
                *final(gpu),
                keypad.keys(),
                r,
            ),
    {
        match op {
            Op::Cls => {
                self.cls(ctx, gpu);
                Ok(())
            },
            Op::Ret => self.ret(ctx),
            Op::Exit => {
                self.exit(ctx);
                Ok(())
            },
            Op::Sys => {
                self.sys(ctx);
                Ok(())
            },
            Op::Jp => {
                self.jp(ctx);
                Ok(())
            },
            Op::Call => self.call(ctx),
            Op::SeVxKk => {
                self.se_vx_kk(ctx);
                Ok(())
            },
            Op::SneVxKk => {
                self.sne_vx_kk(ctx);
                Ok(())
            },
            Op::SeVxVy => {
                self.se_vx_vy(ctx);
                Ok(())
            },
            Op::LdVxKk => {
                self.ld_vx_kk(ctx);
                Ok(())
            },
            Op::AddVxKk => {
                self.add_vx_kk(ctx);
                Ok(())
            },
            Op::LdVxVy => {
                self.ld_vx_vy(ctx);
                Ok(())
            },
            Op::Or => {
                self.or(ctx);
                Ok(())
            },
            Op::And => {
                self.and(ctx);
                Ok(())
            },
            Op::Xor => {
                self.xor(ctx);
                Ok(())
            },
            Op::AddVxVy => {
                self.add_vx_vy(ctx);
                Ok(())
            },
            Op::SubVxVy => {
                self.sub_vx_vy(ctx);
                Ok(())
            },
            Op::Shr => {
                self.shr(ctx);
                Ok(())
            },
            Op::Subn => {
                self.subn(ctx);
                Ok(())
            },
            Op::Shl => {
                self.shl(ctx);
                Ok(())
            },
            Op::SneVxVy => {
                self.sne_vx_vy(ctx);
                Ok(())
            },
            Op::LdI => {
                self.ld(ctx);
                Ok(())
            },
            Op::JpV0 => {
                self.jp_v0_addr(ctx);
                Ok(())
            },
            Op::Rnd => {
                self.rnd(ctx);
                Ok(())
            },
            Op::Drw => self.drw(ctx, gpu),
            Op::Skp => {
                self.skp(ctx, keypad);
                Ok(())
            },
            Op::Sknp => {
                self.sknp(ctx, keypad);
                Ok(())
            },
            Op::LdVxDt => {
                self.ld_vx_dt(ctx);
                Ok(())
            },
            Op::LdVxK => {
                self.ld_vx_k(ctx, keypad);
                Ok(())
            },
            Op::LdDtVx => {
                self.ld_dt_vx(ctx);
                Ok(())
            },
            Op::LdStVx => {
                self.ld_st_vx(ctx);
                Ok(())
            },
            Op::AddIVx => {
                self.add_i_vx(ctx);
                Ok(())
            },
            Op::LdISpr => {
                self.ld_i_spr(ctx);
                Ok(())
            },
            Op::LdBVx => self.ld_b_vx(ctx),
            Op::LdIVx => self.ld_i_vx(ctx),
            Op::LdVxI => self.ld_vx_i(ctx),
        }
    }

    /// One machine step: a halted machine does nothing; otherwise the timer
    /// ticks are checked against `now_ns` and the counters dropped where a
    /// timer fired, then the instruction at the program counter is fetched,
    /// decoded and executed. Every fatal condition halts the machine and is
    /// reported in the result.
    pub fn cycle(
        &mut self,
        gpu: &mut Gpu,
        delay_timer: &mut Timer,
        sound_timer: &mut Timer,
        keypad: &Keypad,
        now_ns: u64,
    ) -> (r: Result<(), EmuError>)
        requires
            old(self).wf(),
            old(gpu).wf(),
            keypad.wf(),
        ensures
            final(self).wf(),
            final(gpu).wf(),
            post_cycle(
                *old(self),
                *final(self),
                *old(gpu),
                *final(gpu),
                *old(delay_timer),
                *final(delay_timer),
                *old(sound_timer),
                *final(sound_timer),
                keypad.keys(),
                now_ns,
                r,
            ),
    {
        if self.halted {
            return Ok(());
        }
        delay_timer.tick(now_ns);
        sound_timer.tick(now_ns);
        if self.dt > 0 && delay_timer.active() {
            self.dt = self.dt - 1;
        }
        if self.st > 0 && sound_timer.active() {
            self.st = self.st - 1;
        }
        let ghost mid = *self;
        let ghost fire_d = gate_fires(*old(delay_timer), now_ns);
        let ghost fire_s = gate_fires(*old(sound_timer), now_ns);
        proof {
            assert(mid_phase(*old(self), mid, fire_d, fire_s));
        }
        if self.pc >= 0xfff {
            self.halted = true;
            proof {
                assert(instr_phase(
                    mid,
                    *self,
                    *old(gpu),
                    *gpu,
                    keypad.keys(),
                    Err::<(), EmuError>(EmuError::MemoryBounds),
                ));
            }
            return Err(EmuError::MemoryBounds);
        }
        let w = self.fetch();
        let ctx = CpuContext { opcode: w };
        let result = match self.decode(w) {
            Err(e) => {
                self.halted = true;
                Err(e)
            },
            Ok(op) => self.execute(op, ctx, gpu, keypad),
        };
        proof {
            assert(instr_phase(mid, *self, *old(gpu), *gpu, keypad.keys(), result));
        }
        result
    }
}

} // verus!
