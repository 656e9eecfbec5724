//! Laws of the instruction set, proved once and for all against the
//! instruction relations in `cpu` (the draw and timer laws live beside
//! their types in `gpu` and `timer`).

use vstd::prelude::*;

verus! {

use crate::cpu::{
    lemma_op_fields, mid_phase, op_x, op_y, post_add_vx_vy, post_call, post_ret, post_shl,
    post_shr, post_sub_vx_vy, post_subn, Cpu,
};
use crate::EmuError;

/// Adding two registers sets the flags register exactly when the
/// pre-instruction sum exceeds 255, and stores the sum modulo 256 — for any
/// destination register other than the flags register itself, which the
/// result would overwrite.
pub proof fn lemma_add_carry(pre: Cpu, post: Cpu, w: u16)
    requires
        pre.wf(),
        post_add_vx_vy(pre, post, w),
        op_x(w) != 15,
    ensures
        post.v@[15] == (if pre.v@[op_x(w) as int] + pre.v@[op_y(w) as int] > 255 {
            1u8
        } else {
            0u8
        }),
        post.v@[op_x(w) as int] == ((pre.v@[op_x(w) as int] + pre.v@[op_y(w) as int]) % 256) as u8,
{
    lemma_op_fields(w);
}

/// Subtracting the second register sets the flags register exactly when the
/// first operand is at least the second (no borrow), for any destination
/// other than the flags register.
pub proof fn lemma_sub_no_borrow(pre: Cpu, post: Cpu, w: u16)
    requires
        pre.wf(),
        post_sub_vx_vy(pre, post, w),
        op_x(w) != 15,
    ensures
        post.v@[15] == (if pre.v@[op_x(w) as int] >= pre.v@[op_y(w) as int] {
            1u8
        } else {
            0u8
        }),
{
    lemma_op_fields(w);
}

/// The reverse subtraction sets the flags register exactly when the second
/// operand is at least the first, for any destination other than the flags
/// register.
pub proof fn lemma_subn_no_borrow(pre: Cpu, post: Cpu, w: u16)
    requires
        pre.wf(),
        post_subn(pre, post, w),
        op_x(w) != 15,
    ensures
        post.v@[15] == (if pre.v@[op_y(w) as int] >= pre.v@[op_x(w) as int] {
            1u8
        } else {
            0u8
        }),
{
    lemma_op_fields(w);
}

/// The right shift captures the pre-shift low bit in the flags register
/// before the register mutates, for any register other than the flags
/// register.
pub proof fn lemma_shr_captures_low_bit(pre: Cpu, post: Cpu, w: u16)
    requires
        pre.wf(),
        post_shr(pre, post, w),
        op_x(w) != 15,
    ensures
        post.v@[15] == pre.v@[op_x(w) as int] & 1,
        post.v@[op_x(w) as int] == pre.v@[op_x(w) as int] >> 1,
{
    lemma_op_fields(w);
}

/// The left shift captures the pre-shift high bit in the flags register
/// before the register mutates, for any register other than the flags
/// register.
pub proof fn lemma_shl_captures_high_bit(pre: Cpu, post: Cpu, w: u16)
    requires
        pre.wf(),
        post_shl(pre, post, w),
        op_x(w) != 15,
    ensures
        post.v@[15] == (pre.v@[op_x(w) as int] & 0x80) >> 7,
        post.v@[op_x(w) as int] == pre.v@[op_x(w) as int] << 1,
{
    lemma_op_fields(w);
}

/// A call followed by a return restores the program counter to the address
/// immediately after the call and the stack pointer to its prior value, at
/// any nesting depth the sixteen-frame stack can hold.
pub proof fn lemma_call_ret_round_trip(
    s0: Cpu,
    s1: Cpu,
    s2: Cpu,
    w_call: u16,
    r1: Result<(), EmuError>,
    r2: Result<(), EmuError>,
)
    requires
        s0.wf(),
        s0.sp < 16,
        s0.pc + 2 <= 0xfff,
        post_call(s0, s1, w_call, r1),
        post_ret(s1, s2, r2),
    ensures
        r1 == Ok::<(), EmuError>(()),
        r2 == Ok::<(), EmuError>(()),
        s2.pc == s0.pc + 2,
        s2.sp == s0.sp,
{
}

/// Within one cycle each countdown register never goes below zero, drops by
/// at most one, and drops only when its timer fired.
pub proof fn lemma_counters_gated(pre: Cpu, mid: Cpu, fire_d: bool, fire_s: bool)
    requires
        mid_phase(pre, mid, fire_d, fire_s),
    ensures
        mid.dt <= pre.dt,
        pre.dt - mid.dt <= 1,
        !fire_d ==> mid.dt == pre.dt,
        pre.dt == 0 ==> mid.dt == 0,
        mid.st <= pre.st,
        pre.st - mid.st <= 1,
        !fire_s ==> mid.st == pre.st,
        pre.st == 0 ==> mid.st == 0,
{
}

} // verus!
