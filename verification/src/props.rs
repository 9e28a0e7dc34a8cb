//! The architecture's laws, proved of the step function `semantics::step_of`.
//! Since `cpu::CPU::execute_instruction` ensures that its state follows
//! `step_of` exactly, each law here holds of the running engine as well.

use vstd::prelude::*;
use vstd::arithmetic::div_mod::{lemma_small_mod, lemma_mod_add_multiples_vanish, lemma_mod_bound};
use vstd::wrapping::u32_specs;
use crate::cpu::CPUError;
use crate::decode::{
    op_of, dr_of, sr1_of, sr2_of, imm_of, alu_op_of, func_ret_bit, stack_op_of, mask24,
    lemma_decode_bounds, lemma_mask24,
};
use crate::semantics::{
    MachineView, step_of, mem_read, mem_write, alu_compute, compare_result, pack_flags,
    carry_of, zero_of, comp_of,
};

verus! {

/// Decrementing the stack pointer with wraparound and incrementing it again
/// restores it.
pub proof fn lemma_wrap_dec_inc(x: u32)
    ensures
        u32_specs::wrapping_add(u32_specs::wrapping_sub(x, 1), 1) == x,
{
}

/// Two stack cells reached by consecutive stack-pointer values are distinct
/// addresses: the 24-bit masks of `x - 1` (with wraparound) and `x` differ.
pub proof fn lemma_stack_cells_distinct(x: u32)
    ensures
        mask24(u32_specs::wrapping_sub(x, 1)) != mask24(x),
{
    let y = u32_specs::wrapping_sub(x, 1);
    assert(y & 0xFFFFFF != x & 0xFFFFFF) by (bit_vector)
        requires
            y == x - 1 || y == x + 0xFFFFFFFF,
    ;
}

/// Packing the three flags into a word and reading them back is the
/// identity, for every flag combination.
pub proof fn lemma_flags_round_trip(c: bool, z: bool, p: bool)
    ensures
        carry_of(pack_flags(c, z, p)) == c,
        zero_of(pack_flags(c, z, p)) == z,
        comp_of(pack_flags(c, z, p)) == p,
{
    let cv: u32 = if c { 1 } else { 0 };
    let zv: u32 = if z { 1 } else { 0 };
    let pv: u32 = if p { 1 } else { 0 };
    assert((cv | (zv << 1) | (pv << 2)) & 0x1 == cv && ((cv | (zv << 1) | (pv << 2)) >> 1)
        & 0x1 == zv && ((cv | (zv << 1) | (pv << 2)) >> 2) & 0x1 == pv) by (bit_vector)
        requires
            cv < 2 && zv < 2 && pv < 2,
    ;
}

/// For any step, every general register other than the fetched
/// instruction's declared destination is unchanged; when the program
/// counter is out of bounds, nothing at all changes.
pub proof fn lemma_registers_frame(pre: MachineView, j: int)
    requires
        pre.wf(),
        0 <= j < 16,
        pre.pc < pre.mem.len() ==> j != dr_of(pre.mem[pre.pc as int]) as int,
    ensures
        step_of(pre).post.regs[j] == pre.regs[j],
{
    if pre.pc < pre.mem.len() {
        lemma_decode_bounds(pre.mem[pre.pc as int]);
    }
}

/// The arithmetic operations — add, subtract, multiply, negate — equal the
/// exact mathematical result reduced modulo 2^32; no input overflows.
pub proof fn lemma_arithmetic_exact(a: u32, b: u32)
    ensures
        alu_compute(0, a, b) as int == (a + b) % 0x1_0000_0000,
        alu_compute(1, a, b) as int == (a - b) % 0x1_0000_0000,
        alu_compute(2, a, b) as int == (a * b) % 0x1_0000_0000,
        alu_compute(3, a, b) as int == (0 - a) % 0x1_0000_0000,
{
    let m: int = 0x1_0000_0000;
    // add
    if a + b <= u32::MAX {
        lemma_small_mod((a + b) as nat, m as nat);
    } else {
        lemma_mod_add_multiples_vanish(a + b - m, m);
        lemma_small_mod((a + b - m) as nat, m as nat);
    }
    // subtract
    if a >= b {
        lemma_small_mod((a - b) as nat, m as nat);
    } else {
        lemma_mod_add_multiples_vanish(a - b, m);
        lemma_small_mod((a - b + m) as nat, m as nat);
    }
    // multiply
    lemma_mod_bound(a * b, m);
    // negate
    if a == 0 {
        lemma_small_mod(0, m as nat);
    } else {
        lemma_mod_add_multiples_vanish(0 - a, m);
        lemma_small_mod((m - a) as nat, m as nat);
    }
}

/// After any ALU-compute step, the zero flag holds exactly when the
/// destination register was written to zero, across all sixteen
/// sub-opcodes.
pub proof fn lemma_alu_zero_flag(pre: MachineView)
    requires
        pre.wf(),
        pre.pc < pre.mem.len(),
        op_of(pre.mem[pre.pc as int]) == 1,
    ensures
        step_of(pre).post.zero == (step_of(pre).post.regs[dr_of(pre.mem[pre.pc as int]) as int]
            == 0),
{
    lemma_decode_bounds(pre.mem[pre.pc as int]);
}

/// An ALU-compare step never mutates the carry or zero flags, registers or
/// memory; it writes only the comparison flag, with the selected relation.
pub proof fn lemma_compare_writes_only_comparison(pre: MachineView)
    requires
        pre.wf(),
        pre.pc < pre.mem.len(),
        op_of(pre.mem[pre.pc as int]) == 2,
    ensures
        step_of(pre).post.carry == pre.carry,
        step_of(pre).post.zero == pre.zero,
        step_of(pre).post.regs == pre.regs,
        step_of(pre).post.mem == pre.mem,
        step_of(pre).post.comp == compare_result(
            alu_op_of(pre.mem[pre.pc as int]),
            pre.regs[sr1_of(pre.mem[pre.pc as int]) as int],
            pre.regs[sr2_of(pre.mem[pre.pc as int]) as int],
        ),
{
}

/// Pushing a register and then popping rounds the value through memory and
/// restores the stack pointer to its pre-push position. The one excluded
/// layout is a push whose stack cell is the address of the pop instruction
/// itself.
pub proof fn lemma_push_pop_round_trip(pre: MachineView)
    requires
        pre.wf(),
        pre.pc + 1 < pre.mem.len(),
        op_of(pre.mem[pre.pc as int]) == 12,
        stack_op_of(pre.mem[pre.pc as int]) == 0,
        op_of(pre.mem[pre.pc as int + 1]) == 12,
        stack_op_of(pre.mem[pre.pc as int + 1]) == 1,
        mask24(u32_specs::wrapping_sub(pre.sp, 1)) != pre.pc + 1,
    ensures
        ({
            let mid = step_of(pre).post;
            let post = step_of(mid).post;
            &&& step_of(pre).status == CPUError::Running
            &&& step_of(mid).status == CPUError::Running
            &&& post.regs[dr_of(pre.mem[pre.pc as int + 1]) as int] == pre.regs[sr1_of(
                pre.mem[pre.pc as int],
            ) as int]
            &&& post.sp == pre.sp
            &&& post.pc == pre.pc + 2
        }),
{
    let i1 = pre.mem[pre.pc as int];
    let i2 = pre.mem[pre.pc as int + 1];
    lemma_decode_bounds(i1);
    lemma_decode_bounds(i2);
    let sp1 = u32_specs::wrapping_sub(pre.sp, 1);
    lemma_mask24(sp1);
    lemma_wrap_dec_inc(pre.sp);
    let mid = step_of(pre).post;
    assert(mid.mem[pre.pc as int + 1] == i2);
    assert(mem_read(mid.mem, mid.sp) == pre.regs[sr1_of(i1) as int]);
}

/// A call followed at its target by a return restores the program counter
/// to the instruction after the call and restores all three flags, for
/// every flag combination, and restores the stack pointer. Excluded are the
/// layouts where a pushed word lands on the return instruction itself, and
/// a call in the last memory word, whose masked return address wraps to
/// zero.
pub proof fn lemma_call_return_round_trip(pre: MachineView)
    requires
        pre.wf(),
        pre.pc + 1 < 0x1000000,
        op_of(pre.mem[pre.pc as int]) == 13,
        func_ret_bit(pre.mem[pre.pc as int]) == 0,
        op_of(pre.mem[imm_of(pre.mem[pre.pc as int]) as int]) == 13,
        func_ret_bit(pre.mem[imm_of(pre.mem[pre.pc as int]) as int]) == 1,
        mask24(u32_specs::wrapping_sub(pre.sp, 1)) != imm_of(pre.mem[pre.pc as int]),
        mask24(u32_specs::wrapping_sub(u32_specs::wrapping_sub(pre.sp, 1), 1)) != imm_of(
            pre.mem[pre.pc as int],
        ),
    ensures
        ({
            let mid = step_of(pre).post;
            let post = step_of(mid).post;
            &&& step_of(pre).status == CPUError::Running
            &&& step_of(mid).status == CPUError::Running
            &&& post.pc == pre.pc + 1
            &&& post.sp == pre.sp
            &&& post.carry == pre.carry
            &&& post.zero == pre.zero
            &&& post.comp == pre.comp
        }),
{
    let i1 = pre.mem[pre.pc as int];
    let t = imm_of(i1);
    let i2 = pre.mem[t as int];
    lemma_decode_bounds(i1);
    lemma_decode_bounds(i2);
    let sp1 = u32_specs::wrapping_sub(pre.sp, 1);
    let sp2 = u32_specs::wrapping_sub(sp1, 1);
    lemma_mask24(sp1);
    lemma_mask24(sp2);
    lemma_stack_cells_distinct(sp1);
    lemma_wrap_dec_inc(sp1);
    lemma_wrap_dec_inc(pre.sp);
    lemma_small_mod((pre.pc + 1) as nat, 0x1000000);
    lemma_flags_round_trip(pre.carry, pre.zero, pre.comp);
    let mid = step_of(pre).post;
    assert(mid.mem[t as int] == i2);
    assert(mem_read(mid.mem, mid.sp) == pack_flags(pre.carry, pre.zero, pre.comp));
    assert(mem_read(mid.mem, u32_specs::wrapping_add(mid.sp, 1)) == ((pre.pc + 1) as u32));
}

/// Addressing wraps modulo 2^24: writing at address 2^24 + k leaves memory
/// exactly as writing at address k does, and reading there reads the same
/// word.
pub proof fn lemma_addressing_wraps(mem: Seq<u32>, k: u32, v: u32)
    requires
        k + 0x1000000 <= u32::MAX,
    ensures
        mem_write(mem, (k + 0x1000000) as u32, v) == mem_write(mem, k, v),
        mem_read(mem, (k + 0x1000000) as u32) == mem_read(mem, k),
{
    let k2 = ((k + 0x1000000) as u32);
    assert(k2 & 0xFFFFFF == k & 0xFFFFFF) by (bit_vector)
        requires
            k2 == k + 0x1000000,
    ;
}

} // verus!
