//! Instruction-word decoding. Every instruction is one 32-bit word with a
//! fixed top-level layout: the opcode class in bits 31..28, register fields
//! in bits 27..16, and the low 24 bits as an unsigned immediate. Several
//! opcode classes reinterpret parts of this layout (sub-opcodes, condition
//! selectors, mode bits); those readings are defined here as well.

use vstd::prelude::*;

verus! {

/// Memory capacity in 32-bit words; every address is masked to 24 bits.
pub const MEM_WORDS: usize = 0x1000000;

/// Top four bits: the opcode class.
pub open spec fn op_of(instr: u32) -> u32 {
    (instr >> 28) & 0xF
}

/// Bits 19..16: destination register index.
pub open spec fn dr_of(instr: u32) -> u32 {
    (instr >> 16) & 0xF
}

/// Bits 23..20: second source register index.
pub open spec fn sr2_of(instr: u32) -> u32 {
    (instr >> 20) & 0xF
}

/// Bits 27..24: first source register index.
pub open spec fn sr1_of(instr: u32) -> u32 {
    (instr >> 24) & 0xF
}

/// Low 24 bits: the unsigned immediate.
pub open spec fn imm_of(instr: u32) -> u32 {
    instr & 0xFFFFFF
}

/// Bits 15..12: ALU sub-opcode, for the compute and compare classes.
pub open spec fn alu_op_of(instr: u32) -> u32 {
    (instr >> 12) & 0xF
}

/// Bit 27: jump addressing mode, 1 for an immediate target and 0 for a
/// register target.
pub open spec fn jump_imm_bit(instr: u32) -> u32 {
    (instr >> 27) & 0x1
}

/// Bits 26..24: jump condition selector.
pub open spec fn jump_cond_of(instr: u32) -> u32 {
    (instr >> 24) & 0x7
}

/// Bits 23..22: stack sub-operation.
pub open spec fn stack_op_of(instr: u32) -> u32 {
    (instr >> 22) & 0x3
}

/// Bit 25: subroutine selector, 1 for return and 0 for call.
pub open spec fn func_ret_bit(instr: u32) -> u32 {
    (instr >> 25) & 0x1
}

/// Bit 27: system selector, 1 for return from a system call and 0 for entry.
pub open spec fn sys_ret_bit(instr: u32) -> u32 {
    (instr >> 27) & 0x1
}

/// A value masked to the 24-bit address space.
pub open spec fn mask24(x: u32) -> u32 {
    x & 0xFFFFFF
}

/// Every decoded field lies in the range its width allows.
pub proof fn lemma_decode_bounds(instr: u32)
    ensures
        op_of(instr) < 16,
        dr_of(instr) < 16,
        sr1_of(instr) < 16,
        sr2_of(instr) < 16,
        imm_of(instr) < 0x1000000,
        alu_op_of(instr) < 16,
        jump_imm_bit(instr) < 2,
        jump_cond_of(instr) < 8,
        stack_op_of(instr) < 4,
        func_ret_bit(instr) < 2,
        sys_ret_bit(instr) < 2,
{
    assert((instr >> 28) & 0xF < 16 && (instr >> 16) & 0xF < 16 && (instr >> 24) & 0xF < 16
        && (instr >> 20) & 0xF < 16 && instr & 0xFFFFFF < 0x1000000 && (instr >> 12) & 0xF < 16
        && (instr >> 27) & 0x1 < 2 && (instr >> 24) & 0x7 < 8 && (instr >> 22) & 0x3 < 4
        && (instr >> 25) & 0x1 < 2) by (bit_vector);
}

/// Masking to 24 bits is reduction modulo 2^24, so the result always
/// indexes into memory.
pub proof fn lemma_mask24(x: u32)
    ensures
        mask24(x) == x % 0x1000000,
        mask24(x) < 0x1000000,
{
    assert(x & 0xFFFFFF == x % 0x1000000 && x & 0xFFFFFF < 0x1000000) by (bit_vector);
}

/// Masking to 24 bits is idempotent.
pub proof fn lemma_mask24_idempotent(x: u32)
    ensures
        mask24(mask24(x)) == mask24(x),
{
    assert((x & 0xFFFFFF) & 0xFFFFFF == x & 0xFFFFFF) by (bit_vector);
}

} // verus!
