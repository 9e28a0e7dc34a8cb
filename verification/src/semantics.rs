//! The mathematical model of the machine: a view of the whole CPU state
//! over `Seq`, `nat` and plain values, and a total step function over that
//! view. The executable engine in `cpu` is proved to implement `step_of`
//! exactly; the architecture's laws in `props` are proved of `step_of` and
//! so hold of the engine through that contract.

use vstd::prelude::*;
use vstd::wrapping::u32_specs;
use crate::decode::{
    op_of, dr_of, sr1_of, sr2_of, imm_of, alu_op_of, jump_imm_bit, jump_cond_of,
    stack_op_of, func_ret_bit, sys_ret_bit, mask24,
};
use crate::cpu::CPUError;

verus! {

/// The machine state as mathematics: sixteen general registers, program
/// counter, stack pointer, flags, privilege bit, interrupt-return register,
/// the flat memory, the cycle counter, the per-step decode scratch, and the
/// most recent memory access.
#[verifier::ext_equal]
pub struct MachineView {
    pub regs: Seq<u32>,
    pub pc: nat,
    pub sp: u32,
    pub carry: bool,
    pub zero: bool,
    pub comp: bool,
    pub privilege: bool,
    pub reti: u32,
    pub mem: Seq<u32>,
    pub clock: nat,
    pub log: bool,
    pub run_fast: bool,
    pub opcode: u32,
    pub ir: u32,
    pub dr: nat,
    pub sr1: nat,
    pub sr2: nat,
    pub immediate: u32,
    pub last_access: (u32, u32),
}

impl MachineView {
    /// Structural well-formedness: sixteen registers, full memory.
    pub open spec fn wf(self) -> bool {
        &&& self.regs.len() == 16
        &&& self.mem.len() == crate::decode::MEM_WORDS
    }
}

/// The outcome of one step: the machine afterwards and the reported status.
#[verifier::ext_equal]
pub struct StepOutcome {
    pub post: MachineView,
    pub status: CPUError,
}

/// Reading memory masks the address to 24 bits, so no read is out of range.
pub open spec fn mem_read(mem: Seq<u32>, addr: u32) -> u32 {
    mem[mask24(addr) as int]
}

/// Writing memory masks the address to 24 bits, so no write is out of range.
pub open spec fn mem_write(mem: Seq<u32>, addr: u32, v: u32) -> Seq<u32> {
    mem.update(mask24(addr) as int, v)
}

/// Two's-complement negation on 32 bits.
pub open spec fn wrapping_neg32(a: u32) -> u32 {
    u32_specs::wrapping_sub(0u32, a)
}

/// Rotation left by `n` places (`n` taken modulo the word width).
pub open spec fn rotl32(a: u32, n: u32) -> u32 {
    let sh = n % 32;
    if sh == 0 {
        a
    } else {
        (a << sh) | (a >> ((32 - sh) as u32))
    }
}

/// Rotation right by `n` places (`n` taken modulo the word width).
pub open spec fn rotr32(a: u32, n: u32) -> u32 {
    let sh = n % 32;
    if sh == 0 {
        a
    } else {
        (a >> sh) | (a << ((32 - sh) as u32))
    }
}

/// The sixteen ALU-compute operations. All arithmetic wraps at 2^32; the
/// shifts take the shift count modulo 32; sub-opcode 12, named arithmetic
/// shift right, behaves as the logical shift right; sub-opcode 15 forces
/// zero.
pub open spec fn alu_compute(op: u32, a: u32, b: u32) -> u32 {
    if op == 0 {
        u32_specs::wrapping_add(a, b)
    } else if op == 1 {
        u32_specs::wrapping_sub(a, b)
    } else if op == 2 {
        u32_specs::wrapping_mul(a, b)
    } else if op == 3 {
        wrapping_neg32(a)
    } else if op == 4 {
        a & b
    } else if op == 5 {
        a | b
    } else if op == 6 {
        !a
    } else if op == 7 {
        !(a & b)
    } else if op == 8 {
        a ^ b
    } else if op == 9 {
        !(a ^ b)
    } else if op == 10 {
        u32_specs::wrapping_shl(a, b)
    } else if op == 11 {
        u32_specs::wrapping_shr(a, b)
    } else if op == 12 {
        u32_specs::wrapping_shr(a, b)
    } else if op == 13 {
        rotl32(a, b)
    } else if op == 14 {
        rotr32(a, b)
    } else {
        0
    }
}

/// The ALU-compare relations; sub-opcodes past the five defined ones
/// compare as constantly false.
pub open spec fn compare_result(op: u32, a: u32, b: u32) -> bool {
    if op == 0 {
        a > b
    } else if op == 1 {
        a == b
    } else if op == 2 {
        a < b
    } else if op == 3 {
        a >= b
    } else if op == 4 {
        a <= b
    } else {
        false
    }
}

/// The flags packed into one word: carry in bit 0, zero in bit 1,
/// comparison in bit 2.
pub open spec fn pack_flags(c: bool, z: bool, p: bool) -> u32 {
    (if c { 1u32 } else { 0u32 }) | ((if z { 1u32 } else { 0u32 }) << 1)
        | ((if p { 1u32 } else { 0u32 }) << 2)
}

/// Carry flag of a packed flags word.
pub open spec fn carry_of(flags: u32) -> bool {
    flags & 0x1 == 1
}

/// Zero flag of a packed flags word.
pub open spec fn zero_of(flags: u32) -> bool {
    (flags >> 1) & 0x1 == 1
}

/// Comparison flag of a packed flags word.
pub open spec fn comp_of(flags: u32) -> bool {
    (flags >> 2) & 0x1 == 1
}

/// Whether a jump with the given condition selector is taken under the
/// given flags: 1 and 2 test the carry flag, 3 and 4 the comparison flag,
/// 5 and 6 the zero flag; 0 and 7 are unconditional.
pub open spec fn jump_taken(cond: u32, carry: bool, zero: bool, comp: bool) -> bool {
    if cond == 1 {
        carry
    } else if cond == 2 {
        !carry
    } else if cond == 3 {
        comp
    } else if cond == 4 {
        !comp
    } else if cond == 5 {
        zero
    } else if cond == 6 {
        !zero
    } else {
        true
    }
}

/// The state right after a fetch: the instruction read at `pc` (recorded as
/// the most recent access), `pc` advanced by one, the fixed fetch cost of
/// two cycles, and the decode scratch filled in.
pub open spec fn fetched(pre: MachineView, instr: u32) -> MachineView {
    MachineView {
        pc: pre.pc + 1,
        clock: pre.clock + 2,
        ir: instr,
        opcode: op_of(instr),
        dr: dr_of(instr) as nat,
        sr1: sr1_of(instr) as nat,
        sr2: sr2_of(instr) as nat,
        immediate: imm_of(instr),
        last_access: (pre.pc as u32, instr),
        ..pre
    }
}

/// ALU-compute: write `dr`, set the zero flag from the result, and for the
/// add operation set the carry flag as the overflow heuristic
/// `result < operand1 || result < operand2`.
pub open spec fn alu_step(m: MachineView) -> MachineView {
    let sub = alu_op_of(m.ir);
    let a = m.regs[sr1_of(m.ir) as int];
    let b = m.regs[sr2_of(m.ir) as int];
    let res = alu_compute(sub, a, b);
    MachineView {
        regs: m.regs.update(dr_of(m.ir) as int, res),
        carry: if sub == 0 { res < a || res < b } else { m.carry },
        zero: res == 0,
        clock: m.clock + 1,
        ..m
    }
}

/// ALU-compare: write only the comparison flag.
pub open spec fn compare_step(m: MachineView) -> MachineView {
    let a = m.regs[sr1_of(m.ir) as int];
    let b = m.regs[sr2_of(m.ir) as int];
    MachineView { comp: compare_result(alu_op_of(m.ir), a, b), clock: m.clock + 1, ..m }
}

/// Jump: when the condition holds, set `pc` to the immediate (immediate
/// form) or to the masked value of register `sr2` (register form); an unmet
/// condition leaves `pc` as the fetch advanced it.
pub open spec fn jump_step(m: MachineView) -> MachineView {
    let taken = jump_taken(jump_cond_of(m.ir), m.carry, m.zero, m.comp);
    let target: nat = if jump_imm_bit(m.ir) == 1 {
        imm_of(m.ir) as nat
    } else {
        mask24(m.regs[sr2_of(m.ir) as int]) as nat
    };
    MachineView { pc: if taken { target } else { m.pc }, clock: m.clock + 1, ..m }
}

/// Load absolute: `dr` from memory at the immediate address.
pub open spec fn load_absolute_step(m: MachineView) -> MachineView {
    let v = mem_read(m.mem, imm_of(m.ir));
    MachineView {
        regs: m.regs.update(dr_of(m.ir) as int, v),
        last_access: (imm_of(m.ir), v),
        clock: m.clock + 2,
        ..m
    }
}

/// Load indirect: `dr` from memory at the address held in register `sr2`.
pub open spec fn load_indirect_step(m: MachineView) -> MachineView {
    let addr = m.regs[sr2_of(m.ir) as int];
    let v = mem_read(m.mem, addr);
    MachineView {
        regs: m.regs.update(dr_of(m.ir) as int, v),
        last_access: (addr, v),
        clock: m.clock + 2,
        ..m
    }
}

/// Load immediate: `dr` from the instruction's own low 24 bits.
pub open spec fn load_immediate_step(m: MachineView) -> MachineView {
    MachineView {
        regs: m.regs.update(dr_of(m.ir) as int, imm_of(m.ir)),
        clock: m.clock + 1,
        ..m
    }
}

/// Store absolute: register `sr1` into memory at the immediate address.
pub open spec fn store_absolute_step(m: MachineView) -> MachineView {
    let v = m.regs[sr1_of(m.ir) as int];
    MachineView {
        mem: mem_write(m.mem, imm_of(m.ir), v),
        last_access: (imm_of(m.ir), v),
        clock: m.clock + 1,
        ..m
    }
}

/// Store indirect: register `sr1` into memory at the masked address held in
/// register `sr2`.
pub open spec fn store_indirect_step(m: MachineView) -> MachineView {
    let addr = m.regs[sr2_of(m.ir) as int];
    let v = m.regs[sr1_of(m.ir) as int];
    MachineView {
        mem: mem_write(m.mem, addr, v),
        last_access: (mask24(addr), v),
        clock: m.clock + 1,
        ..m
    }
}

/// Move: `dr` from register `sr1`.
pub open spec fn move_step(m: MachineView) -> MachineView {
    MachineView {
        regs: m.regs.update(dr_of(m.ir) as int, m.regs[sr1_of(m.ir) as int]),
        clock: m.clock + 1,
        ..m
    }
}

/// Stack operations. The stack grows toward lower addresses and the stack
/// pointer wraps at 32 bits, masked to 24 when used as an address: push
/// decrements `sp` and stores `sr1` there; pop loads `dr` from `sp` and
/// increments it; the third form peeks at `sp` without moving it; the
/// fourth writes zero into `dr`.
pub open spec fn stack_step(m: MachineView) -> MachineView {
    let sop = stack_op_of(m.ir);
    if sop == 0 {
        let sp1 = u32_specs::wrapping_sub(m.sp, 1);
        let v = m.regs[sr1_of(m.ir) as int];
        MachineView {
            sp: sp1,
            mem: mem_write(m.mem, sp1, v),
            last_access: (mask24(sp1), v),
            clock: m.clock + 1,
            ..m
        }
    } else if sop == 1 {
        let v = mem_read(m.mem, m.sp);
        MachineView {
            regs: m.regs.update(dr_of(m.ir) as int, v),
            sp: u32_specs::wrapping_add(m.sp, 1),
            last_access: (mask24(m.sp), v),
            clock: m.clock + 1,
            ..m
        }
    } else if sop == 2 {
        let v = mem_read(m.mem, m.sp);
        MachineView {
            regs: m.regs.update(dr_of(m.ir) as int, v),
            last_access: (m.sp, v),
            clock: m.clock + 1,
            ..m
        }
    } else {
        MachineView { regs: m.regs.update(dr_of(m.ir) as int, 0u32), clock: m.clock + 1, ..m }
    }
}

/// Subroutine call: push the masked return address, jump to the immediate,
/// then push the packed flags word, which therefore sits one slot below the
/// return address.
pub open spec fn call_step(m: MachineView) -> MachineView {
    let sp1 = u32_specs::wrapping_sub(m.sp, 1);
    let ret_w = ((m.pc % 0x1000000) as u32);
    let mem1 = mem_write(m.mem, sp1, ret_w);
    let sp2 = u32_specs::wrapping_sub(sp1, 1);
    let fl = pack_flags(m.carry, m.zero, m.comp);
    MachineView {
        sp: sp2,
        pc: imm_of(m.ir) as nat,
        mem: mem_write(mem1, sp2, fl),
        last_access: (mask24(sp2), fl),
        clock: m.clock + 3,
        ..m
    }
}

/// Subroutine return: pop the packed flags word from the top of the stack
/// and unpack it, then pop the return address into `pc`.
pub open spec fn return_step(m: MachineView) -> MachineView {
    let fl = mem_read(m.mem, m.sp);
    let sp1 = u32_specs::wrapping_add(m.sp, 1);
    let ret_w = mem_read(m.mem, sp1);
    MachineView {
        pc: ret_w as nat,
        sp: u32_specs::wrapping_add(sp1, 1),
        carry: carry_of(fl),
        zero: zero_of(fl),
        comp: comp_of(fl),
        last_access: (mask24(sp1), ret_w),
        clock: m.clock + 2,
        ..m
    }
}

/// System-call entry: save `pc` into the interrupt-return register, push
/// the packed flags, raise the privilege bit, load `pc` from the vector
/// cell at 0x40, and write the call's immediate into the argument cell at
/// 0x41 for the handler to read.
pub open spec fn syscall_step(m: MachineView) -> MachineView {
    let fl = pack_flags(m.carry, m.zero, m.comp);
    let sp1 = u32_specs::wrapping_sub(m.sp, 1);
    let mem1 = mem_write(m.mem, sp1, fl);
    let vector = mem_read(mem1, 0x40);
    MachineView {
        reti: m.pc as u32,
        sp: sp1,
        mem: mem_write(mem1, 0x41, imm_of(m.ir)),
        privilege: true,
        pc: mask24(vector) as nat,
        last_access: (0x41, imm_of(m.ir)),
        clock: m.clock + 3,
        ..m
    }
}

/// Return from a system call: pop and unpack the flags, restore `pc` from
/// the interrupt-return register, and clear the privilege bit.
pub open spec fn sysret_step(m: MachineView) -> MachineView {
    let fl = mem_read(m.mem, m.sp);
    MachineView {
        carry: carry_of(fl),
        zero: zero_of(fl),
        comp: comp_of(fl),
        sp: u32_specs::wrapping_add(m.sp, 1),
        privilege: false,
        pc: m.reti as nat,
        last_access: (mask24(m.sp), fl),
        clock: m.clock + 3,
        ..m
    }
}

/// An outcome that reports success.
pub open spec fn outcome_ok(post: MachineView) -> StepOutcome {
    StepOutcome { post: post, status: CPUError::Running }
}

/// One full fetch-decode-execute step. With `pc` at or beyond the memory
/// length nothing is mutated and the step reports `PcOutOfBounds`;
/// otherwise the word at `pc` is fetched and the opcode class dispatched.
/// Classes 10 and 11 are reserved and consume only the fetch cost; class 15
/// reports `Halt`.
pub open spec fn step_of(pre: MachineView) -> StepOutcome {
    if pre.pc >= pre.mem.len() {
        StepOutcome { post: pre, status: CPUError::PcOutOfBounds }
    } else {
        let instr = pre.mem[pre.pc as int];
        let m = fetched(pre, instr);
        let op = op_of(instr);
        if op == 0 {
            outcome_ok(MachineView { clock: m.clock + 1, ..m })
        } else if op == 1 {
            outcome_ok(alu_step(m))
        } else if op == 2 {
            outcome_ok(compare_step(m))
        } else if op == 3 {
            outcome_ok(jump_step(m))
        } else if op == 4 {
            outcome_ok(load_absolute_step(m))
        } else if op == 5 {
            outcome_ok(load_indirect_step(m))
        } else if op == 6 {
            outcome_ok(load_immediate_step(m))
        } else if op == 7 {
            outcome_ok(store_absolute_step(m))
        } else if op == 8 {
            outcome_ok(store_indirect_step(m))
        } else if op == 9 {
            outcome_ok(move_step(m))
        } else if op == 10 || op == 11 {
            outcome_ok(m)
        } else if op == 12 {
            outcome_ok(stack_step(m))
        } else if op == 13 {
            if func_ret_bit(m.ir) == 1 {
                outcome_ok(return_step(m))
            } else {
                outcome_ok(call_step(m))
            }
        } else if op == 14 {
            if sys_ret_bit(m.ir) == 1 {
                outcome_ok(sysret_step(m))
            } else {
                outcome_ok(syscall_step(m))
            }
        } else {
            StepOutcome {
                post: MachineView { clock: m.clock + 1, ..m },
                status: CPUError::Halt,
            }
        }
    }
}

} // verus!
