//! The execution engine: CPU state and the fetch-decode-execute step.
//! `execute_instruction` is specified exactly by the mathematical step
//! function `semantics::step_of` over the state's view.

use vstd::prelude::*;
use crate::decode::{
    MEM_WORDS, op_of, dr_of, sr1_of, sr2_of, imm_of, alu_op_of, lemma_decode_bounds,
    lemma_mask24, lemma_mask24_idempotent,
};
use crate::registers::Registers;
use crate::semantics::{
    MachineView, step_of, fetched, alu_step, compare_step, jump_step, stack_step,
    call_step, return_step, syscall_step, sysret_step, mem_read, mem_write, alu_compute,
    compare_result, pack_flags, rotl32, rotr32,
};

verus! {

/// The status one step reports: `Running` to go on, `Halt` on the halt
/// instruction, `PcOutOfBounds` when the program counter is at or beyond
/// the memory length at fetch time.
#[derive(Clone, Copy, Debug, PartialEq, Eq, Structural)]
pub enum CPUError {
    Running,
    PcOutOfBounds,
    Halt,
}

/// The whole CPU state: register file, memory, cycle counter, throttle
/// mode, and the per-step decode scratch kept for introspection.
pub struct CPU {
    pub registers: Registers,
    /// Flat memory of 2^24 32-bit words.
    pub ram: Vec<u32>,
    /// Whether the host wants this core traced.
    pub log: bool,
    /// Running cycle counter.
    pub clock: u64,
    /// Run unthrottled, as fast as the host allows.
    pub run_fast: bool,
    /// Most recent decode: opcode class.
    pub opcode: u32,
    /// Most recent raw instruction word.
    pub ir: u32,
    /// Most recent decode: destination register index.
    pub dr: usize,
    /// Most recent decode: second source register index.
    pub sr2: usize,
    /// Most recent decode: first source register index.
    pub sr1: usize,
    /// Most recent decode: 24-bit immediate.
    pub immediate: u32,
    /// Most recent memory access as an (address, value) pair.
    pub recent_memory_accesses: (u32, u32),
}

impl View for CPU {
    type V = MachineView;

    open spec fn view(&self) -> MachineView {
        MachineView {
            regs: self.registers.gp@,
            pc: self.registers.pc as nat,
            sp: self.registers.sp,
            carry: self.registers.carry_f,
            zero: self.registers.zero_f,
            comp: self.registers.comp_f,
            privilege: self.registers.privilege,
            reti: self.registers.reti,
            mem: self.ram@,
            clock: self.clock as nat,
            log: self.log,
            run_fast: self.run_fast,
            opcode: self.opcode,
            ir: self.ir,
            dr: self.dr as nat,
            sr1: self.sr1 as nat,
            sr2: self.sr2 as nat,
            immediate: self.immediate,
            last_access: self.recent_memory_accesses,
        }
    }
}

/// Relies on rand::random: a value drawn from the thread-local generator
/// through the `Standard` distribution. The result depends on the
/// generator's state, so nothing is promised of it: memory filled from it
/// is arbitrary, and everything proved here holds for every filler.
pub assume_specification<T>[ rand::random::<T> ]() -> (r: T)
    where
        rand::distributions::Standard: rand::distributions::Distribution<T>,
;

impl CPU {
    /// Well-formedness: sixteen general registers and a full memory.
    pub open spec fn wf(self) -> bool {
        self@.wf()
    }

    /// The decode scratch agrees with the held instruction word.
    pub open spec fn decoded(self) -> bool {
        &&& self.opcode == op_of(self.ir)
        &&& self.dr == dr_of(self.ir) as usize
        &&& self.sr1 == sr1_of(self.ir) as usize
        &&& self.sr2 == sr2_of(self.ir) as usize
        &&& self.immediate == imm_of(self.ir)
    }

    /// Build a CPU: the given program words at the bottom of memory, the
    /// rest of memory filled with arbitrary words to emulate uninitialized
    /// RAM, and a zeroed register file in user mode.
    pub fn new(initial_ram_content: Vec<u32>, log: bool) -> (cpu: CPU)
        requires
            initial_ram_content@.len() <= MEM_WORDS,
        ensures
            cpu.wf(),
            cpu.registers.is_cleared(),
            !cpu.registers.privilege,
            cpu.registers.reti == 0,
            cpu.clock == 0,
            cpu.log == log,
            !cpu.run_fast,
            forall|i: int|
                0 <= i < initial_ram_content@.len() ==> cpu.ram@[i] == initial_ram_content@[i],
            cpu.opcode == 0,
            cpu.ir == 0,
            cpu.dr == 0,
            cpu.sr1 == 0,
            cpu.sr2 == 0,
            cpu.immediate == 0,
            cpu.recent_memory_accesses == (0u32, 0u32),
    {
        let mut ram: Vec<u32> = Vec::new();
        let mut i: usize = 0;
        while i < MEM_WORDS
            invariant
                i <= MEM_WORDS,
                ram@.len() == i,
                initial_ram_content@.len() <= MEM_WORDS,
                forall|j: int|
                    0 <= j < i && j < initial_ram_content@.len() ==> ram@[j]
                        == initial_ram_content@[j],
            decreases MEM_WORDS - i,
        {
            if i < initial_ram_content.len() {
                ram.push(initial_ram_content[i]);
            } else {
                ram.push(rand::random::<u32>());
            }
            i = i + 1;
        }
        CPU {
            registers: Registers::new(),
            ram,
            log,
            clock: 0,
            run_fast: false,
            opcode: 0,
            ir: 0,
            dr: 0,
            sr2: 0,
            sr1: 0,
            immediate: 0,
            recent_memory_accesses: (0, 0),
        }
    }

    /// Zero the general registers, the flags, `pc` and `sp`. Memory, the
    /// cycle counter, the privilege bit and the interrupt-return register
    /// are left as they are.
    pub fn reset(&mut self)
        requires
            old(self).wf(),
        ensures
            final(self).wf(),
            final(self).registers.is_cleared(),
            final(self).registers.privilege == old(self).registers.privilege,
            final(self).registers.reti == old(self).registers.reti,
            final(self).ram@ == old(self).ram@,
            final(self).clock == old(self).clock,
            final(self).log == old(self).log,
            final(self).run_fast == old(self).run_fast,
            final(self).opcode == old(self).opcode,
            final(self).ir == old(self).ir,
            final(self).dr == old(self).dr,
            final(self).sr1 == old(self).sr1,
            final(self).sr2 == old(self).sr2,
            final(self).immediate == old(self).immediate,
            final(self).recent_memory_accesses == old(self).recent_memory_accesses,
    {
        self.registers.reset();
    }

    /// Rebuild the whole state: a fresh memory image with arbitrary
    /// filler, fresh registers, a zero cycle counter. Only the tracing
    /// flag and the throttle mode are preserved.
    pub fn restart(&mut self)
        ensures
            final(self).wf(),
            final(self).registers.is_cleared(),
            !final(self).registers.privilege,
            final(self).registers.reti == 0,
            final(self).clock == 0,
            final(self).log == old(self).log,
            final(self).run_fast == old(self).run_fast,
    {
        let run_fast = self.run_fast;
        *self = CPU::new(Vec::new(), self.log);
        self.run_fast = run_fast;
    }

    /// Write one word of memory. The address is masked to 24 bits before
    /// indexing, so no write is ever out of range; the access is recorded
    /// as the most recent one.
    pub fn set_ram(&mut self, address: u32, value: u32)
        requires
            old(self).wf(),
        ensures
            final(self).wf(),
            final(self)@ == (MachineView {
                mem: mem_write(old(self)@.mem, address, value),
                last_access: (address, value),
                ..old(self)@
            }),
    {
        self.recent_memory_accesses = (address, value);
        proof {
            lemma_mask24(address);
        }
        let idx = (address & 0xFFFFFF) as usize;
        self.ram.set(idx, value);
    }

    /// Read one word of memory, masking the address to 24 bits and
    /// recording the access as the most recent one.
    pub fn get_ram(&mut self, address: u32) -> (v: u32)
        requires
            old(self).wf(),
        ensures
            final(self).wf(),
            v == mem_read(old(self)@.mem, address),
            final(self)@ == (MachineView { last_access: (address, v), ..old(self)@ }),
    {
        proof {
            lemma_mask24(address);
        }
        let idx = (address & 0xFFFFFF) as usize;
        let v = self.ram[idx];
        self.recent_memory_accesses = (address, v);
        v
    }

    /// ALU-compute dispatch over the sixteen sub-opcodes.
    fn exec_alu(&mut self)
        requires
            old(self).wf(),
            old(self).decoded(),
            op_of(old(self).ir) == 1,
            old(self).clock + 3 <= u64::MAX,
        ensures
            final(self).wf(),
            final(self)@ == alu_step(old(self)@),
    {
        let instr = self.ir;
        proof {
            lemma_decode_bounds(instr);
        }
        let alu_op = (instr >> 12) & 0x0F;
        let a = self.registers.gp[self.sr1];
        let b = self.registers.gp[self.sr2];
        let res: u32 = if alu_op == 0 {
            a.wrapping_add(b)
        } else if alu_op == 1 {
            a.wrapping_sub(b)
        } else if alu_op == 2 {
            a.wrapping_mul(b)
        } else if alu_op == 3 {
            0u32.wrapping_sub(a)
        } else if alu_op == 4 {
            a & b
        } else if alu_op == 5 {
            a | b
        } else if alu_op == 6 {
            !a
        } else if alu_op == 7 {
            !(a & b)
        } else if alu_op == 8 {
            a ^ b
        } else if alu_op == 9 {
            !(a ^ b)
        } else if alu_op == 10 {
            a.wrapping_shl(b)
        } else if alu_op == 11 {
            a.wrapping_shr(b)
        } else if alu_op == 12 {
            // arithmetic shift right, which behaves as the logical one
            a.wrapping_shr(b)
        } else if alu_op == 13 {
            rotate_left32(a, b)
        } else if alu_op == 14 {
            rotate_right32(a, b)
        } else {
            0
        };
        if alu_op == 0 {
            self.registers.carry_f = res < a || res < b;
        }
        self.registers.zero_f = res == 0;
        self.registers.gp.set(self.dr, res);
        self.clock = self.clock + 1;
        proof {
            assert(res == alu_compute(alu_op_of(instr), a, b));
        }
    }

    /// ALU-compare dispatch: writes only the comparison flag.
    fn exec_compare(&mut self)
        requires
            old(self).wf(),
            old(self).decoded(),
            op_of(old(self).ir) == 2,
            old(self).clock + 3 <= u64::MAX,
        ensures
            final(self).wf(),
            final(self)@ == compare_step(old(self)@),
    {
        let instr = self.ir;
        proof {
            lemma_decode_bounds(instr);
        }
        let alu_op = (instr >> 12) & 0x0F;
        let a = self.registers.gp[self.sr1];
        let b = self.registers.gp[self.sr2];
        self.registers.comp_f = if alu_op == 0 {
            a > b
        } else if alu_op == 1 {
            a == b
        } else if alu_op == 2 {
            a < b
        } else if alu_op == 3 {
            a >= b
        } else if alu_op == 4 {
            a <= b
        } else {
            false
        };
        self.clock = self.clock + 1;
        proof {
            assert(self.registers.comp_f == compare_result(alu_op_of(instr), a, b));
        }
    }

    /// Jump dispatch: immediate or register target, under one of eight
    /// condition selectors.
    fn exec_jump(&mut self)
        requires
            old(self).wf(),
            old(self).decoded(),
            op_of(old(self).ir) == 3,
            old(self).clock + 3 <= u64::MAX,
        ensures
            final(self).wf(),
            final(self)@ == jump_step(old(self)@),
    {
        let instr = self.ir;
        proof {
            lemma_decode_bounds(instr);
        }
        let cond = (instr >> 24) & 0x07;
        let taken = if cond == 1 {
            self.registers.carry_f
        } else if cond == 2 {
            !self.registers.carry_f
        } else if cond == 3 {
            self.registers.comp_f
        } else if cond == 4 {
            !self.registers.comp_f
        } else if cond == 5 {
            self.registers.zero_f
        } else if cond == 6 {
            !self.registers.zero_f
        } else {
            true
        };
        let target: usize = if (instr >> 27) & 0x01 == 1 {
            self.immediate as usize
        } else {
            (self.registers.gp[self.sr2] & 0xFFFFFF) as usize
        };
        if taken {
            self.registers.pc = target;
        }
        self.clock = self.clock + 1;
    }

    /// Stack dispatch: push, pop, peek, or default-zero.
    fn exec_stack(&mut self)
        requires
            old(self).wf(),
            old(self).decoded(),
            op_of(old(self).ir) == 12,
            old(self).clock + 3 <= u64::MAX,
        ensures
            final(self).wf(),
            final(self)@ == stack_step(old(self)@),
    {
        let instr = self.ir;
        proof {
            lemma_decode_bounds(instr);
        }
        let sop = (instr >> 22) & 0x03;
        if sop == 0 {
            let sp1 = self.registers.sp.wrapping_sub(1);
            self.registers.sp = sp1;
            let v = self.registers.gp[self.sr1];
            proof {
                lemma_mask24_idempotent(sp1);
            }
            self.set_ram(sp1 & 0xFFFFFF, v);
        } else if sop == 1 {
            let sp0 = self.registers.sp;
            proof {
                lemma_mask24_idempotent(sp0);
            }
            let v = self.get_ram(sp0 & 0xFFFFFF);
            self.registers.gp.set(self.dr, v);
            self.registers.sp = sp0.wrapping_add(1);
        } else if sop == 2 {
            let sp0 = self.registers.sp;
            let v = self.get_ram(sp0);
            self.registers.gp.set(self.dr, v);
        } else {
            self.registers.gp.set(self.dr, 0);
        }
        self.clock = self.clock + 1;
    }

    /// Subroutine call and return, with the two-word convention: the
    /// return address is pushed first, the packed flags word after it.
    fn exec_function(&mut self)
        requires
            old(self).wf(),
            old(self).decoded(),
            op_of(old(self).ir) == 13,
            old(self).registers.pc <= MEM_WORDS,
            old(self).clock + 3 <= u64::MAX,
        ensures
            final(self).wf(),
            final(self)@ == if crate::decode::func_ret_bit(old(self).ir) == 1 {
                return_step(old(self)@)
            } else {
                call_step(old(self)@)
            },
    {
        let instr = self.ir;
        proof {
            lemma_decode_bounds(instr);
        }
        if (instr >> 25) & 0x01 == 1 {
            // return: the flags word sits on top, the return address above it
            let sp0 = self.registers.sp;
            proof {
                lemma_mask24_idempotent(sp0);
            }
            let fl = self.get_ram(sp0 & 0xFFFFFF);
            self.registers.carry_f = fl & 0x1 == 1;
            self.registers.zero_f = (fl >> 1) & 0x1 == 1;
            self.registers.comp_f = (fl >> 2) & 0x1 == 1;
            let sp1 = sp0.wrapping_add(1);
            proof {
                lemma_mask24_idempotent(sp1);
            }
            let ret_w = self.get_ram(sp1 & 0xFFFFFF);
            self.registers.sp = sp1.wrapping_add(1);
            self.registers.pc = ret_w as usize;
            self.clock = self.clock + 2;
        } else {
            // call
            let sp1 = self.registers.sp.wrapping_sub(1);
            self.registers.sp = sp1;
            let ret_w = (self.registers.pc % 0x1000000) as u32;
            proof {
                lemma_mask24_idempotent(sp1);
            }
            self.set_ram(sp1 & 0xFFFFFF, ret_w);
            self.registers.pc = self.immediate as usize;
            let sp2 = sp1.wrapping_sub(1);
            self.registers.sp = sp2;
            let fl = pack_flags_word(
                self.registers.carry_f,
                self.registers.zero_f,
                self.registers.comp_f,
            );
            proof {
                lemma_mask24_idempotent(sp2);
            }
            self.set_ram(sp2 & 0xFFFFFF, fl);
            self.clock = self.clock + 3;
        }
    }

    /// System-call entry and return from a system call.
    fn exec_system(&mut self)
        requires
            old(self).wf(),
            old(self).decoded(),
            op_of(old(self).ir) == 14,
            old(self).registers.pc <= MEM_WORDS,
            old(self).clock + 3 <= u64::MAX,
        ensures
            final(self).wf(),
            final(self)@ == if crate::decode::sys_ret_bit(old(self).ir) == 1 {
                sysret_step(old(self)@)
            } else {
                syscall_step(old(self)@)
            },
    {
        let instr = self.ir;
        proof {
            lemma_decode_bounds(instr);
        }
        if (instr >> 27) & 0x01 == 1 {
            // return from a system call
            let sp0 = self.registers.sp;
            proof {
                lemma_mask24_idempotent(sp0);
            }
            let fl = self.get_ram(sp0 & 0xFFFFFF);
            self.registers.carry_f = fl & 0x1 == 1;
            self.registers.zero_f = (fl >> 1) & 0x1 == 1;
            self.registers.comp_f = (fl >> 2) & 0x1 == 1;
            self.registers.sp = sp0.wrapping_add(1);
            self.registers.privilege = false;
            self.registers.pc = self.registers.reti as usize;
            self.clock = self.clock + 3;
        } else {
            // entry
            self.registers.reti = self.registers.pc as u32;
            let fl = pack_flags_word(
                self.registers.carry_f,
                self.registers.zero_f,
                self.registers.comp_f,
            );
            let sp1 = self.registers.sp.wrapping_sub(1);
            self.registers.sp = sp1;
            proof {
                lemma_mask24_idempotent(sp1);
                lemma_mask24(0x40);
                lemma_mask24(0x41);
            }
            self.set_ram(sp1 & 0xFFFFFF, fl);
            self.registers.privilege = true;
            let vector = self.get_ram(0x40);
            self.registers.pc = (vector & 0xFFFFFF) as usize;
            let im = self.immediate;
            self.set_ram(0x41, im);
            self.clock = self.clock + 3;
        }
    }

    /// One fetch-decode-execute step. With `pc` at or beyond the memory
    /// length, nothing is mutated and `PcOutOfBounds` is reported;
    /// otherwise the word at `pc` is fetched, `pc` advances, the word is
    /// decoded and dispatched, and the cycle counter grows by the fetch
    /// cost plus the class's own cost. The two interrupt arguments are
    /// accepted but inert, reserved for asynchronous interrupt injection.
    #[verifier::rlimit(100)]
    pub fn execute_instruction(&mut self, _interrupt: bool, _interrupt_number: u8) -> (r:
        CPUError)
        requires
            old(self).wf(),
            old(self).clock + 5 <= u64::MAX,
        ensures
            final(self).wf(),
            final(self)@ == step_of(old(self)@).post,
            r == step_of(old(self)@).status,
    {
        if self.registers.pc >= self.ram.len() {
            return CPUError::PcOutOfBounds;
        }
        let pc = self.registers.pc;
        proof {
            lemma_mask24(pc as u32);
        }
        let instr = self.get_ram(pc as u32);
        self.registers.pc = pc + 1;
        self.clock = self.clock + 2;
        self.ir = instr;
        let opcode = (instr >> 28) & 0x0F;
        self.opcode = opcode;
        let dr = ((instr >> 16) & 0x0F) as usize;
        self.dr = dr;
        let sr2 = ((instr >> 20) & 0x0F) as usize;
        self.sr2 = sr2;
        let sr1 = ((instr >> 24) & 0x0F) as usize;
        self.sr1 = sr1;
        let immediate = instr & 0xFFFFFF;
        self.immediate = immediate;
        proof {
            lemma_decode_bounds(instr);
            assert(self@ == fetched(old(self)@, instr));
        }
        if opcode == 0 {
            // no-op
            self.clock = self.clock + 1;
            CPUError::Running
        } else if opcode == 1 {
            self.exec_alu();
            CPUError::Running
        } else if opcode == 2 {
            self.exec_compare();
            CPUError::Running
        } else if opcode == 3 {
            self.exec_jump();
            CPUError::Running
        } else if opcode == 4 {
            // load absolute
            let v = self.get_ram(immediate);
            self.registers.gp.set(dr, v);
            self.clock = self.clock + 2;
            CPUError::Running
        } else if opcode == 5 {
            // load indirect
            let addr = self.registers.gp[sr2];
            let v = self.get_ram(addr);
            self.registers.gp.set(dr, v);
            self.clock = self.clock + 2;
            CPUError::Running
        } else if opcode == 6 {
            // load immediate
            self.registers.gp.set(dr, immediate);
            self.clock = self.clock + 1;
            CPUError::Running
        } else if opcode == 7 {
            // store absolute
            let v = self.registers.gp[sr1];
            self.set_ram(immediate, v);
            self.clock = self.clock + 1;
            CPUError::Running
        } else if opcode == 8 {
            // store indirect
            let addr = self.registers.gp[sr2] & 0xFFFFFF;
            let v = self.registers.gp[sr1];
            proof {
                lemma_mask24_idempotent(self.registers.gp@[sr2 as int]);
            }
            self.set_ram(addr, v);
            self.clock = self.clock + 1;
            CPUError::Running
        } else if opcode == 9 {
            // move
            let v = self.registers.gp[sr1];
            self.registers.gp.set(dr, v);
            self.clock = self.clock + 1;
            CPUError::Running
        } else if opcode == 10 || opcode == 11 {
            // reserved: fetch cost only
            CPUError::Running
        } else if opcode == 12 {
            self.exec_stack();
            CPUError::Running
        } else if opcode == 13 {
            self.exec_function();
            CPUError::Running
        } else if opcode == 14 {
            self.exec_system();
            CPUError::Running
        } else {
            // halt
            self.clock = self.clock + 1;
            CPUError::Halt
        }
    }
}

/// Rotate a word left by `n` places, `n` taken modulo the word width.
fn rotate_left32(a: u32, n: u32) -> (r: u32)
    ensures
        r == rotl32(a, n),
{
    let sh = n % 32;
    if sh == 0 {
        a
    } else {
        (a << sh) | (a >> (32 - sh))
    }
}

/// Rotate a word right by `n` places, `n` taken modulo the word width.
fn rotate_right32(a: u32, n: u32) -> (r: u32)
    ensures
        r == rotr32(a, n),
{
    let sh = n % 32;
    if sh == 0 {
        a
    } else {
        (a >> sh) | (a << (32 - sh))
    }
}

/// Pack the three flags into one word: carry in bit 0, zero in bit 1,
/// comparison in bit 2.
fn pack_flags_word(c: bool, z: bool, p: bool) -> (r: u32)
    ensures
        r == pack_flags(c, z, p),
{
    (if c { 1u32 } else { 0u32 }) | ((if z { 1u32 } else { 0u32 }) << 1)
        | ((if p { 1u32 } else { 0u32 }) << 2)
}

} // verus!
