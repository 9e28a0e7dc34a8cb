//! The register file: sixteen 32-bit general registers, the program
//! counter, the stack pointer, three condition flags, the privilege bit,
//! and the interrupt-return register.

use vstd::prelude::*;

verus! {

/// Number of general registers.
pub const NUM_REGISTERS: usize = 16;

pub struct Registers {
    /// General registers, indexed 0 through 15.
    pub gp: Vec<u32>,
    /// Program counter: a word index into memory. It is the one address
    /// that is not masked, so it is the only place an out-of-range
    /// condition can arise (at fetch time).
    pub pc: usize,
    /// Stack pointer; masked to 24 bits whenever it is used as an address.
    pub sp: u32,
    /// Carry flag, written only by the add operation.
    pub carry_f: bool,
    /// Zero flag, written by every ALU-compute operation.
    pub zero_f: bool,
    /// Comparison flag, written only by ALU-compare operations.
    pub comp_f: bool,
    /// True while executing inside a system-call handler.
    pub privilege: bool,
    /// Saved program counter for return from a system call.
    pub reti: u32,
}

impl Registers {
    /// Well-formedness: exactly sixteen general registers.
    pub open spec fn wf(self) -> bool {
        self.gp@.len() == NUM_REGISTERS
    }

    /// All general registers zero, pc and sp zero, all flags clear.
    pub open spec fn is_cleared(self) -> bool {
        &&& self.gp@ =~= Seq::new(NUM_REGISTERS as nat, |i: int| 0u32)
        &&& self.pc == 0
        &&& self.sp == 0
        &&& !self.carry_f
        &&& !self.zero_f
        &&& !self.comp_f
    }

    /// A fresh register file: everything zeroed, user mode.
    pub fn new() -> (r: Registers)
        ensures
            r.wf(),
            r.is_cleared(),
            !r.privilege,
            r.reti == 0,
    {
        let mut gp: Vec<u32> = Vec::new();
        let mut i: usize = 0;
        while i < NUM_REGISTERS
            invariant
                i <= NUM_REGISTERS,
                gp@ =~= Seq::new(i as nat, |j: int| 0u32),
            decreases NUM_REGISTERS - i,
        {
            gp.push(0);
            i = i + 1;
        }
        Registers {
            gp,
            pc: 0,
            sp: 0,
            carry_f: false,
            zero_f: false,
            comp_f: false,
            privilege: false,
            reti: 0,
        }
    }

    /// Zero the general registers, the flags, `pc` and `sp`; the privilege
    /// bit and the interrupt-return register are left as they are.
    pub fn reset(&mut self)
        requires
            old(self).wf(),
        ensures
            final(self).wf(),
            final(self).is_cleared(),
            final(self).privilege == old(self).privilege,
            final(self).reti == old(self).reti,
    {
        let mut i: usize = 0;
        while i < NUM_REGISTERS
            invariant
                i <= NUM_REGISTERS,
                self.gp@.len() == NUM_REGISTERS,
                forall|j: int| 0 <= j < i ==> self.gp@[j] == 0u32,
                self.privilege == old(self).privilege,
                self.reti == old(self).reti,
            decreases NUM_REGISTERS - i,
        {
            self.gp.set(i, 0);
            i = i + 1;
        }
        self.pc = 0;
        self.sp = 0;
        self.carry_f = false;
        self.zero_f = false;
        self.comp_f = false;
        proof {
            assert(self.gp@ =~= Seq::new(NUM_REGISTERS as nat, |i: int| 0u32));
        }
    }
}

} // verus!
