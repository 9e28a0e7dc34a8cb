//! End-to-end tests of the execution engine: one CPU per test, a small
//! program in low memory, registers poked directly where a test needs a
//! value the 24-bit immediate cannot carry.

use emulator::cpu::{CPU, CPUError};

// --- encoding helpers -------------------------------------------------

fn alu(sub: u32, sr1: u32, sr2: u32, dr: u32) -> u32 {
    (1 << 28) | (sr1 << 24) | (sr2 << 20) | (dr << 16) | (sub << 12)
}

fn cmp(sub: u32, sr1: u32, sr2: u32) -> u32 {
    (2 << 28) | (sr1 << 24) | (sr2 << 20) | (sub << 12)
}

fn jump_imm(cond: u32, imm: u32) -> u32 {
    (3 << 28) | (1 << 27) | (cond << 24) | imm
}

fn jump_reg(cond: u32, sr2: u32) -> u32 {
    (3 << 28) | (cond << 24) | (sr2 << 20)
}

fn load_imm(dr: u32, low: u32) -> u32 {
    (6 << 28) | (dr << 16) | low
}

fn store_abs(sr1: u32, imm: u32) -> u32 {
    (7 << 28) | (sr1 << 24) | imm
}

fn store_ind(sr1: u32, sr2: u32) -> u32 {
    (8 << 28) | (sr1 << 24) | (sr2 << 20)
}

fn mov(dr: u32, sr1: u32) -> u32 {
    (9 << 28) | (sr1 << 24) | (dr << 16)
}

fn push(sr1: u32) -> u32 {
    (0xC << 28) | (sr1 << 24)
}

fn pop(dr: u32) -> u32 {
    (0xC << 28) | (1 << 22) | (dr << 16)
}

fn peek(dr: u32) -> u32 {
    (0xC << 28) | (2 << 22) | (dr << 16)
}

fn stack_zero(dr: u32) -> u32 {
    (0xC << 28) | (3 << 22) | (dr << 16)
}

fn call(imm: u32) -> u32 {
    (0xD << 28) | imm
}

fn ret() -> u32 {
    (0xD << 28) | (1 << 25)
}

fn syscall(imm: u32) -> u32 {
    (0xE << 28) | imm
}

fn sysret() -> u32 {
    (0xE << 28) | (1 << 27)
}

const HALT: u32 = 0xF << 28;
const NOP: u32 = 0;

fn fresh(program: Vec<u32>) -> CPU {
    CPU::new(program, false)
}

fn step(cpu: &mut CPU) -> CPUError {
    cpu.execute_instruction(false, 0)
}

// R3 = R1 <sub> R2 on a reused machine, reporting (result, zero, carry);
// building a fresh 2^24-word memory per case would dominate the test time
fn alu_case(cpu: &mut CPU, sub: u32, a: u32, b: u32) -> (u32, bool, bool) {
    cpu.reset();
    cpu.set_ram(0, alu(sub, 1, 2, 3));
    cpu.registers.gp[1] = a;
    cpu.registers.gp[2] = b;
    assert!(matches!(step(cpu), CPUError::Running));
    (cpu.registers.gp[3], cpu.registers.zero_f, cpu.registers.carry_f)
}

// --- scenarios ---------------------------------------------------------

#[test]
fn scenario_load_imm_add() {
    // The destination nibble sits inside the 24-bit immediate, so a load
    // immediate into R1 carries bit 16 of the value with it: R1 becomes
    // 0x010005 and R2 becomes 0x020003, and the add yields their exact sum.
    let mut cpu = fresh(vec![load_imm(1, 5), load_imm(2, 3), alu(0, 1, 2, 0)]);
    let clock0 = cpu.clock;
    assert!(matches!(step(&mut cpu), CPUError::Running));
    assert!(matches!(step(&mut cpu), CPUError::Running));
    assert!(matches!(step(&mut cpu), CPUError::Running));
    assert_eq!(cpu.registers.gp[1], 0x010005);
    assert_eq!(cpu.registers.gp[2], 0x020003);
    assert_eq!(cpu.registers.gp[0], 0x030008);
    assert!(!cpu.registers.zero_f);
    assert_eq!(cpu.clock - clock0, 9);
}

#[test]
fn scenario_add_five_and_three_is_eight() {
    // Staged through R0, whose index nibble is zero, the immediates carry
    // no overlap and five plus three is eight.
    let mut cpu = fresh(vec![
        load_imm(0, 5),
        mov(1, 0),
        load_imm(0, 3),
        mov(2, 0),
        alu(0, 1, 2, 0),
    ]);
    for _ in 0..5 {
        assert!(matches!(step(&mut cpu), CPUError::Running));
    }
    assert_eq!(cpu.registers.gp[1], 5);
    assert_eq!(cpu.registers.gp[2], 3);
    assert_eq!(cpu.registers.gp[0], 8);
    assert!(!cpu.registers.zero_f);
}

#[test]
fn scenario_halt() {
    let mut cpu = fresh(vec![HALT]);
    let clock0 = cpu.clock;
    assert!(matches!(step(&mut cpu), CPUError::Halt));
    assert_eq!(cpu.clock - clock0, 3);
    assert_eq!(cpu.registers.pc, 1);
}

#[test]
fn scenario_pc_out_of_bounds() {
    let mut cpu = fresh(vec![NOP]);
    cpu.registers.pc = 0x1000000;
    let clock0 = cpu.clock;
    let sample: Vec<u32> = (0..8).map(|i| cpu.ram[i]).collect();
    let recent0 = cpu.recent_memory_accesses;
    assert!(matches!(step(&mut cpu), CPUError::PcOutOfBounds));
    assert_eq!(cpu.registers.pc, 0x1000000);
    assert_eq!(cpu.clock, clock0);
    for i in 0..16 {
        assert_eq!(cpu.registers.gp[i], 0);
    }
    assert_eq!(cpu.registers.sp, 0);
    assert!(!cpu.registers.carry_f && !cpu.registers.zero_f && !cpu.registers.comp_f);
    for i in 0..8 {
        assert_eq!(cpu.ram[i], sample[i]);
    }
    assert_eq!(cpu.recent_memory_accesses, recent0);
    // beyond the length, not only at it
    cpu.registers.pc = 0x2000000;
    assert!(matches!(step(&mut cpu), CPUError::PcOutOfBounds));
}

// --- ALU compute -------------------------------------------------------

#[test]
fn alu_add_wraps_and_sets_carry_and_zero() {
    let mut cpu = fresh(vec![]);
    let (r, z, c) = alu_case(&mut cpu, 0, 0xFFFFFFFF, 1);
    assert_eq!(r, 0);
    assert!(z);
    assert!(c);
    let (r, z, c) = alu_case(&mut cpu, 0, 5, 3);
    assert_eq!(r, 8);
    assert!(!z);
    assert!(!c);
}

#[test]
fn alu_sub_wraps_and_leaves_carry() {
    let mut cpu = fresh(vec![alu(1, 1, 2, 3)]);
    cpu.registers.gp[1] = 3;
    cpu.registers.gp[2] = 5;
    cpu.registers.carry_f = true;
    assert!(matches!(step(&mut cpu), CPUError::Running));
    assert_eq!(cpu.registers.gp[3], 0xFFFFFFFE);
    assert!(!cpu.registers.zero_f);
    assert!(cpu.registers.carry_f); // subtract never touches the carry flag
    let (r, z, _) = alu_case(&mut cpu, 1, 7, 7);
    assert_eq!(r, 0);
    assert!(z);
}

#[test]
fn alu_mul_wraps() {
    let mut cpu = fresh(vec![]);
    let (r, z, _) = alu_case(&mut cpu, 2, 0x10000, 0x10000);
    assert_eq!(r, 0);
    assert!(z);
    let (r, z, _) = alu_case(&mut cpu, 2, 7, 6);
    assert_eq!(r, 42);
    assert!(!z);
}

#[test]
fn alu_negate() {
    let mut cpu = fresh(vec![]);
    let (r, z, _) = alu_case(&mut cpu, 3, 1, 0);
    assert_eq!(r, 0xFFFFFFFF);
    assert!(!z);
    let (r, z, _) = alu_case(&mut cpu, 3, 0, 0);
    assert_eq!(r, 0);
    assert!(z);
}

#[test]
fn alu_bitwise_operations() {
    let mut cpu = fresh(vec![]);
    assert_eq!(alu_case(&mut cpu, 4, 0b1100, 0b1010).0, 0b1000); // and
    assert_eq!(alu_case(&mut cpu, 5, 0b1100, 0b1010).0, 0b1110); // or
    assert_eq!(alu_case(&mut cpu, 6, 0xFFFF0000, 0).0, 0x0000FFFF); // not
    assert_eq!(alu_case(&mut cpu, 7, 0b1100, 0b1010).0, !0b1000u32); // nand
    assert_eq!(alu_case(&mut cpu, 8, 0b1100, 0b1010).0, 0b0110); // xor
    assert_eq!(alu_case(&mut cpu, 9, 0b1100, 0b1010).0, !0b0110u32); // xnor
}

#[test]
fn alu_shifts_take_count_modulo_32() {
    let mut cpu = fresh(vec![]);
    assert_eq!(alu_case(&mut cpu, 10, 1, 4).0, 16);
    assert_eq!(alu_case(&mut cpu, 10, 1, 33).0, 2);
    assert_eq!(alu_case(&mut cpu, 11, 0x80000000, 1).0, 0x40000000);
    assert_eq!(alu_case(&mut cpu, 11, 16, 36).0, 1);
    // the arithmetic shift right behaves as the logical one
    assert_eq!(alu_case(&mut cpu, 12, 0x80000000, 1).0, 0x40000000);
}

#[test]
fn alu_rotates() {
    let mut cpu = fresh(vec![]);
    assert_eq!(alu_case(&mut cpu, 13, 0x80000001, 1).0, 0x00000003);
    assert_eq!(alu_case(&mut cpu, 14, 0x00000003, 1).0, 0x80000001);
    assert_eq!(alu_case(&mut cpu, 13, 0xDEADBEEF, 32).0, 0xDEADBEEF);
    assert_eq!(alu_case(&mut cpu, 14, 0xDEADBEEF, 64).0, 0xDEADBEEF);
}

#[test]
fn alu_force_zero_sets_zero_flag() {
    let mut cpu = fresh(vec![]);
    let (r, z, _) = alu_case(&mut cpu, 15, 123, 456);
    assert_eq!(r, 0);
    assert!(z);
}

#[test]
fn alu_add_carry_reads_the_operands() {
    // the carry heuristic compares the result with the add's operands,
    // also when the destination register is one of them
    let mut cpu = fresh(vec![alu(0, 1, 1, 1)]);
    cpu.registers.gp[1] = 0x80000000;
    assert!(matches!(step(&mut cpu), CPUError::Running));
    assert_eq!(cpu.registers.gp[1], 0);
    assert!(cpu.registers.zero_f);
    assert!(cpu.registers.carry_f, "0 is below the operand 0x80000000");
}

#[test]
fn alu_zero_flag_follows_destination() {
    // across all sixteen sub-opcodes, zero tracks the written value
    let mut cpu = fresh(vec![]);
    for sub in 0..16u32 {
        let (r, z, _) = alu_case(&mut cpu, sub, 41, 1);
        assert_eq!(z, r == 0, "sub-opcode {}", sub);
    }
}

// --- ALU compare -------------------------------------------------------

#[test]
fn compare_relations() {
    let mut shared = fresh(vec![]);
    let mut run = |sub: u32, a: u32, b: u32| -> bool {
        let cpu = &mut shared;
        cpu.reset();
        cpu.set_ram(0, cmp(sub, 1, 2));
        cpu.registers.gp[1] = a;
        cpu.registers.gp[2] = b;
        assert!(matches!(step(cpu), CPUError::Running));
        cpu.registers.comp_f
    };
    assert!(run(0, 5, 3) && !run(0, 3, 5)); // greater
    assert!(run(1, 4, 4) && !run(1, 4, 5)); // equal
    assert!(run(2, 3, 5) && !run(2, 5, 3)); // less
    assert!(run(3, 5, 5) && !run(3, 4, 5)); // greater or equal
    assert!(run(4, 5, 5) && !run(4, 6, 5)); // less or equal
    assert!(!run(5, 5, 5) && !run(15, 5, 5)); // undefined relations: false
}

#[test]
fn compare_leaves_carry_zero_and_registers() {
    let mut cpu = fresh(vec![cmp(0, 1, 2)]);
    cpu.registers.gp[1] = 9;
    cpu.registers.gp[2] = 4;
    cpu.registers.carry_f = true;
    cpu.registers.zero_f = true;
    assert!(matches!(step(&mut cpu), CPUError::Running));
    assert!(cpu.registers.comp_f);
    assert!(cpu.registers.carry_f);
    assert!(cpu.registers.zero_f);
    assert_eq!(cpu.registers.gp[1], 9);
    assert_eq!(cpu.registers.gp[2], 4);
}

// --- jumps -------------------------------------------------------------

#[test]
fn jump_immediate_unconditional() {
    let mut cpu = fresh(vec![jump_imm(0, 0x1234)]);
    assert!(matches!(step(&mut cpu), CPUError::Running));
    assert_eq!(cpu.registers.pc, 0x1234);
    cpu.reset();
    cpu.set_ram(0, jump_imm(7, 0x4321));
    assert!(matches!(step(&mut cpu), CPUError::Running));
    assert_eq!(cpu.registers.pc, 0x4321);
}

#[test]
fn jump_conditions() {
    // condition selector, flag setter, expected taken
    let cases: Vec<(u32, fn(&mut CPU), bool)> = vec![
        (1, |c| c.registers.carry_f = true, true),
        (1, |_| (), false),
        (2, |_| (), true),
        (2, |c| c.registers.carry_f = true, false),
        (3, |c| c.registers.comp_f = true, true),
        (4, |c| c.registers.comp_f = true, false),
        (5, |c| c.registers.zero_f = true, true),
        (6, |c| c.registers.zero_f = true, false),
        (6, |_| (), true),
    ];
    let mut cpu = fresh(vec![]);
    for (cond, set, taken) in cases {
        cpu.reset();
        cpu.set_ram(0, jump_imm(cond, 0x99));
        set(&mut cpu);
        assert!(matches!(step(&mut cpu), CPUError::Running));
        let expected = if taken { 0x99 } else { 1 };
        assert_eq!(cpu.registers.pc, expected, "condition {}", cond);
    }
}

#[test]
fn jump_register_masks_target() {
    let mut cpu = fresh(vec![jump_reg(0, 2)]);
    cpu.registers.gp[2] = 0x81234567;
    assert!(matches!(step(&mut cpu), CPUError::Running));
    assert_eq!(cpu.registers.pc, 0x234567);
}

// --- loads, stores, move ----------------------------------------------

#[test]
fn load_absolute_reads_memory() {
    // destination R3, so the address carries nibble 3 at bits 16..20
    let word = (4 << 28) | (3 << 16) | 0x0123;
    let mut cpu = fresh(vec![word]);
    cpu.set_ram(0x30123, 777);
    assert!(matches!(step(&mut cpu), CPUError::Running));
    assert_eq!(cpu.registers.gp[3], 777);
    assert_eq!(cpu.recent_memory_accesses, (0x30123, 777));
}

#[test]
fn load_indirect_masks_address() {
    let word = (5 << 28) | (2 << 20) | (4 << 16);
    let mut cpu = fresh(vec![word]);
    cpu.set_ram(0x1234, 555);
    cpu.registers.gp[2] = 0x1001234; // wraps to 0x1234
    assert!(matches!(step(&mut cpu), CPUError::Running));
    assert_eq!(cpu.registers.gp[4], 555);
}

#[test]
fn load_immediate_value() {
    let mut cpu = fresh(vec![load_imm(0, 0x00ABCD)]);
    assert!(matches!(step(&mut cpu), CPUError::Running));
    assert_eq!(cpu.registers.gp[0], 0x00ABCD);
}

#[test]
fn store_absolute_writes_memory() {
    let mut cpu = fresh(vec![store_abs(1, 0x4242)]);
    cpu.registers.gp[1] = 31415;
    assert!(matches!(step(&mut cpu), CPUError::Running));
    assert_eq!(cpu.ram[0x4242], 31415);
    assert_eq!(cpu.recent_memory_accesses, (0x4242, 31415));
}

#[test]
fn store_indirect_masks_address() {
    let mut cpu = fresh(vec![store_ind(1, 2)]);
    cpu.registers.gp[1] = 2718;
    cpu.registers.gp[2] = 0x1000005; // wraps to 5
    assert!(matches!(step(&mut cpu), CPUError::Running));
    assert_eq!(cpu.ram[5], 2718);
    assert_eq!(cpu.recent_memory_accesses, (5, 2718));
}

#[test]
fn move_copies_register() {
    let mut cpu = fresh(vec![mov(6, 1)]);
    cpu.registers.gp[1] = 99;
    assert!(matches!(step(&mut cpu), CPUError::Running));
    assert_eq!(cpu.registers.gp[6], 99);
    assert_eq!(cpu.registers.gp[1], 99);
}

#[test]
fn reserved_opcodes_cost_only_the_fetch() {
    let mut cpu = fresh(vec![]);
    for op in [10u32, 11u32] {
        cpu.reset();
        cpu.set_ram(0, op << 28);
        let clock0 = cpu.clock;
        assert!(matches!(step(&mut cpu), CPUError::Running));
        assert_eq!(cpu.clock - clock0, 2);
        assert_eq!(cpu.registers.pc, 1);
        for i in 0..16 {
            assert_eq!(cpu.registers.gp[i], 0);
        }
    }
}

#[test]
fn nop_advances_only_pc_and_clock() {
    let mut cpu = fresh(vec![NOP]);
    let clock0 = cpu.clock;
    assert!(matches!(step(&mut cpu), CPUError::Running));
    assert_eq!(cpu.registers.pc, 1);
    assert_eq!(cpu.clock - clock0, 3);
    assert_eq!(cpu.recent_memory_accesses, (0, NOP));
}

// --- stack -------------------------------------------------------------

#[test]
fn push_pop_round_trip() {
    let mut cpu = fresh(vec![push(1), pop(4)]);
    cpu.registers.sp = 0x100;
    cpu.registers.gp[1] = 0xCAFE;
    assert!(matches!(step(&mut cpu), CPUError::Running));
    assert_eq!(cpu.registers.sp, 0xFF);
    assert_eq!(cpu.ram[0xFF], 0xCAFE);
    assert!(matches!(step(&mut cpu), CPUError::Running));
    assert_eq!(cpu.registers.gp[4], 0xCAFE);
    assert_eq!(cpu.registers.sp, 0x100);
}

#[test]
fn push_wraps_stack_pointer() {
    let mut cpu = fresh(vec![push(1)]);
    cpu.registers.gp[1] = 7;
    assert!(matches!(step(&mut cpu), CPUError::Running)); // sp was 0
    assert_eq!(cpu.registers.sp, 0xFFFFFFFF);
    assert_eq!(cpu.ram[0xFFFFFF], 7); // masked to 24 bits
}

#[test]
fn peek_reads_without_moving() {
    let mut cpu = fresh(vec![peek(5)]);
    cpu.registers.sp = 0x80;
    cpu.set_ram(0x80, 1234);
    assert!(matches!(step(&mut cpu), CPUError::Running));
    assert_eq!(cpu.registers.gp[5], 1234);
    assert_eq!(cpu.registers.sp, 0x80);
}

#[test]
fn stack_default_zeroes_destination() {
    let mut cpu = fresh(vec![stack_zero(5)]);
    cpu.registers.gp[5] = 999;
    assert!(matches!(step(&mut cpu), CPUError::Running));
    assert_eq!(cpu.registers.gp[5], 0);
}

// --- call / return and system calls -----------------------------------

#[test]
fn call_then_return_restores_pc_and_flags() {
    let mut cpu = fresh(vec![call(5), NOP, NOP, NOP, NOP, ret()]);
    for flags in 0..8u32 {
        cpu.reset();
        cpu.registers.sp = 0x100;
        cpu.registers.carry_f = flags & 1 == 1;
        cpu.registers.zero_f = (flags >> 1) & 1 == 1;
        cpu.registers.comp_f = (flags >> 2) & 1 == 1;
        assert!(matches!(step(&mut cpu), CPUError::Running));
        assert_eq!(cpu.registers.pc, 5);
        assert_eq!(cpu.registers.sp, 0xFE);
        assert_eq!(cpu.ram[0xFF], 1, "return address one slot above the flags");
        assert_eq!(cpu.ram[0xFE], flags, "packed flags on top");
        assert!(matches!(step(&mut cpu), CPUError::Running));
        assert_eq!(cpu.registers.pc, 1, "back to the word after the call");
        assert_eq!(cpu.registers.sp, 0x100);
        assert_eq!(cpu.registers.carry_f, flags & 1 == 1);
        assert_eq!(cpu.registers.zero_f, (flags >> 1) & 1 == 1);
        assert_eq!(cpu.registers.comp_f, (flags >> 2) & 1 == 1);
    }
}

#[test]
fn call_costs_five_cycles_return_four() {
    let mut cpu = fresh(vec![call(3), NOP, NOP, ret()]);
    cpu.registers.sp = 0x100;
    let clock0 = cpu.clock;
    assert!(matches!(step(&mut cpu), CPUError::Running));
    assert_eq!(cpu.clock - clock0, 5);
    let clock1 = cpu.clock;
    assert!(matches!(step(&mut cpu), CPUError::Running));
    assert_eq!(cpu.clock - clock1, 4);
}

#[test]
fn syscall_enters_handler_and_returns() {
    let mut cpu = fresh(vec![syscall(7), NOP]);
    cpu.registers.sp = 0x100;
    cpu.registers.carry_f = true;
    cpu.registers.comp_f = true;
    cpu.set_ram(0x40, 0x200); // handler vector
    cpu.set_ram(0x200, sysret());
    assert!(matches!(step(&mut cpu), CPUError::Running));
    assert_eq!(cpu.registers.pc, 0x200);
    assert!(cpu.registers.privilege);
    assert_eq!(cpu.registers.reti, 1);
    assert_eq!(cpu.ram[0x41], 7, "the call's argument cell");
    assert_eq!(cpu.registers.sp, 0xFF);
    assert_eq!(cpu.ram[0xFF], 0b101, "carry and comparison packed");
    // the handler may clobber the flags; the return restores them
    cpu.registers.carry_f = false;
    cpu.registers.comp_f = false;
    cpu.registers.zero_f = true;
    assert!(matches!(step(&mut cpu), CPUError::Running));
    assert!(!cpu.registers.privilege);
    assert_eq!(cpu.registers.pc, 1);
    assert_eq!(cpu.registers.sp, 0x100);
    assert!(cpu.registers.carry_f);
    assert!(!cpu.registers.zero_f);
    assert!(cpu.registers.comp_f);
}

// --- construction, reset, restart, addressing --------------------------

#[test]
fn new_places_program_at_bottom() {
    let cpu = fresh(vec![11, 22, 33]);
    assert_eq!(cpu.ram[0], 11);
    assert_eq!(cpu.ram[1], 22);
    assert_eq!(cpu.ram[2], 33);
    assert_eq!(cpu.ram.len(), 0x1000000);
    assert_eq!(cpu.clock, 0);
    assert_eq!(cpu.registers.pc, 0);
    for i in 0..16 {
        assert_eq!(cpu.registers.gp[i], 0);
    }
}

#[test]
fn reset_clears_registers_and_keeps_memory() {
    let mut cpu = fresh(vec![load_imm(0, 42), HALT]);
    assert!(matches!(step(&mut cpu), CPUError::Running));
    cpu.registers.privilege = true;
    cpu.registers.reti = 17;
    let clock0 = cpu.clock;
    cpu.reset();
    assert_eq!(cpu.registers.gp[0], 0);
    assert_eq!(cpu.registers.pc, 0);
    assert_eq!(cpu.registers.sp, 0);
    assert!(!cpu.registers.carry_f && !cpu.registers.zero_f && !cpu.registers.comp_f);
    assert!(cpu.registers.privilege, "reset does not touch the privilege bit");
    assert_eq!(cpu.registers.reti, 17, "reset does not touch the interrupt return");
    assert_eq!(cpu.ram[0], load_imm(0, 42), "memory untouched");
    assert_eq!(cpu.clock, clock0, "cycle counter untouched");
}

#[test]
fn restart_rebuilds_and_keeps_throttle_mode() {
    let mut cpu = fresh(vec![load_imm(0, 42), HALT]);
    cpu.run_fast = true;
    assert!(matches!(step(&mut cpu), CPUError::Running));
    cpu.restart();
    assert!(cpu.run_fast, "throttle mode preserved");
    assert!(!cpu.log);
    assert_eq!(cpu.clock, 0);
    assert_eq!(cpu.registers.pc, 0);
    assert_eq!(cpu.registers.gp[0], 0);
}

#[test]
fn addressing_wraps_modulo_two_to_the_24() {
    let mut cpu = fresh(vec![]);
    for k in [0u32, 1, 0x40, 0xFFFFFF] {
        cpu.set_ram(0x1000000 + k, 1000 + k);
        assert_eq!(cpu.ram[k as usize], 1000 + k, "write at 2^24 + {} lands at {}", k, k);
        assert_eq!(cpu.get_ram(k), 1000 + k);
        cpu.set_ram(k, 2000 + k);
        assert_eq!(cpu.get_ram(0x1000000 + k), 2000 + k);
    }
}

#[test]
fn interrupt_arguments_are_inert() {
    let mut cpu = fresh(vec![NOP, NOP]);
    let a = cpu.execute_instruction(true, 3);
    let b = cpu.execute_instruction(false, 0);
    assert!(matches!(a, CPUError::Running));
    assert!(matches!(b, CPUError::Running));
    assert_eq!(cpu.registers.pc, 2);
}
