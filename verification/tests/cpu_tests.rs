use gb_core::bus::MemoryBus;
use gb_core::cpu::CPU;
use gb_core::cpu::RunState;
use gb_core::instruction::ArithmeticTarget;
use gb_core::instruction::DecodeError;
use gb_core::instruction::Instruction;

#[test]
fn memory_bus_byte_round_trip() {
    let mut bus = MemoryBus::new();
    assert_eq!(bus.read_byte(0x0000), 0x00);
    assert_eq!(bus.read_byte(0xffff), 0x00);
    bus.write_byte(0x1234, 0xab);
    assert_eq!(bus.read_byte(0x1234), 0xab);
    assert_eq!(bus.read_byte(0x1235), 0x00);
}

#[test]
fn memory_bus_word_is_little_endian_and_wraps() {
    let mut bus = MemoryBus::new();
    bus.write_word(0x8000, 0x1234);
    assert_eq!(bus.read_byte(0x8000), 0x34);
    assert_eq!(bus.read_byte(0x8001), 0x12);
    assert_eq!(bus.read_word(0x8000), 0x1234);
    // The high byte of a word at 0xFFFF lands at 0x0000.
    bus.write_word(0xffff, 0xbeef);
    assert_eq!(bus.read_byte(0xffff), 0xef);
    assert_eq!(bus.read_byte(0x0000), 0xbe);
    assert_eq!(bus.read_word(0xffff), 0xbeef);
}

#[test]
fn end_to_end_add_a_c() {
    // ADD A,C at the entry point with A=0x3A, C=0x07.
    let mut cpu = CPU::new();
    cpu.bus.write_byte(0x0100, 0x81);
    cpu.registers.a = 0x3a;
    cpu.registers.c = 0x07;
    let outcome = cpu.step().unwrap();
    assert_eq!(cpu.registers.a, 0x41);
    assert!(!cpu.registers.f.zero);
    // The low nibbles 0xA and 0x7 sum past 0xF, so half-carry is set.
    assert!(cpu.registers.f.half_carry);
    assert!(!cpu.registers.f.carry);
    assert!(!cpu.registers.f.subtract);
    assert_eq!(cpu.pc, 0x0101);
    assert_eq!(outcome.cycles, 4);
    assert!(!outcome.halted);
}

#[test]
fn single_byte_instruction_advances_pc_by_one() {
    let mut cpu = CPU::new();
    cpu.bus.write_byte(0x0100, 0x00); // NOP
    cpu.step().unwrap();
    assert_eq!(cpu.pc, 0x0101);
}

#[test]
fn prefixed_instruction_advances_pc_by_two() {
    let mut cpu = CPU::new();
    cpu.bus.write_byte(0x0100, 0xcb);
    cpu.bus.write_byte(0x0101, 0x37); // SWAP A
    cpu.registers.a = 0xf0;
    let outcome = cpu.step().unwrap();
    assert_eq!(cpu.registers.a, 0x0f);
    assert_eq!(cpu.pc, 0x0102);
    assert_eq!(outcome.cycles, 8);
}

#[test]
fn pc_wraps_at_address_space_end() {
    let mut cpu = CPU::with_start(0xffff);
    // NOP at 0xFFFF: pc advances to 0x0000 modulo 65536.
    cpu.step().unwrap();
    assert_eq!(cpu.pc, 0x0000);
}

#[test]
fn unmapped_opcode_reports_error_and_changes_nothing() {
    let mut cpu = CPU::new();
    cpu.bus.write_byte(0x0100, 0xfd);
    let err = cpu.step().unwrap_err();
    assert_eq!(err, DecodeError { opcode: 0xfd, prefixed: false });
    assert_eq!(cpu.pc, 0x0100);
    assert!(matches!(cpu.state, RunState::Running));
}

#[test]
fn halt_stops_fetching_until_resume() {
    let mut cpu = CPU::new();
    cpu.bus.write_byte(0x0100, 0x76); // HALT
    cpu.bus.write_byte(0x0101, 0x00); // NOP
    let outcome = cpu.step().unwrap();
    assert!(outcome.halted);
    assert_eq!(cpu.pc, 0x0101);
    // Halted: no fetch, no pc movement.
    let outcome = cpu.step().unwrap();
    assert!(outcome.halted);
    assert_eq!(cpu.pc, 0x0101);
    cpu.resume();
    let outcome = cpu.step().unwrap();
    assert!(!outcome.halted);
    assert_eq!(cpu.pc, 0x0102);
}

#[test]
fn stop_behaves_like_deeper_halt() {
    let mut cpu = CPU::new();
    cpu.bus.write_byte(0x0100, 0x10); // STOP
    let outcome = cpu.step().unwrap();
    assert!(outcome.halted);
    assert!(matches!(cpu.state, RunState::Stopped));
    let pc_after = cpu.pc;
    cpu.step().unwrap();
    assert_eq!(cpu.pc, pc_after);
    cpu.resume();
    assert!(matches!(cpu.state, RunState::Running));
}

#[test]
fn jp_loads_pc_from_immediate_word() {
    let mut cpu = CPU::new();
    cpu.bus.write_byte(0x0100, 0xc3);
    cpu.bus.write_byte(0x0101, 0x34);
    cpu.bus.write_byte(0x0102, 0x12);
    let outcome = cpu.step().unwrap();
    assert_eq!(cpu.pc, 0x1234);
    assert_eq!(outcome.cycles, 16);
}

#[test]
fn call_pushes_return_address_and_ret_pops_it() {
    let mut cpu = CPU::new();
    cpu.bus.write_byte(0x0100, 0xcd); // CALL 0x2000
    cpu.bus.write_byte(0x0101, 0x00);
    cpu.bus.write_byte(0x0102, 0x20);
    cpu.bus.write_byte(0x2000, 0xc9); // RET
    let sp0 = cpu.sp;
    cpu.step().unwrap();
    assert_eq!(cpu.pc, 0x2000);
    assert_eq!(cpu.sp, sp0.wrapping_sub(2));
    // Return address 0x0103 lies little-endian at the top of the stack.
    assert_eq!(cpu.bus.read_word(cpu.sp), 0x0103);
    cpu.step().unwrap();
    assert_eq!(cpu.pc, 0x0103);
    assert_eq!(cpu.sp, sp0);
}

#[test]
fn push_pop_round_trip_through_memory() {
    let mut cpu = CPU::new();
    cpu.registers.set_bc(0xbeef);
    cpu.bus.write_byte(0x0100, 0xc5); // PUSH BC
    cpu.bus.write_byte(0x0101, 0xd1); // POP DE
    cpu.step().unwrap();
    cpu.step().unwrap();
    assert_eq!(cpu.registers.get_de(), 0xbeef);
}

#[test]
fn pop_af_masks_the_flag_low_nibble() {
    let mut cpu = CPU::new();
    cpu.registers.set_bc(0x12ff);
    cpu.bus.write_byte(0x0100, 0xc5); // PUSH BC
    cpu.bus.write_byte(0x0101, 0xf1); // POP AF
    cpu.step().unwrap();
    cpu.step().unwrap();
    assert_eq!(cpu.registers.a, 0x12);
    assert_eq!(cpu.registers.get_af(), 0x12f0);
}

#[test]
fn inc_and_dec_preserve_carry_through_execute() {
    for carry in [false, true] {
        let mut cpu = CPU::new();
        cpu.registers.f.carry = carry;
        cpu.bus.write_byte(0x0100, 0x04); // INC B
        cpu.bus.write_byte(0x0101, 0x05); // DEC B
        cpu.step().unwrap();
        assert_eq!(cpu.registers.b, 1);
        assert_eq!(cpu.registers.f.carry, carry);
        cpu.step().unwrap();
        assert_eq!(cpu.registers.b, 0);
        assert!(cpu.registers.f.zero);
        assert_eq!(cpu.registers.f.carry, carry);
    }
}

#[test]
fn logic_instructions_clear_carry_through_execute() {
    for opcode in [0xa1u8, 0xa9, 0xb1] {
        // AND C / XOR C / OR C with carry previously set.
        let mut cpu = CPU::new();
        cpu.registers.a = 0x5a;
        cpu.registers.c = 0x0f;
        cpu.registers.f.carry = true;
        cpu.bus.write_byte(0x0100, opcode);
        cpu.step().unwrap();
        assert!(!cpu.registers.f.carry);
    }
}

#[test]
fn memory_operand_reads_through_hl() {
    let mut cpu = CPU::new();
    cpu.registers.set_hl(0x9000);
    cpu.bus.write_byte(0x9000, 0x2c);
    cpu.registers.a = 0x11;
    cpu.bus.write_byte(0x0100, 0x86); // ADD A,(HL)
    let outcome = cpu.step().unwrap();
    assert_eq!(cpu.registers.a, 0x3d);
    assert_eq!(outcome.cycles, 8);
}

#[test]
fn memory_operand_writes_through_hl() {
    let mut cpu = CPU::new();
    cpu.registers.set_hl(0x9000);
    cpu.bus.write_byte(0x9000, 0xff);
    cpu.bus.write_byte(0x0100, 0x34); // INC (HL)
    let outcome = cpu.step().unwrap();
    assert_eq!(cpu.bus.read_byte(0x9000), 0x00);
    assert!(cpu.registers.f.zero);
    assert_eq!(outcome.cycles, 12);
}

#[test]
fn add_hl_sets_wide_flags() {
    let mut cpu = CPU::new();
    cpu.registers.set_hl(0x0fff);
    cpu.registers.set_bc(0x0001);
    cpu.bus.write_byte(0x0100, 0x09); // ADD HL,BC
    cpu.step().unwrap();
    assert_eq!(cpu.registers.get_hl(), 0x1000);
    assert!(cpu.registers.f.half_carry);
    assert!(!cpu.registers.f.carry);
}

#[test]
fn cp_updates_flags_but_not_accumulator() {
    let mut cpu = CPU::new();
    cpu.registers.a = 0x10;
    cpu.registers.b = 0x20;
    cpu.bus.write_byte(0x0100, 0xb8); // CP B
    cpu.step().unwrap();
    assert_eq!(cpu.registers.a, 0x10);
    assert!(cpu.registers.f.carry && cpu.registers.f.subtract);
}

#[test]
fn bit_instructions_through_step() {
    let mut cpu = CPU::new();
    cpu.registers.e = 0x00;
    cpu.bus.write_byte(0x0100, 0xcb);
    cpu.bus.write_byte(0x0101, 0xe3); // SET 4,E
    cpu.bus.write_byte(0x0102, 0xcb);
    cpu.bus.write_byte(0x0103, 0x63); // BIT 4,E
    cpu.bus.write_byte(0x0104, 0xcb);
    cpu.bus.write_byte(0x0105, 0xa3); // RES 4,E
    cpu.step().unwrap();
    assert_eq!(cpu.registers.e, 0x10);
    cpu.step().unwrap();
    assert!(!cpu.registers.f.zero && cpu.registers.f.half_carry);
    cpu.step().unwrap();
    assert_eq!(cpu.registers.e, 0x00);
}

#[test]
fn execute_and_add_are_callable_directly() {
    let mut cpu = CPU::new();
    cpu.registers.a = 0xf0;
    cpu.registers.d = 0x11;
    let (next_pc, cycles) = cpu.execute(Instruction::Add(ArithmeticTarget::D));
    assert_eq!(cpu.registers.a, 0x01);
    assert!(cpu.registers.f.carry);
    assert_eq!(next_pc, 0x0101);
    assert_eq!(cycles, 4);
    let sum = cpu.add(0x02);
    assert_eq!(sum, 0x03);
    assert!(!cpu.registers.f.carry);
    // `add` computes flags and the sum; the accumulator write is the
    // caller's.
    assert_eq!(cpu.registers.a, 0x01);
}

#[test]
fn step_accumulates_cycle_cost() {
    let mut cpu = CPU::new();
    assert_eq!(cpu.total_cycles, 0);
    cpu.bus.write_byte(0x0100, 0x00); // NOP: 4 cycles
    cpu.bus.write_byte(0x0101, 0x86); // ADD A,(HL): 8 cycles
    cpu.bus.write_byte(0x0102, 0xcb);
    cpu.bus.write_byte(0x0103, 0x37); // SWAP A: 8 cycles
    cpu.step().unwrap();
    cpu.step().unwrap();
    cpu.step().unwrap();
    assert_eq!(cpu.total_cycles, 20);
    // A failed decode costs nothing.
    cpu.bus.write_byte(0x0104, 0xfd);
    cpu.step().unwrap_err();
    assert_eq!(cpu.total_cycles, 20);
}

#[test]
fn adc_and_sbc_chain_the_carry() {
    let mut cpu = CPU::new();
    cpu.registers.a = 0xff;
    cpu.registers.b = 0x01;
    cpu.bus.write_byte(0x0100, 0x80); // ADD A,B -> 0x00, carry
    cpu.bus.write_byte(0x0101, 0x88); // ADC A,B -> 0x02 (1 + carry)
    cpu.step().unwrap();
    assert_eq!(cpu.registers.a, 0x00);
    assert!(cpu.registers.f.carry);
    cpu.step().unwrap();
    assert_eq!(cpu.registers.a, 0x02);
    assert!(!cpu.registers.f.carry);
}
