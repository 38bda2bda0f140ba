//! The CPU: register file, program counter, stack pointer, memory bus and
//! run state, with the fetch-decode-execute loop.
//!
//! `spec_execute` and `spec_step` are the mathematical model of the core:
//! they say, state by state, what executing an instruction and taking one
//! step do. The executable `execute` and `step` are proved equal to them.

use vstd::prelude::*;
use crate::alu;
use crate::bus::MemoryBus;
use crate::bus::spec_next_addr;
use crate::bus::spec_word_at;
use crate::flags::FlagsRegister;
use crate::flags::spec_flags_from_byte;
use crate::flags::spec_flags_to_byte;
use crate::instruction::ArithmeticTarget;
use crate::instruction::DecodeError;
use crate::instruction::Instruction;
use crate::instruction::PREFIX_OPCODE;
use crate::instruction::StackPair;
use crate::instruction::WidePair;
use crate::instruction::spec_from_byte;
use crate::instruction::spec_from_byte_prefixed;
use crate::registers::Registers;
use crate::registers::spec_hi_byte;
use crate::registers::spec_lo_byte;
use crate::registers::spec_pair;

verus! {

/// Whether the CPU fetches instructions, or waits for an external wake.
#[derive(Clone, Copy, PartialEq, Eq, Structural, Debug)]
pub enum RunState {
    Running,
    Halted,
    Stopped,
}

/// What one successful step reports to the driving loop.
#[derive(Clone, Copy, PartialEq, Eq, Structural, Debug)]
pub struct StepOutcome {
    pub cycles: u8,
    pub halted: bool,
}

/// The CPU's whole architectural state, as the contracts speak of it.
#[verifier::ext_equal]
pub ghost struct CpuState {
    pub regs: Registers,
    pub pc: u16,
    pub sp: u16,
    pub mem: Seq<u8>,
    pub run: RunState,
    pub total_cycles: u64,
}

/// What executing one instruction yields: the state after it (program
/// counter untouched), the next program counter, and the cycle cost.
pub ghost struct ExecOutcome {
    pub state: CpuState,
    pub next_pc: u16,
    pub cycles: u8,
}

/// What one step yields: the state after it and the reported outcome.
pub ghost struct StepSpec {
    pub state: CpuState,
    pub outcome: Result<StepOutcome, DecodeError>,
}

/// 16-bit addition wrapping at the 64KB boundary.
pub open spec fn spec_wrap_add16(a: u16, n: u16) -> u16 {
    if a + n > 0xffff {
        (a + n - 0x10000) as u16
    } else {
        (a + n) as u16
    }
}

/// 64-bit addition for the running cycle total, wrapping at the type's
/// boundary.
pub open spec fn spec_wrap_add64(a: u64, n: u64) -> u64 {
    if a + n > 0xffff_ffff_ffff_ffff {
        (a + n - 0x1_0000_0000_0000_0000) as u64
    } else {
        (a + n) as u64
    }
}

/// 16-bit subtraction wrapping at the 64KB boundary.
pub open spec fn spec_wrap_sub16(a: u16, n: u16) -> u16 {
    if a - n < 0 {
        (a - n + 0x10000) as u16
    } else {
        (a - n) as u16
    }
}

/// The byte an operand descriptor denotes: a register, or memory at HL.
pub open spec fn spec_read_target(s: CpuState, t: ArithmeticTarget) -> u8 {
    match t {
        ArithmeticTarget::A => s.regs.a,
        ArithmeticTarget::B => s.regs.b,
        ArithmeticTarget::C => s.regs.c,
        ArithmeticTarget::D => s.regs.d,
        ArithmeticTarget::E => s.regs.e,
        ArithmeticTarget::H => s.regs.h,
        ArithmeticTarget::L => s.regs.l,
        ArithmeticTarget::HLI => s.mem[spec_pair(s.regs.h, s.regs.l) as int],
    }
}

/// The state after writing a byte to an operand destination.
pub open spec fn spec_write_target(s: CpuState, t: ArithmeticTarget, v: u8) -> CpuState {
    match t {
        ArithmeticTarget::A => CpuState { regs: Registers { a: v, ..s.regs }, ..s },
        ArithmeticTarget::B => CpuState { regs: Registers { b: v, ..s.regs }, ..s },
        ArithmeticTarget::C => CpuState { regs: Registers { c: v, ..s.regs }, ..s },
        ArithmeticTarget::D => CpuState { regs: Registers { d: v, ..s.regs }, ..s },
        ArithmeticTarget::E => CpuState { regs: Registers { e: v, ..s.regs }, ..s },
        ArithmeticTarget::H => CpuState { regs: Registers { h: v, ..s.regs }, ..s },
        ArithmeticTarget::L => CpuState { regs: Registers { l: v, ..s.regs }, ..s },
        ArithmeticTarget::HLI => CpuState {
            mem: s.mem.update(spec_pair(s.regs.h, s.regs.l) as int, v),
            ..s
        },
    }
}

/// The 16-bit value an ADD HL source denotes.
pub open spec fn spec_wide_value(s: CpuState, p: WidePair) -> u16 {
    match p {
        WidePair::BC => spec_pair(s.regs.b, s.regs.c),
        WidePair::DE => spec_pair(s.regs.d, s.regs.e),
        WidePair::HL => spec_pair(s.regs.h, s.regs.l),
        WidePair::SP => s.sp,
    }
}

/// The 16-bit value a PUSH source denotes.
pub open spec fn spec_stack_value(s: CpuState, p: StackPair) -> u16 {
    match p {
        StackPair::BC => spec_pair(s.regs.b, s.regs.c),
        StackPair::DE => spec_pair(s.regs.d, s.regs.e),
        StackPair::HL => spec_pair(s.regs.h, s.regs.l),
        StackPair::AF => spec_pair(s.regs.a, spec_flags_to_byte(s.regs.f)),
    }
}

/// The state after a POP writes a 16-bit value into a register pair. The
/// low byte of a POP into AF goes through the flags' byte form, so its low
/// nibble is discarded.
pub open spec fn spec_set_stack_pair(s: CpuState, p: StackPair, v: u16) -> CpuState {
    match p {
        StackPair::BC => CpuState {
            regs: Registers { b: spec_hi_byte(v), c: spec_lo_byte(v), ..s.regs },
            ..s
        },
        StackPair::DE => CpuState {
            regs: Registers { d: spec_hi_byte(v), e: spec_lo_byte(v), ..s.regs },
            ..s
        },
        StackPair::HL => CpuState {
            regs: Registers { h: spec_hi_byte(v), l: spec_lo_byte(v), ..s.regs },
            ..s
        },
        StackPair::AF => CpuState {
            regs: Registers {
                a: spec_hi_byte(v),
                f: spec_flags_from_byte(spec_lo_byte(v)),
                ..s.regs
            },
            ..s
        },
    }
}

/// The state after pushing a 16-bit value: the stack pointer drops by two
/// and the value lies little-endian at the new top of stack.
pub open spec fn spec_push(s: CpuState, v: u16) -> CpuState {
    CpuState {
        mem: s.mem.update(spec_wrap_sub16(s.sp, 1) as int, spec_hi_byte(v)).update(
            spec_wrap_sub16(s.sp, 2) as int,
            spec_lo_byte(v),
        ),
        sp: spec_wrap_sub16(s.sp, 2),
        ..s
    }
}

/// The 16-bit value at the top of the stack.
pub open spec fn spec_pop_value(s: CpuState) -> u16 {
    spec_pair(s.mem[spec_wrap_add16(s.sp, 1) as int], s.mem[s.sp as int])
}

/// The state after a new accumulator value and flags from an 8-bit
/// arithmetic or logic operation.
pub open spec fn spec_with_acc(s: CpuState, a: u8, f: FlagsRegister) -> CpuState {
    CpuState { regs: Registers { a, f, ..s.regs }, ..s }
}

/// The state after only the flags change.
pub open spec fn spec_with_flags(s: CpuState, f: FlagsRegister) -> CpuState {
    CpuState { regs: Registers { f, ..s.regs }, ..s }
}

/// The cycle cost of an 8-bit ALU operand: a memory operand costs a bus
/// access more.
pub open spec fn spec_alu_cycles(t: ArithmeticTarget) -> u8 {
    if t is HLI {
        8u8
    } else {
        4u8
    }
}

/// The semantics of every instruction: the state it leaves (program
/// counter untouched), the next program counter, and the cycle cost.
pub open spec fn spec_execute(s: CpuState, instruction: Instruction) -> ExecOutcome {
    let seq_pc = spec_wrap_add16(s.pc, instruction.spec_len());
    match instruction {
        Instruction::Nop => ExecOutcome { state: s, next_pc: seq_pc, cycles: 4 },
        Instruction::Halt => ExecOutcome {
            state: CpuState { run: RunState::Halted, ..s },
            next_pc: seq_pc,
            cycles: 4,
        },
        Instruction::Stop => ExecOutcome {
            state: CpuState { run: RunState::Stopped, ..s },
            next_pc: seq_pc,
            cycles: 4,
        },
        Instruction::Add(t) => {
            let b = spec_read_target(s, t);
            ExecOutcome {
                state: spec_with_acc(
                    s,
                    alu::spec_add8(s.regs.a, b, false),
                    alu::spec_add_flags(s.regs.a, b, false),
                ),
                next_pc: seq_pc,
                cycles: spec_alu_cycles(t),
            }
        },
        Instruction::Adc(t) => {
            let b = spec_read_target(s, t);
            let cin = s.regs.f.carry;
            ExecOutcome {
                state: spec_with_acc(
                    s,
                    alu::spec_add8(s.regs.a, b, cin),
                    alu::spec_add_flags(s.regs.a, b, cin),
                ),
                next_pc: seq_pc,
                cycles: spec_alu_cycles(t),
            }
        },
        Instruction::Sub(t) => {
            let b = spec_read_target(s, t);
            ExecOutcome {
                state: spec_with_acc(
                    s,
                    alu::spec_sub8(s.regs.a, b, false),
                    alu::spec_sub_flags(s.regs.a, b, false),
                ),
                next_pc: seq_pc,
                cycles: spec_alu_cycles(t),
            }
        },
        Instruction::Sbc(t) => {
            let b = spec_read_target(s, t);
            let cin = s.regs.f.carry;
            ExecOutcome {
                state: spec_with_acc(
                    s,
                    alu::spec_sub8(s.regs.a, b, cin),
                    alu::spec_sub_flags(s.regs.a, b, cin),
                ),
                next_pc: seq_pc,
                cycles: spec_alu_cycles(t),
            }
        },
        Instruction::And(t) => {
            let b = spec_read_target(s, t);
            ExecOutcome {
                state: spec_with_acc(s, s.regs.a & b, alu::spec_logic_flags(s.regs.a & b, true)),
                next_pc: seq_pc,
                cycles: spec_alu_cycles(t),
            }
        },
        Instruction::Xor(t) => {
            let b = spec_read_target(s, t);
            ExecOutcome {
                state: spec_with_acc(s, s.regs.a ^ b, alu::spec_logic_flags(s.regs.a ^ b, false)),
                next_pc: seq_pc,
                cycles: spec_alu_cycles(t),
            }
        },
        Instruction::Or(t) => {
            let b = spec_read_target(s, t);
            ExecOutcome {
                state: spec_with_acc(s, s.regs.a | b, alu::spec_logic_flags(s.regs.a | b, false)),
                next_pc: seq_pc,
                cycles: spec_alu_cycles(t),
            }
        },
        Instruction::Cp(t) => {
            let b = spec_read_target(s, t);
            ExecOutcome {
                state: spec_with_flags(s, alu::spec_sub_flags(s.regs.a, b, false)),
                next_pc: seq_pc,
                cycles: spec_alu_cycles(t),
            }
        },
        Instruction::Inc(t) => {
            let v = spec_read_target(s, t);
            let s1 = spec_write_target(s, t, alu::spec_add8(v, 1, false));
            ExecOutcome {
                state: spec_with_flags(s1, alu::spec_inc_flags(v, s.regs.f.carry)),
                next_pc: seq_pc,
                cycles: if t is HLI {
                    12u8
                } else {
                    4u8
                },
            }
        },
        Instruction::Dec(t) => {
            let v = spec_read_target(s, t);
            let s1 = spec_write_target(s, t, alu::spec_sub8(v, 1, false));
            ExecOutcome {
                state: spec_with_flags(s1, alu::spec_dec_flags(v, s.regs.f.carry)),
                next_pc: seq_pc,
                cycles: if t is HLI {
                    12u8
                } else {
                    4u8
                },
            }
        },
        Instruction::AddHl(p) => {
            let hl = spec_pair(s.regs.h, s.regs.l);
            let v = spec_wide_value(s, p);
            let sum = alu::spec_add16(hl, v);
            ExecOutcome {
                state: CpuState {
                    regs: Registers {
                        h: spec_hi_byte(sum),
                        l: spec_lo_byte(sum),
                        f: alu::spec_add16_flags(hl, v),
                        ..s.regs
                    },
                    ..s
                },
                next_pc: seq_pc,
                cycles: 8,
            }
        },
        Instruction::Jp => ExecOutcome {
            state: s,
            next_pc: spec_word_at(s.mem, spec_next_addr(s.pc)),
            cycles: 16,
        },
        Instruction::Call => ExecOutcome {
            state: spec_push(s, spec_wrap_add16(s.pc, 3)),
            next_pc: spec_word_at(s.mem, spec_next_addr(s.pc)),
            cycles: 24,
        },
        Instruction::Ret => ExecOutcome {
            state: CpuState { sp: spec_wrap_add16(s.sp, 2), ..s },
            next_pc: spec_pop_value(s),
            cycles: 16,
        },
        Instruction::Push(p) => ExecOutcome {
            state: spec_push(s, spec_stack_value(s, p)),
            next_pc: seq_pc,
            cycles: 16,
        },
        Instruction::Pop(p) => ExecOutcome {
            state: spec_set_stack_pair(
                CpuState { sp: spec_wrap_add16(s.sp, 2), ..s },
                p,
                spec_pop_value(s),
            ),
            next_pc: seq_pc,
            cycles: 12,
        },
        Instruction::Rlc(t) => spec_rotate_outcome(
            s,
            t,
            alu::spec_rlc8(spec_read_target(s, t)),
            (spec_read_target(s, t) >> 7) & 1 == 1,
        ),
        Instruction::Rrc(t) => spec_rotate_outcome(
            s,
            t,
            alu::spec_rrc8(spec_read_target(s, t)),
            spec_read_target(s, t) & 1 == 1,
        ),
        Instruction::Rl(t) => spec_rotate_outcome(
            s,
            t,
            alu::spec_rl8(spec_read_target(s, t), s.regs.f.carry),
            (spec_read_target(s, t) >> 7) & 1 == 1,
        ),
        Instruction::Rr(t) => spec_rotate_outcome(
            s,
            t,
            alu::spec_rr8(spec_read_target(s, t), s.regs.f.carry),
            spec_read_target(s, t) & 1 == 1,
        ),
        Instruction::Sla(t) => spec_rotate_outcome(
            s,
            t,
            alu::spec_sla8(spec_read_target(s, t)),
            (spec_read_target(s, t) >> 7) & 1 == 1,
        ),
        Instruction::Sra(t) => spec_rotate_outcome(
            s,
            t,
            alu::spec_sra8(spec_read_target(s, t)),
            spec_read_target(s, t) & 1 == 1,
        ),
        Instruction::Swap(t) => spec_rotate_outcome(
            s,
            t,
            alu::spec_swap8(spec_read_target(s, t)),
            false,
        ),
        Instruction::Srl(t) => spec_rotate_outcome(
            s,
            t,
            alu::spec_srl8(spec_read_target(s, t)),
            spec_read_target(s, t) & 1 == 1,
        ),
        Instruction::TestBit(bit, t) => {
            let v = spec_read_target(s, t);
            ExecOutcome {
                state: spec_with_flags(s, alu::spec_bit_flags(v, bit, s.regs.f.carry)),
                next_pc: seq_pc,
                cycles: if t is HLI {
                    12u8
                } else {
                    8u8
                },
            }
        },
        Instruction::ResetBit(bit, t) => {
            let v = spec_read_target(s, t);
            ExecOutcome {
                state: spec_write_target(s, t, alu::spec_res8(v, bit)),
                next_pc: seq_pc,
                cycles: if t is HLI {
                    16u8
                } else {
                    8u8
                },
            }
        },
        Instruction::SetBit(bit, t) => {
            let v = spec_read_target(s, t);
            ExecOutcome {
                state: spec_write_target(s, t, alu::spec_set8(v, bit)),
                next_pc: seq_pc,
                cycles: if t is HLI {
                    16u8
                } else {
                    8u8
                },
            }
        },
    }
}

/// The common shape of the rotate/shift family: write the result back,
/// set the rotate flags, advance past the two-byte encoding.
pub open spec fn spec_rotate_outcome(
    s: CpuState,
    t: ArithmeticTarget,
    res: u8,
    carry_out: bool,
) -> ExecOutcome {
    ExecOutcome {
        state: spec_with_flags(spec_write_target(s, t, res), alu::spec_rotate_flags(res, carry_out)),
        next_pc: spec_wrap_add16(s.pc, 2),
        cycles: if t is HLI {
            16u8
        } else {
            8u8
        },
    }
}

/// One step of the fetch-decode-execute loop. A CPU that is not running
/// does not fetch; it reports itself halted at idle cycle cost. A running
/// CPU fetches at `pc`, consumes a second opcode byte after the extended
/// prefix, executes, and moves `pc` to the address execution returned. An
/// unmapped opcode changes nothing and reports which byte missed which
/// table.
pub open spec fn spec_step(s: CpuState) -> StepSpec {
    if !(s.run is Running) {
        StepSpec { state: s, outcome: Ok(StepOutcome { cycles: 4, halted: true }) }
    } else {
        let opcode = s.mem[s.pc as int];
        if opcode == PREFIX_OPCODE {
            let opcode2 = s.mem[spec_next_addr(s.pc) as int];
            match spec_from_byte_prefixed(opcode2) {
                Some(instruction) => spec_run_instruction(s, instruction),
                None => StepSpec {
                    state: s,
                    outcome: Err(DecodeError { opcode: opcode2, prefixed: true }),
                },
            }
        } else {
            match spec_from_byte(opcode) {
                Some(instruction) => spec_run_instruction(s, instruction),
                None => StepSpec {
                    state: s,
                    outcome: Err(DecodeError { opcode, prefixed: false }),
                },
            }
        }
    }
}

/// Executing a decoded instruction and landing the program counter.
pub open spec fn spec_run_instruction(s: CpuState, instruction: Instruction) -> StepSpec {
    let o = spec_execute(s, instruction);
    StepSpec {
        state: CpuState {
            pc: o.next_pc,
            total_cycles: spec_wrap_add64(s.total_cycles, o.cycles as u64),
            ..o.state
        },
        outcome: Ok(StepOutcome { cycles: o.cycles, halted: !(o.state.run is Running) }),
    }
}

/// The post-bootstrap entry point.
pub const ENTRY_POINT: u16 = 0x0100;

/// The conventional initial stack pointer.
pub const INITIAL_STACK_POINTER: u16 = 0xfffe;

/// The CPU: register file, program counter, stack pointer, bus, run state.
pub struct CPU {
    pub registers: Registers,
    pub pc: u16,
    pub sp: u16,
    pub bus: MemoryBus,
    pub state: RunState,
    pub total_cycles: u64,
}

impl View for CPU {
    type V = CpuState;

    open spec fn view(&self) -> CpuState {
        CpuState {
            regs: self.registers,
            pc: self.pc,
            sp: self.sp,
            mem: self.bus@,
            run: self.state,
            total_cycles: self.total_cycles,
        }
    }
}

impl CPU {
    /// The CPU is well formed when its bus backs the full address space.
    pub open spec fn wf(&self) -> bool {
        self.bus.inv()
    }

    /// A running CPU at the given entry point, with zeroed registers and
    /// memory and the conventional initial stack pointer.
    pub fn with_start(start: u16) -> (r: CPU)
        ensures
            r.wf(),
            r@.regs == crate::registers::spec_zero_registers(),
            r@.pc == start,
            r@.sp == INITIAL_STACK_POINTER,
            r@.run is Running,
            r@.total_cycles == 0,
            forall|i: int| 0 <= i < r@.mem.len() ==> r@.mem[i] == 0u8,
    {
        CPU {
            registers: Registers::new(),
            pc: start,
            sp: INITIAL_STACK_POINTER,
            bus: MemoryBus::new(),
            state: RunState::Running,
            total_cycles: 0,
        }
    }

    /// A running CPU at the post-bootstrap entry point.
    pub fn new() -> (r: CPU)
        ensures
            r.wf(),
            r@.regs == crate::registers::spec_zero_registers(),
            r@.pc == ENTRY_POINT,
            r@.sp == INITIAL_STACK_POINTER,
            r@.run is Running,
            r@.total_cycles == 0,
            forall|i: int| 0 <= i < r@.mem.len() ==> r@.mem[i] == 0u8,
    {
        Self::with_start(ENTRY_POINT)
    }

    /// Wakes a halted or stopped CPU; the external wake signal of the
    /// interrupt integration contract.
    pub fn resume(&mut self)
        ensures
            *final(self) == (CPU { state: RunState::Running, ..*old(self) }),
    {
        self.state = RunState::Running;
    }

    fn read_target(&self, t: ArithmeticTarget) -> (r: u8)
        requires
            self.wf(),
        ensures
            r == spec_read_target(self@, t),
    {
        match t {
            ArithmeticTarget::A => self.registers.a,
            ArithmeticTarget::B => self.registers.b,
            ArithmeticTarget::C => self.registers.c,
            ArithmeticTarget::D => self.registers.d,
            ArithmeticTarget::E => self.registers.e,
            ArithmeticTarget::H => self.registers.h,
            ArithmeticTarget::L => self.registers.l,
            ArithmeticTarget::HLI => self.bus.read_byte(self.registers.get_hl()),
        }
    }

    fn write_target(&mut self, t: ArithmeticTarget, v: u8)
        requires
            old(self).wf(),
        ensures
            final(self).wf(),
            final(self)@ == spec_write_target(old(self)@, t, v),
    {
        match t {
            ArithmeticTarget::A => self.registers.a = v,
            ArithmeticTarget::B => self.registers.b = v,
            ArithmeticTarget::C => self.registers.c = v,
            ArithmeticTarget::D => self.registers.d = v,
            ArithmeticTarget::E => self.registers.e = v,
            ArithmeticTarget::H => self.registers.h = v,
            ArithmeticTarget::L => self.registers.l = v,
            ArithmeticTarget::HLI => {
                let addr = self.registers.get_hl();
                self.bus.write_byte(addr, v);
            },
        }
    }

    fn wide_value(&self, p: WidePair) -> (r: u16)
        ensures
            r == spec_wide_value(self@, p),
    {
        match p {
            WidePair::BC => self.registers.get_bc(),
            WidePair::DE => self.registers.get_de(),
            WidePair::HL => self.registers.get_hl(),
            WidePair::SP => self.sp,
        }
    }

    fn stack_value(&self, p: StackPair) -> (r: u16)
        ensures
            r == spec_stack_value(self@, p),
    {
        match p {
            StackPair::BC => self.registers.get_bc(),
            StackPair::DE => self.registers.get_de(),
            StackPair::HL => self.registers.get_hl(),
            StackPair::AF => self.registers.get_af(),
        }
    }

    fn set_stack_pair(&mut self, p: StackPair, v: u16)
        ensures
            final(self)@ == spec_set_stack_pair(old(self)@, p, v),
            final(self).wf() == old(self).wf(),
    {
        match p {
            StackPair::BC => self.registers.set_bc(v),
            StackPair::DE => self.registers.set_de(v),
            StackPair::HL => self.registers.set_hl(v),
            StackPair::AF => self.registers.set_af(v),
        }
    }

    fn push_word(&mut self, v: u16)
        requires
            old(self).wf(),
        ensures
            final(self).wf(),
            final(self)@ == spec_push(old(self)@, v),
    {
        proof {
            assert(((v & 0xff00) >> 8) as u8 == (v / 256) as u8 && (v & 0xff) as u8 == (v
                % 256) as u8) by (bit_vector);
        }
        self.sp = self.sp.wrapping_sub(1);
        self.bus.write_byte(self.sp, ((v & 0xff00) >> 8) as u8);
        self.sp = self.sp.wrapping_sub(1);
        self.bus.write_byte(self.sp, (v & 0xff) as u8);
        proof {
            assert(spec_wrap_sub16(spec_wrap_sub16(old(self).sp, 1), 1) == spec_wrap_sub16(
                old(self).sp,
                2,
            ));
            assert(final(self)@ =~= spec_push(old(self)@, v));
        }
    }

    fn pop_word(&mut self) -> (r: u16)
        requires
            old(self).wf(),
        ensures
            final(self).wf(),
            r == spec_pop_value(old(self)@),
            final(self)@ == (CpuState { sp: spec_wrap_add16(old(self)@.sp, 2), ..old(self)@ }),
    {
        let lo = self.bus.read_byte(self.sp);
        self.sp = self.sp.wrapping_add(1);
        let hi = self.bus.read_byte(self.sp);
        self.sp = self.sp.wrapping_add(1);
        proof {
            assert(spec_wrap_add16(spec_wrap_add16(old(self).sp, 1), 1) == spec_wrap_add16(
                old(self).sp,
                2,
            ));
        }
        hi as u16 * 256 + lo as u16
    }

    fn next_pc(&self, len: u16) -> (r: u16)
        ensures
            r == spec_wrap_add16(self.pc, len),
    {
        self.pc.wrapping_add(len)
    }

    fn alu_cycles(t: ArithmeticTarget) -> (r: u8)
        ensures
            r == spec_alu_cycles(t),
    {
        match t {
            ArithmeticTarget::HLI => 8,
            _ => 4,
        }
    }

    /// Writes an ALU result and its flags to the accumulator; the common
    /// tail of the eight accumulator operations.
    fn apply_acc(&mut self, res: u8, f: FlagsRegister, t: ArithmeticTarget) -> (r: (u16, u8))
        ensures
            final(self)@ == spec_with_acc(old(self)@, res, f),
            final(self).wf() == old(self).wf(),
            r.0 == spec_wrap_add16(old(self).pc, 1),
            r.1 == spec_alu_cycles(t),
    {
        self.registers.a = res;
        self.registers.f = f;
        (self.next_pc(1), Self::alu_cycles(t))
    }

    /// Writes a rotate/shift result back to its operand and sets the
    /// flags; the common tail of the rotate/shift family.
    fn apply_rotate(&mut self, t: ArithmeticTarget, res: u8, f: FlagsRegister) -> (r: (u16, u8))
        requires
            old(self).wf(),
        ensures
            final(self).wf(),
            final(self)@ == spec_with_flags(spec_write_target(old(self)@, t, res), f),
            r.0 == spec_wrap_add16(old(self).pc, 2),
            r.1 == (if t is HLI {
                16u8
            } else {
                8u8
            }),
    {
        self.write_target(t, res);
        self.registers.f = f;
        (self.next_pc(2), Self::rotate_cycles(t))
    }

    /// The accumulator ADD path of the ALU: sets the flags for
    /// `a + value` and returns the wrapped sum, leaving the accumulator
    /// write to the caller.
    pub fn add(&mut self, value: u8) -> (r: u8)
        ensures
            r == alu::spec_add8(old(self).registers.a, value, false),
            final(self)@ == spec_with_flags(
                old(self)@,
                alu::spec_add_flags(old(self).registers.a, value, false),
            ),
            final(self).wf() == old(self).wf(),
    {
        let (res, f) = alu::add8(self.registers.a, value, false);
        self.registers.f = f;
        res
    }

    /// Executes one decoded instruction against the registers and the bus,
    /// returning the next program counter and the cycle cost. The program
    /// counter itself is left to the step loop.
    #[verifier::rlimit(100)]
    pub fn execute(&mut self, instruction: Instruction) -> (r: (u16, u8))
        requires
            old(self).wf(),
            instruction.wf(),
        ensures
            final(self).wf(),
            final(self)@ == spec_execute(old(self)@, instruction).state,
            r.0 == spec_execute(old(self)@, instruction).next_pc,
            r.1 == spec_execute(old(self)@, instruction).cycles,
    {
        match instruction {
            Instruction::Nop => (self.next_pc(1), 4),
            Instruction::Halt => {
                self.state = RunState::Halted;
                (self.next_pc(1), 4)
            },
            Instruction::Stop => {
                self.state = RunState::Stopped;
                (self.next_pc(1), 4)
            },
            Instruction::Add(t) => {
                let value = self.read_target(t);
                let new_value = self.add(value);
                self.registers.a = new_value;
                (self.next_pc(1), Self::alu_cycles(t))
            },
            Instruction::Adc(t) => {
                let value = self.read_target(t);
                let (res, f) = alu::add8(self.registers.a, value, self.registers.f.carry);
                self.apply_acc(res, f, t)
            },
            Instruction::Sub(t) => {
                let value = self.read_target(t);
                let (res, f) = alu::sub8(self.registers.a, value, false);
                self.apply_acc(res, f, t)
            },
            Instruction::Sbc(t) => {
                let value = self.read_target(t);
                let (res, f) = alu::sub8(self.registers.a, value, self.registers.f.carry);
                self.apply_acc(res, f, t)
            },
            Instruction::And(t) => {
                let value = self.read_target(t);
                let (res, f) = alu::and8(self.registers.a, value);
                self.apply_acc(res, f, t)
            },
            Instruction::Xor(t) => {
                let value = self.read_target(t);
                let (res, f) = alu::xor8(self.registers.a, value);
                self.apply_acc(res, f, t)
            },
            Instruction::Or(t) => {
                let value = self.read_target(t);
                let (res, f) = alu::or8(self.registers.a, value);
                self.apply_acc(res, f, t)
            },
            Instruction::Cp(t) => {
                let value = self.read_target(t);
                let (_discarded, f) = alu::sub8(self.registers.a, value, false);
                self.registers.f = f;
                (self.next_pc(1), Self::alu_cycles(t))
            },
            Instruction::Inc(t) => {
                let v = self.read_target(t);
                let (res, f) = alu::inc8(v, self.registers.f.carry);
                self.write_target(t, res);
                self.registers.f = f;
                let cycles: u8 = match t {
                    ArithmeticTarget::HLI => 12,
                    _ => 4,
                };
                (self.next_pc(1), cycles)
            },
            Instruction::Dec(t) => {
                let v = self.read_target(t);
                let (res, f) = alu::dec8(v, self.registers.f.carry);
                self.write_target(t, res);
                self.registers.f = f;
                let cycles: u8 = match t {
                    ArithmeticTarget::HLI => 12,
                    _ => 4,
                };
                (self.next_pc(1), cycles)
            },
            Instruction::AddHl(p) => {
                let hl = self.registers.get_hl();
                let v = self.wide_value(p);
                let (res, f) = alu::add16(hl, v);
                self.registers.set_hl(res);
                self.registers.f = f;
                (self.next_pc(1), 8)
            },
            Instruction::Jp => {
                let target = self.bus.read_word(self.next_pc(1));
                (target, 16)
            },
            Instruction::Call => {
                let ret = self.next_pc(3);
                let target = self.bus.read_word(self.next_pc(1));
                self.push_word(ret);
                (target, 24)
            },
            Instruction::Ret => {
                let addr = self.pop_word();
                (addr, 16)
            },
            Instruction::Push(p) => {
                let v = self.stack_value(p);
                self.push_word(v);
                (self.next_pc(1), 16)
            },
            Instruction::Pop(p) => {
                let v = self.pop_word();
                self.set_stack_pair(p, v);
                (self.next_pc(1), 12)
            },
            Instruction::Rlc(_) | Instruction::Rrc(_) | Instruction::Rl(_) | Instruction::Rr(
                _,
            ) | Instruction::Sla(_) | Instruction::Sra(_) | Instruction::Swap(_) | Instruction::Srl(
                _,
            ) | Instruction::TestBit(_, _) | Instruction::ResetBit(_, _) | Instruction::SetBit(
                _,
                _,
            ) => self.execute_bits(instruction),
        }
    }

    /// The extended (0xCB-prefixed) family: rotates, shifts, nibble swap
    /// and single-bit test/reset/set.
    #[verifier::rlimit(100)]
    fn execute_bits(&mut self, instruction: Instruction) -> (r: (u16, u8))
        requires
            old(self).wf(),
            instruction.wf(),
            instruction is Rlc || instruction is Rrc || instruction is Rl || instruction is Rr
                || instruction is Sla || instruction is Sra || instruction is Swap
                || instruction is Srl || instruction is TestBit || instruction is ResetBit
                || instruction is SetBit,
        ensures
            final(self).wf(),
            final(self)@ == spec_execute(old(self)@, instruction).state,
            r.0 == spec_execute(old(self)@, instruction).next_pc,
            r.1 == spec_execute(old(self)@, instruction).cycles,
    {
        match instruction {
            Instruction::Rlc(t) => {
                let v = self.read_target(t);
                let (res, f) = alu::rlc8(v);
                self.apply_rotate(t, res, f)
            },
            Instruction::Rrc(t) => {
                let v = self.read_target(t);
                let (res, f) = alu::rrc8(v);
                self.apply_rotate(t, res, f)
            },
            Instruction::Rl(t) => {
                let v = self.read_target(t);
                let (res, f) = alu::rl8(v, self.registers.f.carry);
                self.apply_rotate(t, res, f)
            },
            Instruction::Rr(t) => {
                let v = self.read_target(t);
                let (res, f) = alu::rr8(v, self.registers.f.carry);
                self.apply_rotate(t, res, f)
            },
            Instruction::Sla(t) => {
                let v = self.read_target(t);
                let (res, f) = alu::sla8(v);
                self.apply_rotate(t, res, f)
            },
            Instruction::Sra(t) => {
                let v = self.read_target(t);
                let (res, f) = alu::sra8(v);
                self.apply_rotate(t, res, f)
            },
            Instruction::Swap(t) => {
                let v = self.read_target(t);
                let (res, f) = alu::swap8(v);
                self.apply_rotate(t, res, f)
            },
            Instruction::Srl(t) => {
                let v = self.read_target(t);
                let (res, f) = alu::srl8(v);
                self.apply_rotate(t, res, f)
            },
            Instruction::TestBit(bit, t) => {
                let v = self.read_target(t);
                let f = alu::bit_flags(v, bit, self.registers.f.carry);
                self.registers.f = f;
                let cycles: u8 = match t {
                    ArithmeticTarget::HLI => 12,
                    _ => 8,
                };
                (self.next_pc(2), cycles)
            },
            Instruction::ResetBit(bit, t) => {
                let v = self.read_target(t);
                let res = alu::res8(v, bit);
                self.write_target(t, res);
                (self.next_pc(2), Self::rotate_cycles(t))
            },
            Instruction::SetBit(bit, t) => {
                let v = self.read_target(t);
                let res = alu::set8(v, bit);
                self.write_target(t, res);
                (self.next_pc(2), Self::rotate_cycles(t))
            },
            _ => (0, 0),  // excluded by the precondition
        }
    }

    fn rotate_cycles(t: ArithmeticTarget) -> (r: u8)
        ensures
            r == (if t is HLI {
                16u8
            } else {
                8u8
            }),
    {
        match t {
            ArithmeticTarget::HLI => 16,
            _ => 8,
        }
    }

    fn run_instruction(&mut self, instruction: Instruction) -> (r: Result<
        StepOutcome,
        DecodeError,
    >)
        requires
            old(self).wf(),
            instruction.wf(),
        ensures
            final(self).wf(),
            final(self)@ == spec_run_instruction(old(self)@, instruction).state,
            r == spec_run_instruction(old(self)@, instruction).outcome,
    {
        let (next_pc, cycles) = self.execute(instruction);
        self.pc = next_pc;
        self.total_cycles = self.total_cycles.wrapping_add(cycles as u64);
        let halted = match self.state {
            RunState::Running => false,
            _ => true,
        };
        Ok(StepOutcome { cycles, halted })
    }

    /// One step of the fetch-decode-execute loop: fetch at `pc`, decode
    /// (consuming a second byte after the extended prefix), execute, land
    /// `pc` on the returned address and add the cycle cost to the running
    /// total. A CPU that is not running does not fetch; an unmapped opcode
    /// changes nothing and is reported, never panicked on.
    pub fn step(&mut self) -> (r: Result<StepOutcome, DecodeError>)
        requires
            old(self).wf(),
        ensures
            final(self).wf(),
            final(self)@ == spec_step(old(self)@).state,
            r == spec_step(old(self)@).outcome,
    {
        match self.state {
            RunState::Running => {},
            RunState::Halted => {
                return Ok(StepOutcome { cycles: 4, halted: true });
            },
            RunState::Stopped => {
                return Ok(StepOutcome { cycles: 4, halted: true });
            },
        }
        let opcode = self.bus.read_byte(self.pc);
        if opcode == PREFIX_OPCODE {
            let operand_addr = if self.pc == 0xffff {
                0
            } else {
                self.pc + 1
            };
            let opcode2 = self.bus.read_byte(operand_addr);
            match Instruction::from_byte_prefixed(opcode2) {
                Some(instruction) => self.run_instruction(instruction),
                None => Err(DecodeError { opcode: opcode2, prefixed: true }),
            }
        } else {
            match Instruction::from_byte(opcode) {
                Some(instruction) => self.run_instruction(instruction),
                None => Err(DecodeError { opcode, prefixed: false }),
            }
        }
    }
}

/// Law: AND, OR and XOR always clear the carry flag, whatever the
/// operands and the prior flags.
pub proof fn lemma_logic_ops_clear_carry(s: CpuState, t: ArithmeticTarget)
    ensures
        !spec_execute(s, Instruction::And(t)).state.regs.f.carry,
        !spec_execute(s, Instruction::Or(t)).state.regs.f.carry,
        !spec_execute(s, Instruction::Xor(t)).state.regs.f.carry,
{
}

/// Law: INC and DEC leave the carry flag exactly as it was, for every
/// state and every operand.
pub proof fn lemma_inc_dec_preserve_carry(s: CpuState, t: ArithmeticTarget)
    ensures
        spec_execute(s, Instruction::Inc(t)).state.regs.f.carry == s.regs.f.carry,
        spec_execute(s, Instruction::Dec(t)).state.regs.f.carry == s.regs.f.carry,
{
}

/// Law: the extended opcode space never fails to decode, and every
/// extended-prefixed instruction advances the program counter by exactly
/// its two-byte encoding.
pub proof fn lemma_prefixed_step_advances_pc(s: CpuState)
    requires
        s.run is Running,
        s.mem[s.pc as int] == PREFIX_OPCODE,
    ensures
        spec_step(s).outcome is Ok,
        spec_step(s).state.pc == spec_wrap_add16(s.pc, 2),
{
    crate::instruction::lemma_prefixed_decode_total(s.mem[spec_next_addr(s.pc) as int]);
}

/// Law: a decodable single-byte instruction that does not jump (JP, CALL
/// and RET land the program counter elsewhere) advances the program
/// counter by exactly one.
pub proof fn lemma_step_advances_pc(s: CpuState, instruction: Instruction)
    requires
        s.run is Running,
        spec_from_byte(s.mem[s.pc as int]) == Some(instruction),
        !(instruction is Jp),
        !(instruction is Call),
        !(instruction is Ret),
    ensures
        spec_step(s).outcome is Ok,
        spec_step(s).state.pc == spec_wrap_add16(s.pc, 1),
{
    assert(0xcbu8 & 0xc7 == 0xc3u8) by (bit_vector);
}

/// Law: decoding is total. When a step fails it is always the base table
/// that missed (the extended table is fully populated), the error carries
/// exactly the fetched opcode, and the machine state is left unchanged.
pub proof fn lemma_step_error_is_total_decode(s: CpuState)
    requires
        s.run is Running,
        spec_step(s).outcome is Err,
    ensures
        spec_step(s).state == s,
        !spec_step(s).outcome->Err_0.prefixed,
        spec_step(s).outcome->Err_0.opcode == s.mem[s.pc as int],
        spec_from_byte(s.mem[s.pc as int]) is None,
{
    crate::instruction::lemma_prefixed_decode_total(s.mem[spec_next_addr(s.pc) as int]);
}

} // verus!
