//! The instruction set and the opcode decoder.
//!
//! Decoding is total: every base opcode maps to an instruction or to `None`
//! (an unmapped opcode, surfaced as a `DecodeError` by the step loop), and
//! every byte of the extended (0xCB-prefixed) space maps to an instruction.
//! Decoding never looks at operand bytes: immediates are fetched by the
//! execution engine once the instruction tag is known.

use vstd::prelude::*;

verus! {

/// An 8-bit operand: a register, or the byte in memory addressed by HL.
#[derive(Clone, Copy, PartialEq, Eq, Structural, Debug)]
pub enum ArithmeticTarget {
    A,
    B,
    C,
    D,
    E,
    H,
    L,
    HLI,
}

/// A 16-bit source for ADD HL.
#[derive(Clone, Copy, PartialEq, Eq, Structural, Debug)]
pub enum WidePair {
    BC,
    DE,
    HL,
    SP,
}

/// A 16-bit register pair moved by PUSH and POP.
#[derive(Clone, Copy, PartialEq, Eq, Structural, Debug)]
pub enum StackPair {
    BC,
    DE,
    HL,
    AF,
}

/// An unmapped opcode, reported with the byte and the table it missed.
#[derive(Clone, Copy, PartialEq, Eq, Structural, Debug)]
pub struct DecodeError {
    pub opcode: u8,
    pub prefixed: bool,
}

/// A decoded instruction: operation kind plus operand descriptor.
#[derive(Clone, Copy, PartialEq, Eq, Structural, Debug)]
pub enum Instruction {
    Nop,
    Halt,
    Stop,
    Add(ArithmeticTarget),
    Adc(ArithmeticTarget),
    Sub(ArithmeticTarget),
    Sbc(ArithmeticTarget),
    And(ArithmeticTarget),
    Xor(ArithmeticTarget),
    Or(ArithmeticTarget),
    Cp(ArithmeticTarget),
    Inc(ArithmeticTarget),
    Dec(ArithmeticTarget),
    AddHl(WidePair),
    Jp,
    Call,
    Ret,
    Push(StackPair),
    Pop(StackPair),
    Rlc(ArithmeticTarget),
    Rrc(ArithmeticTarget),
    Rl(ArithmeticTarget),
    Rr(ArithmeticTarget),
    Sla(ArithmeticTarget),
    Sra(ArithmeticTarget),
    Swap(ArithmeticTarget),
    Srl(ArithmeticTarget),
    TestBit(u8, ArithmeticTarget),
    ResetBit(u8, ArithmeticTarget),
    SetBit(u8, ArithmeticTarget),
}

/// The base opcode that selects the extended table.
pub const PREFIX_OPCODE: u8 = 0xcb;

/// The operand encoded by the low three bits of an opcode, in the
/// hardware's fixed order B, C, D, E, H, L, (HL), A.
pub open spec fn spec_target_of(code: u8) -> ArithmeticTarget {
    if code == 0 {
        ArithmeticTarget::B
    } else if code == 1 {
        ArithmeticTarget::C
    } else if code == 2 {
        ArithmeticTarget::D
    } else if code == 3 {
        ArithmeticTarget::E
    } else if code == 4 {
        ArithmeticTarget::H
    } else if code == 5 {
        ArithmeticTarget::L
    } else if code == 6 {
        ArithmeticTarget::HLI
    } else {
        ArithmeticTarget::A
    }
}

/// The base opcode table. `None` marks the unmapped opcodes and the
/// extended-table prefix, which is not an instruction by itself.
pub open spec fn spec_from_byte(byte: u8) -> Option<Instruction> {
    if byte == 0x00 {
        Some(Instruction::Nop)
    } else if byte == 0x10 {
        Some(Instruction::Stop)
    } else if byte == 0x76 {
        Some(Instruction::Halt)
    } else if 0x80 <= byte && byte <= 0xbf {
        Some(spec_alu_instruction((byte >> 3) & 7, spec_target_of(byte & 7)))
    } else if byte & 0xc7 == 0x04 {
        Some(Instruction::Inc(spec_target_of((byte >> 3) & 7)))
    } else if byte & 0xc7 == 0x05 {
        Some(Instruction::Dec(spec_target_of((byte >> 3) & 7)))
    } else if byte == 0x09 {
        Some(Instruction::AddHl(WidePair::BC))
    } else if byte == 0x19 {
        Some(Instruction::AddHl(WidePair::DE))
    } else if byte == 0x29 {
        Some(Instruction::AddHl(WidePair::HL))
    } else if byte == 0x39 {
        Some(Instruction::AddHl(WidePair::SP))
    } else if byte == 0xc3 {
        Some(Instruction::Jp)
    } else if byte == 0xcd {
        Some(Instruction::Call)
    } else if byte == 0xc9 {
        Some(Instruction::Ret)
    } else if byte == 0xc5 {
        Some(Instruction::Push(StackPair::BC))
    } else if byte == 0xd5 {
        Some(Instruction::Push(StackPair::DE))
    } else if byte == 0xe5 {
        Some(Instruction::Push(StackPair::HL))
    } else if byte == 0xf5 {
        Some(Instruction::Push(StackPair::AF))
    } else if byte == 0xc1 {
        Some(Instruction::Pop(StackPair::BC))
    } else if byte == 0xd1 {
        Some(Instruction::Pop(StackPair::DE))
    } else if byte == 0xe1 {
        Some(Instruction::Pop(StackPair::HL))
    } else if byte == 0xf1 {
        Some(Instruction::Pop(StackPair::AF))
    } else {
        None
    }
}

/// The eight-way ALU row of the base table, selected by opcode bits 3–5.
pub open spec fn spec_alu_instruction(op: u8, t: ArithmeticTarget) -> Instruction {
    if op == 0 {
        Instruction::Add(t)
    } else if op == 1 {
        Instruction::Adc(t)
    } else if op == 2 {
        Instruction::Sub(t)
    } else if op == 3 {
        Instruction::Sbc(t)
    } else if op == 4 {
        Instruction::And(t)
    } else if op == 5 {
        Instruction::Xor(t)
    } else if op == 6 {
        Instruction::Or(t)
    } else {
        Instruction::Cp(t)
    }
}

/// The extended (0xCB-prefixed) opcode table. It is fully populated: bits
/// 6–7 select the family, bits 3–5 the rotation kind or the bit index, bits
/// 0–2 the operand.
pub open spec fn spec_from_byte_prefixed(byte: u8) -> Option<Instruction> {
    let t = spec_target_of(byte & 7);
    let row = (byte >> 3) & 7;
    if byte >> 6 == 1 {
        Some(Instruction::TestBit(row, t))
    } else if byte >> 6 == 2 {
        Some(Instruction::ResetBit(row, t))
    } else if byte >> 6 == 3 {
        Some(Instruction::SetBit(row, t))
    } else if row == 0 {
        Some(Instruction::Rlc(t))
    } else if row == 1 {
        Some(Instruction::Rrc(t))
    } else if row == 2 {
        Some(Instruction::Rl(t))
    } else if row == 3 {
        Some(Instruction::Rr(t))
    } else if row == 4 {
        Some(Instruction::Sla(t))
    } else if row == 5 {
        Some(Instruction::Sra(t))
    } else if row == 6 {
        Some(Instruction::Swap(t))
    } else {
        Some(Instruction::Srl(t))
    }
}

impl Instruction {
    /// An instruction is well formed when a carried bit index addresses one
    /// of the eight bits of a byte. Decoding only produces well-formed
    /// instructions.
    pub open spec fn wf(&self) -> bool {
        match *self {
            Instruction::TestBit(bit, _) => bit < 8,
            Instruction::ResetBit(bit, _) => bit < 8,
            Instruction::SetBit(bit, _) => bit < 8,
            _ => true,
        }
    }

    /// The encoded length in bytes: the prefix byte for the extended
    /// family, and the two immediate operand bytes of JP and CALL, count
    /// toward it.
    pub open spec fn spec_len(&self) -> u16 {
        match *self {
            Instruction::Jp => 3,
            Instruction::Call => 3,
            Instruction::Rlc(_) => 2,
            Instruction::Rrc(_) => 2,
            Instruction::Rl(_) => 2,
            Instruction::Rr(_) => 2,
            Instruction::Sla(_) => 2,
            Instruction::Sra(_) => 2,
            Instruction::Swap(_) => 2,
            Instruction::Srl(_) => 2,
            Instruction::TestBit(_, _) => 2,
            Instruction::ResetBit(_, _) => 2,
            Instruction::SetBit(_, _) => 2,
            _ => 1,
        }
    }

    /// Looks up a base-table opcode.
    pub fn from_byte(byte: u8) -> (r: Option<Instruction>)
        ensures
            r == spec_from_byte(byte),
            r matches Some(i) ==> i.wf(),
    {
        proof {
            lemma_opcode_field_bounds(byte);
        }
        if byte == 0x00 {
            Some(Instruction::Nop)
        } else if byte == 0x10 {
            Some(Instruction::Stop)
        } else if byte == 0x76 {
            Some(Instruction::Halt)
        } else if 0x80 <= byte && byte <= 0xbf {
            Some(Self::alu_instruction((byte >> 3) & 7, Self::target_of(byte & 7)))
        } else if byte & 0xc7 == 0x04 {
            Some(Instruction::Inc(Self::target_of((byte >> 3) & 7)))
        } else if byte & 0xc7 == 0x05 {
            Some(Instruction::Dec(Self::target_of((byte >> 3) & 7)))
        } else if byte == 0x09 {
            Some(Instruction::AddHl(WidePair::BC))
        } else if byte == 0x19 {
            Some(Instruction::AddHl(WidePair::DE))
        } else if byte == 0x29 {
            Some(Instruction::AddHl(WidePair::HL))
        } else if byte == 0x39 {
            Some(Instruction::AddHl(WidePair::SP))
        } else if byte == 0xc3 {
            Some(Instruction::Jp)
        } else if byte == 0xcd {
            Some(Instruction::Call)
        } else if byte == 0xc9 {
            Some(Instruction::Ret)
        } else if byte == 0xc5 {
            Some(Instruction::Push(StackPair::BC))
        } else if byte == 0xd5 {
            Some(Instruction::Push(StackPair::DE))
        } else if byte == 0xe5 {
            Some(Instruction::Push(StackPair::HL))
        } else if byte == 0xf5 {
            Some(Instruction::Push(StackPair::AF))
        } else if byte == 0xc1 {
            Some(Instruction::Pop(StackPair::BC))
        } else if byte == 0xd1 {
            Some(Instruction::Pop(StackPair::DE))
        } else if byte == 0xe1 {
            Some(Instruction::Pop(StackPair::HL))
        } else if byte == 0xf1 {
            Some(Instruction::Pop(StackPair::AF))
        } else {
            None
        }
    }

    /// Looks up an extended-table opcode; the extended table is fully
    /// populated, so the lookup always succeeds.
    pub fn from_byte_prefixed(byte: u8) -> (r: Option<Instruction>)
        ensures
            r == spec_from_byte_prefixed(byte),
            r matches Some(i) ==> i.wf(),
    {
        proof {
            lemma_opcode_field_bounds(byte);
        }
        let t = Self::target_of(byte & 7);
        let row = (byte >> 3) & 7;
        if byte >> 6 == 1 {
            Some(Instruction::TestBit(row, t))
        } else if byte >> 6 == 2 {
            Some(Instruction::ResetBit(row, t))
        } else if byte >> 6 == 3 {
            Some(Instruction::SetBit(row, t))
        } else if row == 0 {
            Some(Instruction::Rlc(t))
        } else if row == 1 {
            Some(Instruction::Rrc(t))
        } else if row == 2 {
            Some(Instruction::Rl(t))
        } else if row == 3 {
            Some(Instruction::Rr(t))
        } else if row == 4 {
            Some(Instruction::Sla(t))
        } else if row == 5 {
            Some(Instruction::Sra(t))
        } else if row == 6 {
            Some(Instruction::Swap(t))
        } else {
            Some(Instruction::Srl(t))
        }
    }

    fn target_of(code: u8) -> (r: ArithmeticTarget)
        ensures
            r == spec_target_of(code),
    {
        if code == 0 {
            ArithmeticTarget::B
        } else if code == 1 {
            ArithmeticTarget::C
        } else if code == 2 {
            ArithmeticTarget::D
        } else if code == 3 {
            ArithmeticTarget::E
        } else if code == 4 {
            ArithmeticTarget::H
        } else if code == 5 {
            ArithmeticTarget::L
        } else if code == 6 {
            ArithmeticTarget::HLI
        } else {
            ArithmeticTarget::A
        }
    }

    fn alu_instruction(op: u8, t: ArithmeticTarget) -> (r: Instruction)
        ensures
            r == spec_alu_instruction(op, t),
    {
        if op == 0 {
            Instruction::Add(t)
        } else if op == 1 {
            Instruction::Adc(t)
        } else if op == 2 {
            Instruction::Sub(t)
        } else if op == 3 {
            Instruction::Sbc(t)
        } else if op == 4 {
            Instruction::And(t)
        } else if op == 5 {
            Instruction::Xor(t)
        } else if op == 6 {
            Instruction::Or(t)
        } else {
            Instruction::Cp(t)
        }
    }
}

proof fn lemma_opcode_field_bounds(byte: u8)
    by (bit_vector)
    ensures
        (byte >> 3) & 7 < 8,
        byte & 7 < 8,
{
}

/// Law: the extended opcode table is total — every byte of the extended
/// space decodes to an instruction, and a well-formed one.
pub proof fn lemma_prefixed_decode_total(byte: u8)
    ensures
        spec_from_byte_prefixed(byte) is Some,
        spec_from_byte_prefixed(byte)->Some_0.wf(),
{
    lemma_opcode_field_bounds(byte);
}

/// Law: the base opcode table only yields well-formed instructions.
pub proof fn lemma_base_decode_wf(byte: u8)
    ensures
        spec_from_byte(byte) matches Some(i) ==> i.wf(),
{
}

} // verus!
