use gb_core::instruction::ArithmeticTarget;
use gb_core::instruction::Instruction;
use gb_core::instruction::StackPair;
use gb_core::instruction::WidePair;
use gb_core::instruction::PREFIX_OPCODE;

#[test]
fn base_decode_is_total() {
    // Every base byte decodes to Some instruction or None; no byte panics.
    let mut mapped = 0u32;
    for byte in 0u16..=255 {
        if Instruction::from_byte(byte as u8).is_some() {
            mapped += 1;
        }
    }
    // 3 (NOP/STOP/HALT) + 64 ALU + 8 INC + 8 DEC + 4 ADD HL + 3 (JP/CALL/RET)
    // + 4 PUSH + 4 POP.
    assert_eq!(mapped, 98);
}

#[test]
fn prefixed_decode_is_total() {
    for byte in 0u16..=255 {
        assert!(Instruction::from_byte_prefixed(byte as u8).is_some());
    }
}

#[test]
fn prefix_byte_is_not_a_base_instruction() {
    assert_eq!(Instruction::from_byte(PREFIX_OPCODE), None);
}

#[test]
fn base_decode_spot_checks() {
    assert_eq!(Instruction::from_byte(0x00), Some(Instruction::Nop));
    assert_eq!(Instruction::from_byte(0x10), Some(Instruction::Stop));
    assert_eq!(Instruction::from_byte(0x76), Some(Instruction::Halt));
    assert_eq!(
        Instruction::from_byte(0x80),
        Some(Instruction::Add(ArithmeticTarget::B))
    );
    assert_eq!(
        Instruction::from_byte(0x81),
        Some(Instruction::Add(ArithmeticTarget::C))
    );
    assert_eq!(
        Instruction::from_byte(0x86),
        Some(Instruction::Add(ArithmeticTarget::HLI))
    );
    assert_eq!(
        Instruction::from_byte(0x87),
        Some(Instruction::Add(ArithmeticTarget::A))
    );
    assert_eq!(
        Instruction::from_byte(0x8a),
        Some(Instruction::Adc(ArithmeticTarget::D))
    );
    assert_eq!(
        Instruction::from_byte(0x93),
        Some(Instruction::Sub(ArithmeticTarget::E))
    );
    assert_eq!(
        Instruction::from_byte(0x9c),
        Some(Instruction::Sbc(ArithmeticTarget::H))
    );
    assert_eq!(
        Instruction::from_byte(0xa5),
        Some(Instruction::And(ArithmeticTarget::L))
    );
    assert_eq!(
        Instruction::from_byte(0xa8),
        Some(Instruction::Xor(ArithmeticTarget::B))
    );
    assert_eq!(
        Instruction::from_byte(0xb7),
        Some(Instruction::Or(ArithmeticTarget::A))
    );
    assert_eq!(
        Instruction::from_byte(0xbe),
        Some(Instruction::Cp(ArithmeticTarget::HLI))
    );
}

#[test]
fn base_decode_inc_dec_rows() {
    assert_eq!(
        Instruction::from_byte(0x04),
        Some(Instruction::Inc(ArithmeticTarget::B))
    );
    assert_eq!(
        Instruction::from_byte(0x34),
        Some(Instruction::Inc(ArithmeticTarget::HLI))
    );
    assert_eq!(
        Instruction::from_byte(0x3c),
        Some(Instruction::Inc(ArithmeticTarget::A))
    );
    assert_eq!(
        Instruction::from_byte(0x05),
        Some(Instruction::Dec(ArithmeticTarget::B))
    );
    assert_eq!(
        Instruction::from_byte(0x2d),
        Some(Instruction::Dec(ArithmeticTarget::L))
    );
    assert_eq!(
        Instruction::from_byte(0x35),
        Some(Instruction::Dec(ArithmeticTarget::HLI))
    );
}

#[test]
fn base_decode_wide_and_control() {
    assert_eq!(
        Instruction::from_byte(0x09),
        Some(Instruction::AddHl(WidePair::BC))
    );
    assert_eq!(
        Instruction::from_byte(0x19),
        Some(Instruction::AddHl(WidePair::DE))
    );
    assert_eq!(
        Instruction::from_byte(0x29),
        Some(Instruction::AddHl(WidePair::HL))
    );
    assert_eq!(
        Instruction::from_byte(0x39),
        Some(Instruction::AddHl(WidePair::SP))
    );
    assert_eq!(Instruction::from_byte(0xc3), Some(Instruction::Jp));
    assert_eq!(Instruction::from_byte(0xcd), Some(Instruction::Call));
    assert_eq!(Instruction::from_byte(0xc9), Some(Instruction::Ret));
    assert_eq!(
        Instruction::from_byte(0xc5),
        Some(Instruction::Push(StackPair::BC))
    );
    assert_eq!(
        Instruction::from_byte(0xf5),
        Some(Instruction::Push(StackPair::AF))
    );
    assert_eq!(
        Instruction::from_byte(0xd1),
        Some(Instruction::Pop(StackPair::DE))
    );
    assert_eq!(
        Instruction::from_byte(0xe1),
        Some(Instruction::Pop(StackPair::HL))
    );
}

#[test]
fn base_decode_unmapped_bytes() {
    for byte in [0x01u8, 0x40, 0x7f, 0xc0, 0xd3, 0xfd, 0xff] {
        assert_eq!(Instruction::from_byte(byte), None);
    }
}

#[test]
fn prefixed_decode_spot_checks() {
    assert_eq!(
        Instruction::from_byte_prefixed(0x00),
        Some(Instruction::Rlc(ArithmeticTarget::B))
    );
    assert_eq!(
        Instruction::from_byte_prefixed(0x0f),
        Some(Instruction::Rrc(ArithmeticTarget::A))
    );
    assert_eq!(
        Instruction::from_byte_prefixed(0x11),
        Some(Instruction::Rl(ArithmeticTarget::C))
    );
    assert_eq!(
        Instruction::from_byte_prefixed(0x1e),
        Some(Instruction::Rr(ArithmeticTarget::HLI))
    );
    assert_eq!(
        Instruction::from_byte_prefixed(0x22),
        Some(Instruction::Sla(ArithmeticTarget::D))
    );
    assert_eq!(
        Instruction::from_byte_prefixed(0x2b),
        Some(Instruction::Sra(ArithmeticTarget::E))
    );
    assert_eq!(
        Instruction::from_byte_prefixed(0x37),
        Some(Instruction::Swap(ArithmeticTarget::A))
    );
    assert_eq!(
        Instruction::from_byte_prefixed(0x3d),
        Some(Instruction::Srl(ArithmeticTarget::L))
    );
    assert_eq!(
        Instruction::from_byte_prefixed(0x7e),
        Some(Instruction::TestBit(7, ArithmeticTarget::HLI))
    );
    assert_eq!(
        Instruction::from_byte_prefixed(0x40),
        Some(Instruction::TestBit(0, ArithmeticTarget::B))
    );
    assert_eq!(
        Instruction::from_byte_prefixed(0x87),
        Some(Instruction::ResetBit(0, ArithmeticTarget::A))
    );
    assert_eq!(
        Instruction::from_byte_prefixed(0xb9),
        Some(Instruction::ResetBit(7, ArithmeticTarget::C))
    );
    assert_eq!(
        Instruction::from_byte_prefixed(0xc2),
        Some(Instruction::SetBit(0, ArithmeticTarget::D))
    );
    assert_eq!(
        Instruction::from_byte_prefixed(0xff),
        Some(Instruction::SetBit(7, ArithmeticTarget::A))
    );
}
