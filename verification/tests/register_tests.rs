use gb_core::registers::Registers;

#[test]
fn bc_pair_consistency_all_bytes() {
    let mut regs = Registers::new();
    for b in 0u16..=255 {
        for c in [0u16, 1, 0x7f, 0x80, 0xaa, 0xff] {
            let value = (b << 8) | c;
            regs.set_bc(value);
            assert_eq!(regs.get_bc(), value);
            assert_eq!(regs.b as u16, b);
            assert_eq!(regs.c as u16, c);
        }
    }
}

#[test]
fn de_pair_consistency() {
    let mut regs = Registers::new();
    regs.set_de(0xbeef);
    assert_eq!(regs.get_de(), 0xbeef);
    assert_eq!(regs.d, 0xbe);
    assert_eq!(regs.e, 0xef);
}

#[test]
fn hl_pair_consistency() {
    let mut regs = Registers::new();
    regs.set_hl(0x1234);
    assert_eq!(regs.get_hl(), 0x1234);
    assert_eq!(regs.h, 0x12);
    assert_eq!(regs.l, 0x34);
}

#[test]
fn pair_setters_leave_other_registers_alone() {
    let mut regs = Registers::new();
    regs.a = 0x5a;
    regs.set_bc(0x1122);
    regs.set_de(0x3344);
    regs.set_hl(0x5566);
    assert_eq!(regs.a, 0x5a);
    assert_eq!(regs.get_bc(), 0x1122);
    assert_eq!(regs.get_de(), 0x3344);
    assert_eq!(regs.get_hl(), 0x5566);
}

#[test]
fn af_pair_discards_low_nibble() {
    let mut regs = Registers::new();
    regs.set_af(0x12ff);
    assert_eq!(regs.a, 0x12);
    assert!(regs.f.zero && regs.f.subtract && regs.f.half_carry && regs.f.carry);
    // The low nibble of F is wired to zero, so reading back masks it.
    assert_eq!(regs.get_af(), 0x12f0);
}
