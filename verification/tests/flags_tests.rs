use gb_core::flags::FlagsRegister;

fn all_combinations() -> Vec<FlagsRegister> {
    let mut v = Vec::new();
    for bits in 0u8..16 {
        v.push(FlagsRegister {
            zero: bits & 8 != 0,
            subtract: bits & 4 != 0,
            half_carry: bits & 2 != 0,
            carry: bits & 1 != 0,
        });
    }
    v
}

#[test]
fn flags_round_trip_all_combinations() {
    for f in all_combinations() {
        assert_eq!(FlagsRegister::from_byte(f.to_byte()), f);
    }
}

#[test]
fn flags_byte_positions() {
    let mut f = FlagsRegister::new();
    assert_eq!(f.to_byte(), 0x00);
    f.zero = true;
    assert_eq!(f.to_byte(), 0x80);
    f.zero = false;
    f.subtract = true;
    assert_eq!(f.to_byte(), 0x40);
    f.subtract = false;
    f.half_carry = true;
    assert_eq!(f.to_byte(), 0x20);
    f.half_carry = false;
    f.carry = true;
    assert_eq!(f.to_byte(), 0x10);
}

#[test]
fn flags_byte_low_nibble_always_zero() {
    for f in all_combinations() {
        assert_eq!(f.to_byte() & 0x0f, 0);
    }
}

#[test]
fn flags_from_byte_ignores_low_nibble() {
    for low in 0u8..16 {
        let f = FlagsRegister::from_byte(0xb0 | low);
        assert_eq!(
            f,
            FlagsRegister { zero: true, subtract: false, half_carry: true, carry: true }
        );
    }
}
