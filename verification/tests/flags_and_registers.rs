use sm83_core::cpu::flags::FlagsRegister;
use sm83_core::cpu::registers::{join_bytes, split_word, Registers};

fn flags(zero: bool, subtract: bool, half_carry: bool, carry: bool) -> FlagsRegister {
    FlagsRegister { zero, subtract, half_carry, carry }
}

fn registers() -> Registers {
    Registers { a: 1, b: 2, c: 3, d: 4, e: 5, f: flags(true, false, true, false), h: 6, l: 7 }
}

#[test]
fn pack_puts_each_flag_at_its_bit() {
    assert_eq!(u8::from(flags(false, false, false, false)), 0x00);
    assert_eq!(u8::from(flags(true, false, false, false)), 0x80);
    assert_eq!(u8::from(flags(false, true, false, false)), 0x40);
    assert_eq!(u8::from(flags(false, false, true, false)), 0x20);
    assert_eq!(u8::from(flags(false, false, false, true)), 0x10);
    assert_eq!(u8::from(flags(true, true, true, true)), 0xF0);
    assert_eq!(u8::from(flags(true, false, true, false)), 0xA0);
}

#[test]
fn unpack_reads_the_high_nibble() {
    assert_eq!(FlagsRegister::from(0x00), flags(false, false, false, false));
    assert_eq!(FlagsRegister::from(0x80), flags(true, false, false, false));
    assert_eq!(FlagsRegister::from(0x40), flags(false, true, false, false));
    assert_eq!(FlagsRegister::from(0x20), flags(false, false, true, false));
    assert_eq!(FlagsRegister::from(0x10), flags(false, false, false, true));
    assert_eq!(FlagsRegister::from(0xF0), flags(true, true, true, true));
}

#[test]
fn unpack_ignores_the_low_nibble() {
    assert_eq!(FlagsRegister::from(0x0F), flags(false, false, false, false));
    assert_eq!(FlagsRegister::from(0x9F), flags(true, false, false, true));
}

#[test]
fn unpack_after_pack_is_the_identity_on_every_flag_set() {
    for bits in 0u8..16 {
        let f = flags(bits & 8 != 0, bits & 4 != 0, bits & 2 != 0, bits & 1 != 0);
        assert_eq!(FlagsRegister::from(u8::from(f)), f);
    }
}

#[test]
fn pack_after_unpack_clears_the_low_nibble_of_every_byte() {
    for byte in 0u8..=255 {
        assert_eq!(u8::from(FlagsRegister::from(byte)), byte & 0xF0);
    }
}

#[test]
fn join_and_split_are_big_endian_within_the_pair() {
    assert_eq!(join_bytes(0x12, 0x34), 0x1234);
    assert_eq!(join_bytes(0x00, 0xFF), 0x00FF);
    assert_eq!(join_bytes(0xFF, 0x00), 0xFF00);
    assert_eq!(split_word(0x1234), (0x12, 0x34));
    assert_eq!(split_word(0xFFFF), (0xFF, 0xFF));
    assert_eq!(split_word(0x0000), (0x00, 0x00));
}

#[test]
fn get_pair_composes_high_and_low() {
    let r = registers();
    assert_eq!(r.get_bc(), 0x0203);
    assert_eq!(r.get_de(), 0x0405);
    assert_eq!(r.get_hl(), 0x0607);
}

#[test]
fn set_bc_then_get_bc_round_trips() {
    let mut r = registers();
    r.set_bc(0xABCD);
    assert_eq!(r.get_bc(), 0xABCD);
    assert_eq!((r.b, r.c), (0xAB, 0xCD));
    assert_eq!(Registers { b: 2, c: 3, ..r }, registers());
}

#[test]
fn set_de_then_get_de_round_trips() {
    let mut r = registers();
    r.set_de(0x00FF);
    assert_eq!(r.get_de(), 0x00FF);
    assert_eq!((r.d, r.e), (0x00, 0xFF));
    assert_eq!(Registers { d: 4, e: 5, ..r }, registers());
}

#[test]
fn set_hl_then_get_hl_round_trips() {
    let mut r = registers();
    r.set_hl(0xFF00);
    assert_eq!(r.get_hl(), 0xFF00);
    assert_eq!((r.h, r.l), (0xFF, 0x00));
    assert_eq!(Registers { h: 6, l: 7, ..r }, registers());
}

#[test]
fn pairs_round_trip_on_sampled_values() {
    let mut value: u16 = 0;
    loop {
        let mut r = registers();
        r.set_bc(value);
        r.set_de(value ^ 0x5A5A);
        r.set_hl(!value);
        assert_eq!(r.get_bc(), value);
        assert_eq!(r.get_de(), value ^ 0x5A5A);
        assert_eq!(r.get_hl(), !value);
        match value.checked_add(257) {
            Some(next) => value = next,
            None => break,
        }
    }
}
