use sm83_core::cpu::instructions::{IncDecTarget, Instruction, PrefixTarget, PREFIX_BYTE};

#[test]
fn primary_zero_decodes_to_inc_bc() {
    assert_eq!(Instruction::from_byte(0x00, false), Some(Instruction::INC(IncDecTarget::BC)));
    assert_eq!(
        Instruction::from_byte_not_prefixed(0x00),
        Some(Instruction::INC(IncDecTarget::BC))
    );
}

#[test]
fn prefixed_zero_decodes_to_rlc_b() {
    assert_eq!(Instruction::from_byte(0x00, true), Some(Instruction::RLC(PrefixTarget::B)));
    assert_eq!(Instruction::from_byte_prefixed(0x00), Some(Instruction::RLC(PrefixTarget::B)));
}

#[test]
fn bytes_without_an_entry_decode_to_nothing_in_either_space() {
    for byte in 1u8..=255 {
        assert_eq!(Instruction::from_byte(byte, false), None);
        assert_eq!(Instruction::from_byte(byte, true), None);
        assert_eq!(Instruction::from_byte_not_prefixed(byte), None);
        assert_eq!(Instruction::from_byte_prefixed(byte), None);
    }
}

#[test]
fn the_two_opcode_spaces_are_independent() {
    assert_ne!(Instruction::from_byte(0x00, true), Instruction::from_byte(0x00, false));
}

#[test]
fn the_escape_byte_is_cb() {
    assert_eq!(PREFIX_BYTE, 0xCB);
    assert_eq!(Instruction::from_byte(PREFIX_BYTE, false), None);
}
