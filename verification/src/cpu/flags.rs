//! The flags register: four condition flags and their packed byte form.
//!
//! Bit 7 holds the zero flag, bit 6 the subtract flag, bit 5 the half-carry
//! flag and bit 4 the carry flag. The low nibble of the packed byte is always
//! zero, and is ignored when a byte is unpacked.

use vstd::prelude::*;
use vstd::std_specs::convert::FromSpec;

verus! {

pub const ZERO_FLAG_BYTE_POSITION: u8 = 7;

pub const SUBTRACT_FLAG_BYTE_POSITION: u8 = 6;

pub const HALF_CARRY_FLAG_BYTE_POSITION: u8 = 5;

pub const CARRY_FLAG_BYTE_POSITION: u8 = 4;

/// The four condition flags of the processor.
#[derive(Clone, Copy, Debug, PartialEq, Eq, Structural)]
pub struct FlagsRegister {
    pub zero: bool,
    pub subtract: bool,
    pub half_carry: bool,
    pub carry: bool,
}

/// The byte in which only bit `position` may be set, and is set exactly when
/// `flag` holds.
pub open spec fn flag_mask(flag: bool, position: u8) -> u8 {
    if flag {
        1u8 << position
    } else {
        0u8
    }
}

/// Whether bit `position` of `byte` is set.
pub open spec fn bit_is_set(byte: u8, position: u8) -> bool {
    (byte >> position) & 1u8 == 1u8
}

impl FlagsRegister {
    /// The packed byte: each flag at its own bit, the low nibble zero.
    pub open spec fn packed(self) -> u8 {
        flag_mask(self.zero, ZERO_FLAG_BYTE_POSITION)
            | flag_mask(self.subtract, SUBTRACT_FLAG_BYTE_POSITION)
            | flag_mask(self.half_carry, HALF_CARRY_FLAG_BYTE_POSITION)
            | flag_mask(self.carry, CARRY_FLAG_BYTE_POSITION)
    }

    /// The flags that the high nibble of `byte` encodes.
    pub open spec fn unpacked(byte: u8) -> FlagsRegister {
        FlagsRegister {
            zero: bit_is_set(byte, ZERO_FLAG_BYTE_POSITION),
            subtract: bit_is_set(byte, SUBTRACT_FLAG_BYTE_POSITION),
            half_carry: bit_is_set(byte, HALF_CARRY_FLAG_BYTE_POSITION),
            carry: bit_is_set(byte, CARRY_FLAG_BYTE_POSITION),
        }
    }
}

/// The flags shifted to their positions give the packed byte.
proof fn lemma_shifted_flags_are_packed(zero: bool, subtract: bool, half_carry: bool, carry: bool)
    by (bit_vector)
    ensures
        (if zero { 1u8 } else { 0u8 }) << ZERO_FLAG_BYTE_POSITION
            | (if subtract { 1u8 } else { 0u8 }) << SUBTRACT_FLAG_BYTE_POSITION
            | (if half_carry { 1u8 } else { 0u8 }) << HALF_CARRY_FLAG_BYTE_POSITION
            | (if carry { 1u8 } else { 0u8 }) << CARRY_FLAG_BYTE_POSITION
            == flag_mask(zero, ZERO_FLAG_BYTE_POSITION)
            | flag_mask(subtract, SUBTRACT_FLAG_BYTE_POSITION)
            | flag_mask(half_carry, HALF_CARRY_FLAG_BYTE_POSITION)
            | flag_mask(carry, CARRY_FLAG_BYTE_POSITION),
{
}

impl From<FlagsRegister> for u8 {
    fn from(flag: FlagsRegister) -> (byte: u8) {
        let zero: u8 = if flag.zero { 1 } else { 0 };
        let subtract: u8 = if flag.subtract { 1 } else { 0 };
        let half_carry: u8 = if flag.half_carry { 1 } else { 0 };
        let carry: u8 = if flag.carry { 1 } else { 0 };
        proof {
            lemma_shifted_flags_are_packed(flag.zero, flag.subtract, flag.half_carry, flag.carry);
        }
        zero << ZERO_FLAG_BYTE_POSITION | subtract << SUBTRACT_FLAG_BYTE_POSITION
            | half_carry << HALF_CARRY_FLAG_BYTE_POSITION | carry << CARRY_FLAG_BYTE_POSITION
    }
}

impl vstd::std_specs::convert::FromSpecImpl<FlagsRegister> for u8 {
    open spec fn obeys_from_spec() -> bool {
        true
    }

    open spec fn from_spec(flag: FlagsRegister) -> u8 {
        flag.packed()
    }
}

impl From<u8> for FlagsRegister {
    fn from(byte: u8) -> (flags: FlagsRegister) {
        let zero = ((byte >> ZERO_FLAG_BYTE_POSITION) & 0b1) != 0;
        let subtract = ((byte >> SUBTRACT_FLAG_BYTE_POSITION) & 0b1) != 0;
        let half_carry = ((byte >> HALF_CARRY_FLAG_BYTE_POSITION) & 0b1) != 0;
        let carry = ((byte >> CARRY_FLAG_BYTE_POSITION) & 0b1) != 0;
        proof {
            lemma_masked_bit_is_zero_or_one(byte);
        }
        FlagsRegister { zero, subtract, half_carry, carry }
    }
}

impl vstd::std_specs::convert::FromSpecImpl<u8> for FlagsRegister {
    open spec fn obeys_from_spec() -> bool {
        true
    }

    open spec fn from_spec(byte: u8) -> FlagsRegister {
        FlagsRegister::unpacked(byte)
    }
}

/// A bit is set exactly when it is not clear.
proof fn lemma_masked_bit_is_zero_or_one(byte: u8)
    by (bit_vector)
    ensures
        forall|position: u8| #[trigger] bit_is_set(byte, position) <==> (byte >> position) & 1u8 != 0u8,
{
}

/// Unpacking a packed flag set gives the same flag set back.
pub proof fn lemma_unpack_pack(flags: FlagsRegister)
    ensures
        FlagsRegister::unpacked(flags.packed()) == flags,
        FlagsRegister::from_spec(u8::from_spec(flags)) == flags,
{
    lemma_packed_bits(flags.zero, flags.subtract, flags.half_carry, flags.carry);
}

/// Packing clears the low nibble: packing the flags unpacked from a byte
/// gives that byte with bits 3 to 0 cleared.
pub proof fn lemma_pack_unpack(byte: u8)
    ensures
        FlagsRegister::unpacked(byte).packed() == byte & 0xF0,
        u8::from_spec(FlagsRegister::from_spec(byte)) == byte & 0xF0,
        FlagsRegister::unpacked(byte).packed() & 0x0F == 0,
{
    lemma_unpacked_bits(byte);
}

proof fn lemma_packed_bits(zero: bool, subtract: bool, half_carry: bool, carry: bool)
    by (bit_vector)
    ensures
        ({
            let byte = flag_mask(zero, ZERO_FLAG_BYTE_POSITION)
                | flag_mask(subtract, SUBTRACT_FLAG_BYTE_POSITION)
                | flag_mask(half_carry, HALF_CARRY_FLAG_BYTE_POSITION)
                | flag_mask(carry, CARRY_FLAG_BYTE_POSITION);
            &&& bit_is_set(byte, ZERO_FLAG_BYTE_POSITION) == zero
            &&& bit_is_set(byte, SUBTRACT_FLAG_BYTE_POSITION) == subtract
            &&& bit_is_set(byte, HALF_CARRY_FLAG_BYTE_POSITION) == half_carry
            &&& bit_is_set(byte, CARRY_FLAG_BYTE_POSITION) == carry
        }),
{
}

proof fn lemma_unpacked_bits(byte: u8)
    by (bit_vector)
    ensures
        ({
            let packed = flag_mask(bit_is_set(byte, ZERO_FLAG_BYTE_POSITION), ZERO_FLAG_BYTE_POSITION)
                | flag_mask(
                bit_is_set(byte, SUBTRACT_FLAG_BYTE_POSITION),
                SUBTRACT_FLAG_BYTE_POSITION,
            ) | flag_mask(
                bit_is_set(byte, HALF_CARRY_FLAG_BYTE_POSITION),
                HALF_CARRY_FLAG_BYTE_POSITION,
            ) | flag_mask(bit_is_set(byte, CARRY_FLAG_BYTE_POSITION), CARRY_FLAG_BYTE_POSITION);
            &&& packed == byte & 0xF0
            &&& packed & 0x0F == 0
        }),
{
}

} // verus!
