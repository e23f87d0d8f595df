//! The register file: seven 8-bit registers, the flags register, and the
//! virtual 16-bit pairs BC, DE and HL.
//!
//! A pair is no storage of its own. Reading one composes its two halves, the
//! first-named register being the most significant byte, and writing one
//! splits the value over the two halves.

use vstd::prelude::*;
use crate::cpu::flags::FlagsRegister;

verus! {

/// The 16-bit value whose most significant byte is `high` and whose least
/// significant byte is `low`.
pub open spec fn word(high: u8, low: u8) -> u16 {
    (high * 256 + low) as u16
}

/// The most significant byte of `value`.
pub open spec fn high_byte(value: u16) -> u8 {
    (value / 256) as u8
}

/// The least significant byte of `value`.
pub open spec fn low_byte(value: u16) -> u8 {
    (value % 256) as u8
}

/// Composes a 16-bit value from its two bytes.
pub fn join_bytes(high: u8, low: u8) -> (value: u16)
    ensures
        value == word(high, low),
        high_byte(value) == high,
        low_byte(value) == low,
{
    let value = (high as u16) << 8 | (low as u16);
    assert(((high as u16) << 8 | (low as u16)) == (high as u16) * 256 + (low as u16))
        by (bit_vector);
    value
}

/// Splits a 16-bit value into its most and least significant bytes.
pub fn split_word(value: u16) -> (bytes: (u8, u8))
    ensures
        bytes.0 == high_byte(value),
        bytes.1 == low_byte(value),
        word(bytes.0, bytes.1) == value,
{
    let high = ((value & 0xFF00) >> 8) as u8;
    let low = (value & 0x00FF) as u8;
    assert(((value & 0xFF00) >> 8) == value / 256) by (bit_vector);
    assert((value & 0x00FF) == value % 256) by (bit_vector);
    (high, low)
}

/// Splitting a composed value gives the two bytes back, and composing the
/// two halves of a value gives the value back.
pub proof fn lemma_word_round_trip(high: u8, low: u8, value: u16)
    ensures
        high_byte(word(high, low)) == high,
        low_byte(word(high, low)) == low,
        word(high_byte(value), low_byte(value)) == value,
{
}

/// The eight registers of the processor.
#[derive(Clone, Copy, Debug, PartialEq, Eq, Structural)]
pub struct Registers {
    pub a: u8,
    pub b: u8,
    pub c: u8,
    pub d: u8,
    pub e: u8,
    pub f: FlagsRegister,
    pub h: u8,
    pub l: u8,
}

impl Registers {
    /// The value of the pair BC.
    pub open spec fn bc(self) -> u16 {
        word(self.b, self.c)
    }

    /// The value of the pair DE.
    pub open spec fn de(self) -> u16 {
        word(self.d, self.e)
    }

    /// The value of the pair HL.
    pub open spec fn hl(self) -> u16 {
        word(self.h, self.l)
    }

    /// The register file with BC holding `value` and all else as in `self`.
    pub open spec fn with_bc(self, value: u16) -> Registers {
        Registers { b: high_byte(value), c: low_byte(value), ..self }
    }

    /// The register file with DE holding `value` and all else as in `self`.
    pub open spec fn with_de(self, value: u16) -> Registers {
        Registers { d: high_byte(value), e: low_byte(value), ..self }
    }

    /// The register file with HL holding `value` and all else as in `self`.
    pub open spec fn with_hl(self, value: u16) -> Registers {
        Registers { h: high_byte(value), l: low_byte(value), ..self }
    }

    pub fn get_bc(&self) -> (value: u16)
        ensures
            value == self.bc(),
    {
        join_bytes(self.b, self.c)
    }

    pub fn set_bc(&mut self, value: u16)
        ensures
            *final(self) == old(self).with_bc(value),
            final(self).bc() == value,
    {
        let (high, low) = split_word(value);
        self.b = high;
        self.c = low;
    }

    pub fn get_de(&self) -> (value: u16)
        ensures
            value == self.de(),
    {
        join_bytes(self.d, self.e)
    }

    pub fn set_de(&mut self, value: u16)
        ensures
            *final(self) == old(self).with_de(value),
            final(self).de() == value,
    {
        let (high, low) = split_word(value);
        self.d = high;
        self.e = low;
    }

    pub fn get_hl(&self) -> (value: u16)
        ensures
            value == self.hl(),
    {
        join_bytes(self.h, self.l)
    }

    pub fn set_hl(&mut self, value: u16)
        ensures
            *final(self) == old(self).with_hl(value),
            final(self).hl() == value,
    {
        let (high, low) = split_word(value);
        self.h = high;
        self.l = low;
    }
}

/// Writing a pair and reading it back gives the value written, leaves every
/// other register as it was, and a pair written with its own value is
/// unchanged.
pub proof fn lemma_pair_round_trip(registers: Registers, value: u16)
    ensures
        registers.with_bc(value).bc() == value,
        registers.with_de(value).de() == value,
        registers.with_hl(value).hl() == value,
        registers.with_bc(registers.bc()) == registers,
        registers.with_de(registers.de()) == registers,
        registers.with_hl(registers.hl()) == registers,
{
}

/// Writing one pair leaves the other two, the accumulator and the flags as
/// they were.
pub proof fn lemma_pairs_are_independent(registers: Registers, value: u16)
    ensures
        registers.with_bc(value).de() == registers.de(),
        registers.with_bc(value).hl() == registers.hl(),
        registers.with_de(value).bc() == registers.bc(),
        registers.with_de(value).hl() == registers.hl(),
        registers.with_hl(value).bc() == registers.bc(),
        registers.with_hl(value).de() == registers.de(),
        registers.with_bc(value).a == registers.a,
        registers.with_de(value).a == registers.a,
        registers.with_hl(value).a == registers.a,
        registers.with_bc(value).f == registers.f,
        registers.with_de(value).f == registers.f,
        registers.with_hl(value).f == registers.f,
{
}

} // verus!
