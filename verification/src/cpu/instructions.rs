//! Instructions and the decoder that maps opcode bytes to them.
//!
//! There are two independent opcode spaces. A byte fetched at the program
//! counter is looked up in the primary table, unless it is the escape byte:
//! then the byte that follows is looked up in the prefixed table. Both tables
//! are plain data, and a byte without an entry decodes to nothing.

use vstd::prelude::*;

verus! {

/// The primary opcode that escapes to the prefixed opcode space.
pub const PREFIX_BYTE: u8 = 0xCB;

#[derive(Clone, Copy, Debug, PartialEq, Eq, Structural)]
pub enum Instruction {
    /// Add the target register to A and store the result in A.
    ADD(ArithmeticTarget),
    /// Increment a register pair.
    INC(IncDecTarget),
    /// Rotate a register left.
    RLC(PrefixTarget),
    /// Jump to the address that follows the opcode, if the test holds.
    JP(JumpTest),
    /// Copy a value from a source to a target.
    LD(LoadType),
    /// Push a register pair onto the stack.
    PUSH(StackTarget),
    /// Pop a register pair from the stack.
    POP(StackTarget),
    /// Call the routine at the address that follows the opcode.
    CALL(JumpTest),
    /// Return from a routine.
    RET(JumpTest),
}

#[derive(Clone, Copy, Debug, PartialEq, Eq, Structural)]
pub enum ArithmeticTarget {
    A,
    B,
    C,
    D,
    E,
    H,
    L,
}

#[derive(Clone, Copy, Debug, PartialEq, Eq, Structural)]
pub enum IncDecTarget {
    BC,
    DE,
}

#[derive(Clone, Copy, Debug, PartialEq, Eq, Structural)]
pub enum PrefixTarget {
    B,
}

#[derive(Clone, Copy, Debug, PartialEq, Eq, Structural)]
pub enum JumpTest {
    NotZero,
    Zero,
    NotCarry,
    Carry,
    Always,
}

/// Where a loaded byte goes: a register, or the memory cell that HL points to.
#[derive(Clone, Copy, Debug, PartialEq, Eq, Structural)]
pub enum LoadByteTarget {
    A,
    B,
    C,
    D,
    E,
    H,
    L,
    HLI,
}

/// Where a loaded byte comes from: a register, the byte that follows the
/// opcode (`D8`), or the memory cell that HL points to.
#[derive(Clone, Copy, Debug, PartialEq, Eq, Structural)]
pub enum LoadByteSource {
    A,
    B,
    C,
    D,
    E,
    H,
    L,
    D8,
    HLI,
}

#[derive(Clone, Copy, Debug, PartialEq, Eq, Structural)]
pub enum LoadType {
    Byte(LoadByteTarget, LoadByteSource),
}

#[derive(Clone, Copy, Debug, PartialEq, Eq, Structural)]
pub enum StackTarget {
    BC,
}

/// The primary opcode table.
pub open spec fn primary_table() -> Map<u8, Instruction> {
    map![0x00u8 => Instruction::INC(IncDecTarget::BC)]
}

/// The prefixed opcode table, consulted for the byte that follows the escape
/// byte.
pub open spec fn prefixed_table() -> Map<u8, Instruction> {
    map![0x00u8 => Instruction::RLC(PrefixTarget::B)]
}

/// The entry of `table` for `byte`, if it has one.
pub open spec fn lookup(table: Map<u8, Instruction>, byte: u8) -> Option<Instruction> {
    if table.dom().contains(byte) {
        Some(table[byte])
    } else {
        None
    }
}

impl Instruction {
    /// The instruction that `byte` stands for in the opcode space that
    /// `prefixed` selects.
    pub open spec fn decoded(byte: u8, prefixed: bool) -> Option<Instruction> {
        if prefixed {
            lookup(prefixed_table(), byte)
        } else {
            lookup(primary_table(), byte)
        }
    }

    /// Decodes `byte` in the prefixed opcode space if `prefixed` holds, in
    /// the primary one otherwise.
    pub fn from_byte(byte: u8, prefixed: bool) -> (instruction: Option<Instruction>)
        ensures
            instruction == Instruction::decoded(byte, prefixed),
    {
        if prefixed {
            Instruction::from_byte_prefixed(byte)
        } else {
            Instruction::from_byte_not_prefixed(byte)
        }
    }

    /// Decodes a byte that followed the escape byte.
    pub fn from_byte_prefixed(byte: u8) -> (instruction: Option<Instruction>)
        ensures
            instruction == lookup(prefixed_table(), byte),
    {
        match byte {
            0x00 => Some(Instruction::RLC(PrefixTarget::B)),
            _ => None,
        }
    }

    /// Decodes a byte of the primary opcode space.
    pub fn from_byte_not_prefixed(byte: u8) -> (instruction: Option<Instruction>)
        ensures
            instruction == lookup(primary_table(), byte),
    {
        match byte {
            0x00 => Some(Instruction::INC(IncDecTarget::BC)),
            _ => None,
        }
    }
}

/// The two opcode spaces are independent: what a byte decodes to with the
/// prefix depends on the prefixed table alone, and without it on the primary
/// table alone.
pub proof fn lemma_decode_selects_table(byte: u8)
    ensures
        Instruction::decoded(byte, true) == lookup(prefixed_table(), byte),
        Instruction::decoded(byte, false) == lookup(primary_table(), byte),
{
}

} // verus!
