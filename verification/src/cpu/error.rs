//! The conditions that halt a step.

use vstd::prelude::*;
use crate::cpu::instructions::Instruction;

verus! {

/// Why a step halted. Both conditions are fatal to the step: the machine is
/// left as it was before the fetch, and the error names the address of the
/// fetch and the raw opcode, so that the caller can report them.
#[derive(Clone, Copy, Debug, PartialEq, Eq, Structural)]
pub enum StepError {
    /// The fetched opcode has no entry in the table of its opcode space.
    UnknownOpcode {
        /// The program counter at fetch time.
        address: u16,
        /// The byte that was looked up: the byte at `address`, or the byte
        /// after the escape byte if `prefixed` holds.
        opcode: u8,
        /// Whether the byte at `address` was the escape byte.
        prefixed: bool,
    },
    /// The opcode decodes to an instruction that the executor does not carry
    /// out.
    UnsupportedOperand {
        /// The program counter at fetch time.
        address: u16,
        /// The byte that was looked up: the byte at `address`, or the byte
        /// after the escape byte if `prefixed` holds.
        opcode: u8,
        /// Whether the byte at `address` was the escape byte.
        prefixed: bool,
        /// What the opcode decoded to.
        instruction: Instruction,
    },
}

} // verus!
