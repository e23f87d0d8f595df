//! Instruction-execution core of a Game Boy (Sharp SM83 family) processor:
//! the register file, the flag semantics, the instruction decoder and the
//! fetch-decode-execute step, driving an abstract byte-addressable bus.
//!
//! Every executable function carries a contract over a mathematical model of
//! the machine, and the properties that relate several operations are proved
//! as public lemmas in `cpu::laws`.

pub mod cpu;
