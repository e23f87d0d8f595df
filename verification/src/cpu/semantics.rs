//! The mathematical model of the machine, and what each instruction does to
//! it.
//!
//! A `CpuState` is the machine as the contracts see it: the register file,
//! the program counter, the stack pointer and the byte at each of the 65536
//! addresses. The functions here say, over such states, what executing an
//! instruction and what a whole step amount to. The executable operations of
//! `CPU` are proved to compute exactly these.

use vstd::prelude::*;
use crate::cpu::error::StepError;
use crate::cpu::flags::FlagsRegister;
use crate::cpu::instructions::{
    ArithmeticTarget,
    IncDecTarget,
    Instruction,
    JumpTest,
    LoadByteSource,
    LoadByteTarget,
    LoadType,
    StackTarget,
    PREFIX_BYTE,
};
use crate::cpu::memory::ADDRESS_SPACE;
use crate::cpu::registers::{high_byte, low_byte, word, Registers};

verus! {

/// The 16-bit address that `address` names once reduced modulo 65536.
pub open spec fn wrap_address(address: int) -> u16 {
    (address % 0x10000) as u16
}

/// The 8-bit sum of `a` and `value`, reduced modulo 256.
pub open spec fn add_result(a: u8, value: u8) -> u8 {
    ((a + value) % 0x100) as u8
}

/// The flags after adding `value` to `a`.
pub open spec fn add_flags(a: u8, value: u8) -> FlagsRegister {
    FlagsRegister {
        zero: add_result(a, value) == 0,
        subtract: false,
        half_carry: (a % 0x10) + (value % 0x10) > 0xF,
        carry: a + value > 0xFF,
    }
}

impl JumpTest {
    /// Whether the condition holds under `flags`.
    pub open spec fn holds(self, flags: FlagsRegister) -> bool {
        match self {
            JumpTest::NotZero => !flags.zero,
            JumpTest::NotCarry => !flags.carry,
            JumpTest::Zero => flags.zero,
            JumpTest::Carry => flags.carry,
            JumpTest::Always => true,
        }
    }
}

impl Registers {
    /// The register that an arithmetic instruction names.
    pub open spec fn arithmetic_operand(self, target: ArithmeticTarget) -> u8 {
        match target {
            ArithmeticTarget::A => self.a,
            ArithmeticTarget::B => self.b,
            ArithmeticTarget::C => self.c,
            ArithmeticTarget::D => self.d,
            ArithmeticTarget::E => self.e,
            ArithmeticTarget::H => self.h,
            ArithmeticTarget::L => self.l,
        }
    }

    /// The register file after adding `value` to A.
    pub open spec fn after_add(self, value: u8) -> Registers {
        Registers { a: add_result(self.a, value), f: add_flags(self.a, value), ..self }
    }

    /// The register file after incrementing the pair that `target` names.
    pub open spec fn after_inc(self, target: IncDecTarget) -> Registers {
        match target {
            IncDecTarget::BC => self.with_bc(wrap_address(self.bc() + 1)),
            IncDecTarget::DE => self.with_de(wrap_address(self.de() + 1)),
        }
    }

    /// The pair that a stack instruction names.
    pub open spec fn stack_operand(self, target: StackTarget) -> u16 {
        match target {
            StackTarget::BC => self.bc(),
        }
    }

    /// The register file with `value` in the pair that a stack instruction
    /// names.
    pub open spec fn with_stack_operand(self, target: StackTarget, value: u16) -> Registers {
        match target {
            StackTarget::BC => self.with_bc(value),
        }
    }
}

impl Instruction {
    /// Whether the executor carries the instruction out. Rotations, calls and
    /// returns are decoded but not carried out.
    pub open spec fn is_supported(self) -> bool {
        match self {
            Instruction::ADD(_) => true,
            Instruction::INC(_) => true,
            Instruction::JP(_) => true,
            Instruction::LD(_) => true,
            Instruction::PUSH(_) => true,
            Instruction::POP(_) => true,
            Instruction::RLC(_) => false,
            Instruction::CALL(_) => false,
            Instruction::RET(_) => false,
        }
    }
}

/// The machine as the contracts see it.
pub struct CpuState {
    pub registers: Registers,
    /// The address of the next instruction to fetch.
    pub pc: u16,
    /// The address of the top of the stack, which grows towards address zero.
    pub sp: u16,
    /// The byte at each address, in address order.
    pub memory: Seq<u8>,
}

impl CpuState {
    /// Every 16-bit address names a byte of the memory.
    pub open spec fn wf(self) -> bool {
        self.memory.len() == ADDRESS_SPACE
    }

    pub open spec fn byte_at(self, address: u16) -> u8 {
        self.memory[address as int]
    }

    /// The state with `value` written at `address`.
    pub open spec fn with_byte(self, address: u16, value: u8) -> CpuState {
        CpuState { memory: self.memory.update(address as int, value), ..self }
    }

    /// The byte that follows the opcode at the program counter.
    pub open spec fn next_byte(self) -> u8 {
        self.byte_at(wrap_address(self.pc + 1))
    }

    /// The little-endian 16-bit address held in the two bytes that follow the
    /// opcode at the program counter.
    pub open spec fn jump_address(self) -> u16 {
        word(self.byte_at(wrap_address(self.pc + 2)), self.byte_at(wrap_address(self.pc + 1)))
    }

    /// Where a jump instruction at the program counter leads: to the address
    /// that follows the opcode if the jump is taken, past the three bytes of
    /// the instruction otherwise.
    pub open spec fn jump_destination(self, should_jump: bool) -> u16 {
        if should_jump {
            self.jump_address()
        } else {
            wrap_address(self.pc + 3)
        }
    }

    /// The state after pushing `value`: the most significant byte goes to
    /// the address below the stack pointer, the least significant byte to
    /// the address below that, which becomes the new stack pointer.
    pub open spec fn pushed(self, value: u16) -> CpuState {
        let high_at = wrap_address(self.sp - 1);
        let low_at = wrap_address(self.sp - 2);
        CpuState {
            sp: low_at,
            memory: self.memory.update(high_at as int, high_byte(value)).update(
                low_at as int,
                low_byte(value),
            ),
            ..self
        }
    }

    /// The 16-bit value on top of the stack: its least significant byte is at
    /// the stack pointer, its most significant byte at the address above.
    pub open spec fn stack_top(self) -> u16 {
        word(self.byte_at(wrap_address(self.sp + 1)), self.byte_at(self.sp))
    }

    /// The state after the value on top of the stack has been taken off.
    pub open spec fn popped(self) -> CpuState {
        CpuState { sp: wrap_address(self.sp + 2), ..self }
    }

    /// The byte that a load reads from `source`.
    pub open spec fn load_source_value(self, source: LoadByteSource) -> u8 {
        match source {
            LoadByteSource::A => self.registers.a,
            LoadByteSource::B => self.registers.b,
            LoadByteSource::C => self.registers.c,
            LoadByteSource::D => self.registers.d,
            LoadByteSource::E => self.registers.e,
            LoadByteSource::H => self.registers.h,
            LoadByteSource::L => self.registers.l,
            LoadByteSource::D8 => self.next_byte(),
            LoadByteSource::HLI => self.byte_at(self.registers.hl()),
        }
    }

    /// The state after a load has stored `value` in `target`.
    pub open spec fn with_loaded(self, target: LoadByteTarget, value: u8) -> CpuState {
        match target {
            LoadByteTarget::A => CpuState { registers: Registers { a: value, ..self.registers }, ..self },
            LoadByteTarget::B => CpuState { registers: Registers { b: value, ..self.registers }, ..self },
            LoadByteTarget::C => CpuState { registers: Registers { c: value, ..self.registers }, ..self },
            LoadByteTarget::D => CpuState { registers: Registers { d: value, ..self.registers }, ..self },
            LoadByteTarget::E => CpuState { registers: Registers { e: value, ..self.registers }, ..self },
            LoadByteTarget::H => CpuState { registers: Registers { h: value, ..self.registers }, ..self },
            LoadByteTarget::L => CpuState { registers: Registers { l: value, ..self.registers }, ..self },
            LoadByteTarget::HLI => self.with_byte(self.registers.hl(), value),
        }
    }

    /// The state after `instruction` has taken effect, the program counter
    /// still at the instruction. An instruction that is not supported has no
    /// effect.
    pub open spec fn executed(self, instruction: Instruction) -> CpuState {
        match instruction {
            Instruction::ADD(target) => CpuState {
                registers: self.registers.after_add(self.registers.arithmetic_operand(target)),
                ..self
            },
            Instruction::INC(target) => CpuState {
                registers: self.registers.after_inc(target),
                ..self
            },
            Instruction::PUSH(target) => self.pushed(self.registers.stack_operand(target)),
            Instruction::POP(target) => CpuState {
                registers: self.registers.with_stack_operand(target, self.stack_top()),
                ..self.popped()
            },
            Instruction::LD(LoadType::Byte(target, source)) => self.with_loaded(
                target,
                self.load_source_value(source),
            ),
            Instruction::JP(_) => self,
            Instruction::RLC(_) => self,
            Instruction::CALL(_) => self,
            Instruction::RET(_) => self,
        }
    }

    /// The address of the instruction that follows `instruction`, which is at
    /// the program counter. The flags that a jump tests are those before the
    /// instruction.
    pub open spec fn next_pc(self, instruction: Instruction) -> u16 {
        match instruction {
            Instruction::JP(test) => self.jump_destination(test.holds(self.registers.f)),
            Instruction::LD(LoadType::Byte(_, LoadByteSource::D8)) => wrap_address(self.pc + 2),
            _ => wrap_address(self.pc + 1),
        }
    }

    /// Whether the byte at the program counter is the escape byte.
    pub open spec fn fetch_is_prefixed(self) -> bool {
        self.byte_at(self.pc) == PREFIX_BYTE
    }

    /// The opcode that a fetch at the program counter looks up: the byte
    /// there, or the byte that follows if the byte there is the escape byte.
    pub open spec fn fetched_opcode(self) -> u8 {
        if self.fetch_is_prefixed() {
            self.next_byte()
        } else {
            self.byte_at(self.pc)
        }
    }

    /// What the fetched opcode decodes to, in the opcode space that the fetch
    /// selects.
    pub open spec fn fetched_instruction(self) -> Option<Instruction> {
        Instruction::decoded(self.fetched_opcode(), self.fetch_is_prefixed())
    }

    /// The outcome of one step: the state after the instruction at the
    /// program counter has been fetched, decoded and executed and the program
    /// counter has moved on, or the condition that halts the step.
    pub open spec fn stepped(self) -> Result<CpuState, StepError> {
        let opcode = self.fetched_opcode();
        let prefixed = self.fetch_is_prefixed();
        match self.fetched_instruction() {
            None => Err(StepError::UnknownOpcode { address: self.pc, opcode, prefixed }),
            Some(instruction) => if instruction.is_supported() {
                Ok(CpuState { pc: self.next_pc(instruction), ..self.executed(instruction) })
            } else {
                Err(
                    StepError::UnsupportedOperand {
                        address: self.pc,
                        opcode,
                        prefixed,
                        instruction,
                    },
                )
            },
        }
    }
}

} // verus!
