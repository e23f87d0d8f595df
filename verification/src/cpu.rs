//! The processor: its state and the operations that advance it.

pub mod flags;
pub mod registers;
pub mod instructions;
pub mod memory;
pub mod error;
pub mod semantics;
pub mod laws;

use vstd::prelude::*;
use crate::cpu::error::StepError;
use crate::cpu::instructions::{
    ArithmeticTarget,
    IncDecTarget,
    Instruction,
    JumpTest,
    LoadByteSource,
    LoadByteTarget,
    LoadType,
    StackTarget,
    PREFIX_BYTE,
};
use crate::cpu::memory::MemoryBus;
use crate::cpu::registers::{split_word, join_bytes, Registers};
use crate::cpu::semantics::{add_flags, add_result, CpuState};

verus! {

/// The processor together with the bus that it drives.
pub struct CPU<B: MemoryBus> {
    pub registers: Registers,
    /// The address of the next instruction to fetch.
    pub pc: u16,
    /// The stack pointer. The stack grows towards address zero.
    pub sp: u16,
    pub bus: B,
}

impl<B: MemoryBus> View for CPU<B> {
    type V = CpuState;

    open spec fn view(&self) -> CpuState {
        CpuState {
            registers: self.registers,
            pc: self.pc,
            sp: self.sp,
            memory: self.bus.contents(),
        }
    }
}

impl<B: MemoryBus> CPU<B> {
    /// A processor in the given power-on state, driving `bus`.
    pub fn new(registers: Registers, pc: u16, sp: u16, bus: B) -> (cpu: Self)
        ensures
            cpu.registers == registers,
            cpu.pc == pc,
            cpu.sp == sp,
            cpu.bus == bus,
    {
        CPU { registers, pc, sp, bus }
    }

    /// The model of a processor is always well formed.
    pub proof fn lemma_view_wf(&self)
        ensures
            self@.wf(),
    {
        self.bus.lemma_contents_len();
    }

    /// Carries out `instruction`, which stands at the program counter, and
    /// returns the address of the instruction that follows it. The program
    /// counter itself is left for the caller to assign.
    ///
    /// Returns `None`, and changes nothing, exactly when the instruction is
    /// not supported.
    pub fn execute(&mut self, instruction: Instruction) -> (next_pc: Option<u16>)
        ensures
            final(self)@ == old(self)@.executed(instruction),
            next_pc == if instruction.is_supported() {
                Some(old(self)@.next_pc(instruction))
            } else {
                None
            },
    {
        match instruction {
            Instruction::ADD(target) => {
                let value = self.arithmetic_operand(target);
                let new_value = self.add(value);
                self.registers.a = new_value;
                Some(self.pc.wrapping_add(1))
            },
            Instruction::INC(target) => {
                self.increment(target);
                Some(self.pc.wrapping_add(1))
            },
            Instruction::PUSH(target) => {
                let value = match target {
                    StackTarget::BC => self.registers.get_bc(),
                };
                self.push(value);
                Some(self.pc.wrapping_add(1))
            },
            Instruction::POP(target) => {
                let result = self.pop();
                match target {
                    StackTarget::BC => self.registers.set_bc(result),
                };
                Some(self.pc.wrapping_add(1))
            },
            Instruction::JP(test) => {
                let jump_condition = self.test_holds(test);
                Some(self.jump(jump_condition))
            },
            Instruction::LD(load_type) => {
                match load_type {
                    LoadType::Byte(target, source) => {
                        let source_value = self.load_source(source);
                        self.store_loaded(target, source_value);
                        match source {
                            LoadByteSource::D8 => Some(self.pc.wrapping_add(2)),
                            _ => Some(self.pc.wrapping_add(1)),
                        }
                    },
                }
            },
            Instruction::RLC(_) => None,
            Instruction::CALL(_) => None,
            Instruction::RET(_) => None,
        }
    }

    /// Increments the register pair that `target` names, wrapping at 16 bits.
    fn increment(&mut self, target: IncDecTarget)
        ensures
            *final(self) == (CPU {
                registers: old(self).registers.after_inc(target),
                ..*old(self)
            }),
    {
        match target {
            IncDecTarget::BC => {
                let value = self.registers.get_bc().wrapping_add(1);
                self.registers.set_bc(value);
            },
            IncDecTarget::DE => {
                let value = self.registers.get_de().wrapping_add(1);
                self.registers.set_de(value);
            },
        }
    }

    /// Whether the condition of a jump holds under the current flags.
    fn test_holds(&self, test: JumpTest) -> (holds: bool)
        ensures
            holds == test.holds(self.registers.f),
    {
        match test {
            JumpTest::NotZero => !self.registers.f.zero,
            JumpTest::NotCarry => !self.registers.f.carry,
            JumpTest::Zero => self.registers.f.zero,
            JumpTest::Carry => self.registers.f.carry,
            JumpTest::Always => true,
        }
    }

    /// The register that an arithmetic instruction names.
    fn arithmetic_operand(&self, target: ArithmeticTarget) -> (value: u8)
        ensures
            value == self.registers.arithmetic_operand(target),
    {
        match target {
            ArithmeticTarget::A => self.registers.a,
            ArithmeticTarget::B => self.registers.b,
            ArithmeticTarget::C => self.registers.c,
            ArithmeticTarget::D => self.registers.d,
            ArithmeticTarget::E => self.registers.e,
            ArithmeticTarget::H => self.registers.h,
            ArithmeticTarget::L => self.registers.l,
        }
    }

    /// The byte that a load reads from `source`.
    fn load_source(&self, source: LoadByteSource) -> (value: u8)
        ensures
            value == self@.load_source_value(source),
    {
        match source {
            LoadByteSource::A => self.registers.a,
            LoadByteSource::B => self.registers.b,
            LoadByteSource::C => self.registers.c,
            LoadByteSource::D => self.registers.d,
            LoadByteSource::E => self.registers.e,
            LoadByteSource::H => self.registers.h,
            LoadByteSource::L => self.registers.l,
            LoadByteSource::D8 => self.read_next_byte(),
            LoadByteSource::HLI => self.bus.read_byte(self.registers.get_hl()),
        }
    }

    /// Stores the byte that a load has read in `target`.
    fn store_loaded(&mut self, target: LoadByteTarget, value: u8)
        ensures
            final(self)@ == old(self)@.with_loaded(target, value),
    {
        match target {
            LoadByteTarget::A => self.registers.a = value,
            LoadByteTarget::B => self.registers.b = value,
            LoadByteTarget::C => self.registers.c = value,
            LoadByteTarget::D => self.registers.d = value,
            LoadByteTarget::E => self.registers.e = value,
            LoadByteTarget::H => self.registers.h = value,
            LoadByteTarget::L => self.registers.l = value,
            LoadByteTarget::HLI => self.bus.write_byte(self.registers.get_hl(), value),
        };
    }

    /// The address that a jump instruction at the program counter leads to:
    /// the little-endian address in the two bytes after the opcode if
    /// `should_jump` holds, the address past the three bytes of the
    /// instruction otherwise.
    pub fn jump(&self, should_jump: bool) -> (destination: u16)
        ensures
            destination == self@.jump_destination(should_jump),
    {
        if should_jump {
            let least_significant_byte = self.bus.read_byte(self.pc.wrapping_add(1));
            let most_significant_byte = self.bus.read_byte(self.pc.wrapping_add(2));
            join_bytes(most_significant_byte, least_significant_byte)
        } else {
            self.pc.wrapping_add(3)
        }
    }

    /// Sets the flags for the sum of A and `value` and returns that sum,
    /// reduced modulo 256. A itself is left for the caller to assign.
    pub fn add(&mut self, value: u8) -> (new_value: u8)
        ensures
            new_value == add_result(old(self).registers.a, value),
            *final(self) == (CPU {
                registers: Registers {
                    f: add_flags(old(self).registers.a, value),
                    ..old(self).registers
                },
                ..*old(self)
            }),
    {
        let a = self.registers.a;
        let new_value = a.wrapping_add(value);
        let did_overflow = (a as u16) + (value as u16) > 0xFF;
        assert((a & 0xF) == a % 0x10 && (value & 0xF) == value % 0x10) by (bit_vector);
        self.registers.f.zero = new_value == 0;
        self.registers.f.subtract = false;
        self.registers.f.carry = did_overflow;
        self.registers.f.half_carry = (a & 0xF) + (value & 0xF) > 0xF;
        new_value
    }

    /// The byte that follows the opcode at the program counter.
    pub fn read_next_byte(&self) -> (value: u8)
        ensures
            value == self@.next_byte(),
    {
        self.bus.read_byte(self.pc.wrapping_add(1))
    }

    /// Fetches the instruction at the program counter, decodes it, carries
    /// it out and moves the program counter on.
    ///
    /// Fails, and changes nothing, when the fetched opcode has no entry in
    /// the table of its opcode space or decodes to an instruction that is
    /// not supported.
    pub fn step(&mut self) -> (outcome: Result<(), StepError>)
        ensures
            match old(self)@.stepped() {
                Ok(state) => outcome is Ok && final(self)@ == state,
                Err(error) => outcome == Err::<(), StepError>(error) && final(self)@ == old(
                    self,
                )@,
            },
    {
        let mut instruction_byte = self.bus.read_byte(self.pc);
        let prefixed = instruction_byte == PREFIX_BYTE;
        if prefixed {
            instruction_byte = self.read_next_byte();
        }
        match Instruction::from_byte(instruction_byte, prefixed) {
            Some(instruction) => {
                match self.execute(instruction) {
                    Some(next_pc) => {
                        self.pc = next_pc;
                        Ok(())
                    },
                    None => Err(
                        StepError::UnsupportedOperand {
                            address: self.pc,
                            opcode: instruction_byte,
                            prefixed,
                            instruction,
                        },
                    ),
                }
            },
            None => Err(
                StepError::UnknownOpcode { address: self.pc, opcode: instruction_byte, prefixed },
            ),
        }
    }

    /// Pushes `value` onto the stack, most significant byte first.
    pub fn push(&mut self, value: u16)
        ensures
            final(self)@ == old(self)@.pushed(value),
    {
        let (most_significant_byte, least_significant_byte) = split_word(value);
        self.sp = self.sp.wrapping_sub(1);
        self.bus.write_byte(self.sp, most_significant_byte);

        self.sp = self.sp.wrapping_sub(1);
        self.bus.write_byte(self.sp, least_significant_byte);
    }

    /// Takes the 16-bit value on top of the stack off it.
    pub fn pop(&mut self) -> (value: u16)
        ensures
            value == old(self)@.stack_top(),
            final(self)@ == old(self)@.popped(),
    {
        let lsb = self.bus.read_byte(self.sp);
        self.sp = self.sp.wrapping_add(1);

        let msb = self.bus.read_byte(self.sp);
        self.sp = self.sp.wrapping_add(1);

        join_bytes(msb, lsb)
    }
}

} // verus!
