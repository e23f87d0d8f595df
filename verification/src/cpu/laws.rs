//! Laws of the machine: what holds of every state, proved over the model of
//! `semantics`.

use vstd::prelude::*;
use crate::cpu::error::StepError;
use crate::cpu::instructions::{
    lookup,
    prefixed_table,
    primary_table,
    Instruction,
    JumpTest,
    LoadByteSource,
    LoadType,
    LoadByteTarget,
    StackTarget,
    PREFIX_BYTE,
};
use crate::cpu::registers::{word, Registers};
use crate::cpu::semantics::{wrap_address, CpuState};

verus! {

/// A value pushed onto the stack is the value on top of it, and taking it
/// off again brings the stack pointer back to where it was, wherever in the
/// address space the stack lies.
pub proof fn lemma_push_then_pop(state: CpuState, value: u16)
    requires
        state.wf(),
    ensures
        state.pushed(value).stack_top() == value,
        state.pushed(value).popped().sp == state.sp,
        state.pushed(value).wf(),
{
}

/// A push of a register pair followed by a pop of the same pair restores the
/// pair and the stack pointer, whatever the registers were changed to in
/// between.
pub proof fn lemma_push_pop_restores_pair(state: CpuState, target: StackTarget, between: Registers)
    requires
        state.wf(),
    ensures
        ({
            let pushed = state.executed(Instruction::PUSH(target));
            let changed = CpuState { registers: between, ..pushed };
            let restored = changed.executed(Instruction::POP(target));
            &&& restored.registers.stack_operand(target) == state.registers.stack_operand(target)
            &&& restored.sp == state.sp
        }),
{
    lemma_push_then_pop(state, state.registers.stack_operand(target));
}

/// A conditional jump whose condition fails moves the program counter past
/// the three bytes of the instruction and changes nothing else. In
/// particular a jump on not-zero is not taken while the zero flag is set.
pub proof fn lemma_jump_not_taken(state: CpuState, test: JumpTest)
    requires
        !test.holds(state.registers.f),
    ensures
        state.next_pc(Instruction::JP(test)) == wrap_address(state.pc + 3),
        state.executed(Instruction::JP(test)) == state,
        state.registers.f.zero ==> !JumpTest::NotZero.holds(state.registers.f),
{
}

/// An unconditional jump leads to the little-endian address in the two
/// bytes that follow the opcode, whatever the flags hold, and changes
/// neither the flags nor anything else.
pub proof fn lemma_jump_always(state: CpuState)
    ensures
        state.next_pc(Instruction::JP(JumpTest::Always)) == word(
            state.byte_at(wrap_address(state.pc + 2)),
            state.byte_at(wrap_address(state.pc + 1)),
        ),
        state.executed(Instruction::JP(JumpTest::Always)) == state,
{
}

/// A conditional jump whose condition holds leads where the unconditional
/// jump leads.
pub proof fn lemma_jump_taken(state: CpuState, test: JumpTest)
    requires
        test.holds(state.registers.f),
    ensures
        state.next_pc(Instruction::JP(test)) == state.next_pc(Instruction::JP(JumpTest::Always)),
{
}

/// After the escape byte, the byte that follows is looked up in the prefixed
/// table and the primary table is not consulted; any other byte is itself
/// looked up in the primary table.
pub proof fn lemma_fetch_selects_table(state: CpuState)
    ensures
        state.byte_at(state.pc) == PREFIX_BYTE ==> state.fetched_instruction() == lookup(
            prefixed_table(),
            state.byte_at(wrap_address(state.pc + 1)),
        ),
        state.byte_at(state.pc) != PREFIX_BYTE ==> state.fetched_instruction() == lookup(
            primary_table(),
            state.byte_at(state.pc),
        ),
{
}

/// A step halts with `UnknownOpcode` exactly when the opcode has no entry in
/// the table of its opcode space, and the error then carries the opcode that
/// was looked up and the program counter at fetch time.
pub proof fn lemma_unknown_opcode(state: CpuState)
    ensures
        state.stepped() is Err && state.stepped()->Err_0 is UnknownOpcode
            <==> state.fetched_instruction() is None,
        state.fetched_instruction() is None ==> state.stepped() == Err::<CpuState, StepError>(
            StepError::UnknownOpcode {
                address: state.pc,
                opcode: state.fetched_opcode(),
                prefixed: state.fetch_is_prefixed(),
            },
        ),
        !state.fetch_is_prefixed() ==> state.fetched_opcode() == state.byte_at(state.pc),
        state.fetch_is_prefixed() ==> state.fetched_opcode() == state.byte_at(
            wrap_address(state.pc + 1),
        ),
{
}

/// A step halts with `UnsupportedOperand` exactly when the opcode decodes to
/// an instruction that is not supported, and succeeds exactly when it
/// decodes to one that is.
pub proof fn lemma_unsupported_operand(state: CpuState)
    ensures
        state.stepped() is Err && state.stepped()->Err_0 is UnsupportedOperand <==> (
        state.fetched_instruction() matches Some(instruction) && !instruction.is_supported()),
        state.stepped() is Ok <==> (state.fetched_instruction() matches Some(instruction)
            && instruction.is_supported()),
{
}

/// A load whose source is the byte after the opcode moves the program
/// counter on by two, every other load by one.
pub proof fn lemma_load_length(state: CpuState, target: LoadByteTarget, source: LoadByteSource)
    ensures
        state.next_pc(Instruction::LD(LoadType::Byte(target, source))) == wrap_address(
            state.pc + if source == LoadByteSource::D8 {
                2int
            } else {
                1int
            },
        ),
{
}

/// Only an addition changes the flags.
pub proof fn lemma_flags_change_only_by_add(state: CpuState, instruction: Instruction)
    requires
        !(instruction is ADD),
    ensures
        state.executed(instruction).registers.f == state.registers.f,
{
}

/// An instruction other than a jump, if it is supported, moves the program
/// counter on by its own length: two for a load of the byte after the
/// opcode, one otherwise.
pub proof fn lemma_instruction_length(state: CpuState, instruction: Instruction)
    requires
        !(instruction is JP),
    ensures
        state.next_pc(instruction) == wrap_address(
            state.pc + if instruction matches Instruction::LD(
                LoadType::Byte(_, LoadByteSource::D8),
            ) {
                2int
            } else {
                1int
            },
        ),
{
}

/// Executing an instruction and stepping keep the model well formed.
pub proof fn lemma_wf_is_kept(state: CpuState, instruction: Instruction)
    requires
        state.wf(),
    ensures
        state.executed(instruction).wf(),
        state.stepped() matches Ok(next) ==> next.wf(),
{
}

} // verus!
