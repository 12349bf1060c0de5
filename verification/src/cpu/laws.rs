//! What holds of every state of the machine and of every instruction.

use crate::cpu::alu::{
    add_with_carry_spec, low_byte, shift_spec, subtract_with_borrow_spec, word, wrap16,
};
use crate::cpu::operations::{
    decode_spec, has_opcode_value, instruction_at, is_instruction, lemma_decode_listed,
    lemma_size_follows_mode, AddressingMode, InstructionInfo, Opcode,
};
use crate::cpu::semantics::{
    effect, is_control_flow, perform, pulled_status, resolve, run, step, value_of,
    zero_negative, Effect, MachineState, Operand, Register, Step,
};
use crate::cpu::status::{
    is_flag, lemma_flags_disjoint, lemma_with_keeps_others, lemma_with_then_has, StatusFlags,
    BREAK, CARRY, DECIMAL, NEGATIVE, OVERFLOW, UNUSED, ZERO,
};
use crate::memory::MEMORY_SIZE;
use vstd::prelude::*;

verus! {

/// After zero and negative were set from a value, zero says whether the
/// value is `0`, negative whether its bit 7 is set, and every other flag is
/// as it was.
pub proof fn lemma_zero_negative(flags: StatusFlags, value: u8, other: u8)
    requires
        is_flag(other),
    ensures
        zero_negative(flags, value).has(ZERO) == (value == 0),
        zero_negative(flags, value).has(NEGATIVE) == (value >= 0x80),
        other != ZERO && other != NEGATIVE ==> zero_negative(flags, value).has(other) == flags.has(
            other,
        ),
{
    let first = flags.with(ZERO, value == 0);
    lemma_flags_disjoint(ZERO, NEGATIVE);
    lemma_flags_disjoint(NEGATIVE, ZERO);
    lemma_with_then_has(flags, ZERO, value == 0);
    lemma_with_keeps_others(first, NEGATIVE, value >= 0x80, ZERO);
    lemma_with_then_has(first, NEGATIVE, value >= 0x80);
    if other != ZERO && other != NEGATIVE {
        lemma_flags_disjoint(ZERO, other);
        lemma_flags_disjoint(NEGATIVE, other);
        lemma_with_keeps_others(flags, ZERO, value == 0, other);
        lemma_with_keeps_others(first, NEGATIVE, value >= 0x80, other);
    }
}

/// A load puts the operand's value in its register, sets zero exactly where
/// the value is `0` and negative exactly where its bit 7 is set, and leaves
/// the other flags, the other registers, the program counter and memory as
/// they were.
pub proof fn lemma_load(state: MachineState, register: Register, operand: Operand)
    requires
        perform(state, Effect::Load(register), operand) is Ok,
    ensures
        ({
            let next = perform(state, Effect::Load(register), operand)->Ok_0;
            let value = value_of(state, operand)->Ok_0;
            &&& next.register(register) == value
            &&& next.flag(ZERO) == (value == 0)
            &&& next.flag(NEGATIVE) == (value >= 0x80)
            &&& forall|other: u8|
                is_flag(other) && other != ZERO && other != NEGATIVE ==> #[trigger] next.flag(other)
                    == state.flag(other)
            &&& forall|r: Register|
                r != register ==> #[trigger] next.register(r) == state.register(r)
            &&& next.memory == state.memory
            &&& next.registers.program_counter == state.registers.program_counter
        }),
{
    let next = perform(state, Effect::Load(register), operand)->Ok_0;
    let value = value_of(state, operand)->Ok_0;
    lemma_zero_negative(state.registers.status, value, CARRY);
    assert forall|other: u8|
        is_flag(other) && other != ZERO && other != NEGATIVE implies #[trigger] next.flag(other)
        == state.flag(other) by {
        lemma_zero_negative(state.registers.status, value, other);
    }
}

/// Loading the accumulator with an immediate value: where the program
/// counter points at the opcode byte `0xA9` and a value follows it, the
/// cycle puts the value in the accumulator, sets zero exactly where the
/// value is `0` and negative exactly where its bit 7 is set, and moves the
/// program counter past the two bytes.
pub proof fn lemma_load_accumulator_immediate(state: MachineState, value: u8)
    requires
        state.well_formed(),
        state.registers.program_counter + 1 < MEMORY_SIZE,
        state.memory[state.registers.program_counter as int] == 0xA9,
        state.memory[state.registers.program_counter + 1] == value,
    ensures
        step(state) matches Step::Continue(next) && next.registers.accumulator == value
            && next.flag(ZERO) == (value == 0) && next.flag(NEGATIVE) == (value >= 0x80)
            && next.registers.program_counter == state.registers.program_counter + 2
            && next.memory == state.memory,
{
    // The instruction stands at position 46 of the table.
    lemma_decode_listed(46);
    assert(is_instruction(instruction_at(46)));
    let fetched = state.with_program_counter((state.registers.program_counter + 1) as u16);
    let resolved = resolve(fetched, AddressingMode::Immediate)->Ok_0;
    assert(resolved.0 == Operand::Immediate(value));
    lemma_load(resolved.1, Register::Accumulator, resolved.0);
}

/// Whether an effect may change a flag.
pub open spec fn may_change(effect: Effect, flag: u8) -> bool {
    match effect {
        Effect::Load(_)
        | Effect::Combine(_)
        | Effect::StepOperand { .. }
        | Effect::StepRegister { .. }
        | Effect::PullAccumulator => flag == ZERO || flag == NEGATIVE,
        Effect::Transfer { to, .. } => to != Register::StackPointer && (flag == ZERO || flag
            == NEGATIVE),
        Effect::BitTest => flag == ZERO || flag == NEGATIVE || flag == OVERFLOW,
        Effect::Add | Effect::Subtract => flag == CARRY || flag == ZERO || flag == OVERFLOW || flag
            == NEGATIVE,
        Effect::Compare(_) | Effect::Move(_) => flag == CARRY || flag == ZERO || flag == NEGATIVE,
        Effect::Flag { mask, .. } => flag == mask,
        Effect::PullStatus | Effect::ReturnFromInterrupt => flag != BREAK && flag != UNUSED,
        Effect::Store(_)
        | Effect::Branch { .. }
        | Effect::Jump
        | Effect::Call
        | Effect::Return
        | Effect::PushAccumulator
        | Effect::PushStatus
        | Effect::Nothing
        | Effect::Halt => false,
    }
}

/// Pulling the flags from the stack leaves `BREAK` and `UNUSED` as they are.
pub proof fn lemma_pulled_status_keeps(flags: StatusFlags, pulled: u8, flag: u8)
    requires
        flag == BREAK || flag == UNUSED,
    ensures
        pulled_status(flags, pulled).has(flag) == flags.has(flag),
{
    let bits = flags.bits;
    assert((flag == 0x10 || flag == 0x20) ==> ((pulled & !(0x10u8 | 0x20u8)) | (bits & (0x10u8
        | 0x20u8))) & flag == bits & flag) by (bit_vector);
}

/// An instruction changes no flag but those that its mnemonic is to change:
/// a load, zero and negative; an addition, carry, overflow, zero and
/// negative; a comparison, carry, zero and negative; and so on, as
/// [`may_change`] lists them.
pub proof fn lemma_other_flags_kept(
    state: MachineState,
    opcode: Opcode,
    operand: Operand,
    flag: u8,
)
    requires
        is_flag(flag),
        !may_change(effect(opcode), flag),
        perform(state, effect(opcode), operand) is Ok,
    ensures
        perform(state, effect(opcode), operand)->Ok_0.flag(flag) == state.flag(flag),
{
    let flags = state.registers.status;
    let next = perform(state, effect(opcode), operand)->Ok_0;
    match effect(opcode) {
        Effect::Load(_) => {
            lemma_zero_negative(flags, value_of(state, operand)->Ok_0, flag);
        },
        Effect::Combine(logic) => {
            lemma_zero_negative(flags, next.registers.accumulator, flag);
        },
        Effect::StepOperand { up } => {
            let m = value_of(state, operand)->Ok_0;
            lemma_zero_negative(flags, low_byte(m + 1), flag);
            lemma_zero_negative(flags, low_byte(m - 1), flag);
        },
        Effect::StepRegister { register, up } => {
            lemma_zero_negative(flags, next.register(register), flag);
        },
        Effect::PullAccumulator => {
            lemma_zero_negative(flags, state.top(), flag);
        },
        Effect::Transfer { from, to } => {
            lemma_zero_negative(flags, state.register(from), flag);
        },
        Effect::BitTest => {
            let m = value_of(state, operand)->Ok_0;
            let first = flags.with(ZERO, state.registers.accumulator & m == 0);
            let second = first.with(NEGATIVE, m & NEGATIVE != 0);
            lemma_flags_disjoint(ZERO, flag);
            lemma_flags_disjoint(NEGATIVE, flag);
            lemma_flags_disjoint(OVERFLOW, flag);
            lemma_with_keeps_others(flags, ZERO, state.registers.accumulator & m == 0, flag);
            lemma_with_keeps_others(first, NEGATIVE, m & NEGATIVE != 0, flag);
            lemma_with_keeps_others(second, OVERFLOW, m & OVERFLOW != 0, flag);
        },
        Effect::Add => {
            let m = value_of(state, operand)->Ok_0;
            let sum = add_with_carry_spec(
                state.registers.accumulator,
                m,
                flags.has(CARRY),
            );
            let first = flags.with(CARRY, sum.carry);
            let second = first.with(OVERFLOW, sum.overflow);
            lemma_flags_disjoint(CARRY, flag);
            lemma_flags_disjoint(OVERFLOW, flag);
            lemma_with_keeps_others(flags, CARRY, sum.carry, flag);
            lemma_with_keeps_others(first, OVERFLOW, sum.overflow, flag);
            lemma_zero_negative(second, sum.value, flag);
        },
        Effect::Subtract => {
            let m = value_of(state, operand)->Ok_0;
            let sum = subtract_with_borrow_spec(
                state.registers.accumulator,
                m,
                flags.has(CARRY),
            );
            let first = flags.with(CARRY, sum.carry);
            let second = first.with(OVERFLOW, sum.overflow);
            lemma_flags_disjoint(CARRY, flag);
            lemma_flags_disjoint(OVERFLOW, flag);
            lemma_with_keeps_others(flags, CARRY, sum.carry, flag);
            lemma_with_keeps_others(first, OVERFLOW, sum.overflow, flag);
            lemma_zero_negative(second, sum.value, flag);
        },
        Effect::Compare(register) => {
            let m = value_of(state, operand)->Ok_0;
            let r = state.register(register);
            lemma_flags_disjoint(CARRY, flag);
            lemma_with_keeps_others(flags, CARRY, r >= m, flag);
            lemma_zero_negative(flags.with(CARRY, r >= m), low_byte(r - m), flag);
        },
        Effect::Move(shift) => {
            let m = value_of(state, operand)->Ok_0;
            let shifted = shift_spec(shift, m, flags.has(CARRY));
            lemma_flags_disjoint(CARRY, flag);
            lemma_with_keeps_others(flags, CARRY, shifted.carry, flag);
            lemma_zero_negative(flags.with(CARRY, shifted.carry), shifted.value, flag);
        },
        Effect::Flag { mask, value } => {
            lemma_flags_disjoint(mask, flag);
            lemma_with_keeps_others(flags, mask, value, flag);
        },
        Effect::PullStatus => {
            lemma_pulled_status_keeps(flags, state.top(), flag);
        },
        Effect::ReturnFromInterrupt => {
            lemma_pulled_status_keeps(flags, state.top(), flag);
        },
        _ => {},
    }
}

/// The instruction that the cycle from `state` fetches and decodes, where it
/// gets that far.
pub open spec fn fetched_instruction(state: MachineState) -> InstructionInfo {
    decode_spec(state.memory[state.registers.program_counter as int])->Some_0
}

/// The operand of the instruction that the cycle from `state` executes.
pub open spec fn fetched_operand(state: MachineState) -> Operand {
    resolve(
        state.with_program_counter((state.registers.program_counter + 1) as u16),
        fetched_instruction(state).addressing_mode,
    )->Ok_0.0
}

/// Where a cycle leaves the program counter.
///
/// An instruction that is no branch, jump, call or return moves it on by the
/// length of the instruction: by one for an implied or accumulator
/// instruction, by two for an immediate, zero-page or relative one, by three
/// for an absolute one. So does a branch that is not taken, and the break
/// instruction that halts. A branch that is taken leaves it at the target, a
/// jump and a call at the operand's address, a return at the address after
/// the one that it pulled, and a return from an interrupt at the address
/// that it pulled.
pub proof fn lemma_program_counter_after_step(state: MachineState)
    requires
        state.well_formed(),
        step(state) is Continue || step(state) is Halt,
    ensures
        ({
            let info = fetched_instruction(state);
            let operand = fetched_operand(state);
            let before = state.registers.program_counter;
            let after = match step(state) {
                Step::Continue(next) => next.registers.program_counter,
                Step::Halt(next) => next.registers.program_counter,
                Step::Fault(_) => before,
            };
            let past = before + info.size.spec_bytes();
            &&& is_instruction(info)
            &&& info.size == info.addressing_mode.spec_size()
            &&& past <= MEMORY_SIZE
            &&& !is_control_flow(info.opcode) ==> after == past
            &&& match effect(info.opcode) {
                Effect::Branch { mask, when } => operand is Target && after == (if state.flag(mask)
                    == when {
                    operand->Target_0 as int
                } else {
                    past
                }),
                Effect::Jump | Effect::Call => operand is Address && after == operand->Address_0,
                Effect::Return => after == wrap16(word(state.top(), state.pop().top()) + 1),
                Effect::ReturnFromInterrupt => after == word(
                    state.pop().top(),
                    state.pop().pop().top(),
                ),
                _ => after == past,
            }
        }),
{
    let info = fetched_instruction(state);
    let byte = state.memory[state.registers.program_counter as int];
    assert(decode_spec(byte) == Some(info));
    let index = choose|index: int| has_opcode_value(index, byte);
    assert(instruction_at(index) == info);
    lemma_size_follows_mode(info);
}

/// A comparison changes nothing but flags: the registers, the program
/// counter and memory are as they were.
pub proof fn lemma_compare_changes_only_flags(
    state: MachineState,
    register: Register,
    operand: Operand,
)
    requires
        perform(state, Effect::Compare(register), operand) is Ok,
    ensures
        ({
            let next = perform(state, Effect::Compare(register), operand)->Ok_0;
            let value = value_of(state, operand)->Ok_0;
            &&& next == state.with_status(next.registers.status)
            &&& next.flag(CARRY) == (state.register(register) >= value)
            &&& next.flag(ZERO) == (state.register(register) == value)
            &&& next.flag(NEGATIVE) == (low_byte(state.register(register) - value)
                >= 0x80)
        }),
{
    let flags = state.registers.status;
    let value = value_of(state, operand)->Ok_0;
    let r = state.register(register);
    let first = flags.with(CARRY, r >= value);
    lemma_flags_disjoint(CARRY, CARRY);
    lemma_with_then_has(flags, CARRY, r >= value);
    lemma_zero_negative(first, low_byte(r - value), CARRY);
}

/// The flag `UNUSED`, once set, stays set: no cycle clears it.
pub proof fn lemma_unused_stays_set(state: MachineState)
    requires
        state.well_formed(),
        state.flag(UNUSED),
    ensures
        match step(state) {
            Step::Continue(next) => next.flag(UNUSED),
            Step::Halt(next) => next.flag(UNUSED),
            Step::Fault(_) => true,
        },
{
    match step(state) {
        Step::Continue(next) => {
            let info = fetched_instruction(state);
            let fetched = state.with_program_counter((state.registers.program_counter + 1) as u16);
            let resolved = resolve(fetched, info.addressing_mode)->Ok_0;
            assert(perform(resolved.1, effect(info.opcode), resolved.0) is Ok);
            assert(!may_change(effect(info.opcode), UNUSED));
            lemma_other_flags_kept(resolved.1, info.opcode, resolved.0, UNUSED);
        },
        _ => {},
    }
}

/// An addition in binary mode leaves the sum modulo 256 in the accumulator
/// and sets carry where the unsigned sum passed 255, overflow where the
/// signed sum left the range `-128` to `127`, zero where the accumulator
/// is `0` and negative where its bit 7 is set. A subtraction does the same
/// with the difference; its carry says that no borrow was needed.
pub proof fn lemma_arithmetic(state: MachineState, subtract: bool, operand: Operand)
    requires
        perform(
            state,
            if subtract {
                Effect::Subtract
            } else {
                Effect::Add
            },
            operand,
        ) is Ok,
    ensures
        ({
            let next = perform(
                state,
                if subtract {
                    Effect::Subtract
                } else {
                    Effect::Add
                },
                operand,
            )->Ok_0;
            let a = state.registers.accumulator;
            let m = value_of(state, operand)->Ok_0;
            let sum = if subtract {
                subtract_with_borrow_spec(a, m, state.flag(CARRY))
            } else {
                add_with_carry_spec(a, m, state.flag(CARRY))
            };
            &&& !state.flag(DECIMAL)
            &&& next.registers.accumulator == sum.value
            &&& next.flag(CARRY) == sum.carry
            &&& next.flag(OVERFLOW) == sum.overflow
            &&& next.flag(ZERO) == (sum.value == 0)
            &&& next.flag(NEGATIVE) == (sum.value >= 0x80)
            &&& next.memory == state.memory
        }),
{
    let flags = state.registers.status;
    let a = state.registers.accumulator;
    let m = value_of(state, operand)->Ok_0;
    let sum = if subtract {
        subtract_with_borrow_spec(a, m, state.flag(CARRY))
    } else {
        add_with_carry_spec(a, m, state.flag(CARRY))
    };
    let first = flags.with(CARRY, sum.carry);
    let second = first.with(OVERFLOW, sum.overflow);
    lemma_flags_disjoint(CARRY, OVERFLOW);
    lemma_flags_disjoint(OVERFLOW, CARRY);
    lemma_with_then_has(flags, CARRY, sum.carry);
    lemma_with_keeps_others(first, OVERFLOW, sum.overflow, CARRY);
    lemma_with_then_has(first, OVERFLOW, sum.overflow);
    lemma_zero_negative(second, sum.value, CARRY);
    lemma_zero_negative(second, sum.value, OVERFLOW);
}

/// What was pushed is what a pull yields, and the pull leaves the registers
/// as they were before the push.
pub proof fn lemma_push_then_pull(state: MachineState, value: u8)
    requires
        state.well_formed(),
    ensures
        state.push(value).top() == value,
        state.push(value).pop().registers == state.registers,
        state.push(value).well_formed(),
{
}

/// A call and the return from it: the return leaves the program counter at
/// the instruction after the call and the stack pointer where it was.
pub proof fn lemma_call_then_return(state: MachineState, address: u16)
    requires
        state.well_formed(),
    ensures
        ({
            let called = perform(state, Effect::Call, Operand::Address(address))->Ok_0;
            let returned = perform(called, Effect::Return, Operand::Implied)->Ok_0;
            &&& perform(state, Effect::Call, Operand::Address(address)) is Ok
            &&& called.registers.program_counter == address
            &&& perform(called, Effect::Return, Operand::Implied) is Ok
            &&& returned.registers == state.registers
            &&& returned.clock == state.clock
        }),
{
    let last = wrap16(state.registers.program_counter - 1);
    let high = (last as int / 256) as u8;
    let low = low_byte(last as int);
    let first = state.push(high);
    lemma_push_then_pull(state, high);
    lemma_push_then_pull(first, low);
    let called = first.push(low).with_program_counter(address);
    assert(called.top() == low);
    assert(called.pop().top() == high);
    assert(word(low, high) == last);
}

/// A run that has ended does not depend on its limit: with a higher limit
/// it ends in the same state, after as many cycles and for the same reason.
pub proof fn lemma_run_limit(state: MachineState, limit: nat, more: nat)
    requires
        !(run(state, limit).end is OutOfSteps),
    ensures
        run(state, limit + more) == run(state, limit),
    decreases limit,
{
    if limit > 0 {
        match step(state) {
            Step::Continue(next) => {
                lemma_run_limit(next, (limit - 1) as nat, more);
                assert((limit + more - 1) as nat == (limit - 1) as nat + more);
            },
            _ => {},
        }
    }
}

} // verus!
