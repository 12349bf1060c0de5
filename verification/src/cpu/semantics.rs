//! What the processor does, stated over a mathematical model of the machine.
//!
//! A [`MachineState`] is the registers, the memory as a sequence of bytes and
//! the cycle counter. [`step`] says what one cycle of fetching, decoding and
//! executing makes of a state, and [`run`] what a bounded number of cycles
//! makes of it. The executable processor is proved against these functions.

use crate::cpu::alu::{
    add_with_carry_spec, low_byte, shift_spec, signed, subtract_with_borrow_spec, word, wrap16,
    Shift,
};
use crate::cpu::operations::{
    decode_spec, is_instruction, AddressingMode, InstructionInfo, OpSize, Opcode,
};
use crate::cpu::status::{
    StatusFlags, BREAK, CARRY, DECIMAL, INTERRUPT, NEGATIVE, OVERFLOW, UNUSED, ZERO,
};
use crate::cpu::Registers;
use crate::error::Error;
use crate::memory::MEMORY_SIZE;
use vstd::prelude::*;

verus! {

/// The first address of the page that holds the stack.
pub const STACK_BASE: u16 = 0x0100;

/// One of the byte-wide registers.
#[derive(Clone, Copy, Debug, PartialEq, Eq, Structural)]
pub enum Register {
    Accumulator,
    X,
    Y,
    StackPointer,
}

/// One of the bitwise operations on two bytes.
#[derive(Clone, Copy, Debug, PartialEq, Eq, Structural)]
pub enum Logic {
    And,
    Or,
    ExclusiveOr,
}

/// What an instruction works on, as its addressing mode and operand bytes
/// give it.
#[derive(Clone, Copy, Debug, PartialEq, Eq, Structural)]
pub enum Operand {
    /// Nothing: the instruction names all it needs.
    Implied,
    /// The accumulator.
    Accumulator,
    /// A value that stood in the instruction itself.
    Immediate(u8),
    /// The byte of memory at an address.
    Address(u16),
    /// The address that a branch goes to when it is taken.
    Target(u16),
}

/// What an instruction does: the family it belongs to, and which member of it.
pub enum Effect {
    /// Copies the operand into a register. Sets zero and negative.
    Load(Register),
    /// Copies a register to the operand.
    Store(Register),
    /// Copies one register into another. Sets zero and negative, unless
    /// the stack pointer receives the value.
    Transfer { from: Register, to: Register },
    /// Combines the accumulator with the operand bit by bit. Sets zero and
    /// negative.
    Combine(Logic),
    /// Tests the operand against the accumulator: zero from their
    /// conjunction, negative and overflow from bits 7 and 6 of the operand.
    BitTest,
    /// Adds the operand and the carry to the accumulator. Sets carry,
    /// overflow, zero and negative.
    Add,
    /// Subtracts the operand and the borrow from the accumulator. Sets
    /// carry, overflow, zero and negative.
    Subtract,
    /// Compares a register with the operand. Sets carry, zero and negative
    /// and leaves the register as it was.
    Compare(Register),
    /// Adds `1` to the operand, or subtracts it where `up` is false. Sets zero
    /// and negative.
    StepOperand { up: bool },
    /// Adds `1` to a register, or subtracts it where `up` is false. Sets zero
    /// and negative.
    StepRegister { register: Register, up: bool },
    /// Shifts or rotates the operand by one bit. Sets carry, zero and
    /// negative.
    Move(Shift),
    /// Sets the flags of `mask` to `value`.
    Flag { mask: u8, value: bool },
    /// Goes to the target where the flag of `mask` reads `when`.
    Branch { mask: u8, when: bool },
    /// Goes to the operand's address.
    Jump,
    /// Pushes the address of its own last byte and goes to the operand's
    /// address.
    Call,
    /// Pulls an address and goes to the byte after it.
    Return,
    /// Pulls the flags and then an address, and goes to that address.
    ReturnFromInterrupt,
    /// Pushes the accumulator.
    PushAccumulator,
    /// Pushes the flags, with `BREAK` and `UNUSED` set in the pushed byte.
    PushStatus,
    /// Pulls the accumulator. Sets zero and negative.
    PullAccumulator,
    /// Pulls the flags; `BREAK` and `UNUSED` stay as they are in the register.
    PullStatus,
    /// Nothing.
    Nothing,
    /// Nothing to the machine; the cycle that meets it halts.
    Halt,
}

/// The effect of each mnemonic.
pub open spec fn effect(opcode: Opcode) -> Effect {
    match opcode {
        Opcode::Adc => Effect::Add,
        Opcode::And => Effect::Combine(Logic::And),
        Opcode::Asl => Effect::Move(Shift::Left),
        Opcode::Bcc => Effect::Branch { mask: CARRY, when: false },
        Opcode::Bcs => Effect::Branch { mask: CARRY, when: true },
        Opcode::Beq => Effect::Branch { mask: ZERO, when: true },
        Opcode::Bit => Effect::BitTest,
        Opcode::Bmi => Effect::Branch { mask: NEGATIVE, when: true },
        Opcode::Bne => Effect::Branch { mask: ZERO, when: false },
        Opcode::Bpl => Effect::Branch { mask: NEGATIVE, when: false },
        Opcode::Brk => Effect::Halt,
        Opcode::Bvc => Effect::Branch { mask: OVERFLOW, when: false },
        Opcode::Bvs => Effect::Branch { mask: OVERFLOW, when: true },
        Opcode::Clc => Effect::Flag { mask: CARRY, value: false },
        Opcode::Cld => Effect::Flag { mask: DECIMAL, value: false },
        Opcode::Cli => Effect::Flag { mask: INTERRUPT, value: false },
        Opcode::Clv => Effect::Flag { mask: OVERFLOW, value: false },
        Opcode::Cmp => Effect::Compare(Register::Accumulator),
        Opcode::Cpx => Effect::Compare(Register::X),
        Opcode::Cpy => Effect::Compare(Register::Y),
        Opcode::Dec => Effect::StepOperand { up: false },
        Opcode::Dex => Effect::StepRegister { register: Register::X, up: false },
        Opcode::Dey => Effect::StepRegister { register: Register::Y, up: false },
        Opcode::Eor => Effect::Combine(Logic::ExclusiveOr),
        Opcode::Inc => Effect::StepOperand { up: true },
        Opcode::Inx => Effect::StepRegister { register: Register::X, up: true },
        Opcode::Iny => Effect::StepRegister { register: Register::Y, up: true },
        Opcode::Jmp => Effect::Jump,
        Opcode::Jsr => Effect::Call,
        Opcode::Lda => Effect::Load(Register::Accumulator),
        Opcode::Ldx => Effect::Load(Register::X),
        Opcode::Ldy => Effect::Load(Register::Y),
        Opcode::Lsr => Effect::Move(Shift::Right),
        Opcode::Nop => Effect::Nothing,
        Opcode::Ora => Effect::Combine(Logic::Or),
        Opcode::Pha => Effect::PushAccumulator,
        Opcode::Php => Effect::PushStatus,
        Opcode::Pla => Effect::PullAccumulator,
        Opcode::Plp => Effect::PullStatus,
        Opcode::Rol => Effect::Move(Shift::RotateLeft),
        Opcode::Ror => Effect::Move(Shift::RotateRight),
        Opcode::Rti => Effect::ReturnFromInterrupt,
        Opcode::Rts => Effect::Return,
        Opcode::Sbc => Effect::Subtract,
        Opcode::Sec => Effect::Flag { mask: CARRY, value: true },
        Opcode::Sed => Effect::Flag { mask: DECIMAL, value: true },
        Opcode::Sei => Effect::Flag { mask: INTERRUPT, value: true },
        Opcode::Sta => Effect::Store(Register::Accumulator),
        Opcode::Stx => Effect::Store(Register::X),
        Opcode::Sty => Effect::Store(Register::Y),
        Opcode::Tax => Effect::Transfer { from: Register::Accumulator, to: Register::X },
        Opcode::Tay => Effect::Transfer { from: Register::Accumulator, to: Register::Y },
        Opcode::Tsx => Effect::Transfer { from: Register::StackPointer, to: Register::X },
        Opcode::Txa => Effect::Transfer { from: Register::X, to: Register::Accumulator },
        Opcode::Txs => Effect::Transfer { from: Register::X, to: Register::StackPointer },
        Opcode::Tya => Effect::Transfer { from: Register::Y, to: Register::Accumulator },
    }
}

/// Whether the instruction sets the program counter itself: a branch, a
/// jump, a call or a return.
pub open spec fn is_control_flow(opcode: Opcode) -> bool {
    match effect(opcode) {
        Effect::Branch { .. } | Effect::Jump | Effect::Call | Effect::Return
        | Effect::ReturnFromInterrupt => true,
        _ => false,
    }
}

/// The bitwise combination of two bytes.
pub open spec fn combine(logic: Logic, a: u8, m: u8) -> u8 {
    match logic {
        Logic::And => a & m,
        Logic::Or => a | m,
        Logic::ExclusiveOr => a ^ m,
    }
}

/// `flags` with zero and negative set as `value` asks: zero where it is `0`,
/// negative where its bit 7 is set.
pub open spec fn zero_negative(flags: StatusFlags, value: u8) -> StatusFlags {
    flags.with(ZERO, value == 0).with(NEGATIVE, value >= 0x80)
}

/// The flags that pulling `pulled` from the stack leaves in a register that
/// holds `flags`: the pulled byte, but for `BREAK` and `UNUSED`, which stay.
pub open spec fn pulled_status(flags: StatusFlags, pulled: u8) -> StatusFlags {
    StatusFlags { bits: (pulled & !(BREAK | UNUSED)) | (flags.bits & (BREAK | UNUSED)) }
}

/// The whole machine at one moment.
pub struct MachineState {
    /// The registers of the processor.
    pub registers: Registers,
    /// The memory, byte by byte from address `0`.
    pub memory: Seq<u8>,
    /// The clock cycles counted so far, modulo 2^64.
    pub clock: u64,
}

impl MachineState {
    /// The machine as it is created: the registers at their first values,
    /// every byte of memory zero, no cycle counted.
    pub open spec fn initial() -> MachineState {
        MachineState {
            registers: Registers::initial(),
            memory: Seq::new(MEMORY_SIZE as nat, |i: int| 0u8),
            clock: 0,
        }
    }

    /// Whether the memory has the size that the machine is built with.
    pub open spec fn well_formed(self) -> bool {
        self.memory.len() == MEMORY_SIZE
    }

    /// The byte at `address`; `None` past the end of memory.
    pub open spec fn read(self, address: u16) -> Option<u8> {
        if address < self.memory.len() {
            Some(self.memory[address as int])
        } else {
            None
        }
    }

    /// The value of a register.
    pub open spec fn register(self, register: Register) -> u8 {
        match register {
            Register::Accumulator => self.registers.accumulator,
            Register::X => self.registers.x,
            Register::Y => self.registers.y,
            Register::StackPointer => self.registers.stack_pointer,
        }
    }

    /// The state with `value` in a register.
    pub open spec fn with_register(self, register: Register, value: u8) -> MachineState {
        match register {
            Register::Accumulator => MachineState {
                registers: Registers { accumulator: value, ..self.registers },
                ..self
            },
            Register::X => MachineState {
                registers: Registers { x: value, ..self.registers },
                ..self
            },
            Register::Y => MachineState {
                registers: Registers { y: value, ..self.registers },
                ..self
            },
            Register::StackPointer => MachineState {
                registers: Registers { stack_pointer: value, ..self.registers },
                ..self
            },
        }
    }

    /// The state with the program counter at `address`.
    pub open spec fn with_program_counter(self, address: u16) -> MachineState {
        MachineState { registers: Registers { program_counter: address, ..self.registers }, ..self }
    }

    /// The state with `flags` in the status register.
    pub open spec fn with_status(self, flags: StatusFlags) -> MachineState {
        MachineState { registers: Registers { status: flags, ..self.registers }, ..self }
    }

    /// The state with `value` at `address`, which lies in memory.
    pub open spec fn with_byte(self, address: int, value: u8) -> MachineState {
        MachineState { memory: self.memory.update(address, value), ..self }
    }

    /// The state with `cycles` more on the clock.
    pub open spec fn tick(self, cycles: u8) -> MachineState {
        MachineState { clock: ((self.clock + cycles) % 0x1_0000_0000_0000_0000) as u64, ..self }
    }

    /// Whether a flag of `mask` is set.
    pub open spec fn flag(self, mask: u8) -> bool {
        self.registers.status.has(mask)
    }

    /// The state after `value` was pushed: it stands where the stack pointer
    /// pointed, and the stack pointer is one lower, wrapping within its page.
    pub open spec fn push(self, value: u8) -> MachineState {
        self.with_byte(STACK_BASE + self.registers.stack_pointer, value).with_register(
            Register::StackPointer,
            low_byte(self.registers.stack_pointer - 1),
        )
    }

    /// The byte that a pull yields: the one above the stack pointer.
    pub open spec fn top(self) -> u8 {
        self.memory[STACK_BASE + low_byte(self.registers.stack_pointer + 1)]
    }

    /// The state after a pull: the stack pointer is one higher, wrapping
    /// within its page.
    pub open spec fn pop(self) -> MachineState {
        self.with_register(Register::StackPointer, low_byte(self.registers.stack_pointer + 1))
    }
}

/// The operand bytes of an instruction of length `size` whose opcode byte
/// was just fetched, and the state with the program counter past them;
/// `None` where memory ends before they do.
pub open spec fn operand_bytes(state: MachineState, size: OpSize) -> Option<
    (Seq<u8>, MachineState),
> {
    let start = state.registers.program_counter as int;
    let end = start + size.spec_operand_bytes();
    if size == OpSize::One {
        Some((Seq::empty(), state))
    } else if end <= state.memory.len() {
        Some((state.memory.subrange(start, end), state.with_program_counter(end as u16)))
    } else {
        None
    }
}

/// What the operand bytes stand for under an addressing mode. `next` is the
/// address of the instruction that follows.
pub open spec fn operand_of(mode: AddressingMode, bytes: Seq<u8>, next: u16) -> Operand {
    match mode {
        AddressingMode::Implied => Operand::Implied,
        AddressingMode::Accumulator => Operand::Accumulator,
        AddressingMode::Immediate => Operand::Immediate(bytes[0]),
        AddressingMode::ZeroPage => Operand::Address(bytes[0] as u16),
        AddressingMode::Absolute => Operand::Address(word(bytes[0], bytes[1])),
        AddressingMode::Relative => Operand::Target(wrap16(next + signed(bytes[0]))),
    }
}

/// The operand of an instruction with addressing mode `mode` whose opcode
/// byte was just fetched, and the state with the program counter past the
/// operand bytes. Fails with `TruncatedOperand` where memory ends before the
/// operand bytes do.
pub open spec fn resolve(state: MachineState, mode: AddressingMode) -> Result<
    (Operand, MachineState),
    Error,
> {
    match operand_bytes(state, mode.spec_size()) {
        Some((bytes, next)) => Ok((operand_of(mode, bytes, next.registers.program_counter), next)),
        None => Err(Error::TruncatedOperand),
    }
}

/// The byte that an operand stands for. Fails with `MemoryOutOfRange` for an
/// address past the end of memory, and with `NotImplemented` for an operand
/// that is no value.
pub open spec fn value_of(state: MachineState, operand: Operand) -> Result<u8, Error> {
    match operand {
        Operand::Immediate(value) => Ok(value),
        Operand::Accumulator => Ok(state.registers.accumulator),
        Operand::Address(address) => match state.read(address) {
            Some(value) => Ok(value),
            None => Err(Error::MemoryOutOfRange),
        },
        Operand::Implied | Operand::Target(_) => Err(Error::NotImplemented),
    }
}

/// The state with `value` written to the operand. Fails with
/// `MemoryOutOfRange` for an address past the end of memory, and with
/// `NotImplemented` for an operand that cannot be written.
pub open spec fn store(state: MachineState, operand: Operand, value: u8) -> Result<
    MachineState,
    Error,
> {
    match operand {
        Operand::Accumulator => Ok(state.with_register(Register::Accumulator, value)),
        Operand::Address(address) => if address < state.memory.len() {
            Ok(state.with_byte(address as int, value))
        } else {
            Err(Error::MemoryOutOfRange)
        },
        Operand::Implied | Operand::Immediate(_) | Operand::Target(_) => Err(Error::NotImplemented),
    }
}

/// What an effect makes of a state, given the operand. The program counter
/// of `state` is already past the instruction.
pub open spec fn perform(state: MachineState, effect: Effect, operand: Operand) -> Result<
    MachineState,
    Error,
> {
    let flags = state.registers.status;
    let a = state.registers.accumulator;
    match effect {
        Effect::Load(register) => match value_of(state, operand) {
            Ok(m) => Ok(state.with_register(register, m).with_status(zero_negative(flags, m))),
            Err(e) => Err(e),
        },
        Effect::Store(register) => store(state, operand, state.register(register)),
        Effect::Transfer { from, to } => {
            let value = state.register(from);
            if to == Register::StackPointer {
                Ok(state.with_register(to, value))
            } else {
                Ok(state.with_register(to, value).with_status(zero_negative(flags, value)))
            }
        },
        Effect::Combine(logic) => match value_of(state, operand) {
            Ok(m) => {
                let value = combine(logic, a, m);
                Ok(
                    state.with_register(Register::Accumulator, value).with_status(
                        zero_negative(flags, value),
                    ),
                )
            },
            Err(e) => Err(e),
        },
        Effect::BitTest => match value_of(state, operand) {
            Ok(m) => Ok(
                state.with_status(
                    flags.with(ZERO, a & m == 0).with(NEGATIVE, m & NEGATIVE != 0).with(
                        OVERFLOW,
                        m & OVERFLOW != 0,
                    ),
                ),
            ),
            Err(e) => Err(e),
        },
        Effect::Add => if flags.has(DECIMAL) {
            Err(Error::NotImplemented)
        } else {
            match value_of(state, operand) {
                Ok(m) => {
                    let sum = add_with_carry_spec(a, m, flags.has(CARRY));
                    Ok(
                        state.with_register(Register::Accumulator, sum.value).with_status(
                            zero_negative(
                                flags.with(CARRY, sum.carry).with(OVERFLOW, sum.overflow),
                                sum.value,
                            ),
                        ),
                    )
                },
                Err(e) => Err(e),
            }
        },
        Effect::Subtract => if flags.has(DECIMAL) {
            Err(Error::NotImplemented)
        } else {
            match value_of(state, operand) {
                Ok(m) => {
                    let sum = subtract_with_borrow_spec(a, m, flags.has(CARRY));
                    Ok(
                        state.with_register(Register::Accumulator, sum.value).with_status(
                            zero_negative(
                                flags.with(CARRY, sum.carry).with(OVERFLOW, sum.overflow),
                                sum.value,
                            ),
                        ),
                    )
                },
                Err(e) => Err(e),
            }
        },
        Effect::Compare(register) => match value_of(state, operand) {
            Ok(m) => {
                let r = state.register(register);
                Ok(state.with_status(zero_negative(flags.with(CARRY, r >= m), low_byte(r - m))))
            },
            Err(e) => Err(e),
        },
        Effect::StepOperand { up } => match value_of(state, operand) {
            Ok(m) => {
                let value = low_byte(if up { m + 1 } else { m - 1 });
                match store(state, operand, value) {
                    Ok(stored) => Ok(stored.with_status(zero_negative(flags, value))),
                    Err(e) => Err(e),
                }
            },
            Err(e) => Err(e),
        },
        Effect::StepRegister { register, up } => {
            let r = state.register(register);
            let value = low_byte(if up { r + 1 } else { r - 1 });
            Ok(state.with_register(register, value).with_status(zero_negative(flags, value)))
        },
        Effect::Move(shift) => match value_of(state, operand) {
            Ok(m) => {
                let shifted = shift_spec(shift, m, flags.has(CARRY));
                match store(state, operand, shifted.value) {
                    Ok(stored) => Ok(
                        stored.with_status(
                            zero_negative(flags.with(CARRY, shifted.carry), shifted.value),
                        ),
                    ),
                    Err(e) => Err(e),
                }
            },
            Err(e) => Err(e),
        },
        Effect::Flag { mask, value } => Ok(state.with_status(flags.with(mask, value))),
        Effect::Branch { mask, when } => match operand {
            Operand::Target(target) => if flags.has(mask) == when {
                Ok(state.with_program_counter(target))
            } else {
                Ok(state)
            },
            _ => Err(Error::NotImplemented),
        },
        Effect::Jump => match operand {
            Operand::Address(address) => Ok(state.with_program_counter(address)),
            _ => Err(Error::NotImplemented),
        },
        Effect::Call => match operand {
            Operand::Address(address) => {
                let last = wrap16(state.registers.program_counter - 1);
                Ok(
                    state.push((last as int / 256) as u8).push(
                        low_byte(last as int),
                    ).with_program_counter(address),
                )
            },
            _ => Err(Error::NotImplemented),
        },
        Effect::Return => {
            let low = state.top();
            let high = state.pop().top();
            Ok(state.pop().pop().with_program_counter(wrap16(word(low, high) + 1)))
        },
        Effect::ReturnFromInterrupt => {
            let pulled = state.top();
            let low = state.pop().top();
            let high = state.pop().pop().top();
            Ok(
                state.pop().pop().pop().with_status(
                    pulled_status(flags, pulled),
                ).with_program_counter(word(low, high)),
            )
        },
        Effect::PushAccumulator => Ok(state.push(a)),
        Effect::PushStatus => Ok(state.push(flags.bits | BREAK | UNUSED)),
        Effect::PullAccumulator => {
            let value = state.top();
            Ok(
                state.pop().with_register(Register::Accumulator, value).with_status(
                    zero_negative(flags, value),
                ),
            )
        },
        Effect::PullStatus => Ok(state.pop().with_status(pulled_status(flags, state.top()))),
        Effect::Nothing | Effect::Halt => Ok(state),
    }
}

/// What executing `info` makes of a state whose program counter stands just
/// after the opcode byte: the operand is resolved, which moves the program
/// counter past the instruction, and the effect of the mnemonic is performed.
///
/// Fails with `UnknownOperation` for an `info` that the table does not hold,
/// with `TruncatedOperand` where memory ends before the operand bytes do, and
/// as [`perform`] does.
pub open spec fn execute(state: MachineState, info: InstructionInfo) -> Result<
    MachineState,
    Error,
> {
    if !is_instruction(info) {
        Err(Error::UnknownOperation)
    } else {
        match resolve(state, info.addressing_mode) {
            Ok((operand, next)) => perform(next, effect(info.opcode), operand),
            Err(e) => Err(e),
        }
    }
}

/// How one cycle of the processor ends.
pub enum Step {
    /// An instruction was executed; the machine is in the given state.
    Continue(MachineState),
    /// The break instruction was met; the machine is in the given state.
    Halt(MachineState),
    /// The cycle failed, and the machine is as it was before it.
    Fault(Error),
}

/// One cycle of the processor, through its four phases.
///
/// Fetching reads the byte at the program counter; it fails with
/// `MemoryOutOfRange` where the program counter points past the end of
/// memory. Decoding finds the instruction that the byte encodes; it fails
/// with `UnknownOpcode` where the byte encodes none. Resolving reads the
/// operand, and executing performs the effect of the mnemonic; they fail as
/// [`execute`] does. At the end the cycles of the instruction are counted,
/// and the processor is ready to fetch again.
///
/// The break instruction halts instead: the program counter moves past it,
/// its cycles are counted, and nothing else changes.
pub open spec fn step(state: MachineState) -> Step {
    match state.read(state.registers.program_counter) {
        None => Step::Fault(Error::MemoryOutOfRange),
        Some(byte) => match decode_spec(byte) {
            None => Step::Fault(Error::UnknownOpcode),
            Some(info) => {
                let fetched = state.with_program_counter(
                    (state.registers.program_counter + 1) as u16,
                );
                if info.opcode == Opcode::Brk {
                    Step::Halt(fetched.tick(info.cycles))
                } else {
                    match execute(fetched, info) {
                        Ok(next) => Step::Continue(next.tick(info.cycles)),
                        Err(e) => Step::Fault(e),
                    }
                }
            },
        },
    }
}

/// Why a run ended.
pub enum End {
    /// The break instruction was met.
    Halted,
    /// A cycle failed.
    Faulted(Error),
    /// The limit on the number of cycles was reached.
    OutOfSteps,
}

/// A run of the processor: where it left the machine, how many cycles it
/// completed, and why it ended.
pub struct Run {
    /// The state after the last completed cycle.
    pub state: MachineState,
    /// The number of completed cycles; the one that halts counts, one that
    /// fails does not.
    pub steps: nat,
    /// Why the run ended.
    pub end: End,
}

/// The run of at most `limit` cycles from `state`: cycle follows cycle until
/// one halts or fails, or `limit` cycles are done.
pub open spec fn run(state: MachineState, limit: nat) -> Run
    decreases limit,
{
    if limit == 0 {
        Run { state, steps: 0, end: End::OutOfSteps }
    } else {
        match step(state) {
            Step::Fault(e) => Run { state, steps: 0, end: End::Faulted(e) },
            Step::Halt(next) => Run { state: next, steps: 1, end: End::Halted },
            Step::Continue(next) => {
                let rest = run(next, (limit - 1) as nat);
                Run { state: rest.state, steps: rest.steps + 1, end: rest.end }
            },
        }
    }
}

/// A run completes no more cycles than its limit allows.
pub proof fn lemma_run_steps_bounded(state: MachineState, limit: nat)
    ensures
        run(state, limit).steps <= limit,
    decreases limit,
{
    if limit > 0 {
        match step(state) {
            Step::Continue(next) => lemma_run_steps_bounded(next, (limit - 1) as nat),
            _ => {},
        }
    }
}

} // verus!
