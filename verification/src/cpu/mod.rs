//! The processor: its registers, and the cycle that fetches, decodes and
//! executes one instruction after another.

pub mod alu;
pub mod laws;
pub mod operations;
pub mod semantics;
pub mod status;

use crate::cpu::alu::{
    add_with_carry, decrement, difference, displace, following, high_of, increment, low_of,
    make_word, preceding, shift, subtract_with_borrow, Shift,
};
use crate::cpu::operations::{AddressingMode, InstructionInfo, OpSize, Opcode};
use crate::cpu::semantics::{
    effect, perform, step, Effect, End, Logic, MachineState, Operand, Register, Step, STACK_BASE,
};
pub use crate::cpu::status::StatusFlags;
use crate::cpu::status::{
    BREAK, CARRY, DECIMAL, DEFAULT, INTERRUPT, NEGATIVE, OVERFLOW, UNUSED, ZERO,
};
use crate::error::Error;
use crate::memory::{loaded, Memory, MEMORY_SIZE};
use vstd::prelude::*;

verus! {

/// The registers of the processor.
#[derive(Clone, Copy, Debug, PartialEq, Eq, Structural)]
pub struct Registers {
    pub accumulator: u8,
    pub x: u8,
    pub y: u8,
    pub program_counter: u16,
    pub status: StatusFlags,
    pub stack_pointer: u8,
}

impl Registers {
    /// The registers of a processor that has just been created: all zero,
    /// with the default flags.
    pub open spec fn initial() -> Registers {
        Registers {
            accumulator: 0,
            x: 0,
            y: 0,
            program_counter: 0,
            status: StatusFlags { bits: DEFAULT },
            stack_pointer: 0,
        }
    }

    /// The registers of a processor that has just been created.
    pub fn new() -> (registers: Registers)
        ensures
            registers == Registers::initial(),
    {
        Registers {
            accumulator: 0,
            x: 0,
            y: 0,
            program_counter: 0,
            status: StatusFlags { bits: DEFAULT },
            stack_pointer: 0,
        }
    }
}

/// A processor with its memory.
///
/// Its model is a [`MachineState`]: the contracts of its methods say what
/// they make of that state.
pub struct Cpu {
    registers: Registers,
    memory: Memory,
    clock: u64,
}

impl View for Cpu {
    type V = MachineState;

    closed spec fn view(&self) -> MachineState {
        MachineState { registers: self.registers, memory: self.memory@, clock: self.clock }
    }
}

/// What one cycle of the processor met, for a caller that keeps a trace.
#[derive(Clone, Copy, Debug, PartialEq, Eq, Structural)]
pub struct Trace {
    /// The program counter before the cycle: the address of the opcode byte.
    pub address: u16,
    /// The opcode byte.
    pub byte: u8,
    /// The instruction that the byte encodes.
    pub instruction: InstructionInfo,
    /// Whether the instruction was the break instruction, which ends the
    /// program.
    pub halted: bool,
}

/// How a run ended that did not fail.
#[derive(Clone, Copy, Debug, PartialEq, Eq, Structural)]
pub struct RunSummary {
    /// The number of cycles that were completed, the halting one included.
    pub steps: u64,
    /// Whether the break instruction was met; if not, the limit on the
    /// number of cycles was reached.
    pub halted: bool,
}

/// Whether a method that reports `done` and leaves the machine in `after`
/// did to `before` what `expected` says: on success the machine is in the
/// expected state, on failure the error is the expected one and the machine
/// is as it was.
pub open spec fn follows(
    before: MachineState,
    after: MachineState,
    done: Result<(), Error>,
    expected: Result<MachineState, Error>,
) -> bool {
    match expected {
        Ok(next) => done is Ok && after == next,
        Err(e) => done == Err::<(), Error>(e) && after == before,
    }
}

impl Cpu {
    /// A processor in its first state, with memory that is all zero.
    pub fn new() -> (cpu: Cpu)
        ensures
            cpu@ == MachineState::initial(),
    {
        Cpu { registers: Registers::new(), memory: Memory::new(), clock: 0 }
    }

    /// The memory of every processor has the size that the machine is built
    /// with.
    pub proof fn lemma_well_formed(&self)
        ensures
            self@.well_formed(),
    {
    }

    /// The registers.
    pub fn registers(&self) -> (registers: Registers)
        ensures
            registers == self@.registers,
    {
        self.registers
    }

    /// The memory.
    pub fn memory(&self) -> (memory: &Memory)
        ensures
            memory@ == self@.memory,
    {
        &self.memory
    }

    /// The clock cycles counted so far.
    pub fn clock(&self) -> (clock: u64)
        ensures
            clock == self@.clock,
    {
        self.clock
    }

    /// Copies a program into memory, its first byte to `address`, and sets
    /// the program counter to `address`.
    ///
    /// A program that would reach past the end of memory is refused with
    /// `MemoryOutOfRange`, and the machine stays as it was.
    pub fn load(&mut self, address: u16, buffer: &[u8]) -> (done: Result<(), Error>)
        ensures
            address + buffer@.len() <= MEMORY_SIZE ==> done is Ok
                && final(self)@ == (MachineState {
                    memory: loaded(old(self)@.memory, address as int, buffer@),
                    ..old(self)@.with_program_counter(address)
                }),
            address + buffer@.len() > MEMORY_SIZE ==> done == Err::<(), Error>(
                Error::MemoryOutOfRange,
            ) && final(self)@ == old(self)@,
    {
        match self.memory.load(address, buffer) {
            Ok(()) => {
                self.registers.program_counter = address;
                Ok(())
            },
            Err(e) => Err(e),
        }
    }

    /// Whether any flag of `status` is set.
    pub fn _get_status(&self, status: StatusFlags) -> (set: bool)
        ensures
            set == self@.flag(status.bits),
    {
        self.registers.status.bits() & status.bits() != 0
    }

    /// Sets the flags of `status` where `value` holds and clears them where
    /// it does not.
    pub fn set_status(&mut self, status: StatusFlags, value: bool)
        ensures
            final(self)@ == old(self)@.with_status(
                old(self)@.registers.status.with(status.bits, value),
            ),
    {
        let mut flags = self.registers.status;
        flags.set(status, value);
        self.registers.status = flags;
    }

    /// Reads the byte at the program counter and moves the program counter
    /// past it.
    ///
    /// Fails with `MemoryOutOfRange` where the program counter points past
    /// the end of memory; the machine then stays as it was.
    pub fn fetch_byte(&mut self) -> (fetched: Result<u8, Error>)
        ensures
            match old(self)@.read(old(self)@.registers.program_counter) {
                Some(byte) => fetched == Ok::<u8, Error>(byte)
                    && final(self)@ == old(self)@.with_program_counter(
                        (old(self)@.registers.program_counter + 1) as u16,
                    ),
                None => fetched == Err::<u8, Error>(Error::MemoryOutOfRange)
                    && final(self)@ == old(self)@,
            },
    {
        match self.memory.read(self.registers.program_counter) {
            Some(byte) => {
                self.registers.program_counter = self.registers.program_counter + 1;
                Ok(byte)
            },
            None => Err(Error::MemoryOutOfRange),
        }
    }

    /// The instruction that `instruction` encodes, as
    /// [`operations::decode`] finds it. The machine stays as it was.
    pub fn decode(&mut self, instruction: u8) -> (found: Result<InstructionInfo, Error>)
        ensures
            found == match operations::decode_spec(instruction) {
                Some(info) => Ok::<InstructionInfo, Error>(info),
                None => Err::<InstructionInfo, Error>(Error::UnknownOpcode),
            },
            final(self)@ == old(self)@,
    {
        operations::decode(instruction)
    }

    /// Reads the operand bytes of an instruction of length `size` whose
    /// opcode byte was just fetched, and moves the program counter past them.
    ///
    /// Fails with `TruncatedOperand` where memory ends before the operand
    /// bytes do; the machine then stays as it was.
    pub fn get_args(&mut self, size: OpSize) -> (args: Result<Vec<u8>, Error>)
        ensures
            match semantics::operand_bytes(old(self)@, size) {
                Some((bytes, next)) => args matches Ok(read) && read@ == bytes
                    && final(self)@ == next,
                None => args matches Err(e) && e == Error::TruncatedOperand
                    && final(self)@ == old(self)@,
            },
            args matches Ok(read) ==> read@.len() == size.spec_operand_bytes()
                && final(self)@.registers.program_counter == old(self)@.registers.program_counter
                + size.spec_operand_bytes(),
    {
        let start = self.registers.program_counter;
        let mut args: Vec<u8> = Vec::new();
        match size {
            OpSize::One => {},
            OpSize::Two => {
                if start as usize >= MEMORY_SIZE {
                    return Err(Error::TruncatedOperand);
                }
                args.push(self.memory.ram[start as usize]);
                self.registers.program_counter = start + 1;
                assert(args@ =~= old(self)@.memory.subrange(start as int, start + 1));
            },
            OpSize::Three => {
                if start as usize + 1 >= MEMORY_SIZE {
                    return Err(Error::TruncatedOperand);
                }
                args.push(self.memory.ram[start as usize]);
                args.push(self.memory.ram[start as usize + 1]);
                self.registers.program_counter = start + 2;
                assert(args@ =~= old(self)@.memory.subrange(start as int, start + 2));
            },
        }
        Ok(args)
    }

    /// Reads the operand of an instruction with addressing mode `mode` whose
    /// opcode byte was just fetched, and moves the program counter past the
    /// operand bytes.
    ///
    /// Fails with `TruncatedOperand` where memory ends before the operand
    /// bytes do; the machine then stays as it was.
    pub fn resolve(&mut self, mode: AddressingMode) -> (operand: Result<Operand, Error>)
        ensures
            match semantics::resolve(old(self)@, mode) {
                Ok((expected, next)) => operand == Ok::<Operand, Error>(expected)
                    && final(self)@ == next,
                Err(e) => operand == Err::<Operand, Error>(e) && final(self)@ == old(self)@,
            },
            operand is Ok ==> final(self)@.registers.program_counter
                == old(self)@.registers.program_counter + mode.spec_size().spec_operand_bytes(),
    {
        let args = match self.get_args(mode.size()) {
            Ok(args) => args,
            Err(e) => {
                return Err(e);
            },
        };
        Ok(
            match mode {
                AddressingMode::Implied => Operand::Implied,
                AddressingMode::Accumulator => Operand::Accumulator,
                AddressingMode::Immediate => Operand::Immediate(args[0]),
                AddressingMode::ZeroPage => Operand::Address(args[0] as u16),
                AddressingMode::Absolute => Operand::Address(make_word(args[0], args[1])),
                AddressingMode::Relative => Operand::Target(
                    displace(self.registers.program_counter, args[0]),
                ),
            },
        )
    }

    /// The byte that `operand` stands for.
    fn value_of(&self, operand: Operand) -> (value: Result<u8, Error>)
        ensures
            value == semantics::value_of(self@, operand),
    {
        match operand {
            Operand::Immediate(value) => Ok(value),
            Operand::Accumulator => Ok(self.registers.accumulator),
            Operand::Address(address) => match self.memory.read(address) {
                Some(value) => Ok(value),
                None => Err(Error::MemoryOutOfRange),
            },
            Operand::Implied | Operand::Target(_) => Err(Error::NotImplemented),
        }
    }

    /// Writes `value` to `operand`.
    fn store(&mut self, operand: Operand, value: u8) -> (done: Result<(), Error>)
        ensures
            follows(old(self)@, final(self)@, done, semantics::store(old(self)@, operand, value)),
    {
        match operand {
            Operand::Accumulator => {
                self.registers.accumulator = value;
                Ok(())
            },
            Operand::Address(address) => self.memory.write(address, value),
            Operand::Implied | Operand::Immediate(_) | Operand::Target(_) => Err(
                Error::NotImplemented,
            ),
        }
    }

    /// The value of a register.
    fn register(&self, register: Register) -> (value: u8)
        ensures
            value == self@.register(register),
    {
        match register {
            Register::Accumulator => self.registers.accumulator,
            Register::X => self.registers.x,
            Register::Y => self.registers.y,
            Register::StackPointer => self.registers.stack_pointer,
        }
    }

    /// Puts `value` in a register.
    fn set_register(&mut self, register: Register, value: u8)
        ensures
            final(self)@ == old(self)@.with_register(register, value),
    {
        match register {
            Register::Accumulator => {
                self.registers.accumulator = value;
            },
            Register::X => {
                self.registers.x = value;
            },
            Register::Y => {
                self.registers.y = value;
            },
            Register::StackPointer => {
                self.registers.stack_pointer = value;
            },
        }
    }

    /// Sets zero and negative as `value` asks.
    fn set_zero_negative(&mut self, value: u8)
        ensures
            final(self)@ == old(self)@.with_status(
                semantics::zero_negative(old(self)@.registers.status, value),
            ),
    {
        self.set_status(StatusFlags::from_bits(ZERO), value == 0);
        self.set_status(StatusFlags::from_bits(NEGATIVE), value >= 0x80);
    }

    /// Pushes `value` on the stack.
    fn push(&mut self, value: u8)
        ensures
            final(self)@ == old(self)@.push(value),
    {
        let pointer = self.registers.stack_pointer;
        let address = STACK_BASE + pointer as u16;
        self.memory.ram[address as usize] = value;
        self.registers.stack_pointer = decrement(pointer);
        assert(self.memory@ =~= old(self).memory@.update(address as int, value));
    }

    /// Pulls a byte from the stack.
    fn pull(&mut self) -> (value: u8)
        ensures
            value == old(self)@.top(),
            final(self)@ == old(self)@.pop(),
    {
        let pointer = increment(self.registers.stack_pointer);
        self.registers.stack_pointer = pointer;
        let address = STACK_BASE + pointer as u16;
        self.memory.ram[address as usize]
    }

    /// Loads a register from the operand.
    fn load_register(&mut self, register: Register, operand: Operand) -> (done: Result<(), Error>)
        ensures
            follows(
                old(self)@,
                final(self)@,
                done,
                perform(old(self)@, Effect::Load(register), operand),
            ),
    {
        let value = match self.value_of(operand) {
            Ok(value) => value,
            Err(e) => {
                return Err(e);
            },
        };
        self.set_register(register, value);
        self.set_zero_negative(value);
        Ok(())
    }

    /// Stores a register to the operand.
    fn store_register(&mut self, register: Register, operand: Operand) -> (done: Result<(), Error>)
        ensures
            follows(
                old(self)@,
                final(self)@,
                done,
                perform(old(self)@, Effect::Store(register), operand),
            ),
    {
        let value = self.register(register);
        self.store(operand, value)
    }

    /// Copies one register into another.
    fn transfer(&mut self, from: Register, to: Register) -> (done: Result<(), Error>)
        ensures
            forall|operand: Operand|
                follows(
                    old(self)@,
                    final(self)@,
                    done,
                    #[trigger] perform(old(self)@, Effect::Transfer { from, to }, operand),
                ),
    {
        let value = self.register(from);
        self.set_register(to, value);
        match to {
            Register::StackPointer => {},
            _ => {
                self.set_zero_negative(value);
            },
        }
        Ok(())
    }

    /// Combines the accumulator with the operand bit by bit.
    fn combine(&mut self, logic: Logic, operand: Operand) -> (done: Result<(), Error>)
        ensures
            follows(
                old(self)@,
                final(self)@,
                done,
                perform(old(self)@, Effect::Combine(logic), operand),
            ),
    {
        let m = match self.value_of(operand) {
            Ok(value) => value,
            Err(e) => {
                return Err(e);
            },
        };
        let a = self.registers.accumulator;
        let value = match logic {
            Logic::And => a & m,
            Logic::Or => a | m,
            Logic::ExclusiveOr => a ^ m,
        };
        self.registers.accumulator = value;
        self.set_zero_negative(value);
        Ok(())
    }

    /// Tests the operand against the accumulator.
    fn bit_test(&mut self, operand: Operand) -> (done: Result<(), Error>)
        ensures
            follows(old(self)@, final(self)@, done, perform(old(self)@, Effect::BitTest, operand)),
    {
        let m = match self.value_of(operand) {
            Ok(value) => value,
            Err(e) => {
                return Err(e);
            },
        };
        let a = self.registers.accumulator;
        self.set_status(StatusFlags::from_bits(ZERO), a & m == 0);
        self.set_status(StatusFlags::from_bits(NEGATIVE), m & NEGATIVE != 0);
        self.set_status(StatusFlags::from_bits(OVERFLOW), m & OVERFLOW != 0);
        Ok(())
    }

    /// Adds the operand and the carry to the accumulator.
    fn add(&mut self, operand: Operand) -> (done: Result<(), Error>)
        ensures
            follows(old(self)@, final(self)@, done, perform(old(self)@, Effect::Add, operand)),
    {
        if self._get_status(StatusFlags::from_bits(DECIMAL)) {
            return Err(Error::NotImplemented);
        }
        let m = match self.value_of(operand) {
            Ok(value) => value,
            Err(e) => {
                return Err(e);
            },
        };
        let carry = self._get_status(StatusFlags::from_bits(CARRY));
        let sum = add_with_carry(self.registers.accumulator, m, carry);
        self.registers.accumulator = sum.value;
        self.set_status(StatusFlags::from_bits(CARRY), sum.carry);
        self.set_status(StatusFlags::from_bits(OVERFLOW), sum.overflow);
        self.set_zero_negative(sum.value);
        Ok(())
    }

    /// Subtracts the operand and the borrow from the accumulator.
    fn subtract(&mut self, operand: Operand) -> (done: Result<(), Error>)
        ensures
            follows(old(self)@, final(self)@, done, perform(old(self)@, Effect::Subtract, operand)),
    {
        if self._get_status(StatusFlags::from_bits(DECIMAL)) {
            return Err(Error::NotImplemented);
        }
        let m = match self.value_of(operand) {
            Ok(value) => value,
            Err(e) => {
                return Err(e);
            },
        };
        let carry = self._get_status(StatusFlags::from_bits(CARRY));
        let sum = subtract_with_borrow(self.registers.accumulator, m, carry);
        self.registers.accumulator = sum.value;
        self.set_status(StatusFlags::from_bits(CARRY), sum.carry);
        self.set_status(StatusFlags::from_bits(OVERFLOW), sum.overflow);
        self.set_zero_negative(sum.value);
        Ok(())
    }

    /// Compares a register with the operand.
    fn compare(&mut self, register: Register, operand: Operand) -> (done: Result<(), Error>)
        ensures
            follows(
                old(self)@,
                final(self)@,
                done,
                perform(old(self)@, Effect::Compare(register), operand),
            ),
    {
        let m = match self.value_of(operand) {
            Ok(value) => value,
            Err(e) => {
                return Err(e);
            },
        };
        let r = self.register(register);
        self.set_status(StatusFlags::from_bits(CARRY), r >= m);
        self.set_zero_negative(difference(r, m));
        Ok(())
    }

    /// Adds `1` to the operand, or subtracts it.
    fn step_operand(&mut self, up: bool, operand: Operand) -> (done: Result<(), Error>)
        ensures
            follows(
                old(self)@,
                final(self)@,
                done,
                perform(old(self)@, Effect::StepOperand { up }, operand),
            ),
    {
        let m = match self.value_of(operand) {
            Ok(value) => value,
            Err(e) => {
                return Err(e);
            },
        };
        let value = if up {
            increment(m)
        } else {
            decrement(m)
        };
        match self.store(operand, value) {
            Ok(()) => {},
            Err(e) => {
                return Err(e);
            },
        }
        self.set_zero_negative(value);
        Ok(())
    }

    /// Adds `1` to a register, or subtracts it.
    fn step_register(&mut self, register: Register, up: bool) -> (done: Result<(), Error>)
        ensures
            forall|operand: Operand|
                follows(
                    old(self)@,
                    final(self)@,
                    done,
                    #[trigger] perform(old(self)@, Effect::StepRegister { register, up }, operand),
                ),
    {
        let r = self.register(register);
        let value = if up {
            increment(r)
        } else {
            decrement(r)
        };
        self.set_register(register, value);
        self.set_zero_negative(value);
        Ok(())
    }

    /// Shifts or rotates the operand by one bit.
    fn shift(&mut self, kind: Shift, operand: Operand) -> (done: Result<(), Error>)
        ensures
            follows(
                old(self)@,
                final(self)@,
                done,
                perform(old(self)@, Effect::Move(kind), operand),
            ),
    {
        let m = match self.value_of(operand) {
            Ok(value) => value,
            Err(e) => {
                return Err(e);
            },
        };
        let carry = self._get_status(StatusFlags::from_bits(CARRY));
        let shifted = shift(kind, m, carry);
        match self.store(operand, shifted.value) {
            Ok(()) => {},
            Err(e) => {
                return Err(e);
            },
        }
        self.set_status(StatusFlags::from_bits(CARRY), shifted.carry);
        self.set_zero_negative(shifted.value);
        Ok(())
    }

    /// Sets or clears a flag.
    fn flag(&mut self, mask: u8, value: bool) -> (done: Result<(), Error>)
        ensures
            forall|operand: Operand|
                follows(
                    old(self)@,
                    final(self)@,
                    done,
                    #[trigger] perform(old(self)@, Effect::Flag { mask, value }, operand),
                ),
    {
        self.set_status(StatusFlags::from_bits(mask), value);
        Ok(())
    }

    /// Goes to the target of a branch where its condition holds.
    fn branch(&mut self, mask: u8, when: bool, operand: Operand) -> (done: Result<(), Error>)
        ensures
            follows(
                old(self)@,
                final(self)@,
                done,
                perform(old(self)@, Effect::Branch { mask, when }, operand),
            ),
    {
        match operand {
            Operand::Target(target) => {
                if self._get_status(StatusFlags::from_bits(mask)) == when {
                    self.registers.program_counter = target;
                }
                Ok(())
            },
            _ => Err(Error::NotImplemented),
        }
    }

    /// Goes to the operand's address.
    fn jump(&mut self, operand: Operand) -> (done: Result<(), Error>)
        ensures
            follows(old(self)@, final(self)@, done, perform(old(self)@, Effect::Jump, operand)),
    {
        match operand {
            Operand::Address(address) => {
                self.registers.program_counter = address;
                Ok(())
            },
            _ => Err(Error::NotImplemented),
        }
    }

    /// Pushes the address of the last byte of the instruction and goes to
    /// the operand's address.
    fn call(&mut self, operand: Operand) -> (done: Result<(), Error>)
        ensures
            follows(old(self)@, final(self)@, done, perform(old(self)@, Effect::Call, operand)),
    {
        match operand {
            Operand::Address(address) => {
                let last = preceding(self.registers.program_counter);
                self.push(high_of(last));
                self.push(low_of(last));
                self.registers.program_counter = address;
                Ok(())
            },
            _ => Err(Error::NotImplemented),
        }
    }

    /// Pulls an address and goes to the byte after it.
    fn return_from_call(&mut self) -> (done: Result<(), Error>)
        ensures
            forall|operand: Operand|
                follows(
                    old(self)@,
                    final(self)@,
                    done,
                    #[trigger] perform(old(self)@, Effect::Return, operand),
                ),
    {
        let low = self.pull();
        let high = self.pull();
        self.registers.program_counter = following(make_word(low, high));
        Ok(())
    }

    /// Pulls the flags and an address, and goes to that address.
    fn return_from_interrupt(&mut self) -> (done: Result<(), Error>)
        ensures
            forall|operand: Operand|
                follows(
                    old(self)@,
                    final(self)@,
                    done,
                    #[trigger] perform(old(self)@, Effect::ReturnFromInterrupt, operand),
                ),
    {
        let kept = self.registers.status.bits() & (BREAK | UNUSED);
        let pulled = self.pull();
        let low = self.pull();
        let high = self.pull();
        self.registers.status = StatusFlags::from_bits((pulled & !(BREAK | UNUSED)) | kept);
        self.registers.program_counter = make_word(low, high);
        Ok(())
    }

    /// Pushes the accumulator.
    fn push_accumulator(&mut self) -> (done: Result<(), Error>)
        ensures
            forall|operand: Operand|
                follows(
                    old(self)@,
                    final(self)@,
                    done,
                    #[trigger] perform(old(self)@, Effect::PushAccumulator, operand),
                ),
    {
        self.push(self.registers.accumulator);
        Ok(())
    }

    /// Pushes the flags, with `BREAK` and `UNUSED` set in the pushed byte.
    fn push_status(&mut self) -> (done: Result<(), Error>)
        ensures
            forall|operand: Operand|
                follows(
                    old(self)@,
                    final(self)@,
                    done,
                    #[trigger] perform(old(self)@, Effect::PushStatus, operand),
                ),
    {
        self.push(self.registers.status.bits() | BREAK | UNUSED);
        Ok(())
    }

    /// Pulls the accumulator.
    fn pull_accumulator(&mut self) -> (done: Result<(), Error>)
        ensures
            forall|operand: Operand|
                follows(
                    old(self)@,
                    final(self)@,
                    done,
                    #[trigger] perform(old(self)@, Effect::PullAccumulator, operand),
                ),
    {
        let value = self.pull();
        self.registers.accumulator = value;
        self.set_zero_negative(value);
        Ok(())
    }

    /// Pulls the flags; `BREAK` and `UNUSED` stay as they are.
    fn pull_status(&mut self) -> (done: Result<(), Error>)
        ensures
            forall|operand: Operand|
                follows(
                    old(self)@,
                    final(self)@,
                    done,
                    #[trigger] perform(old(self)@, Effect::PullStatus, operand),
                ),
    {
        let kept = self.registers.status.bits() & (BREAK | UNUSED);
        let pulled = self.pull();
        self.registers.status = StatusFlags::from_bits((pulled & !(BREAK | UNUSED)) | kept);
        Ok(())
    }

    /// Performs the effect of `opcode` on `operand`. The program counter is
    /// already past the instruction.
    fn apply(&mut self, opcode: Opcode, operand: Operand) -> (done: Result<(), Error>)
        ensures
            follows(old(self)@, final(self)@, done, perform(old(self)@, effect(opcode), operand)),
    {
        match opcode {
            Opcode::Adc => self.add(operand),
            Opcode::And => self.combine(Logic::And, operand),
            Opcode::Asl => self.shift(Shift::Left, operand),
            Opcode::Bcc => self.branch(CARRY, false, operand),
            Opcode::Bcs => self.branch(CARRY, true, operand),
            Opcode::Beq => self.branch(ZERO, true, operand),
            Opcode::Bit => self.bit_test(operand),
            Opcode::Bmi => self.branch(NEGATIVE, true, operand),
            Opcode::Bne => self.branch(ZERO, false, operand),
            Opcode::Bpl => self.branch(NEGATIVE, false, operand),
            Opcode::Brk => Ok(()),
            Opcode::Bvc => self.branch(OVERFLOW, false, operand),
            Opcode::Bvs => self.branch(OVERFLOW, true, operand),
            Opcode::Clc => self.flag(CARRY, false),
            Opcode::Cld => self.flag(DECIMAL, false),
            Opcode::Cli => self.flag(INTERRUPT, false),
            Opcode::Clv => self.flag(OVERFLOW, false),
            Opcode::Cmp => self.compare(Register::Accumulator, operand),
            Opcode::Cpx => self.compare(Register::X, operand),
            Opcode::Cpy => self.compare(Register::Y, operand),
            Opcode::Dec => self.step_operand(false, operand),
            Opcode::Dex => self.step_register(Register::X, false),
            Opcode::Dey => self.step_register(Register::Y, false),
            Opcode::Eor => self.combine(Logic::ExclusiveOr, operand),
            Opcode::Inc => self.step_operand(true, operand),
            Opcode::Inx => self.step_register(Register::X, true),
            Opcode::Iny => self.step_register(Register::Y, true),
            Opcode::Jmp => self.jump(operand),
            Opcode::Jsr => self.call(operand),
            Opcode::Lda => self.load_register(Register::Accumulator, operand),
            Opcode::Ldx => self.load_register(Register::X, operand),
            Opcode::Ldy => self.load_register(Register::Y, operand),
            Opcode::Lsr => self.shift(Shift::Right, operand),
            Opcode::Nop => Ok(()),
            Opcode::Ora => self.combine(Logic::Or, operand),
            Opcode::Pha => self.push_accumulator(),
            Opcode::Php => self.push_status(),
            Opcode::Pla => self.pull_accumulator(),
            Opcode::Plp => self.pull_status(),
            Opcode::Rol => self.shift(Shift::RotateLeft, operand),
            Opcode::Ror => self.shift(Shift::RotateRight, operand),
            Opcode::Rti => self.return_from_interrupt(),
            Opcode::Rts => self.return_from_call(),
            Opcode::Sbc => self.subtract(operand),
            Opcode::Sec => self.flag(CARRY, true),
            Opcode::Sed => self.flag(DECIMAL, true),
            Opcode::Sei => self.flag(INTERRUPT, true),
            Opcode::Sta => self.store_register(Register::Accumulator, operand),
            Opcode::Stx => self.store_register(Register::X, operand),
            Opcode::Sty => self.store_register(Register::Y, operand),
            Opcode::Tax => self.transfer(Register::Accumulator, Register::X),
            Opcode::Tay => self.transfer(Register::Accumulator, Register::Y),
            Opcode::Tsx => self.transfer(Register::StackPointer, Register::X),
            Opcode::Txa => self.transfer(Register::X, Register::Accumulator),
            Opcode::Txs => self.transfer(Register::X, Register::StackPointer),
            Opcode::Tya => self.transfer(Register::Y, Register::Accumulator),
        }
    }

    /// Executes `instruction_info`, whose opcode byte was just fetched: reads
    /// its operand, which moves the program counter past the instruction,
    /// and does what its mnemonic asks.
    ///
    /// Fails with `UnknownOperation` for an instruction that the table does
    /// not hold, with `TruncatedOperand` where memory ends before the operand
    /// bytes do, with `MemoryOutOfRange` where the operand is an address past
    /// the end of memory, and with `NotImplemented` for an addition or
    /// subtraction in decimal mode. Where it fails, the machine stays as it
    /// was.
    pub fn execute(&mut self, instruction_info: &InstructionInfo) -> (done: Result<(), Error>)
        ensures
            follows(
                old(self)@,
                final(self)@,
                done,
                semantics::execute(old(self)@, *instruction_info),
            ),
    {
        match operations::decode(instruction_info.opcode_value) {
            Ok(listed) => {
                if listed != *instruction_info {
                    proof {
                        if operations::is_instruction(*instruction_info) {
                            let index = choose|index: int|
                                0 <= index < operations::INSTRUCTION_COUNT
                                    && #[trigger] operations::instruction_at(index)
                                    == *instruction_info;
                            let other = choose|index: int|
                                0 <= index < operations::INSTRUCTION_COUNT
                                    && #[trigger] operations::instruction_at(index) == listed;
                            operations::lemma_opcode_values_distinct(index, other);
                        }
                    }
                    return Err(Error::UnknownOperation);
                }
            },
            Err(_) => {
                proof {
                    if operations::is_instruction(*instruction_info) {
                        let index = choose|index: int|
                            0 <= index < operations::INSTRUCTION_COUNT
                                && #[trigger] operations::instruction_at(index)
                                == *instruction_info;
                        assert(operations::has_opcode_value(index, instruction_info.opcode_value));
                    }
                }
                return Err(Error::UnknownOperation);
            },
        }
        let start = self.registers.program_counter;
        let operand = match self.resolve(instruction_info.addressing_mode) {
            Ok(operand) => operand,
            Err(e) => {
                return Err(e);
            },
        };
        match self.apply(instruction_info.opcode, operand) {
            Ok(()) => Ok(()),
            Err(e) => {
                self.registers.program_counter = start;
                Err(e)
            },
        }
    }

    /// Counts `cycles` more on the clock.
    fn tick(&mut self, cycles: u8)
        ensures
            final(self)@ == old(self)@.tick(cycles),
    {
        self.clock = self.clock.wrapping_add(cycles as u64);
    }

    /// One cycle: fetches the byte at the program counter, decodes it and
    /// executes the instruction, and counts its cycles on the clock.
    ///
    /// The break instruction halts: the program counter moves past it, its
    /// cycles are counted, nothing else changes, and the trace says
    /// `halted`. The cycle fails with `MemoryOutOfRange` where the program
    /// counter points past the end of memory, with `UnknownOpcode` where the
    /// byte there encodes no instruction, and as [`Cpu::execute`] does. Where
    /// it fails, the machine stays as it was.
    pub fn fde(&mut self) -> (done: Result<Trace, Error>)
        ensures
            match step(old(self)@) {
                Step::Continue(next) => done matches Ok(trace) && !trace.halted && final(self)@
                    == next,
                Step::Halt(next) => done matches Ok(trace) && trace.halted && final(self)@ == next,
                Step::Fault(e) => done == Err::<Trace, Error>(e) && final(self)@ == old(self)@,
            },
            done matches Ok(trace) ==> trace.address == old(self)@.registers.program_counter
                && old(self)@.read(trace.address) == Some(trace.byte) && operations::decode_spec(
                trace.byte,
            ) == Some(trace.instruction),
    {
        let address = self.registers.program_counter;
        let byte = match self.fetch_byte() {
            Ok(byte) => byte,
            Err(e) => {
                return Err(e);
            },
        };
        let instruction = match self.decode(byte) {
            Ok(instruction) => instruction,
            Err(e) => {
                self.registers.program_counter = address;
                return Err(e);
            },
        };
        let halted = instruction.opcode == Opcode::Brk;
        if !halted {
            match self.execute(&instruction) {
                Ok(()) => {},
                Err(e) => {
                    self.registers.program_counter = address;
                    return Err(e);
                },
            }
        }
        self.tick(instruction.cycles);
        Ok(Trace { address, byte, instruction, halted })
    }

    /// Runs cycle after cycle until one halts or fails, or `limit` cycles
    /// are done.
    ///
    /// Returns how many cycles were completed and whether the last of them
    /// halted. Fails as the failing cycle does; the machine is then as the
    /// last completed cycle left it.
    pub fn run_steps(&mut self, limit: u64) -> (done: Result<RunSummary, Error>)
        ensures
            final(self)@ == semantics::run(old(self)@, limit as nat).state,
            match semantics::run(old(self)@, limit as nat).end {
                End::Halted => done == Ok::<RunSummary, Error>(
                    RunSummary {
                        steps: semantics::run(old(self)@, limit as nat).steps as u64,
                        halted: true,
                    },
                ),
                End::OutOfSteps => done == Ok::<RunSummary, Error>(
                    RunSummary { steps: limit, halted: false },
                ),
                End::Faulted(e) => done == Err::<RunSummary, Error>(e),
            },
            semantics::run(old(self)@, limit as nat).steps <= limit,
    {
        let mut steps: u64 = 0;
        while steps < limit
            invariant
                steps <= limit,
                semantics::run(old(self)@, limit as nat).state == semantics::run(
                    self@,
                    (limit - steps) as nat,
                ).state,
                semantics::run(old(self)@, limit as nat).end == semantics::run(
                    self@,
                    (limit - steps) as nat,
                ).end,
                semantics::run(old(self)@, limit as nat).steps == semantics::run(
                    self@,
                    (limit - steps) as nat,
                ).steps + steps,
            decreases limit - steps,
        {
            proof {
                semantics::lemma_run_steps_bounded(self@, (limit - steps) as nat);
            }
            match self.fde() {
                Ok(trace) => {
                    steps = steps + 1;
                    if trace.halted {
                        return Ok(RunSummary { steps, halted: true });
                    }
                },
                Err(e) => {
                    return Err(e);
                },
            }
        }
        Ok(RunSummary { steps, halted: false })
    }

    /// Runs the program to its end: cycle after cycle until one halts or
    /// fails.
    ///
    /// A program that has not ended after `u64::MAX` cycles is left there,
    /// and the summary then says that it has not halted.
    pub fn run(&mut self) -> (done: Result<RunSummary, Error>)
        ensures
            final(self)@ == semantics::run(old(self)@, u64::MAX as nat).state,
            match semantics::run(old(self)@, u64::MAX as nat).end {
                End::Halted => done == Ok::<RunSummary, Error>(
                    RunSummary {
                        steps: semantics::run(old(self)@, u64::MAX as nat).steps as u64,
                        halted: true,
                    },
                ),
                End::OutOfSteps => done == Ok::<RunSummary, Error>(
                    RunSummary { steps: u64::MAX, halted: false },
                ),
                End::Faulted(e) => done == Err::<RunSummary, Error>(e),
            },
            semantics::run(old(self)@, u64::MAX as nat).steps <= u64::MAX,
    {
        self.run_steps(u64::MAX)
    }
}

} // verus!
