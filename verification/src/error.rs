//! The failures that the emulator and the assembler report.

use vstd::prelude::*;

verus! {

/// Why a run of the processor or of the assembler stopped before its end.
///
/// Reaching the break instruction is not among these: it is the normal end of
/// a program and is reported as a successful step.
#[derive(Clone, Copy, Debug, PartialEq, Eq, Structural, Hash)]
pub enum Error {
    /// The byte at the program counter is not the opcode of any instruction.
    UnknownOpcode,
    /// No instruction has the requested mnemonic and addressing mode.
    UnknownOperation,
    /// A source line names a mnemonic and addressing mode that no instruction has.
    UnknownInstruction,
    /// Memory ends before the operand bytes of an instruction do.
    TruncatedOperand,
    /// An address lies outside the memory that is present.
    MemoryOutOfRange,
    /// The operand of a source line has none of the accepted forms.
    MalformedOperand,
    /// The instruction is known, but what it asks for is not emulated.
    NotImplemented,
}

impl Error {
    /// The text of [`Error::message`].
    pub open spec fn message_spec(self) -> Seq<char> {
        match self {
            Error::UnknownOpcode => "unknown opcode"@,
            Error::UnknownOperation => "unknown operation"@,
            Error::UnknownInstruction => "unknown instruction"@,
            Error::TruncatedOperand => "truncated operand"@,
            Error::MemoryOutOfRange => "memory address out of range"@,
            Error::MalformedOperand => "malformed operand"@,
            Error::NotImplemented => "not implemented"@,
        }
    }

    /// A short description of the failure, for reports.
    pub fn message(&self) -> (text: &'static str)
        ensures
            text@ == self.message_spec(),
    {
        match self {
            Error::UnknownOpcode => "unknown opcode",
            Error::UnknownOperation => "unknown operation",
            Error::UnknownInstruction => "unknown instruction",
            Error::TruncatedOperand => "truncated operand",
            Error::MemoryOutOfRange => "memory address out of range",
            Error::MalformedOperand => "malformed operand",
            Error::NotImplemented => "not implemented",
        }
    }
}

} // verus!
