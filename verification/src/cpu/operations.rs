//! The instruction set: mnemonics, addressing modes, and the table that
//! gives each legal opcode byte its instruction.

use crate::error::Error;
use crate::text::{chars_of, to_upper, upper, uppercase};
use vstd::prelude::*;
use vstd::string::StringExecFns;

verus! {

/// The length of an encoded instruction in bytes, the opcode byte included.
#[derive(Clone, Copy, Debug, PartialEq, Eq, Structural, Hash, PartialOrd, Ord)]
pub enum OpSize {
    One,
    Two,
    Three,
}

impl OpSize {
    /// The number of bytes of the whole instruction: 1, 2 or 3.
    pub open spec fn spec_bytes(self) -> u8 {
        match self {
            OpSize::One => 1,
            OpSize::Two => 2,
            OpSize::Three => 3,
        }
    }

    /// The number of bytes of the whole instruction: 1, 2 or 3.
    #[verifier::when_used_as_spec(spec_bytes)]
    pub fn bytes(self) -> (count: u8)
        ensures
            count == self.spec_bytes(),
    {
        match self {
            OpSize::One => 1,
            OpSize::Two => 2,
            OpSize::Three => 3,
        }
    }

    /// The number of operand bytes that follow the opcode byte: 0, 1 or 2.
    pub open spec fn spec_operand_bytes(self) -> u8 {
        match self {
            OpSize::One => 0,
            OpSize::Two => 1,
            OpSize::Three => 2,
        }
    }

    /// The number of operand bytes that follow the opcode byte: 0, 1 or 2.
    #[verifier::when_used_as_spec(spec_operand_bytes)]
    pub fn operand_bytes(self) -> (count: u8)
        ensures
            count == self.spec_operand_bytes(),
    {
        match self {
            OpSize::One => 0,
            OpSize::Two => 1,
            OpSize::Three => 2,
        }
    }
}

/// How the bytes after an opcode are to be read.
#[derive(Clone, Copy, Debug, PartialEq, Eq, Structural, Hash, PartialOrd, Ord)]
pub enum AddressingMode {
    /// Two bytes, low byte first, that form a 16-bit address.
    Absolute,
    /// No operand bytes; the instruction works on the accumulator.
    Accumulator,
    /// One byte, which is the value itself.
    Immediate,
    /// No operand bytes.
    Implied,
    /// One signed byte, a distance from the instruction that follows.
    Relative,
    /// One byte, an address in the first 256 bytes of memory.
    ZeroPage,
}

impl AddressingMode {
    /// The length of an instruction that has this addressing mode.
    pub open spec fn spec_size(self) -> OpSize {
        match self {
            AddressingMode::Implied | AddressingMode::Accumulator => OpSize::One,
            AddressingMode::Immediate
            | AddressingMode::ZeroPage
            | AddressingMode::Relative => OpSize::Two,
            AddressingMode::Absolute => OpSize::Three,
        }
    }

    /// The length of an instruction that has this addressing mode.
    #[verifier::when_used_as_spec(spec_size)]
    pub fn size(self) -> (size: OpSize)
        ensures
            size == self.spec_size(),
    {
        match self {
            AddressingMode::Implied | AddressingMode::Accumulator => OpSize::One,
            AddressingMode::Immediate
            | AddressingMode::ZeroPage
            | AddressingMode::Relative => OpSize::Two,
            AddressingMode::Absolute => OpSize::Three,
        }
    }

    /// The name of the mode.
    pub open spec fn spec_name(self) -> Seq<char> {
        match self {
            AddressingMode::Absolute => "Absolute"@,
            AddressingMode::Accumulator => "Accumulator"@,
            AddressingMode::Immediate => "Immediate"@,
            AddressingMode::Implied => "Implied"@,
            AddressingMode::Relative => "Relative"@,
            AddressingMode::ZeroPage => "ZeroPage"@,
        }
    }

    /// The name of the mode.
    pub fn name(self) -> (name: &'static str)
        ensures
            name@ == self.spec_name(),
    {
        match self {
            AddressingMode::Absolute => "Absolute",
            AddressingMode::Accumulator => "Accumulator",
            AddressingMode::Immediate => "Immediate",
            AddressingMode::Implied => "Implied",
            AddressingMode::Relative => "Relative",
            AddressingMode::ZeroPage => "ZeroPage",
        }
    }
}

/// The mnemonics of the instruction set.
#[derive(Clone, Copy, Debug, PartialEq, Eq, Structural, Hash, PartialOrd, Ord)]
pub enum Opcode {
    Adc,
    And,
    Asl,
    Bcc,
    Bcs,
    Beq,
    Bit,
    Bmi,
    Bne,
    Bpl,
    Brk,
    Bvc,
    Bvs,
    Clc,
    Cld,
    Cli,
    Clv,
    Cmp,
    Cpx,
    Cpy,
    Dec,
    Dex,
    Dey,
    Eor,
    Inc,
    Inx,
    Iny,
    Jmp,
    Jsr,
    Lda,
    Ldx,
    Ldy,
    Lsr,
    Nop,
    Ora,
    Pha,
    Php,
    Pla,
    Plp,
    Rol,
    Ror,
    Rti,
    Rts,
    Sbc,
    Sec,
    Sed,
    Sei,
    Sta,
    Stx,
    Sty,
    Tax,
    Tay,
    Tsx,
    Txa,
    Txs,
    Tya,
}

impl Opcode {
    /// The mnemonic as it is written in source text: three upper-case letters.
    pub open spec fn spec_mnemonic(self) -> Seq<char> {
        match self {
            Opcode::Adc => "ADC"@,
            Opcode::And => "AND"@,
            Opcode::Asl => "ASL"@,
            Opcode::Bcc => "BCC"@,
            Opcode::Bcs => "BCS"@,
            Opcode::Beq => "BEQ"@,
            Opcode::Bit => "BIT"@,
            Opcode::Bmi => "BMI"@,
            Opcode::Bne => "BNE"@,
            Opcode::Bpl => "BPL"@,
            Opcode::Brk => "BRK"@,
            Opcode::Bvc => "BVC"@,
            Opcode::Bvs => "BVS"@,
            Opcode::Clc => "CLC"@,
            Opcode::Cld => "CLD"@,
            Opcode::Cli => "CLI"@,
            Opcode::Clv => "CLV"@,
            Opcode::Cmp => "CMP"@,
            Opcode::Cpx => "CPX"@,
            Opcode::Cpy => "CPY"@,
            Opcode::Dec => "DEC"@,
            Opcode::Dex => "DEX"@,
            Opcode::Dey => "DEY"@,
            Opcode::Eor => "EOR"@,
            Opcode::Inc => "INC"@,
            Opcode::Inx => "INX"@,
            Opcode::Iny => "INY"@,
            Opcode::Jmp => "JMP"@,
            Opcode::Jsr => "JSR"@,
            Opcode::Lda => "LDA"@,
            Opcode::Ldx => "LDX"@,
            Opcode::Ldy => "LDY"@,
            Opcode::Lsr => "LSR"@,
            Opcode::Nop => "NOP"@,
            Opcode::Ora => "ORA"@,
            Opcode::Pha => "PHA"@,
            Opcode::Php => "PHP"@,
            Opcode::Pla => "PLA"@,
            Opcode::Plp => "PLP"@,
            Opcode::Rol => "ROL"@,
            Opcode::Ror => "ROR"@,
            Opcode::Rti => "RTI"@,
            Opcode::Rts => "RTS"@,
            Opcode::Sbc => "SBC"@,
            Opcode::Sec => "SEC"@,
            Opcode::Sed => "SED"@,
            Opcode::Sei => "SEI"@,
            Opcode::Sta => "STA"@,
            Opcode::Stx => "STX"@,
            Opcode::Sty => "STY"@,
            Opcode::Tax => "TAX"@,
            Opcode::Tay => "TAY"@,
            Opcode::Tsx => "TSX"@,
            Opcode::Txa => "TXA"@,
            Opcode::Txs => "TXS"@,
            Opcode::Tya => "TYA"@,
        }
    }

    /// The mnemonic as it is written in source text: three upper-case letters.
    pub fn mnemonic(self) -> (name: &'static str)
        ensures
            name@ == self.spec_mnemonic(),
    {
        match self {
            Opcode::Adc => "ADC",
            Opcode::And => "AND",
            Opcode::Asl => "ASL",
            Opcode::Bcc => "BCC",
            Opcode::Bcs => "BCS",
            Opcode::Beq => "BEQ",
            Opcode::Bit => "BIT",
            Opcode::Bmi => "BMI",
            Opcode::Bne => "BNE",
            Opcode::Bpl => "BPL",
            Opcode::Brk => "BRK",
            Opcode::Bvc => "BVC",
            Opcode::Bvs => "BVS",
            Opcode::Clc => "CLC",
            Opcode::Cld => "CLD",
            Opcode::Cli => "CLI",
            Opcode::Clv => "CLV",
            Opcode::Cmp => "CMP",
            Opcode::Cpx => "CPX",
            Opcode::Cpy => "CPY",
            Opcode::Dec => "DEC",
            Opcode::Dex => "DEX",
            Opcode::Dey => "DEY",
            Opcode::Eor => "EOR",
            Opcode::Inc => "INC",
            Opcode::Inx => "INX",
            Opcode::Iny => "INY",
            Opcode::Jmp => "JMP",
            Opcode::Jsr => "JSR",
            Opcode::Lda => "LDA",
            Opcode::Ldx => "LDX",
            Opcode::Ldy => "LDY",
            Opcode::Lsr => "LSR",
            Opcode::Nop => "NOP",
            Opcode::Ora => "ORA",
            Opcode::Pha => "PHA",
            Opcode::Php => "PHP",
            Opcode::Pla => "PLA",
            Opcode::Plp => "PLP",
            Opcode::Rol => "ROL",
            Opcode::Ror => "ROR",
            Opcode::Rti => "RTI",
            Opcode::Rts => "RTS",
            Opcode::Sbc => "SBC",
            Opcode::Sec => "SEC",
            Opcode::Sed => "SED",
            Opcode::Sei => "SEI",
            Opcode::Sta => "STA",
            Opcode::Stx => "STX",
            Opcode::Sty => "STY",
            Opcode::Tax => "TAX",
            Opcode::Tay => "TAY",
            Opcode::Tsx => "TSX",
            Opcode::Txa => "TXA",
            Opcode::Txs => "TXS",
            Opcode::Tya => "TYA",
        }
    }
}

/// One instruction of the set: a mnemonic in one addressing mode.
#[derive(Clone, Copy, Debug, PartialEq, Eq, Structural, Hash, PartialOrd, Ord)]
pub struct InstructionInfo {
    /// The mnemonic.
    pub opcode: Opcode,
    /// The byte that encodes the instruction.
    pub opcode_value: u8,
    /// The length of the encoded instruction.
    pub size: OpSize,
    /// How the operand bytes are read.
    pub addressing_mode: AddressingMode,
    /// The number of clock cycles that the instruction is counted as.
    pub cycles: u8,
}

impl InstructionInfo {
    /// The text of [`InstructionInfo::describe`].
    pub open spec fn spec_describe(self) -> Seq<char> {
        self.opcode.spec_mnemonic() + "::"@ + self.addressing_mode.spec_name() + " - size: "@
            + match self.size {
            OpSize::One => "1"@,
            OpSize::Two => "2"@,
            OpSize::Three => "3"@,
        }
    }

    /// The instruction in words, for a trace: the mnemonic, the addressing
    /// mode and the length, as in `LDA::Immediate - size: 2`.
    pub fn describe(&self) -> (text: String)
        ensures
            text@ == self.spec_describe(),
    {
        let mut text = String::from_str(self.opcode.mnemonic());
        text.append("::");
        text.append(self.addressing_mode.name());
        text.append(" - size: ");
        text.append(
            match self.size {
                OpSize::One => "1",
                OpSize::Two => "2",
                OpSize::Three => "3",
            },
        );
        text
    }
}

/// The number of instructions in the table.
pub const INSTRUCTION_COUNT: usize = 92;

/// The instruction with the given mnemonic, opcode byte, addressing mode and
/// cycle count; its length is the one that the addressing mode fixes.
pub open spec fn spec_entry(
    opcode: Opcode,
    opcode_value: u8,
    addressing_mode: AddressingMode,
    cycles: u8,
) -> InstructionInfo {
    InstructionInfo {
        opcode,
        opcode_value,
        size: addressing_mode.spec_size(),
        addressing_mode,
        cycles,
    }
}

/// The instruction with the given mnemonic, opcode byte, addressing mode and
/// cycle count.
fn entry(opcode: Opcode, opcode_value: u8, addressing_mode: AddressingMode, cycles: u8) -> (info:
    InstructionInfo)
    ensures
        info == spec_entry(opcode, opcode_value, addressing_mode, cycles),
{
    InstructionInfo { opcode, opcode_value, size: addressing_mode.size(), addressing_mode, cycles }
}

/// The table of instructions, ordered by mnemonic.
pub open spec fn instruction_table() -> Seq<InstructionInfo> {
    seq![
        spec_entry(Opcode::Adc, 0x69, AddressingMode::Immediate, 2),
        spec_entry(Opcode::Adc, 0x65, AddressingMode::ZeroPage, 3),
        spec_entry(Opcode::Adc, 0x6D, AddressingMode::Absolute, 4),
        spec_entry(Opcode::And, 0x29, AddressingMode::Immediate, 2),
        spec_entry(Opcode::And, 0x25, AddressingMode::ZeroPage, 3),
        spec_entry(Opcode::And, 0x2D, AddressingMode::Absolute, 4),
        spec_entry(Opcode::Asl, 0x0A, AddressingMode::Accumulator, 2),
        spec_entry(Opcode::Asl, 0x06, AddressingMode::ZeroPage, 5),
        spec_entry(Opcode::Asl, 0x0E, AddressingMode::Absolute, 6),
        spec_entry(Opcode::Bcc, 0x90, AddressingMode::Relative, 2),
        spec_entry(Opcode::Bcs, 0xB0, AddressingMode::Relative, 2),
        spec_entry(Opcode::Beq, 0xF0, AddressingMode::Relative, 2),
        spec_entry(Opcode::Bit, 0x24, AddressingMode::ZeroPage, 3),
        spec_entry(Opcode::Bit, 0x2C, AddressingMode::Absolute, 4),
        spec_entry(Opcode::Bmi, 0x30, AddressingMode::Relative, 2),
        spec_entry(Opcode::Bne, 0xD0, AddressingMode::Relative, 2),
        spec_entry(Opcode::Bpl, 0x10, AddressingMode::Relative, 2),
        spec_entry(Opcode::Brk, 0x00, AddressingMode::Implied, 7),
        spec_entry(Opcode::Bvc, 0x50, AddressingMode::Relative, 2),
        spec_entry(Opcode::Bvs, 0x70, AddressingMode::Relative, 2),
        spec_entry(Opcode::Clc, 0x18, AddressingMode::Implied, 2),
        spec_entry(Opcode::Cld, 0xD8, AddressingMode::Implied, 2),
        spec_entry(Opcode::Cli, 0x58, AddressingMode::Implied, 2),
        spec_entry(Opcode::Clv, 0xB8, AddressingMode::Implied, 2),
        spec_entry(Opcode::Cmp, 0xC9, AddressingMode::Immediate, 2),
        spec_entry(Opcode::Cmp, 0xC5, AddressingMode::ZeroPage, 3),
        spec_entry(Opcode::Cmp, 0xCD, AddressingMode::Absolute, 4),
        spec_entry(Opcode::Cpx, 0xE0, AddressingMode::Immediate, 2),
        spec_entry(Opcode::Cpx, 0xE4, AddressingMode::ZeroPage, 3),
        spec_entry(Opcode::Cpx, 0xEC, AddressingMode::Absolute, 4),
        spec_entry(Opcode::Cpy, 0xC0, AddressingMode::Immediate, 2),
        spec_entry(Opcode::Cpy, 0xC4, AddressingMode::ZeroPage, 3),
        spec_entry(Opcode::Cpy, 0xCC, AddressingMode::Absolute, 4),
        spec_entry(Opcode::Dec, 0xC6, AddressingMode::ZeroPage, 5),
        spec_entry(Opcode::Dec, 0xCE, AddressingMode::Absolute, 6),
        spec_entry(Opcode::Dex, 0xCA, AddressingMode::Implied, 2),
        spec_entry(Opcode::Dey, 0x88, AddressingMode::Implied, 2),
        spec_entry(Opcode::Eor, 0x49, AddressingMode::Immediate, 2),
        spec_entry(Opcode::Eor, 0x45, AddressingMode::ZeroPage, 3),
        spec_entry(Opcode::Eor, 0x4D, AddressingMode::Absolute, 4),
        spec_entry(Opcode::Inc, 0xE6, AddressingMode::ZeroPage, 5),
        spec_entry(Opcode::Inc, 0xEE, AddressingMode::Absolute, 6),
        spec_entry(Opcode::Inx, 0xE8, AddressingMode::Implied, 2),
        spec_entry(Opcode::Iny, 0xC8, AddressingMode::Implied, 2),
        spec_entry(Opcode::Jmp, 0x4C, AddressingMode::Absolute, 3),
        spec_entry(Opcode::Jsr, 0x20, AddressingMode::Absolute, 6),
        spec_entry(Opcode::Lda, 0xA9, AddressingMode::Immediate, 2),
        spec_entry(Opcode::Lda, 0xA5, AddressingMode::ZeroPage, 3),
        spec_entry(Opcode::Lda, 0xAD, AddressingMode::Absolute, 4),
        spec_entry(Opcode::Ldx, 0xA2, AddressingMode::Immediate, 2),
        spec_entry(Opcode::Ldx, 0xA6, AddressingMode::ZeroPage, 3),
        spec_entry(Opcode::Ldx, 0xAE, AddressingMode::Absolute, 4),
        spec_entry(Opcode::Ldy, 0xA0, AddressingMode::Immediate, 2),
        spec_entry(Opcode::Ldy, 0xA4, AddressingMode::ZeroPage, 3),
        spec_entry(Opcode::Ldy, 0xAC, AddressingMode::Absolute, 4),
        spec_entry(Opcode::Lsr, 0x4A, AddressingMode::Accumulator, 2),
        spec_entry(Opcode::Lsr, 0x46, AddressingMode::ZeroPage, 5),
        spec_entry(Opcode::Lsr, 0x4E, AddressingMode::Absolute, 6),
        spec_entry(Opcode::Nop, 0xEA, AddressingMode::Implied, 2),
        spec_entry(Opcode::Ora, 0x09, AddressingMode::Immediate, 2),
        spec_entry(Opcode::Ora, 0x05, AddressingMode::ZeroPage, 3),
        spec_entry(Opcode::Ora, 0x0D, AddressingMode::Absolute, 4),
        spec_entry(Opcode::Pha, 0x48, AddressingMode::Implied, 3),
        spec_entry(Opcode::Php, 0x08, AddressingMode::Implied, 3),
        spec_entry(Opcode::Pla, 0x68, AddressingMode::Implied, 4),
        spec_entry(Opcode::Plp, 0x28, AddressingMode::Implied, 4),
        spec_entry(Opcode::Rol, 0x2A, AddressingMode::Accumulator, 2),
        spec_entry(Opcode::Rol, 0x26, AddressingMode::ZeroPage, 5),
        spec_entry(Opcode::Rol, 0x2E, AddressingMode::Absolute, 6),
        spec_entry(Opcode::Ror, 0x6A, AddressingMode::Accumulator, 2),
        spec_entry(Opcode::Ror, 0x66, AddressingMode::ZeroPage, 5),
        spec_entry(Opcode::Ror, 0x6E, AddressingMode::Absolute, 6),
        spec_entry(Opcode::Rti, 0x40, AddressingMode::Implied, 6),
        spec_entry(Opcode::Rts, 0x60, AddressingMode::Implied, 6),
        spec_entry(Opcode::Sbc, 0xE9, AddressingMode::Immediate, 2),
        spec_entry(Opcode::Sbc, 0xE5, AddressingMode::ZeroPage, 3),
        spec_entry(Opcode::Sbc, 0xED, AddressingMode::Absolute, 4),
        spec_entry(Opcode::Sec, 0x38, AddressingMode::Implied, 2),
        spec_entry(Opcode::Sed, 0xF8, AddressingMode::Implied, 2),
        spec_entry(Opcode::Sei, 0x78, AddressingMode::Implied, 2),
        spec_entry(Opcode::Sta, 0x85, AddressingMode::ZeroPage, 3),
        spec_entry(Opcode::Sta, 0x8D, AddressingMode::Absolute, 4),
        spec_entry(Opcode::Stx, 0x86, AddressingMode::ZeroPage, 3),
        spec_entry(Opcode::Stx, 0x8E, AddressingMode::Absolute, 4),
        spec_entry(Opcode::Sty, 0x84, AddressingMode::ZeroPage, 3),
        spec_entry(Opcode::Sty, 0x8C, AddressingMode::Absolute, 4),
        spec_entry(Opcode::Tax, 0xAA, AddressingMode::Implied, 2),
        spec_entry(Opcode::Tay, 0xA8, AddressingMode::Implied, 2),
        spec_entry(Opcode::Tsx, 0xBA, AddressingMode::Implied, 2),
        spec_entry(Opcode::Txa, 0x8A, AddressingMode::Implied, 2),
        spec_entry(Opcode::Txs, 0x9A, AddressingMode::Implied, 2),
        spec_entry(Opcode::Tya, 0x98, AddressingMode::Implied, 2),
    ]
}

/// The instruction at a position of the table; what the function gives
/// outside the positions `0` to `INSTRUCTION_COUNT - 1` has no meaning.
pub open spec fn instruction_at(index: int) -> InstructionInfo {
    instruction_table()[index]
}

/// The instruction at a position of the table.
fn instruction(index: usize) -> (info: InstructionInfo)
    requires
        index < INSTRUCTION_COUNT,
    ensures
        info == instruction_at(index as int),
{
    match index {
        0 => entry(Opcode::Adc, 0x69, AddressingMode::Immediate, 2),
        1 => entry(Opcode::Adc, 0x65, AddressingMode::ZeroPage, 3),
        2 => entry(Opcode::Adc, 0x6D, AddressingMode::Absolute, 4),
        3 => entry(Opcode::And, 0x29, AddressingMode::Immediate, 2),
        4 => entry(Opcode::And, 0x25, AddressingMode::ZeroPage, 3),
        5 => entry(Opcode::And, 0x2D, AddressingMode::Absolute, 4),
        6 => entry(Opcode::Asl, 0x0A, AddressingMode::Accumulator, 2),
        7 => entry(Opcode::Asl, 0x06, AddressingMode::ZeroPage, 5),
        8 => entry(Opcode::Asl, 0x0E, AddressingMode::Absolute, 6),
        9 => entry(Opcode::Bcc, 0x90, AddressingMode::Relative, 2),
        10 => entry(Opcode::Bcs, 0xB0, AddressingMode::Relative, 2),
        11 => entry(Opcode::Beq, 0xF0, AddressingMode::Relative, 2),
        12 => entry(Opcode::Bit, 0x24, AddressingMode::ZeroPage, 3),
        13 => entry(Opcode::Bit, 0x2C, AddressingMode::Absolute, 4),
        14 => entry(Opcode::Bmi, 0x30, AddressingMode::Relative, 2),
        15 => entry(Opcode::Bne, 0xD0, AddressingMode::Relative, 2),
        16 => entry(Opcode::Bpl, 0x10, AddressingMode::Relative, 2),
        17 => entry(Opcode::Brk, 0x00, AddressingMode::Implied, 7),
        18 => entry(Opcode::Bvc, 0x50, AddressingMode::Relative, 2),
        19 => entry(Opcode::Bvs, 0x70, AddressingMode::Relative, 2),
        20 => entry(Opcode::Clc, 0x18, AddressingMode::Implied, 2),
        21 => entry(Opcode::Cld, 0xD8, AddressingMode::Implied, 2),
        22 => entry(Opcode::Cli, 0x58, AddressingMode::Implied, 2),
        23 => entry(Opcode::Clv, 0xB8, AddressingMode::Implied, 2),
        24 => entry(Opcode::Cmp, 0xC9, AddressingMode::Immediate, 2),
        25 => entry(Opcode::Cmp, 0xC5, AddressingMode::ZeroPage, 3),
        26 => entry(Opcode::Cmp, 0xCD, AddressingMode::Absolute, 4),
        27 => entry(Opcode::Cpx, 0xE0, AddressingMode::Immediate, 2),
        28 => entry(Opcode::Cpx, 0xE4, AddressingMode::ZeroPage, 3),
        29 => entry(Opcode::Cpx, 0xEC, AddressingMode::Absolute, 4),
        30 => entry(Opcode::Cpy, 0xC0, AddressingMode::Immediate, 2),
        31 => entry(Opcode::Cpy, 0xC4, AddressingMode::ZeroPage, 3),
        32 => entry(Opcode::Cpy, 0xCC, AddressingMode::Absolute, 4),
        33 => entry(Opcode::Dec, 0xC6, AddressingMode::ZeroPage, 5),
        34 => entry(Opcode::Dec, 0xCE, AddressingMode::Absolute, 6),
        35 => entry(Opcode::Dex, 0xCA, AddressingMode::Implied, 2),
        36 => entry(Opcode::Dey, 0x88, AddressingMode::Implied, 2),
        37 => entry(Opcode::Eor, 0x49, AddressingMode::Immediate, 2),
        38 => entry(Opcode::Eor, 0x45, AddressingMode::ZeroPage, 3),
        39 => entry(Opcode::Eor, 0x4D, AddressingMode::Absolute, 4),
        40 => entry(Opcode::Inc, 0xE6, AddressingMode::ZeroPage, 5),
        41 => entry(Opcode::Inc, 0xEE, AddressingMode::Absolute, 6),
        42 => entry(Opcode::Inx, 0xE8, AddressingMode::Implied, 2),
        43 => entry(Opcode::Iny, 0xC8, AddressingMode::Implied, 2),
        44 => entry(Opcode::Jmp, 0x4C, AddressingMode::Absolute, 3),
        45 => entry(Opcode::Jsr, 0x20, AddressingMode::Absolute, 6),
        46 => entry(Opcode::Lda, 0xA9, AddressingMode::Immediate, 2),
        47 => entry(Opcode::Lda, 0xA5, AddressingMode::ZeroPage, 3),
        48 => entry(Opcode::Lda, 0xAD, AddressingMode::Absolute, 4),
        49 => entry(Opcode::Ldx, 0xA2, AddressingMode::Immediate, 2),
        50 => entry(Opcode::Ldx, 0xA6, AddressingMode::ZeroPage, 3),
        51 => entry(Opcode::Ldx, 0xAE, AddressingMode::Absolute, 4),
        52 => entry(Opcode::Ldy, 0xA0, AddressingMode::Immediate, 2),
        53 => entry(Opcode::Ldy, 0xA4, AddressingMode::ZeroPage, 3),
        54 => entry(Opcode::Ldy, 0xAC, AddressingMode::Absolute, 4),
        55 => entry(Opcode::Lsr, 0x4A, AddressingMode::Accumulator, 2),
        56 => entry(Opcode::Lsr, 0x46, AddressingMode::ZeroPage, 5),
        57 => entry(Opcode::Lsr, 0x4E, AddressingMode::Absolute, 6),
        58 => entry(Opcode::Nop, 0xEA, AddressingMode::Implied, 2),
        59 => entry(Opcode::Ora, 0x09, AddressingMode::Immediate, 2),
        60 => entry(Opcode::Ora, 0x05, AddressingMode::ZeroPage, 3),
        61 => entry(Opcode::Ora, 0x0D, AddressingMode::Absolute, 4),
        62 => entry(Opcode::Pha, 0x48, AddressingMode::Implied, 3),
        63 => entry(Opcode::Php, 0x08, AddressingMode::Implied, 3),
        64 => entry(Opcode::Pla, 0x68, AddressingMode::Implied, 4),
        65 => entry(Opcode::Plp, 0x28, AddressingMode::Implied, 4),
        66 => entry(Opcode::Rol, 0x2A, AddressingMode::Accumulator, 2),
        67 => entry(Opcode::Rol, 0x26, AddressingMode::ZeroPage, 5),
        68 => entry(Opcode::Rol, 0x2E, AddressingMode::Absolute, 6),
        69 => entry(Opcode::Ror, 0x6A, AddressingMode::Accumulator, 2),
        70 => entry(Opcode::Ror, 0x66, AddressingMode::ZeroPage, 5),
        71 => entry(Opcode::Ror, 0x6E, AddressingMode::Absolute, 6),
        72 => entry(Opcode::Rti, 0x40, AddressingMode::Implied, 6),
        73 => entry(Opcode::Rts, 0x60, AddressingMode::Implied, 6),
        74 => entry(Opcode::Sbc, 0xE9, AddressingMode::Immediate, 2),
        75 => entry(Opcode::Sbc, 0xE5, AddressingMode::ZeroPage, 3),
        76 => entry(Opcode::Sbc, 0xED, AddressingMode::Absolute, 4),
        77 => entry(Opcode::Sec, 0x38, AddressingMode::Implied, 2),
        78 => entry(Opcode::Sed, 0xF8, AddressingMode::Implied, 2),
        79 => entry(Opcode::Sei, 0x78, AddressingMode::Implied, 2),
        80 => entry(Opcode::Sta, 0x85, AddressingMode::ZeroPage, 3),
        81 => entry(Opcode::Sta, 0x8D, AddressingMode::Absolute, 4),
        82 => entry(Opcode::Stx, 0x86, AddressingMode::ZeroPage, 3),
        83 => entry(Opcode::Stx, 0x8E, AddressingMode::Absolute, 4),
        84 => entry(Opcode::Sty, 0x84, AddressingMode::ZeroPage, 3),
        85 => entry(Opcode::Sty, 0x8C, AddressingMode::Absolute, 4),
        86 => entry(Opcode::Tax, 0xAA, AddressingMode::Implied, 2),
        87 => entry(Opcode::Tay, 0xA8, AddressingMode::Implied, 2),
        88 => entry(Opcode::Tsx, 0xBA, AddressingMode::Implied, 2),
        89 => entry(Opcode::Txa, 0x8A, AddressingMode::Implied, 2),
        90 => entry(Opcode::Txs, 0x9A, AddressingMode::Implied, 2),
        _ => entry(Opcode::Tya, 0x98, AddressingMode::Implied, 2),
    }
}

/// Whether `info` is one of the instructions of the table.
pub open spec fn is_instruction(info: InstructionInfo) -> bool {
    exists|index: int| 0 <= index < INSTRUCTION_COUNT && #[trigger] instruction_at(index) == info
}

/// Whether the instruction at `index` is encoded by `byte`.
pub open spec fn has_opcode_value(index: int, byte: u8) -> bool {
    0 <= index < INSTRUCTION_COUNT && instruction_at(index).opcode_value == byte
}

/// Whether the instruction at `index` has the mnemonic that `name` spells, in
/// either case.
pub open spec fn is_named(index: int, name: Seq<char>) -> bool {
    0 <= index < INSTRUCTION_COUNT && instruction_at(index).opcode.spec_mnemonic() == uppercase(
        name,
    )
}

/// Whether the instruction at `index` has the mnemonic that `name` spells and
/// the addressing mode `mode`.
pub open spec fn is_named_with_mode(index: int, name: Seq<char>, mode: AddressingMode) -> bool {
    is_named(index, name) && instruction_at(index).addressing_mode == mode
}

/// The instruction that `byte` encodes; `None` where it encodes none.
pub open spec fn decode_spec(byte: u8) -> Option<InstructionInfo> {
    if exists|index: int| has_opcode_value(index, byte) {
        Some(instruction_at(choose|index: int| has_opcode_value(index, byte)))
    } else {
        None
    }
}

/// The instruction with the mnemonic that `name` spells and the addressing
/// mode `mode`; `None` where the table has none.
pub open spec fn lookup_by_name_and_mode_spec(name: Seq<char>, mode: AddressingMode) -> Option<
    InstructionInfo,
> {
    if exists|index: int| is_named_with_mode(index, name, mode) {
        Some(instruction_at(choose|index: int| is_named_with_mode(index, name, mode)))
    } else {
        None
    }
}

/// Whether `index` is the first position of the table whose instruction has
/// the mnemonic that `name` spells.
pub open spec fn is_first_named(index: int, name: Seq<char>) -> bool {
    is_named(index, name) && forall|earlier: int| 0 <= earlier < index ==> !is_named(earlier, name)
}

/// The first instruction of the table with the mnemonic that `name` spells;
/// `None` where the table has none.
pub open spec fn lookup_by_name_spec(name: Seq<char>) -> Option<InstructionInfo> {
    if exists|index: int| is_first_named(index, name) {
        Some(instruction_at(choose|index: int| is_first_named(index, name)))
    } else {
        None
    }
}

/// The table holds `INSTRUCTION_COUNT` instructions.
pub proof fn lemma_table_length()
    ensures
        instruction_table().len() == INSTRUCTION_COUNT,
{
}

/// No two instructions of the table share an opcode byte.
pub proof fn lemma_opcode_values_distinct(i: int, j: int)
    requires
        0 <= i < INSTRUCTION_COUNT,
        0 <= j < INSTRUCTION_COUNT,
        instruction_at(i).opcode_value == instruction_at(j).opcode_value,
    ensures
        i == j,
{
}

/// No two instructions of the table share both mnemonic and addressing mode.
pub proof fn lemma_mnemonic_and_mode_distinct(i: int, j: int)
    requires
        0 <= i < INSTRUCTION_COUNT,
        0 <= j < INSTRUCTION_COUNT,
        instruction_at(i).opcode == instruction_at(j).opcode,
        instruction_at(i).addressing_mode == instruction_at(j).addressing_mode,
    ensures
        i == j,
{
}

/// Each instruction of the table is what its own opcode byte decodes to.
pub proof fn lemma_decode_listed(index: int)
    requires
        0 <= index < INSTRUCTION_COUNT,
    ensures
        decode_spec(instruction_at(index).opcode_value) == Some(instruction_at(index)),
{
    let byte = instruction_at(index).opcode_value;
    assert(has_opcode_value(index, byte));
    lemma_opcode_values_distinct(choose|i: int| has_opcode_value(i, byte), index);
}

/// Each instruction of the table is what its own mnemonic and addressing
/// mode look up.
pub proof fn lemma_lookup_listed(index: int)
    requires
        0 <= index < INSTRUCTION_COUNT,
    ensures
        lookup_by_name_and_mode_spec(
            instruction_at(index).opcode.spec_mnemonic(),
            instruction_at(index).addressing_mode,
        ) == Some(instruction_at(index)),
{
    let info = instruction_at(index);
    let name = info.opcode.spec_mnemonic();
    lemma_mnemonic_is_upper_case(info.opcode);
    assert(is_named_with_mode(index, name, info.addressing_mode));
    let chosen = choose|i: int| is_named_with_mode(i, name, info.addressing_mode);
    lemma_mnemonics_distinct(instruction_at(chosen).opcode, info.opcode);
    lemma_mnemonic_and_mode_distinct(chosen, index);
}

/// What a name and an addressing mode look up is an instruction of the
/// table with that mnemonic and that mode, and its own opcode byte decodes
/// to it.
pub proof fn lemma_lookup_decodes(name: Seq<char>, mode: AddressingMode)
    requires
        lookup_by_name_and_mode_spec(name, mode) is Some,
    ensures
        ({
            let info = lookup_by_name_and_mode_spec(name, mode)->Some_0;
            &&& is_instruction(info)
            &&& info.opcode.spec_mnemonic() == uppercase(name)
            &&& info.addressing_mode == mode
            &&& info.size == mode.spec_size()
            &&& decode_spec(info.opcode_value) == Some(info)
        }),
{
    let chosen = choose|i: int| is_named_with_mode(i, name, mode);
    lemma_decode_listed(chosen);
}

/// The length of every instruction of the table is the one that its
/// addressing mode fixes.
pub proof fn lemma_size_follows_mode(info: InstructionInfo)
    requires
        is_instruction(info),
    ensures
        info.size == info.addressing_mode.spec_size(),
{
}

/// Every mnemonic is three upper-case letters, and so is its own upper-case
/// form.
pub proof fn lemma_mnemonic_is_upper_case(opcode: Opcode)
    ensures
        opcode.spec_mnemonic().len() == 3,
        forall|i: int| 0 <= i < 3 ==> 'A' <= #[trigger] opcode.spec_mnemonic()[i] <= 'Z',
        uppercase(opcode.spec_mnemonic()) == opcode.spec_mnemonic(),
{
    reveal_strlit("ADC");
    reveal_strlit("AND");
    reveal_strlit("ASL");
    reveal_strlit("BCC");
    reveal_strlit("BCS");
    reveal_strlit("BEQ");
    reveal_strlit("BIT");
    reveal_strlit("BMI");
    reveal_strlit("BNE");
    reveal_strlit("BPL");
    reveal_strlit("BRK");
    reveal_strlit("BVC");
    reveal_strlit("BVS");
    reveal_strlit("CLC");
    reveal_strlit("CLD");
    reveal_strlit("CLI");
    reveal_strlit("CLV");
    reveal_strlit("CMP");
    reveal_strlit("CPX");
    reveal_strlit("CPY");
    reveal_strlit("DEC");
    reveal_strlit("DEX");
    reveal_strlit("DEY");
    reveal_strlit("EOR");
    reveal_strlit("INC");
    reveal_strlit("INX");
    reveal_strlit("INY");
    reveal_strlit("JMP");
    reveal_strlit("JSR");
    reveal_strlit("LDA");
    reveal_strlit("LDX");
    reveal_strlit("LDY");
    reveal_strlit("LSR");
    reveal_strlit("NOP");
    reveal_strlit("ORA");
    reveal_strlit("PHA");
    reveal_strlit("PHP");
    reveal_strlit("PLA");
    reveal_strlit("PLP");
    reveal_strlit("ROL");
    reveal_strlit("ROR");
    reveal_strlit("RTI");
    reveal_strlit("RTS");
    reveal_strlit("SBC");
    reveal_strlit("SEC");
    reveal_strlit("SED");
    reveal_strlit("SEI");
    reveal_strlit("STA");
    reveal_strlit("STX");
    reveal_strlit("STY");
    reveal_strlit("TAX");
    reveal_strlit("TAY");
    reveal_strlit("TSX");
    reveal_strlit("TXA");
    reveal_strlit("TXS");
    reveal_strlit("TYA");
    assert(uppercase(opcode.spec_mnemonic()) =~= opcode.spec_mnemonic());
}

/// Two mnemonics that are spelled alike are the same mnemonic.
pub proof fn lemma_mnemonics_distinct(a: Opcode, b: Opcode)
    requires
        a.spec_mnemonic() == b.spec_mnemonic(),
    ensures
        a == b,
{
    reveal_strlit("ADC");
    reveal_strlit("AND");
    reveal_strlit("ASL");
    reveal_strlit("BCC");
    reveal_strlit("BCS");
    reveal_strlit("BEQ");
    reveal_strlit("BIT");
    reveal_strlit("BMI");
    reveal_strlit("BNE");
    reveal_strlit("BPL");
    reveal_strlit("BRK");
    reveal_strlit("BVC");
    reveal_strlit("BVS");
    reveal_strlit("CLC");
    reveal_strlit("CLD");
    reveal_strlit("CLI");
    reveal_strlit("CLV");
    reveal_strlit("CMP");
    reveal_strlit("CPX");
    reveal_strlit("CPY");
    reveal_strlit("DEC");
    reveal_strlit("DEX");
    reveal_strlit("DEY");
    reveal_strlit("EOR");
    reveal_strlit("INC");
    reveal_strlit("INX");
    reveal_strlit("INY");
    reveal_strlit("JMP");
    reveal_strlit("JSR");
    reveal_strlit("LDA");
    reveal_strlit("LDX");
    reveal_strlit("LDY");
    reveal_strlit("LSR");
    reveal_strlit("NOP");
    reveal_strlit("ORA");
    reveal_strlit("PHA");
    reveal_strlit("PHP");
    reveal_strlit("PLA");
    reveal_strlit("PLP");
    reveal_strlit("ROL");
    reveal_strlit("ROR");
    reveal_strlit("RTI");
    reveal_strlit("RTS");
    reveal_strlit("SBC");
    reveal_strlit("SEC");
    reveal_strlit("SED");
    reveal_strlit("SEI");
    reveal_strlit("STA");
    reveal_strlit("STX");
    reveal_strlit("STY");
    reveal_strlit("TAX");
    reveal_strlit("TAY");
    reveal_strlit("TSX");
    reveal_strlit("TXA");
    reveal_strlit("TXS");
    reveal_strlit("TYA");
    let m = a.spec_mnemonic();
    let n = b.spec_mnemonic();
    assert(m[0] == n[0] && m[1] == n[1] && m[2] == n[2]);
}

/// Whether `name` spells the mnemonic of `opcode`, in either case.
fn spells(name: &[char], opcode: Opcode) -> (same: bool)
    ensures
        same == (opcode.spec_mnemonic() == uppercase(name@)),
{
    let mnemonic = opcode.mnemonic();
    let length = mnemonic.unicode_len();
    if name.len() != length {
        return false;
    }
    let mut k: usize = 0;
    while k < length
        invariant
            k <= length,
            length == name@.len(),
            length == mnemonic@.len(),
            mnemonic@ == opcode.spec_mnemonic(),
            forall|j: int| 0 <= j < k ==> upper(name@[j]) == mnemonic@[j],
        decreases length - k,
    {
        if to_upper(name[k]) != mnemonic.get_char(k) {
            assert(uppercase(name@)[k as int] != mnemonic@[k as int]);
            return false;
        }
        k += 1;
    }
    assert(uppercase(name@) =~= mnemonic@);
    true
}

/// The instruction that `byte` encodes.
///
/// Fails with `UnknownOpcode` exactly where no instruction of the table has
/// `byte` as its opcode byte. The result depends on `byte` alone.
pub fn decode(byte: u8) -> (found: Result<InstructionInfo, Error>)
    ensures
        found == match decode_spec(byte) {
            Some(info) => Ok::<InstructionInfo, Error>(info),
            None => Err::<InstructionInfo, Error>(Error::UnknownOpcode),
        },
        found is Ok <==> exists|index: int| has_opcode_value(index, byte),
        found matches Ok(info) ==> is_instruction(info) && info.opcode_value == byte,
{
    let mut index: usize = 0;
    while index < INSTRUCTION_COUNT
        invariant
            index <= INSTRUCTION_COUNT,
            forall|j: int| 0 <= j < index ==> !has_opcode_value(j, byte),
        decreases INSTRUCTION_COUNT - index,
    {
        let info = instruction(index);
        if info.opcode_value == byte {
            proof {
                assert(has_opcode_value(index as int, byte));
                lemma_opcode_values_distinct(
                    choose|i: int| has_opcode_value(i, byte),
                    index as int,
                );
            }
            return Ok(info);
        }
        index += 1;
    }
    Err(Error::UnknownOpcode)
}

/// The instruction with the mnemonic that `name` spells, in either case, and
/// the addressing mode `mode`.
///
/// Fails with `UnknownOperation` exactly where the table has no such
/// instruction.
pub fn lookup_by_name_and_mode(name: &str, mode: AddressingMode) -> (found: Result<
    InstructionInfo,
    Error,
>)
    ensures
        found == match lookup_by_name_and_mode_spec(name@, mode) {
            Some(info) => Ok::<InstructionInfo, Error>(info),
            None => Err::<InstructionInfo, Error>(Error::UnknownOperation),
        },
{
    let chars = chars_of(name);
    find_by_name_and_mode(chars.as_slice(), mode)
}

/// As [`lookup_by_name_and_mode`], with the name given by its characters.
pub fn find_by_name_and_mode(name: &[char], mode: AddressingMode) -> (found: Result<
    InstructionInfo,
    Error,
>)
    ensures
        found == match lookup_by_name_and_mode_spec(name@, mode) {
            Some(info) => Ok::<InstructionInfo, Error>(info),
            None => Err::<InstructionInfo, Error>(Error::UnknownOperation),
        },
        found matches Ok(info) ==> is_instruction(info) && info.addressing_mode == mode
            && info.opcode.spec_mnemonic() == uppercase(name@),
{
    let mut index: usize = 0;
    while index < INSTRUCTION_COUNT
        invariant
            index <= INSTRUCTION_COUNT,
            forall|j: int| 0 <= j < index ==> !is_named_with_mode(j, name@, mode),
        decreases INSTRUCTION_COUNT - index,
    {
        let info = instruction(index);
        if info.addressing_mode == mode && spells(name, info.opcode) {
            proof {
                assert(is_named_with_mode(index as int, name@, mode));
                let chosen = choose|i: int| is_named_with_mode(i, name@, mode);
                lemma_mnemonics_distinct(instruction_at(chosen).opcode, info.opcode);
                lemma_mnemonic_and_mode_distinct(chosen, index as int);
            }
            return Ok(info);
        }
        index += 1;
    }
    Err(Error::UnknownOperation)
}

/// The first instruction of the table with the mnemonic that `name` spells,
/// in either case.
///
/// Fails with `UnknownOperation` exactly where the table has no instruction
/// with that mnemonic.
pub fn lookup_by_name(name: &str) -> (found: Result<InstructionInfo, Error>)
    ensures
        found == match lookup_by_name_spec(name@) {
            Some(info) => Ok::<InstructionInfo, Error>(info),
            None => Err::<InstructionInfo, Error>(Error::UnknownOperation),
        },
        found is Ok <==> exists|index: int| is_named(index, name@),
{
    let chars = chars_of(name);
    let mut index: usize = 0;
    while index < INSTRUCTION_COUNT
        invariant
            index <= INSTRUCTION_COUNT,
            chars@ == name@,
            forall|j: int| 0 <= j < index ==> !is_named(j, name@),
        decreases INSTRUCTION_COUNT - index,
    {
        let info = instruction(index);
        if spells(chars.as_slice(), info.opcode) {
            proof {
                assert(is_first_named(index as int, name@));
                let chosen = choose|i: int| is_first_named(i, name@);
                assert(chosen == index);
            }
            return Ok(info);
        }
        index += 1;
    }
    Err(Error::UnknownOperation)
}

/// What [`get_instruction`] finds.
pub open spec fn get_instruction_spec(
    code: Option<u8>,
    name: Option<Seq<char>>,
    addressing: Option<AddressingMode>,
) -> Option<InstructionInfo> {
    match (code, name, addressing) {
        (Some(byte), _, _) => decode_spec(byte),
        (None, Some(name), Some(mode)) => lookup_by_name_and_mode_spec(name, mode),
        (None, Some(name), None) => lookup_by_name_spec(name),
        (None, None, _) => None,
    }
}

/// Looks an instruction up by what is given of it.
///
/// With an opcode byte, the instruction that the byte encodes, whatever else
/// is given. Without one: with a name and an addressing mode, the instruction
/// that has both; with a name alone, the first instruction of the table with
/// that mnemonic. `None` where the table has no such instruction, and where
/// neither a byte nor a name is given.
pub fn get_instruction(
    code: Option<u8>,
    name: Option<&str>,
    addressing: Option<AddressingMode>,
) -> (found: Option<InstructionInfo>)
    ensures
        found == get_instruction_spec(
            code,
            match name {
                Some(name) => Some(name@),
                None => None,
            },
            addressing,
        ),
{
    if let Some(byte) = code {
        return match decode(byte) {
            Ok(info) => Some(info),
            Err(_) => None,
        };
    }
    match (name, addressing) {
        (Some(name), Some(mode)) => match lookup_by_name_and_mode(name, mode) {
            Ok(info) => Some(info),
            Err(_) => None,
        },
        (Some(name), None) => match lookup_by_name(name) {
            Ok(info) => Some(info),
            Err(_) => None,
        },
        (None, _) => None,
    }
}

} // verus!
