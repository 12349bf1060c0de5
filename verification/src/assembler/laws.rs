//! The assembler and the decoder agree: what was assembled decodes to what
//! was written.

use crate::assembler::{
    assemble_spec, first_line, followed_by, hex_byte, line_spec, operand_spec, parse_spec,
};
use crate::cpu::alu::word;
use crate::cpu::operations::{
    decode_spec, instruction_at, is_instruction, lemma_decode_listed, lemma_lookup_decodes,
    lemma_lookup_listed, lemma_mnemonic_is_upper_case, AddressingMode, InstructionInfo,
    INSTRUCTION_COUNT,
};
use crate::cpu::semantics::{operand_of, Operand};
use crate::error::Error;
use crate::text::{
    hex_char, hex_value, is_whitespace, lemma_hex_char_value, lemma_prefix_before,
    lemma_prefix_before_concat, lemma_trimmed_is_same, prefix_before, trimmed, uppercase,
};
use vstd::prelude::*;

verus! {

/// The mnemonic of a line: what stands before its first space.
pub open spec fn mnemonic_of(line: Seq<char>) -> Seq<char> {
    line.take(prefix_before(line, ' ') as int)
}

/// The operand bytes of a line stand for the operand that its text writes:
/// the value after `#$`, the zero-page address after `$`, or the absolute
/// address after `$`, whose first two digits are its high byte.
pub proof fn lemma_operand_bytes(operand: Seq<char>, next: u16)
    requires
        operand_spec(operand) is Ok,
    ensures
        ({
            let (mode, args) = operand_spec(operand)->Ok_0;
            &&& args.len() == mode.spec_size().spec_operand_bytes()
            &&& operand_of(mode, args, next) == match mode {
                AddressingMode::Immediate => Operand::Immediate(
                    hex_byte(operand[2], operand[3])->Some_0,
                ),
                AddressingMode::ZeroPage => Operand::Address(
                    hex_byte(operand[1], operand[2])->Some_0 as u16,
                ),
                _ => Operand::Address(
                    word(
                        hex_byte(operand[3], operand[4])->Some_0,
                        hex_byte(operand[1], operand[2])->Some_0,
                    ),
                ),
            }
            &&& mode == AddressingMode::Immediate || mode == AddressingMode::ZeroPage || mode
                == AddressingMode::Absolute
        }),
{
}

/// A line that assembles decodes to what it says: the opcode byte decodes
/// to an instruction of the table that has the mnemonic of the line and the
/// addressing mode that the form of its operand gives, and the instruction
/// is as long as the bytes that were written.
pub proof fn lemma_line_round_trip(line: Seq<char>)
    requires
        parse_spec(line) is Ok,
    ensures
        ({
            let (opcode, args) = parse_spec(line)->Ok_0;
            let split = prefix_before(line, ' ') as int;
            let mode = if split == line.len() {
                AddressingMode::Implied
            } else {
                operand_spec(line.skip(split + 1))->Ok_0.0
            };
            &&& decode_spec(opcode) matches Some(info) && is_instruction(info)
                && info.opcode.spec_mnemonic() == uppercase(mnemonic_of(line))
                && info.addressing_mode == mode && info.opcode_value == opcode
                && info.size.spec_bytes() == 1 + args.len()
        }),
{
    reveal(parse_spec);
    let split = prefix_before(line, ' ') as int;
    if split == line.len() {
        lemma_lookup_decodes(line.take(split), AddressingMode::Implied);
    } else {
        let (mode, args) = operand_spec(line.skip(split + 1))->Ok_0;
        lemma_operand_bytes(line.skip(split + 1), 0);
        lemma_lookup_decodes(line.take(split), mode);
    }
}

/// The two hexadecimal digits, in upper case, that write `value`.
pub open spec fn hex_text(value: u8) -> Seq<char> {
    seq![hex_char(value / 16), hex_char(value % 16)]
}

/// Whether the assembler has a way to write instructions of this
/// addressing mode: it has none for accumulator and relative instructions.
pub open spec fn can_be_written(mode: AddressingMode) -> bool {
    mode == AddressingMode::Implied || mode == AddressingMode::Immediate || mode
        == AddressingMode::ZeroPage || mode == AddressingMode::Absolute
}

/// The operand of `info` as source text, for the operand bytes `low` and
/// `high`: empty for an implied instruction, else a space and the operand
/// in the form of the addressing mode. A one-byte operand is `low`.
pub open spec fn canonical_operand(mode: AddressingMode, low: u8, high: u8) -> Seq<char> {
    match mode {
        AddressingMode::Immediate => seq![' ', '#', '$'] + hex_text(low),
        AddressingMode::ZeroPage => seq![' ', '$'] + hex_text(low),
        AddressingMode::Absolute => seq![' ', '$'] + hex_text(high) + hex_text(low),
        _ => Seq::empty(),
    }
}

/// The line of source text that writes `info` with the operand bytes `low`
/// and `high`: the mnemonic and, where there is an operand, a space and the
/// operand.
pub open spec fn canonical_line(info: InstructionInfo, low: u8, high: u8) -> Seq<char> {
    info.opcode.spec_mnemonic() + canonical_operand(info.addressing_mode, low, high)
}

/// The operand bytes that follow the opcode byte of an instruction with
/// addressing mode `mode`, for the operand bytes `low` and `high`.
pub open spec fn operand_bytes_of(mode: AddressingMode, low: u8, high: u8) -> Seq<u8> {
    match mode {
        AddressingMode::Immediate | AddressingMode::ZeroPage => seq![low],
        AddressingMode::Absolute => seq![low, high],
        _ => Seq::empty(),
    }
}

/// Two digits that were written for a byte read as that byte.
pub proof fn lemma_hex_text(value: u8)
    ensures
        hex_byte(hex_text(value)[0], hex_text(value)[1]) == Some(value),
{
    lemma_hex_char_value(value / 16);
    lemma_hex_char_value(value % 16);
}

/// Whether `name` is three upper-case letters.
pub open spec fn is_mnemonic(name: Seq<char>) -> bool {
    name.len() == 3 && forall|i: int| 0 <= i < 3 ==> 'A' <= #[trigger] name[i] <= 'Z'
}

/// The operand text of an addressing mode reads as that mode and as the
/// operand bytes that it was written for.
pub proof fn lemma_canonical_operand(mode: AddressingMode, low: u8, high: u8)
    requires
        can_be_written(mode),
        mode != AddressingMode::Implied,
    ensures
        ({
            let operand = canonical_operand(mode, low, high);
            &&& operand.len() >= 4
            &&& operand[0] == ' '
            &&& forall|i: int| 0 <= i < operand.len() ==> operand[i] != '\n'
            &&& !is_whitespace(operand.last())
            &&& operand_spec(operand.skip(1)) == Ok::<(AddressingMode, Seq<u8>), Error>(
                (mode, operand_bytes_of(mode, low, high)),
            )
        }),
{
    let operand = canonical_operand(mode, low, high);
    let text = operand.skip(1);
    lemma_hex_text(low);
    lemma_hex_text(high);
    lemma_hex_char_value(low / 16);
    lemma_hex_char_value(low % 16);
    lemma_hex_char_value(high / 16);
    lemma_hex_char_value(high % 16);
    match mode {
        AddressingMode::Immediate => {
            assert(text =~= seq!['#', '$'] + hex_text(low));
            assert(seq![low] =~= operand_bytes_of(mode, low, high));
        },
        AddressingMode::ZeroPage => {
            assert(text =~= seq!['$'] + hex_text(low));
            assert(seq![low] =~= operand_bytes_of(mode, low, high));
        },
        _ => {
            assert(text =~= seq!['$'] + hex_text(high) + hex_text(low));
            assert(seq![low, high] =~= operand_bytes_of(mode, low, high));
        },
    }
}

/// How a line made of a mnemonic and the operand text of an addressing mode
/// is taken apart: the mnemonic is what stands before the first space, the
/// operand reads as it was written, and the line is one line without white
/// space at its ends.
pub proof fn lemma_canonical_line_parts(name: Seq<char>, mode: AddressingMode, low: u8, high: u8)
    requires
        is_mnemonic(name),
        can_be_written(mode),
    ensures
        ({
            let line = name + canonical_operand(mode, low, high);
            let split = prefix_before(line, ' ') as int;
            &&& split == 3
            &&& line.take(split) == name
            &&& (split == line.len()) == (mode == AddressingMode::Implied)
            &&& mode != AddressingMode::Implied ==> operand_spec(line.skip(split + 1)) == Ok::<
                (AddressingMode, Seq<u8>),
                Error,
            >((mode, operand_bytes_of(mode, low, high)))
            &&& prefix_before(line, '\n') == line.len()
            &&& line.len() > 0
            &&& trimmed(line) == line
        }),
{
    let operand = canonical_operand(mode, low, high);
    let line = name + operand;
    assert forall|i: int| 0 <= i < name.len() implies name[i] != ' ' && name[i] != '\n'
        && !is_whitespace(name[i]) by {
        assert('A' <= name[i] <= 'Z');
    }
    if mode != AddressingMode::Implied {
        lemma_canonical_operand(mode, low, high);
        assert(line.skip(4) =~= operand.skip(1));
        assert(line.last() == operand.last());
    } else {
        assert(line.last() == name[2]);
    }
    lemma_prefix_before_concat(name, operand, ' ');
    assert(line.take(3) =~= name);
    assert forall|i: int| 0 <= i < line.len() implies line[i] != '\n' by {
        if i < 3 {
            assert(line[i] == name[i]);
        } else {
            assert(line[i] == operand[i - 3]);
        }
    }
    lemma_prefix_before_concat(line, Seq::empty(), '\n');
    assert(line + Seq::<char>::empty() =~= line);
    assert(line[0] == name[0]);
    lemma_trimmed_is_same(line);
}

/// A program of one line, which holds no line feed, assembles to the bytes
/// of that line.
pub proof fn lemma_assemble_one_line(line: Seq<char>)
    requires
        line.len() > 0,
        prefix_before(line, '\n') == line.len(),
    ensures
        assemble_spec(line) == line_spec(line),
{
    assert(line.take(line.len() as int) =~= line);
    assert(assemble_spec(Seq::<char>::empty()) == Ok::<Seq<u8>, Error>(Seq::<u8>::empty()));
    match line_spec(line) {
        Ok(bytes) => {
            assert(bytes + Seq::<u8>::empty() =~= bytes);
        },
        Err(_) => {},
    }
}

/// The round trip through assembler and decoder: every instruction of the
/// table that the assembler has a way to write, written as a line in the
/// form of its addressing mode, assembles to its opcode byte and the operand
/// bytes, and the first of these bytes decodes to the instruction itself.
pub proof fn lemma_round_trip(index: int, low: u8, high: u8)
    requires
        0 <= index < INSTRUCTION_COUNT,
        can_be_written(instruction_at(index).addressing_mode),
    ensures
        ({
            let info = instruction_at(index);
            let bytes = seq![info.opcode_value] + operand_bytes_of(info.addressing_mode, low, high);
            &&& parse_spec(canonical_line(info, low, high)) == Ok::<(u8, Seq<u8>), Error>(
                (info.opcode_value, operand_bytes_of(info.addressing_mode, low, high)),
            )
            &&& assemble_spec(canonical_line(info, low, high)) == Ok::<Seq<u8>, Error>(bytes)
            &&& decode_spec(bytes[0]) == Some(info)
        }),
{
    reveal(parse_spec);
    let info = instruction_at(index);
    let line = canonical_line(info, low, high);
    lemma_mnemonic_is_upper_case(info.opcode);
    lemma_lookup_listed(index);
    lemma_decode_listed(index);
    lemma_canonical_line_parts(info.opcode.spec_mnemonic(), info.addressing_mode, low, high);
    lemma_assemble_one_line(line);
}

/// Whether `operand` has one of the three accepted forms: `#$` and two
/// hexadecimal digits, `$` and two, or `$` and four.
pub open spec fn has_operand_form(operand: Seq<char>) -> bool {
    ||| operand.len() == 4 && operand[0] == '#' && operand[1] == '$' && hex_value(
        operand[2],
    ) is Some && hex_value(operand[3]) is Some
    ||| operand.len() == 3 && operand[0] == '$' && hex_value(operand[1]) is Some && hex_value(
        operand[2],
    ) is Some
    ||| operand.len() == 5 && operand[0] == '$' && hex_value(operand[1]) is Some && hex_value(
        operand[2],
    ) is Some && hex_value(operand[3]) is Some && hex_value(operand[4]) is Some
}

/// An operand is read exactly where it has one of the accepted forms; any
/// other is malformed.
pub proof fn lemma_operand_forms(operand: Seq<char>)
    ensures
        has_operand_form(operand) ==> operand_spec(operand) is Ok,
        !has_operand_form(operand) ==> operand_spec(operand) == Err::<
            (AddressingMode, Seq<u8>),
            Error,
        >(Error::MalformedOperand),
{
}

/// A line with an operand that has none of the accepted forms fails with
/// `MalformedOperand`, whatever its mnemonic; and a program fails so whose
/// first line, white space around it ignored, is such a line.
pub proof fn lemma_malformed_operand(program: Seq<char>)
    requires
        program.len() > 0,
        ({
            let line = trimmed(first_line(program));
            prefix_before(line, ' ') < line.len() && !has_operand_form(
                line.skip(prefix_before(line, ' ') as int + 1),
            )
        }),
    ensures
        parse_spec(trimmed(first_line(program)))
            == Err::<(u8, Seq<u8>), Error>(Error::MalformedOperand),
        assemble_spec(program) == Err::<Seq<u8>, Error>(Error::MalformedOperand),
{
    reveal(parse_spec);
    let line = trimmed(first_line(program));
    lemma_operand_forms(line.skip(prefix_before(line, ' ') as int + 1));
}

/// The bytes of a program are those of its lines in order: two programs
/// written one after the other, with a line feed between them, assemble to
/// the bytes of the first and after them the bytes of the second; where the
/// first fails, so does the whole, in the same way.
pub proof fn lemma_assemble_concat(first: Seq<char>, second: Seq<char>)
    ensures
        assemble_spec(first + seq!['\n'] + second) == match assemble_spec(first) {
            Ok(bytes) => followed_by(bytes, assemble_spec(second)),
            Err(e) => Err(e),
        },
    decreases first.len(),
{
    let program = first + seq!['\n'] + second;
    let tail = seq!['\n'] + second;
    assert(program =~= first + tail);
    lemma_prefix_before(first, '\n');
    let end = prefix_before(first, '\n') as int;
    // The first line of the whole is the first line of `first`.
    assert(prefix_before(program, '\n') == end) by {
        let head = first.take(end);
        assert(program =~= head + (first.skip(end) + tail));
        lemma_prefix_before_concat(head, first.skip(end) + tail, '\n');
    }
    assert(program.take(end) =~= first.take(end));
    if first.len() == 0 {
        assert(program.skip(1) =~= second);
        assert(trimmed(Seq::<char>::empty()) =~= Seq::<char>::empty());
        match assemble_spec(second) {
            Ok(more) => {
                assert(Seq::<u8>::empty() + more =~= more);
                assert(Seq::<u8>::empty() + (Seq::<u8>::empty() + more) =~= more);
            },
            Err(_) => {},
        }
    } else if end < first.len() {
        let rest = first.skip(end + 1);
        assert(program.skip(end + 1) =~= rest + seq!['\n'] + second);
        lemma_assemble_concat(rest, second);
        match line_spec(first.take(end)) {
            Ok(bytes) => {
                match assemble_spec(rest) {
                    Ok(more) => {
                        match assemble_spec(second) {
                            Ok(last) => {
                                assert(bytes + (more + last) =~= (bytes + more) + last);
                            },
                            Err(_) => {},
                        }
                    },
                    Err(_) => {},
                }
            },
            Err(_) => {},
        }
    } else {
        assert(first.take(end) =~= first);
        assert(program.skip(end + 1) =~= second);
        assert(assemble_spec(Seq::<char>::empty()) == Ok::<Seq<u8>, Error>(Seq::<u8>::empty()));
        match line_spec(first) {
            Ok(bytes) => {
                assert(bytes + Seq::<u8>::empty() =~= bytes);
            },
            Err(_) => {},
        }
    }
}

} // verus!
