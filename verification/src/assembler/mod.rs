//! The assembler: from source text, one instruction to a line, to the bytes
//! that encode the program.
//!
//! A line is a mnemonic, in either case, and after one space an operand,
//! where the instruction takes one. The operand's form gives the addressing
//! mode: `#$` and two hexadecimal digits for an immediate value, `$` and two
//! digits for a zero-page address, `$` and four digits for an absolute
//! address; a line without an operand is an implied instruction. White space
//! around a line is ignored, and so are blank lines.

pub mod laws;

use crate::cpu::operations::{
    find_by_name_and_mode, lookup_by_name_and_mode_spec, AddressingMode,
};
use crate::error::Error;
use crate::text::{
    chars_of, find, hex_digit, hex_value, prefix_before, trim, trimmed,
};
use vstd::prelude::*;

verus! {

/// The byte that two hexadecimal digits write, the high digit first; `None`
/// where one of them is no hexadecimal digit.
pub open spec fn hex_byte(high: char, low: char) -> Option<u8> {
    match (hex_value(high), hex_value(low)) {
        (Some(h), Some(l)) => Some((16 * h + l) as u8),
        _ => None,
    }
}

/// The addressing mode that the form of `operand` gives, and the operand
/// bytes that it writes; an absolute address gives its low byte first.
///
/// Fails with `MalformedOperand` for a text that has none of the three
/// forms.
pub open spec fn operand_spec(operand: Seq<char>) -> Result<(AddressingMode, Seq<u8>), Error> {
    if operand.len() == 4 && operand[0] == '#' && operand[1] == '$' {
        match hex_byte(operand[2], operand[3]) {
            Some(value) => Ok((AddressingMode::Immediate, seq![value])),
            None => Err(Error::MalformedOperand),
        }
    } else if operand.len() == 3 && operand[0] == '$' {
        match hex_byte(operand[1], operand[2]) {
            Some(address) => Ok((AddressingMode::ZeroPage, seq![address])),
            None => Err(Error::MalformedOperand),
        }
    } else if operand.len() == 5 && operand[0] == '$' {
        match (hex_byte(operand[1], operand[2]), hex_byte(operand[3], operand[4])) {
            (Some(high), Some(low)) => Ok((AddressingMode::Absolute, seq![low, high])),
            _ => Err(Error::MalformedOperand),
        }
    } else {
        Err(Error::MalformedOperand)
    }
}

/// The opcode byte and the operand bytes that `line` assembles to.
///
/// The mnemonic is what stands before the first space, the operand what
/// stands after it. Fails with `MalformedOperand` where the operand has none
/// of the accepted forms, and otherwise with `UnknownInstruction` where no
/// instruction has that mnemonic in the addressing mode that the operand
/// gives.
#[verifier::opaque]
pub open spec fn parse_spec(line: Seq<char>) -> Result<(u8, Seq<u8>), Error> {
    let split = prefix_before(line, ' ') as int;
    let operand = if split == line.len() {
        Ok((AddressingMode::Implied, Seq::empty()))
    } else {
        operand_spec(line.skip(split + 1))
    };
    match operand {
        Ok((mode, args)) => match lookup_by_name_and_mode_spec(line.take(split), mode) {
            Some(info) => Ok((info.opcode_value, args)),
            None => Err(Error::UnknownInstruction),
        },
        Err(e) => Err(e),
    }
}

/// The bytes that one line of a program assembles to, white space around it
/// ignored: none for a blank line, else the opcode byte and after it the
/// operand bytes.
pub open spec fn line_spec(line: Seq<char>) -> Result<Seq<u8>, Error> {
    let inner = trimmed(line);
    if inner.len() == 0 {
        Ok(Seq::empty())
    } else {
        match parse_spec(inner) {
            Ok((opcode, args)) => Ok(seq![opcode] + args),
            Err(e) => Err(e),
        }
    }
}

/// `bytes` before what `more` holds; the failure of `more` where it is one.
pub open spec fn followed_by(bytes: Seq<u8>, more: Result<Seq<u8>, Error>) -> Result<
    Seq<u8>,
    Error,
> {
    match more {
        Ok(rest) => Ok(bytes + rest),
        Err(e) => Err(e),
    }
}

/// The first line of `program`: what stands before its first line feed.
pub open spec fn first_line(program: Seq<char>) -> Seq<char> {
    program.take(prefix_before(program, '\n') as int)
}

/// The text that follows the first line of `program` and the line feed that
/// ends it.
pub open spec fn after_first_line(program: Seq<char>) -> Seq<char> {
    let end = prefix_before(program, '\n') as int;
    if end < program.len() {
        program.skip(end + 1)
    } else {
        Seq::empty()
    }
}

/// The bytes that `program` assembles to: those of its lines, in order. Lines
/// end at line feeds. Fails as the first line that fails does.
pub open spec fn assemble_spec(program: Seq<char>) -> Result<Seq<u8>, Error>
    decreases program.len(),
{
    if program.len() == 0 {
        Ok(Seq::empty())
    } else {
        match line_spec(first_line(program)) {
            Ok(bytes) => followed_by(bytes, assemble_spec(after_first_line(program))),
            Err(e) => Err(e),
        }
    }
}

/// Whether `found` is what `expected` says: the same bytes, or the same
/// failure.
pub open spec fn agrees(found: Result<Vec<u8>, Error>, expected: Result<Seq<u8>, Error>) -> bool {
    match expected {
        Ok(bytes) => found matches Ok(v) && v@ == bytes,
        Err(e) => found matches Err(x) && x == e,
    }
}

/// The byte that two hexadecimal digits write.
fn hex_pair(high: char, low: char) -> (value: Option<u8>)
    ensures
        value == hex_byte(high, low),
{
    match (hex_digit(high), hex_digit(low)) {
        (Some(h), Some(l)) => Some(16 * h + l),
        _ => None,
    }
}

/// The addressing mode that the form of `operand` gives, and the operand
/// bytes that it writes.
///
/// Fails with `MalformedOperand` for a text that is none of `#$` and two
/// hexadecimal digits, `$` and two, or `$` and four.
pub fn parse_operand(operand: &[char]) -> (parsed: Result<(AddressingMode, Vec<u8>), Error>)
    ensures
        match operand_spec(operand@) {
            Ok((mode, args)) => parsed matches Ok(found) && found.0 == mode && found.1@ == args,
            Err(e) => parsed matches Err(x) && x == e,
        },
{
    let length = operand.len();
    let mut args: Vec<u8> = Vec::new();
    if length == 4 && operand[0] == '#' && operand[1] == '$' {
        match hex_pair(operand[2], operand[3]) {
            Some(value) => {
                args.push(value);
                assert(args@ =~= seq![value]);
                Ok((AddressingMode::Immediate, args))
            },
            None => Err(Error::MalformedOperand),
        }
    } else if length == 3 && operand[0] == '$' {
        match hex_pair(operand[1], operand[2]) {
            Some(address) => {
                args.push(address);
                assert(args@ =~= seq![address]);
                Ok((AddressingMode::ZeroPage, args))
            },
            None => Err(Error::MalformedOperand),
        }
    } else if length == 5 && operand[0] == '$' {
        match (hex_pair(operand[1], operand[2]), hex_pair(operand[3], operand[4])) {
            (Some(high), Some(low)) => {
                args.push(low);
                args.push(high);
                assert(args@ =~= seq![low, high]);
                Ok((AddressingMode::Absolute, args))
            },
            _ => Err(Error::MalformedOperand),
        }
    } else {
        Err(Error::MalformedOperand)
    }
}

/// As [`parse`], with the line given by its characters.
pub fn parse_chars(line: &[char]) -> (parsed: Result<(u8, Vec<u8>), Error>)
    ensures
        match parse_spec(line@) {
            Ok((opcode, args)) => parsed matches Ok(found) && found.0 == opcode && found.1@ == args,
            Err(e) => parsed matches Err(x) && x == e,
        },
{
    reveal(parse_spec);
    let split = find(line, 0, ' ');
    assert(line@.skip(0) =~= line@);
    let (mode, args) = if split == line.len() {
        (AddressingMode::Implied, Vec::new())
    } else {
        match parse_operand(vstd::slice::slice_subrange(line, split + 1, line.len())) {
            Ok(found) => found,
            Err(e) => {
                return Err(e);
            },
        }
    };
    match find_by_name_and_mode(vstd::slice::slice_subrange(line, 0, split), mode) {
        Ok(info) => Ok((info.opcode_value, args)),
        Err(_) => Err(Error::UnknownInstruction),
    }
}

/// Assembles one line, which has no white space around it: the opcode byte
/// and the operand bytes.
///
/// The mnemonic is what stands before the first space, the operand what
/// stands after it. Fails with `MalformedOperand` where the operand has none
/// of the accepted forms, and otherwise with `UnknownInstruction` where no
/// instruction has that mnemonic in the addressing mode that the operand
/// gives.
pub fn parse(line: &str) -> (parsed: Result<(u8, Vec<u8>), Error>)
    ensures
        match parse_spec(line@) {
            Ok((opcode, args)) => parsed matches Ok(found) && found.0 == opcode && found.1@ == args,
            Err(e) => parsed matches Err(x) && x == e,
        },
{
    let chars = chars_of(line);
    parse_chars(chars.as_slice())
}

/// Assembles one line of a program, white space around it ignored, and
/// puts its bytes after those that `bytes` holds; a blank line adds none.
///
/// Where the line fails, `bytes` stays as it was.
pub fn assemble_line(line: &[char], bytes: &mut Vec<u8>) -> (done: Result<(), Error>)
    ensures
        match line_spec(line@) {
            Ok(encoded) => done is Ok && final(bytes)@ == old(bytes)@ + encoded,
            Err(e) => done == Err::<(), Error>(e) && final(bytes)@ == old(bytes)@,
        },
{
    let inner = trim(line);
    if inner.len() == 0 {
        assert(bytes@ =~= bytes@ + Seq::<u8>::empty());
        return Ok(());
    }
    match parse_chars(inner) {
        Ok((opcode, mut args)) => {
            let ghost operand = args@;
            bytes.push(opcode);
            bytes.append(&mut args);
            assert(bytes@ =~= old(bytes)@ + (seq![opcode] + operand));
            Ok(())
        },
        Err(e) => Err(e),
    }
}

/// The bytes of a program are those of its first line and after them those
/// of the rest.
pub proof fn lemma_assemble_first_line(program: Seq<char>, before: Seq<u8>)
    requires
        program.len() > 0,
    ensures
        followed_by(before, assemble_spec(program)) == match line_spec(first_line(program)) {
            Ok(encoded) => followed_by(before + encoded, assemble_spec(after_first_line(program))),
            Err(e) => Err(e),
        },
{
    match line_spec(first_line(program)) {
        Ok(encoded) => {
            match assemble_spec(after_first_line(program)) {
                Ok(more) => {
                    assert(before + (encoded + more) =~= (before + encoded) + more);
                },
                Err(_) => {},
            }
        },
        Err(_) => {},
    }
}

/// Assembles a program: the bytes of its lines, in order.
///
/// Lines end at line feeds; white space around a line is ignored, and so are
/// blank lines. Fails as the first line that fails does, with
/// `MalformedOperand` or `UnknownInstruction`, and then yields no bytes.
pub fn assemble(program: &str) -> (bytes: Result<Vec<u8>, Error>)
    ensures
        agrees(bytes, assemble_spec(program@)),
{
    let chars = chars_of(program);
    let text = chars.as_slice();
    let length = text.len();
    let mut bytes: Vec<u8> = Vec::new();
    let mut start: usize = 0;
    assert(text@.skip(0) =~= text@);
    assert(Seq::<u8>::empty() + Seq::<u8>::empty() =~= Seq::<u8>::empty());
    while start < length
        invariant
            start <= length,
            length == text@.len(),
            assemble_spec(program@) == followed_by(bytes@, assemble_spec(text@.skip(start as int))),
        decreases length - start,
    {
        let ghost rest = text@.skip(start as int);
        let end = find(text, start, '\n');
        proof {
            lemma_assemble_first_line(rest, bytes@);
            assert(rest.take(end - start) =~= text@.subrange(start as int, end as int));
            if end < length {
                assert(after_first_line(rest) =~= text@.skip(end + 1));
            } else {
                assert(after_first_line(rest) =~= text@.skip(length as int));
            }
        }
        match assemble_line(vstd::slice::slice_subrange(text, start, end), &mut bytes) {
            Ok(()) => {},
            Err(e) => {
                return Err(e);
            },
        }
        start = if end < length {
            end + 1
        } else {
            length
        };
    }
    proof {
        assert(text@.skip(start as int) =~= Seq::<char>::empty());
        assert(bytes@ + Seq::<u8>::empty() =~= bytes@);
    }
    Ok(bytes)
}

} // verus!
