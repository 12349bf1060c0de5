use apple_ie::assembler::{assemble, parse};
use apple_ie::cpu::operations::{decode, AddressingMode};
use apple_ie::error::Error;

#[test]
fn assembles_load_and_break() {
    assert_eq!(assemble("LDA #$c0\nBRK"), Ok(vec![0xA9, 0xC0, 0x00]));
}

#[test]
fn assembles_the_three_operand_forms() {
    assert_eq!(assemble("LDA #$01"), Ok(vec![0xA9, 0x01]));
    assert_eq!(assemble("LDA $10"), Ok(vec![0xA5, 0x10]));
    assert_eq!(assemble("LDA $1234"), Ok(vec![0xAD, 0x34, 0x12]));
    assert_eq!(assemble("JMP $0805"), Ok(vec![0x4C, 0x05, 0x08]));
    assert_eq!(assemble("STA $0200"), Ok(vec![0x8D, 0x00, 0x02]));
    assert_eq!(assemble("NOP"), Ok(vec![0xEA]));
}

#[test]
fn mnemonics_and_digits_are_read_in_either_case() {
    assert_eq!(assemble("lda #$ff"), Ok(vec![0xA9, 0xFF]));
    assert_eq!(assemble("LdA #$aB"), Ok(vec![0xA9, 0xAB]));
    assert_eq!(assemble("sta $00Fe"), Ok(vec![0x8D, 0xFE, 0x00]));
}

#[test]
fn blank_lines_and_white_space_are_ignored() {
    assert_eq!(assemble(""), Ok(vec![]));
    assert_eq!(assemble("   "), Ok(vec![]));
    assert_eq!(assemble("\n\n"), Ok(vec![]));
    assert_eq!(assemble("\n\n  NOP  \r\n\tBRK\n"), Ok(vec![0xEA, 0x00]));
    assert_eq!(assemble("LDA #$01\r\nBRK\r\n"), Ok(vec![0xA9, 0x01, 0x00]));
    assert_eq!(assemble("\u{3000}NOP\u{00A0}\n"), Ok(vec![0xEA]));
}

#[test]
fn lines_are_assembled_in_order() {
    let program = "LDX #$03\nSTX $10\nINC $0010\nBRK";
    assert_eq!(assemble(program), Ok(vec![0xA2, 0x03, 0x86, 0x10, 0xEE, 0x10, 0x00, 0x00]));
}

#[test]
fn malformed_operands_are_rejected() {
    assert_eq!(assemble("LDA c0"), Err(Error::MalformedOperand));
    assert_eq!(assemble("LDA #c0"), Err(Error::MalformedOperand));
    assert_eq!(assemble("LDA #$"), Err(Error::MalformedOperand));
    assert_eq!(assemble("LDA #$1"), Err(Error::MalformedOperand));
    assert_eq!(assemble("LDA #$123"), Err(Error::MalformedOperand));
    assert_eq!(assemble("LDA #$g0"), Err(Error::MalformedOperand));
    assert_eq!(assemble("LDA #$+1"), Err(Error::MalformedOperand));
    assert_eq!(assemble("LDA $"), Err(Error::MalformedOperand));
    assert_eq!(assemble("LDA $1"), Err(Error::MalformedOperand));
    assert_eq!(assemble("LDA $123"), Err(Error::MalformedOperand));
    assert_eq!(assemble("LDA $12345"), Err(Error::MalformedOperand));
    assert_eq!(assemble("LDA $12x4"), Err(Error::MalformedOperand));
    assert_eq!(assemble("LDA $$10"), Err(Error::MalformedOperand));
    assert_eq!(assemble("LDA  #$c0"), Err(Error::MalformedOperand));
    assert_eq!(assemble("LDA #$c0 ; load"), Err(Error::MalformedOperand));
    assert_eq!(assemble("LDA (10)"), Err(Error::MalformedOperand));
}

#[test]
fn a_malformed_operand_yields_no_bytes() {
    let assembled = assemble("LDA #$01\nLDA c0\nBRK");
    assert_eq!(assembled, Err(Error::MalformedOperand));
    assert!(assembled.is_err());
}

#[test]
fn unknown_instructions_are_rejected() {
    assert_eq!(assemble("XYZ"), Err(Error::UnknownInstruction));
    assert_eq!(assemble("LDA"), Err(Error::UnknownInstruction));
    assert_eq!(assemble("BRK #$01"), Err(Error::UnknownInstruction));
    assert_eq!(assemble("STA #$01"), Err(Error::UnknownInstruction));
    assert_eq!(assemble("JMP $10"), Err(Error::UnknownInstruction));
    assert_eq!(assemble("LDA\t#$c0"), Err(Error::UnknownInstruction));
}

#[test]
fn accumulator_and_relative_instructions_cannot_be_written() {
    assert_eq!(assemble("ASL"), Err(Error::UnknownInstruction));
    assert_eq!(assemble("BNE $10"), Err(Error::UnknownInstruction));
    assert_eq!(assemble("ASL A"), Err(Error::MalformedOperand));
}

#[test]
fn the_operand_is_judged_before_the_mnemonic() {
    assert_eq!(assemble("XYZ c0"), Err(Error::MalformedOperand));
    assert_eq!(assemble("XYZ #$c0"), Err(Error::UnknownInstruction));
}

#[test]
fn the_first_failing_line_decides() {
    assert_eq!(assemble("XYZ\nLDA c0"), Err(Error::UnknownInstruction));
    assert_eq!(assemble("LDA c0\nXYZ"), Err(Error::MalformedOperand));
    assert_eq!(assemble("NOP\n\nLDA c0\nXYZ"), Err(Error::MalformedOperand));
}

#[test]
fn parse_gives_opcode_and_operand_bytes() {
    assert_eq!(parse("LDA #$01"), Ok((0xA9, vec![0x01])));
    assert_eq!(parse("BRK"), Ok((0x00, vec![])));
    assert_eq!(parse("jsr $0806"), Ok((0x20, vec![0x06, 0x08])));
    assert_eq!(parse("ldx $fe"), Ok((0xA6, vec![0xFE])));
}

#[test]
fn parse_does_not_trim() {
    assert_eq!(parse(" LDA #$01"), Err(Error::MalformedOperand));
    assert_eq!(parse("LDA #$01 "), Err(Error::MalformedOperand));
    assert_eq!(parse("BRK "), Err(Error::MalformedOperand));
    assert_eq!(parse(""), Err(Error::UnknownInstruction));
}

fn hex(value: u8) -> String {
    format!("{:02X}", value)
}

#[test]
fn what_is_assembled_decodes_to_what_was_written() {
    let mut written = 0;
    for byte in 0..=255u8 {
        let info = match decode(byte) {
            Ok(info) => info,
            Err(_) => continue,
        };
        let (line, operand) = match info.addressing_mode {
            AddressingMode::Implied => (format!("{}", info.opcode.mnemonic()), vec![]),
            AddressingMode::Immediate => {
                (format!("{} #${}", info.opcode.mnemonic(), hex(0xC0)), vec![0xC0])
            }
            AddressingMode::ZeroPage => {
                (format!("{} ${}", info.opcode.mnemonic(), hex(0x0F)), vec![0x0F])
            }
            AddressingMode::Absolute => (
                format!("{} ${}{}", info.opcode.mnemonic(), hex(0x12), hex(0xAB)),
                vec![0xAB, 0x12],
            ),
            AddressingMode::Accumulator | AddressingMode::Relative => continue,
        };
        written += 1;
        let bytes = assemble(&line).unwrap();
        assert_eq!(bytes[0], byte);
        assert_eq!(bytes[1..], operand[..]);
        let back = decode(bytes[0]).unwrap();
        assert_eq!(back.opcode, info.opcode);
        assert_eq!(back.addressing_mode, info.addressing_mode);
        assert_eq!(back, info);
    }
    assert_eq!(written, 80);
}

#[test]
fn programs_written_one_after_the_other_assemble_one_after_the_other() {
    let first = "LDA #$01\nSTA $0200";
    let second = "  INC $10\n\nBRK";
    let whole = format!("{}\n{}", first, second);
    let mut expected = assemble(first).unwrap();
    expected.extend(assemble(second).unwrap());
    assert_eq!(assemble(&whole), Ok(expected));
    assert_eq!(assemble(&whole), Ok(vec![0xA9, 0x01, 0x8D, 0x00, 0x02, 0xE6, 0x10, 0x00]));

    let failing = format!("{}\n{}", "LDA c0", second);
    assert_eq!(assemble(&failing), Err(Error::MalformedOperand));
    let failing = format!("{}\n{}", first, "XYZ");
    assert_eq!(assemble(&failing), Err(Error::UnknownInstruction));
}
