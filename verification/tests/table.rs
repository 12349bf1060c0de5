use apple_ie::cpu::operations::{
    decode, get_instruction, lookup_by_name, lookup_by_name_and_mode, AddressingMode,
    InstructionInfo, OpSize, Opcode,
};
use apple_ie::error::Error;

#[test]
fn decode_finds_load_accumulator_immediate() {
    let info = decode(0xA9).unwrap();
    assert_eq!(
        info,
        InstructionInfo {
            opcode: Opcode::Lda,
            opcode_value: 0xA9,
            size: OpSize::Two,
            addressing_mode: AddressingMode::Immediate,
            cycles: 2,
        }
    );
}

#[test]
fn decode_finds_break() {
    let info = decode(0x00).unwrap();
    assert_eq!(info.opcode, Opcode::Brk);
    assert_eq!(info.addressing_mode, AddressingMode::Implied);
    assert_eq!(info.size, OpSize::One);
    assert_eq!(info.cycles, 7);
}

#[test]
fn decode_finds_each_addressing_mode() {
    assert_eq!(decode(0x0A).unwrap().addressing_mode, AddressingMode::Accumulator);
    assert_eq!(decode(0xD0).unwrap().addressing_mode, AddressingMode::Relative);
    assert_eq!(decode(0xA5).unwrap().addressing_mode, AddressingMode::ZeroPage);
    assert_eq!(decode(0x4C).unwrap().addressing_mode, AddressingMode::Absolute);
    assert_eq!(decode(0x4C).unwrap().opcode, Opcode::Jmp);
    assert_eq!(decode(0x4C).unwrap().size, OpSize::Three);
    assert_eq!(decode(0x8D).unwrap().opcode, Opcode::Sta);
    assert_eq!(decode(0xCA).unwrap().opcode, Opcode::Dex);
}

#[test]
fn decode_rejects_bytes_outside_the_table() {
    assert_eq!(decode(0x02), Err(Error::UnknownOpcode));
    assert_eq!(decode(0xFF), Err(Error::UnknownOpcode));
    assert_eq!(decode(0xA1), Err(Error::UnknownOpcode));
}

#[test]
fn decode_is_defined_on_exactly_the_listed_bytes() {
    let mut known = 0;
    for byte in 0..=255u8 {
        match decode(byte) {
            Ok(info) => {
                known += 1;
                assert_eq!(info.opcode_value, byte);
                assert_eq!(info.size, info.addressing_mode.size());
            }
            Err(e) => assert_eq!(e, Error::UnknownOpcode),
        }
    }
    assert_eq!(known, 92);
}

#[test]
fn decode_twice_gives_the_same() {
    for byte in 0..=255u8 {
        assert_eq!(decode(byte), decode(byte));
    }
}

#[test]
fn every_mnemonic_is_in_the_table() {
    let mut seen: Vec<Opcode> = Vec::new();
    for byte in 0..=255u8 {
        if let Ok(info) = decode(byte) {
            if !seen.contains(&info.opcode) {
                seen.push(info.opcode);
            }
        }
    }
    assert_eq!(seen.len(), 56);
}

#[test]
fn mnemonic_and_mode_find_the_instruction_back() {
    for byte in 0..=255u8 {
        if let Ok(info) = decode(byte) {
            let found = lookup_by_name_and_mode(info.opcode.mnemonic(), info.addressing_mode);
            assert_eq!(found, Ok(info));
        }
    }
}

#[test]
fn lookup_by_name_and_mode_ignores_case() {
    assert_eq!(
        lookup_by_name_and_mode("lda", AddressingMode::ZeroPage).unwrap().opcode_value,
        0xA5
    );
    assert_eq!(
        lookup_by_name_and_mode("LdA", AddressingMode::Absolute).unwrap().opcode_value,
        0xAD
    );
    assert_eq!(lookup_by_name_and_mode("BRK", AddressingMode::Implied).unwrap().opcode_value, 0x00);
}

#[test]
fn lookup_by_name_and_mode_rejects_what_is_not_listed() {
    assert_eq!(
        lookup_by_name_and_mode("LDA", AddressingMode::Relative),
        Err(Error::UnknownOperation)
    );
    assert_eq!(
        lookup_by_name_and_mode("LDA", AddressingMode::Implied),
        Err(Error::UnknownOperation)
    );
    assert_eq!(
        lookup_by_name_and_mode("XYZ", AddressingMode::Implied),
        Err(Error::UnknownOperation)
    );
    assert_eq!(lookup_by_name_and_mode("", AddressingMode::Implied), Err(Error::UnknownOperation));
    assert_eq!(
        lookup_by_name_and_mode("LDAX", AddressingMode::Immediate),
        Err(Error::UnknownOperation)
    );
    assert_eq!(
        lookup_by_name_and_mode("LD", AddressingMode::Immediate),
        Err(Error::UnknownOperation)
    );
}

#[test]
fn lookup_by_name_gives_the_first_entry() {
    assert_eq!(lookup_by_name("lda").unwrap().opcode_value, 0xA9);
    assert_eq!(lookup_by_name("ASL").unwrap().addressing_mode, AddressingMode::Accumulator);
    assert_eq!(lookup_by_name("bit").unwrap().opcode_value, 0x24);
    assert_eq!(lookup_by_name("Sta").unwrap().opcode_value, 0x85);
    assert_eq!(lookup_by_name("nop").unwrap().opcode_value, 0xEA);
    assert_eq!(lookup_by_name("mov"), Err(Error::UnknownOperation));
}

#[test]
fn get_instruction_looks_up_by_what_is_given() {
    assert_eq!(get_instruction(Some(0xA9), None, None), decode(0xA9).ok());
    assert_eq!(
        get_instruction(Some(0xA9), Some("BRK"), Some(AddressingMode::Implied)),
        decode(0xA9).ok()
    );
    assert_eq!(get_instruction(Some(0x02), None, None), None);
    assert_eq!(
        get_instruction(None, Some("lda"), Some(AddressingMode::Immediate)),
        decode(0xA9).ok()
    );
    assert_eq!(get_instruction(None, Some("lda"), Some(AddressingMode::Relative)), None);
    assert_eq!(get_instruction(None, Some("jsr"), None), decode(0x20).ok());
    assert_eq!(get_instruction(None, Some("nothing"), None), None);
    assert_eq!(get_instruction(None, None, Some(AddressingMode::Implied)), None);
    assert_eq!(get_instruction(None, None, None), None);
}

#[test]
fn sizes_count_bytes() {
    assert_eq!(OpSize::One.bytes(), 1);
    assert_eq!(OpSize::Two.bytes(), 2);
    assert_eq!(OpSize::Three.bytes(), 3);
    assert_eq!(OpSize::One.operand_bytes(), 0);
    assert_eq!(OpSize::Two.operand_bytes(), 1);
    assert_eq!(OpSize::Three.operand_bytes(), 2);
    assert_eq!(AddressingMode::Implied.size(), OpSize::One);
    assert_eq!(AddressingMode::Accumulator.size(), OpSize::One);
    assert_eq!(AddressingMode::Immediate.size(), OpSize::Two);
    assert_eq!(AddressingMode::ZeroPage.size(), OpSize::Two);
    assert_eq!(AddressingMode::Relative.size(), OpSize::Two);
    assert_eq!(AddressingMode::Absolute.size(), OpSize::Three);
}

#[test]
fn cycle_counts_follow_the_instruction() {
    assert_eq!(decode(0xEA).unwrap().cycles, 2);
    assert_eq!(decode(0xA5).unwrap().cycles, 3);
    assert_eq!(decode(0xAD).unwrap().cycles, 4);
    assert_eq!(decode(0xE6).unwrap().cycles, 5);
    assert_eq!(decode(0xEE).unwrap().cycles, 6);
    assert_eq!(decode(0x20).unwrap().cycles, 6);
    assert_eq!(decode(0x4C).unwrap().cycles, 3);
    assert_eq!(decode(0x68).unwrap().cycles, 4);
}

#[test]
fn names_are_written_out() {
    assert_eq!(Opcode::Lda.mnemonic(), "LDA");
    assert_eq!(Opcode::Tya.mnemonic(), "TYA");
    assert_eq!(AddressingMode::ZeroPage.name(), "ZeroPage");
    assert_eq!(decode(0xA9).unwrap().describe(), "LDA::Immediate - size: 2");
    assert_eq!(decode(0x00).unwrap().describe(), "BRK::Implied - size: 1");
    assert_eq!(decode(0x4C).unwrap().describe(), "JMP::Absolute - size: 3");
}
