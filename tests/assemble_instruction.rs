use std::collections::HashMap;

use k_nes::assembler::process_line;
use k_nes::assembler::types::Command;
use k_nes::cpu::opcode::{addressing_modes_from_mnemonic, translate_instruction_to_opcode};
use k_nes::assembler::assemble_instruction;
use k_nes::assembler::parser::{parse_instruction_data, parse_radix};
use k_nes::assembler::types::NumericType;
use k_nes::cpu::types::InstructionError;
use k_nes::memory::types::AddressingMode;

#[test]
fn assemble_adc_zero_page() {
    assert_eq!(assemble_instruction("ADC", "$E0"), Ok(vec![0x65, 0xE0]));
}

#[test]
fn assemble_adc_immediate_hex() {
    assert_eq!(assemble_instruction("ADC", "#$0A"), Ok(vec![0x69, 0x0A]));
}

#[test]
fn assemble_adc_immediate_in_every_base() {
    for operand in ["#0x0A", "#0x0a", "#10", "#%00001010", "#0b00001010", "#@12", "#0o12"] {
        assert_eq!(assemble_instruction("ADC", operand), Ok(vec![0x69, 0x0A]), "{}", operand);
    }
}

#[test]
fn assemble_sbc_zero_page_x() {
    assert_eq!(assemble_instruction("SBC", "$01,X"), Ok(vec![0xF5, 0x01]));
}

#[test]
fn assemble_adc_indirect_x() {
    assert_eq!(assemble_instruction("ADC", "($FD,X)"), Ok(vec![0x61, 0xFD]));
}

#[test]
fn assemble_cmp_indirect_y() {
    assert_eq!(assemble_instruction("CMP", "($FF),Y"), Ok(vec![0xD1, 0xFF]));
}

#[test]
fn assemble_lda_absolute_x_little_endian() {
    assert_eq!(assemble_instruction("LDA", "$0AFD, X"), Ok(vec![0xBD, 0xFD, 0x0A]));
}

#[test]
fn assemble_adc_absolute_y() {
    assert_eq!(assemble_instruction("ADC", "$1B02, Y"), Ok(vec![0x79, 0x02, 0x1B]));
}

#[test]
fn assemble_jmp_indirect() {
    assert_eq!(assemble_instruction("JMP", "($1B02)"), Ok(vec![0x6C, 0x02, 0x1B]));
}

#[test]
fn assemble_implied_instruction() {
    assert_eq!(assemble_instruction("CLC", ""), Ok(vec![0x18]));
    assert_eq!(assemble_instruction("BRK", ""), Ok(vec![0x00]));
}

#[test]
fn assemble_accumulator_shift_has_no_operand() {
    assert_eq!(assemble_instruction("ASL", "A"), Ok(vec![0x0A]));
    assert_eq!(assemble_instruction("ROR", "A"), Ok(vec![0x6A]));
}

#[test]
fn assemble_branch_relative() {
    assert_eq!(assemble_instruction("BNE", "$F8"), Ok(vec![0xD0, 0xF8]));
    assert_eq!(assemble_instruction("BVS", "$10"), Ok(vec![0x70, 0x10]));
    assert_eq!(assemble_instruction("BCS", "$10"), Ok(vec![0xB0, 0x10]));
}

#[test]
fn assemble_unknown_mnemonic() {
    assert_eq!(
        assemble_instruction("XYZ", "#$01"),
        Err(InstructionError::InvalidInstruction("XYZ".to_string()))
    );
}

#[test]
fn assemble_unrecognized_operand() {
    assert_eq!(
        assemble_instruction("ADC", "hello"),
        Err(InstructionError::AddressingModeNotRecognized("hello".to_string()))
    );
}

#[test]
fn assemble_jmp_absolute() {
    assert_eq!(assemble_instruction("JMP", "$0AFD"), Ok(vec![0x4C, 0xFD, 0x0A]));
}

#[test]
fn assemble_sta_absolute_hex() {
    assert_eq!(assemble_instruction("STA", "$6100"), Ok(vec![0x8D, 0x00, 0x61]));
}

#[test]
fn absolute_operand_below_one_page_still_takes_two_bytes() {
    assert_eq!(assemble_instruction("LDA", "$0010"), Ok(vec![0xAD, 0x10, 0x00]));
    assert_eq!(
        parse_instruction_data(0x7D, AddressingMode::AbsoluteX, "$00FF,X").unwrap(),
        vec![0x7D, 0xFF, 0x00]
    );
}

#[test]
fn zero_page_y_operand() {
    assert_eq!(assemble_instruction("LDX", "$20,Y"), Ok(vec![0xB6, 0x20]));
    assert_eq!(assemble_instruction("STX", "$20, Y"), Ok(vec![0x96, 0x20]));
}

#[test]
fn one_byte_operand_that_does_not_fit_is_rejected() {
    assert!(matches!(assemble_instruction("ADC", "#@777"), Err(InstructionError::FatalError(_))));
}

#[test]
fn every_listed_mode_assembles() {
    assert_eq!(
        addressing_modes_from_mnemonic("STX"),
        Ok(vec![AddressingMode::ZeroPage, AddressingMode::ZeroPageY, AddressingMode::Absolute])
    );
    assert_eq!(
        addressing_modes_from_mnemonic("STY"),
        Ok(vec![AddressingMode::ZeroPage, AddressingMode::ZeroPageX, AddressingMode::Absolute])
    );
    for mnemonic in ["ADC", "ASL", "BCC", "BIT", "BRK", "CPX", "DEC", "JMP", "JSR", "LDX", "LDY", "STA", "STX", "STY"] {
        for mode in addressing_modes_from_mnemonic(mnemonic).unwrap() {
            assert!(translate_instruction_to_opcode(mnemonic, mode).is_ok(), "{} {:?}", mnemonic, mode);
        }
    }
}

#[test]
fn sum_program_assembles_line_by_line() {
    let source = [
        "CLC", "CLD", "LDA #$01", "STA $6100", "LDA #$02", "STA $6101", "LDA $6100", "ADC $6101",
        "STA $6102", "BRK",
    ];
    let mut address: u16 = 0;
    let mut binary: Vec<u8> = Vec::new();
    let mut table: HashMap<String, Command> = HashMap::new();
    for line in source {
        process_line(line, &mut address, &mut binary, &mut table).unwrap();
    }
    assert_eq!(
        binary,
        vec![
            0x18, 0xD8, 0xA9, 0x01, 0x8D, 0x00, 0x61, 0xA9, 0x02, 0x8D, 0x01, 0x61, 0xAD, 0x00,
            0x61, 0x6D, 0x01, 0x61, 0x8D, 0x02, 0x61, 0x00
        ]
    );
    assert_eq!(address, 22);
}

#[test]
fn parse_instruction_data_sixteen_bit_operand() {
    assert_eq!(
        parse_instruction_data(0x6D, AddressingMode::AbsoluteX, "$1234,X").unwrap(),
        vec![0x6D, 0x34, 0x12]
    );
    assert_eq!(parse_instruction_data(0xEA, AddressingMode::Implicit, "").unwrap(), vec![0xEA]);
}

#[test]
fn radix_parsing() {
    assert_eq!(parse_radix("FF", 16), Some(0xFF));
    assert_eq!(parse_radix("ffff", 16), Some(0xFFFF));
    assert_eq!(parse_radix("10000", 16), None);
    assert_eq!(parse_radix("65535", 10), Some(65535));
    assert_eq!(parse_radix("65536", 10), None);
    assert_eq!(parse_radix("+7", 8), Some(7));
    assert_eq!(parse_radix("8", 8), None);
    assert_eq!(parse_radix("", 10), None);
    assert_eq!(parse_radix("+", 10), None);
    assert_eq!(parse_radix("1010", 2), Some(10));
}

#[test]
fn numeric_type_detection() {
    let (t, digits) = NumericType::detect_type_in_string("$1F");
    assert_eq!((t, digits), (NumericType::HEXADECIMAL, "1F"));
    let (t, digits) = NumericType::detect_type_in_string("0b101");
    assert_eq!((t, digits), (NumericType::BINARY, "101"));
    let (t, digits) = NumericType::detect_type_in_string("0o17");
    assert_eq!((t, digits), (NumericType::OCTAL, "17"));
    let (t, digits) = NumericType::detect_type_in_string("42");
    assert_eq!((t, digits), (NumericType::DECIMAL, "42"));
    assert_eq!(NumericType::HEXADECIMAL.to_radix(), 16);
    assert_eq!(NumericType::OCTAL.to_radix(), 8);
}
