use std::collections::HashMap;

use k_nes::assembler::parser::{parse_line, parse_org_data, replace_symbols};
use k_nes::assembler::process_line;
use k_nes::assembler::types::{Command, ParseError, SymbolType};
use k_nes::cpu::instruction_set::arithmetic::Arithmetic;
use k_nes::cpu::opcode::{
    addressing_modes_from_mnemonic, is_valid_mnemonic, translate_instruction_to_opcode, Opcode,
};
use k_nes::cpu::types::{CpuFlags, InstructionError};
use k_nes::cpu::Cpu;
use k_nes::memory::types::AddressingMode;
use k_nes::memory::Memory;

fn signed(v: u8) -> i32 {
    v as i8 as i32
}

#[test]
fn adc_matches_modular_sum_and_signed_overflow_for_all_inputs() {
    for a in 0..=255u8 {
        for b in 0..=255u8 {
            for carry in 0..=1u8 {
                let mut cpu = Cpu::new();
                cpu.registers.accumulator = a;
                cpu.registers.status =
                    CpuFlags::from_bits_truncate(if carry == 1 { CpuFlags::CARRY } else { 0 });
                cpu.adc(b);
                let sum = a as u32 + b as u32 + carry as u32;
                assert_eq!(cpu.registers.accumulator as u32, sum % 256);
                assert_eq!(cpu.registers.status.contains(CpuFlags::CARRY), sum > 255);
                let s = signed(a) + signed(b) + carry as i32;
                assert_eq!(cpu.registers.status.contains(CpuFlags::OVERFLOW), !(-128..=127).contains(&s));
            }
        }
    }
}

#[test]
fn sbc_is_adc_of_complement() {
    for (a, b, carry) in [(0x50u8, 0xF0u8, true), (0x02, 0x01, false), (0x80, 0x01, true), (0x00, 0x00, false)] {
        let status = CpuFlags::from_bits_truncate(if carry { CpuFlags::CARRY } else { 0 });
        let mut subtracting = Cpu::new();
        subtracting.registers.accumulator = a;
        subtracting.registers.status = status;
        subtracting.sbc(b);
        let mut adding = Cpu::new();
        adding.registers.accumulator = a;
        adding.registers.status = status;
        adding.adc(!b);
        assert_eq!(subtracting.registers.accumulator, adding.registers.accumulator);
        assert_eq!(subtracting.registers.status, adding.registers.status);
    }
}

#[test]
fn adc_then_sbc_with_opposite_carry_restores_accumulator() {
    for (x, y) in [(0x37u8, 0x5Au8), (0xFF, 0xFF), (0x00, 0x80), (0x7F, 0x01)] {
        for carry in [false, true] {
            let mut cpu = Cpu::new();
            cpu.registers.accumulator = x;
            cpu.registers.status = CpuFlags::from_bits_truncate(if carry { CpuFlags::CARRY } else { 0 });
            cpu.adc(y);
            cpu.registers.status.set(CpuFlags::CARRY, !carry);
            cpu.sbc(y);
            assert_eq!(cpu.registers.accumulator, x);
        }
    }
}

#[test]
fn zero_page_indexed_wraps_within_page_zero() {
    let mut cpu = Cpu::new();
    cpu.registers.program_counter = 0x0600;
    cpu.memory.write(0x80, 0x0600);
    cpu.registers.x_register = 0xFF;
    cpu.registers.y_register = 0xFF;
    assert_eq!(cpu.calculate_address(AddressingMode::ZeroPageX), 0x007F);
    assert_eq!(cpu.calculate_address(AddressingMode::ZeroPageY), 0x007F);
}

#[test]
fn absolute_indexed_crosses_pages() {
    let mut cpu = Cpu::new();
    cpu.registers.program_counter = 0x0600;
    cpu.memory.write(0x42, 0x0600);
    cpu.memory.write(0x80, 0x0601);
    cpu.registers.x_register = 0x02;
    assert_eq!(cpu.calculate_address(AddressingMode::AbsoluteX), 0x8044);
    cpu.memory.write(0xFF, 0x0600);
    assert_eq!(cpu.calculate_address(AddressingMode::AbsoluteX), 0x8101);
    cpu.memory.write(0xFF, 0x0601);
    cpu.registers.y_register = 0x02;
    assert_eq!(cpu.calculate_address(AddressingMode::AbsoluteY), 0x0001);
}

#[test]
fn jsr_then_rts_returns_after_the_call() {
    let mut cpu = Cpu::new();
    cpu.memory.write_array(&[0x20, 0x00, 0x30], 0x0600);
    cpu.memory.write(0x60, 0x3000);
    cpu.registers.program_counter = 0x0600;
    assert_eq!(cpu.execute_instruction(0x20), Ok(()));
    assert_eq!(cpu.registers.program_counter, 0x3000);
    assert_eq!(cpu.registers.stack_pointer, 0xFD);
    assert_eq!(cpu.execute_instruction(0x60), Ok(()));
    assert_eq!(cpu.registers.program_counter, 0x0603);
    assert_eq!(cpu.registers.stack_pointer, 0xFF);
}

#[test]
fn jsr_rts_round_trip_with_stack_pointer_wrapping() {
    let mut cpu = Cpu::new();
    cpu.memory.write_array(&[0x20, 0x00, 0x30], 0x0600);
    cpu.memory.write(0x60, 0x3000);
    cpu.registers.program_counter = 0x0600;
    cpu.registers.stack_pointer = 0x00;
    cpu.execute_instruction(0x20).unwrap();
    assert_eq!(cpu.registers.stack_pointer, 0xFE);
    cpu.execute_instruction(0x60).unwrap();
    assert_eq!(cpu.registers.program_counter, 0x0603);
    assert_eq!(cpu.registers.stack_pointer, 0x00);
}

#[test]
fn invalid_opcode_is_reported_and_changes_nothing() {
    let mut cpu = Cpu::new();
    cpu.registers.program_counter = 0x0600;
    assert_eq!(cpu.execute_instruction(0x02), Err(InstructionError::InvalidOpcode(0x02)));
    assert_eq!(cpu.registers.program_counter, 0x0600);
}

#[test]
fn run_stops_at_invalid_opcode() {
    let mut cpu = Cpu::new();
    cpu.memory.write_array(&[0xA9, 0x01, 0xFF], 0x0600);
    cpu.registers.program_counter = 0x0600;
    assert_eq!(cpu.execute_program(), Err(InstructionError::InvalidOpcode(0xFF)));
    assert_eq!(cpu.registers.accumulator, 0x01);
    assert_eq!(cpu.registers.program_counter, 0x0602);
}

#[test]
fn run_halts_on_brk_at_start() {
    let mut cpu = Cpu::new();
    cpu.registers.program_counter = 0x0600;
    assert_eq!(cpu.execute_program(), Ok(()));
    assert_eq!(cpu.registers.program_counter, 0x0601);
}

#[test]
fn shifts_decode_to_their_own_instructions() {
    assert_eq!(Opcode::from_u8(0x4A), Some(Opcode::Lsr(0x4A, AddressingMode::Accumulator)));
    assert_eq!(Opcode::from_u8(0x2A), Some(Opcode::Rol(0x2A, AddressingMode::Accumulator)));
    assert_eq!(Opcode::from_u8(0x6A), Some(Opcode::Ror(0x6A, AddressingMode::Accumulator)));
    assert_eq!(Opcode::from_u8(0x02), None);
    let mut cpu = Cpu::new();
    cpu.registers.accumulator = 0x03;
    cpu.execute_instruction(0x4A).unwrap();
    assert_eq!(cpu.registers.accumulator, 0x01);
    assert!(cpu.registers.status.contains(CpuFlags::CARRY));
    assert_eq!(cpu.registers.program_counter, 0x0001);
}

#[test]
fn stack_push_and_pull_of_status() {
    let mut cpu = Cpu::new();
    cpu.registers.status = CpuFlags::from_bits_truncate(CpuFlags::CARRY | CpuFlags::NEGATIVE);
    cpu.execute_instruction(0x08).unwrap();
    cpu.registers.status = CpuFlags::empty();
    cpu.execute_instruction(0x28).unwrap();
    assert_eq!(cpu.registers.status.bits(), CpuFlags::CARRY | CpuFlags::NEGATIVE);
    assert_eq!(cpu.registers.stack_pointer, 0xFF);
}

#[test]
fn compare_negative_flag_comes_from_difference() {
    let mut cpu = Cpu::new();
    cpu.registers.accumulator = 0x81;
    cpu.cmp(0x02);
    assert!(!cpu.registers.status.contains(CpuFlags::NEGATIVE));
    assert!(cpu.registers.status.contains(CpuFlags::CARRY));
    cpu.cmp(0x82);
    assert!(cpu.registers.status.contains(CpuFlags::NEGATIVE));
    assert!(!cpu.registers.status.contains(CpuFlags::CARRY));
}

#[test]
fn memory_words_wrap_at_end_of_address_space() {
    let mut memory = Memory::new();
    memory.write(0x34, 0xFFFF);
    memory.write(0x12, 0x0000);
    assert_eq!(memory.read_u16(0xFFFF), 0x1234);
    memory.write_array(&[0xAA, 0xBB], 0xFFFF);
    assert_eq!(memory.read(0xFFFF), 0xAA);
    assert_eq!(memory.read(0x0000), 0xBB);
}

#[test]
fn mnemonic_tables() {
    assert!(is_valid_mnemonic("NOP"));
    assert!(is_valid_mnemonic("BVS"));
    assert!(!is_valid_mnemonic("BNS"));
    assert_eq!(translate_instruction_to_opcode("LDA", AddressingMode::Immediate), Ok(0xA9));
    assert_eq!(translate_instruction_to_opcode("BRK", AddressingMode::Implicit), Ok(0x00));
    assert_eq!(
        translate_instruction_to_opcode("LDA", AddressingMode::Implicit),
        Err(InstructionError::InvalidIMnemonicAndAddressingModePair(
            "LDA".to_string(),
            "Implicit".to_string()
        ))
    );
    assert_eq!(
        addressing_modes_from_mnemonic("JMP"),
        Ok(vec![AddressingMode::Absolute, AddressingMode::Indirect])
    );
    assert_eq!(
        addressing_modes_from_mnemonic("FOO"),
        Err(InstructionError::InvalidInstruction("FOO".to_string()))
    );
}

#[test]
fn label_records_decimal_address() {
    let mut table: HashMap<String, Command> = HashMap::new();
    let result = parse_line("  START: NOP ", 1234, &mut table);
    assert_eq!(result, Ok(Command::new("NOP".to_string(), SymbolType::MNEMONIC, "".to_string())));
    assert_eq!(table.get("START").unwrap().data, "1234");
}

#[test]
fn constant_given_twice_is_rejected() {
    let mut table: HashMap<String, Command> = HashMap::new();
    assert_eq!(parse_line("A = 1 = 2", 0, &mut table), Err(ParseError::constant_not_expected()));
}

#[test]
fn org_with_symbol_and_undefined_symbol() {
    let mut table: HashMap<String, Command> = HashMap::new();
    table.insert(
        "START".to_string(),
        Command::new("START".to_string(), SymbolType::CONSTANT, "$0200".to_string()),
    );
    let org = Command::new(".org".to_string(), SymbolType::DIRECTIVE, "START".to_string());
    assert_eq!(parse_org_data(org, &table), Ok(0x0200));
    let org = Command::new(".org".to_string(), SymbolType::DIRECTIVE, "FOO".to_string());
    assert_eq!(
        parse_org_data(org, &table),
        Err(ParseError::SymbolNotDefined("Symbol [FOO] not defined".to_string()))
    );
}

#[test]
fn symbols_are_replaced_in_operands() {
    let mut table: HashMap<String, Command> = HashMap::new();
    table.insert(
        "VALUE".to_string(),
        Command::new("VALUE".to_string(), SymbolType::CONSTANT, "$10".to_string()),
    );
    let mut command = Command::new("LDA".to_string(), SymbolType::MNEMONIC, "#VALUE".to_string());
    replace_symbols(&mut command, &table);
    assert_eq!(command.data, "#$10");

    let mut address: u16 = 0x0600;
    let mut binary: Vec<u8> = Vec::new();
    process_line("LDA VALUE", &mut address, &mut binary, &mut table).unwrap();
    assert_eq!(binary, vec![0xA5, 0x10]);
    assert_eq!(address, 0x0602);
}

#[test]
fn process_line_reports_instruction_errors() {
    let mut table: HashMap<String, Command> = HashMap::new();
    let mut address: u16 = 0;
    let mut binary: Vec<u8> = Vec::new();
    assert_eq!(
        process_line("LDA nowhere", &mut address, &mut binary, &mut table),
        Err(ParseError::InstructionError(InstructionError::AddressingModeNotRecognized(
            "nowhere".to_string()
        )))
    );
    assert!(binary.is_empty());
    assert_eq!(address, 0);
}

#[test]
fn instruction_error_messages() {
    assert_eq!(InstructionError::InvalidOpcode(0x0A).message(), "Invalid opcode: 0x0A");
    assert_eq!(InstructionError::NotImplementedOpcode(0xFF).message(), "Not implemented opcode: 0xFF");
    assert_eq!(
        InstructionError::InvalidIMnemonicAndAddressingModePair("LDA".to_string(), "Implicit".to_string())
            .message(),
        "The mnemonic/addressing mode pair [LDA/Implicit] is invalid"
    );
    assert_eq!(
        InstructionError::AddressingModeNotRecognized("?".to_string()).message(),
        "Addressing mode not recognized for data: ?"
    );
    assert_eq!(InstructionError::FatalError("x".to_string()).message(), "Fatal error! Message: x");
}

#[test]
fn parse_error_messages() {
    assert_eq!(
        ParseError::cannot_assign_value_to_non_constant(SymbolType::LABEL),
        ParseError::SyntaxError(
            "Cannot assign a value to a non-constant symbol. Current symbol type: LABEL".to_string()
        )
    );
    assert_eq!(
        ParseError::mnemonic_expected("CONSTANT".to_string()),
        ParseError::SyntaxError("Was expecting a mnemonic, but got \"CONSTANT\"".to_string())
    );
}
