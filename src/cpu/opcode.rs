use vstd::prelude::*;

use crate::memory::types::AddressingMode;

use crate::text::same_text;

use super::types::InstructionError;

verus! {

pub const BRK: u8 = 0x00;
pub const ADC_IMMEDIATE: u8 = 0x69;
pub const ADC_ZERO_PAGE: u8 = 0x65;
pub const ADC_ZERO_PAGE_X: u8 = 0x75;
pub const ADC_ABSOLUTE: u8 = 0x6D;
pub const ADC_ABSOLUTE_X: u8 = 0x7D;
pub const ADC_ABSOLUTE_Y: u8 = 0x79;
pub const ADC_INDIRECT_X: u8 = 0x61;
pub const ADC_INDIRECT_Y: u8 = 0x71;
pub const SBC_IMMEDIATE: u8 = 0xE9;
pub const SBC_ZERO_PAGE: u8 = 0xE5;
pub const SBC_ZERO_PAGE_X: u8 = 0xF5;
pub const SBC_ABSOLUTE: u8 = 0xED;
pub const SBC_ABSOLUTE_X: u8 = 0xFD;
pub const SBC_ABSOLUTE_Y: u8 = 0xF9;
pub const SBC_INDIRECT_X: u8 = 0xE1;
pub const SBC_INDIRECT_Y: u8 = 0xF1;
pub const CMP_IMMEDIATE: u8 = 0xC9;
pub const CMP_ZERO_PAGE: u8 = 0xC5;
pub const CMP_ZERO_PAGE_X: u8 = 0xD5;
pub const CMP_ABSOLUTE: u8 = 0xCD;
pub const CMP_ABSOLUTE_X: u8 = 0xDD;
pub const CMP_ABSOLUTE_Y: u8 = 0xD9;
pub const CMP_INDIRECT_X: u8 = 0xC1;
pub const CMP_INDIRECT_Y: u8 = 0xD1;
pub const CPX_IMMEDIATE: u8 = 0xE0;
pub const CPX_ZERO_PAGE: u8 = 0xE4;
pub const CPX_ABSOLUTE: u8 = 0xEC;
pub const CPY_IMMEDIATE: u8 = 0xC0;
pub const CPY_ZERO_PAGE: u8 = 0xC4;
pub const CPY_ABSOLUTE: u8 = 0xCC;
pub const AND_IMMEDIATE: u8 = 0x29;
pub const AND_ZERO_PAGE: u8 = 0x25;
pub const AND_ZERO_PAGE_X: u8 = 0x35;
pub const AND_ABSOLUTE: u8 = 0x2D;
pub const AND_ABSOLUTE_X: u8 = 0x3D;
pub const AND_ABSOLUTE_Y: u8 = 0x39;
pub const AND_INDIRECT_X: u8 = 0x21;
pub const AND_INDIRECT_Y: u8 = 0x31;
pub const ORA_IMMEDIATE: u8 = 0x09;
pub const ORA_ZERO_PAGE: u8 = 0x05;
pub const ORA_ZERO_PAGE_X: u8 = 0x15;
pub const ORA_ABSOLUTE: u8 = 0x0D;
pub const ORA_ABSOLUTE_X: u8 = 0x1D;
pub const ORA_ABSOLUTE_Y: u8 = 0x19;
pub const ORA_INDIRECT_X: u8 = 0x01;
pub const ORA_INDIRECT_Y: u8 = 0x11;
pub const EOR_IMMEDIATE: u8 = 0x49;
pub const EOR_ZERO_PAGE: u8 = 0x45;
pub const EOR_ZERO_PAGE_X: u8 = 0x55;
pub const EOR_ABSOLUTE: u8 = 0x4D;
pub const EOR_ABSOLUTE_X: u8 = 0x5D;
pub const EOR_ABSOLUTE_Y: u8 = 0x59;
pub const EOR_INDIRECT_X: u8 = 0x41;
pub const EOR_INDIRECT_Y: u8 = 0x51;
pub const BIT_ZERO_PAGE: u8 = 0x24;
pub const BIT_ABSOLUTE: u8 = 0x2C;
pub const LDA_IMMEDIATE: u8 = 0xA9;
pub const LDA_ZERO_PAGE: u8 = 0xA5;
pub const LDA_ZERO_PAGE_X: u8 = 0xB5;
pub const LDA_ABSOLUTE: u8 = 0xAD;
pub const LDA_ABSOLUTE_X: u8 = 0xBD;
pub const LDA_ABSOLUTE_Y: u8 = 0xB9;
pub const LDA_INDIRECT_X: u8 = 0xA1;
pub const LDA_INDIRECT_Y: u8 = 0xB1;
pub const LDX_IMMEDIATE: u8 = 0xA2;
pub const LDX_ZERO_PAGE: u8 = 0xA6;
pub const LDX_ZERO_PAGE_Y: u8 = 0xB6;
pub const LDX_ABSOLUTE: u8 = 0xAE;
pub const LDX_ABSOLUTE_Y: u8 = 0xBE;
pub const LDY_IMMEDIATE: u8 = 0xA0;
pub const LDY_ZERO_PAGE: u8 = 0xA4;
pub const LDY_ZERO_PAGE_X: u8 = 0xB4;
pub const LDY_ABSOLUTE: u8 = 0xAC;
pub const LDY_ABSOLUTE_X: u8 = 0xBC;
pub const STA_ZERO_PAGE: u8 = 0x85;
pub const STA_ZERO_PAGE_X: u8 = 0x95;
pub const STA_ABSOLUTE: u8 = 0x8D;
pub const STA_ABSOLUTE_X: u8 = 0x9D;
pub const STA_ABSOLUTE_Y: u8 = 0x99;
pub const STA_INDIRECT_X: u8 = 0x81;
pub const STA_INDIRECT_Y: u8 = 0x91;
pub const STX_ZERO_PAGE: u8 = 0x86;
pub const STX_ZERO_PAGE_Y: u8 = 0x96;
pub const STX_ABSOLUTE: u8 = 0x8E;
pub const STY_ZERO_PAGE: u8 = 0x84;
pub const STY_ZERO_PAGE_X: u8 = 0x94;
pub const STY_ABSOLUTE: u8 = 0x8C;
pub const CLC: u8 = 0x18;
pub const CLD: u8 = 0xD8;
pub const CLI: u8 = 0x58;
pub const CLV: u8 = 0xB8;
pub const SEC: u8 = 0x38;
pub const SED: u8 = 0xF8;
pub const SEI: u8 = 0x78;
pub const BCC: u8 = 0x90;
pub const BCS: u8 = 0xB0;
pub const BEQ: u8 = 0xF0;
pub const BMI: u8 = 0x30;
pub const BNE: u8 = 0xD0;
pub const BPL: u8 = 0x10;
pub const BVC: u8 = 0x50;
pub const BVS: u8 = 0x70;
pub const TAX: u8 = 0xAA;
pub const TAY: u8 = 0xA8;
pub const TXA: u8 = 0x8A;
pub const TYA: u8 = 0x98;
pub const TSX: u8 = 0xBA;
pub const TXS: u8 = 0x9A;
pub const INC_ZERO_PAGE: u8 = 0xE6;
pub const INC_ZERO_PAGE_X: u8 = 0xF6;
pub const INC_ABSOLUTE: u8 = 0xEE;
pub const INC_ABSOLUTE_X: u8 = 0xFE;
pub const INX: u8 = 0xE8;
pub const INY: u8 = 0xC8;
pub const DEC_ZERO_PAGE: u8 = 0xC6;
pub const DEC_ZERO_PAGE_X: u8 = 0xD6;
pub const DEC_ABSOLUTE: u8 = 0xCE;
pub const DEC_ABSOLUTE_X: u8 = 0xDE;
pub const DEX: u8 = 0xCA;
pub const DEY: u8 = 0x88;
pub const ASL_ACCUMULATOR: u8 = 0x0A;
pub const ASL_ZERO_PAGE: u8 = 0x06;
pub const ASL_ZERO_PAGE_X: u8 = 0x16;
pub const ASL_ABSOLUTE: u8 = 0x0E;
pub const ASL_ABSOLUTE_X: u8 = 0x1E;
pub const LSR_ACCUMULATOR: u8 = 0x4A;
pub const LSR_ZERO_PAGE: u8 = 0x46;
pub const LSR_ZERO_PAGE_X: u8 = 0x56;
pub const LSR_ABSOLUTE: u8 = 0x4E;
pub const LSR_ABSOLUTE_X: u8 = 0x5E;
pub const ROL_ACCUMULATOR: u8 = 0x2A;
pub const ROL_ZERO_PAGE: u8 = 0x26;
pub const ROL_ZERO_PAGE_X: u8 = 0x36;
pub const ROL_ABSOLUTE: u8 = 0x2E;
pub const ROL_ABSOLUTE_X: u8 = 0x3E;
pub const ROR_ACCUMULATOR: u8 = 0x6A;
pub const ROR_ZERO_PAGE: u8 = 0x66;
pub const ROR_ZERO_PAGE_X: u8 = 0x76;
pub const ROR_ABSOLUTE: u8 = 0x6E;
pub const ROR_ABSOLUTE_X: u8 = 0x7E;
pub const JMP_ABSOLUTE: u8 = 0x4C;
pub const JMP_INDIRECT: u8 = 0x6C;
pub const JSR_ABSOLUTE: u8 = 0x20;
pub const RTS: u8 = 0x60;
pub const NOP: u8 = 0xEA;
pub const PHA: u8 = 0x48;
pub const PHP: u8 = 0x08;
pub const PLA: u8 = 0x68;
pub const PLP: u8 = 0x28;
pub const RTI: u8 = 0x40;

/// A decoded instruction: the instruction it names, its opcode byte and its addressing mode.
///
/// See the [6502 reference](http://www.6502.org/tutorials/6502opcodes.html).
#[derive(Debug, Clone, Copy, PartialEq, Eq, Structural)]
pub enum Opcode {
    /// Add with Carry
    Adc(u8, AddressingMode),
    /// Subtract with Carry
    Sbc(u8, AddressingMode),
    /// Compare with Accumulator
    Cmp(u8, AddressingMode),
    /// Compare with X Register
    Cpx(u8, AddressingMode),
    /// Compare with Y Register
    Cpy(u8, AddressingMode),
    /// Bitwise And with accumulator
    And(u8, AddressingMode),
    /// Bitwise Or with accumulator
    Ora(u8, AddressingMode),
    /// Bitwise Exclusive Or with accumulator
    Eor(u8, AddressingMode),
    /// Bit Test
    Bit(u8, AddressingMode),
    /// Load Accumulator
    Lda(u8, AddressingMode),
    /// Load X Register
    Ldx(u8, AddressingMode),
    /// Load Y Register
    Ldy(u8, AddressingMode),
    /// Store Accumulator
    Sta(u8, AddressingMode),
    /// Store X Register
    Stx(u8, AddressingMode),
    /// Store Y Register
    Sty(u8, AddressingMode),
    /// Clear Carry Flag
    Clc(u8, AddressingMode),
    /// Clear Decimal Mode
    Cld(u8, AddressingMode),
    /// Clear Interrupt Disable
    Cli(u8, AddressingMode),
    /// Clear Overflow Flag
    Clv(u8, AddressingMode),
    /// Set Carry Flag
    Sec(u8, AddressingMode),
    /// Set Decimal Mode
    Sed(u8, AddressingMode),
    /// Set Interrupt Disable
    Sei(u8, AddressingMode),
    /// Branch on PLus
    Bpl(u8, AddressingMode),
    /// Branch on Minus
    Bmi(u8, AddressingMode),
    /// Branch on Overflow Clear
    Bvc(u8, AddressingMode),
    /// Branch on Overflow Set
    Bvs(u8, AddressingMode),
    /// Branch on Carry Clear
    Bcc(u8, AddressingMode),
    /// Branch on Carry Set
    Bcs(u8, AddressingMode),
    /// Branch on Not Equal
    Bne(u8, AddressingMode),
    /// Branch on Equal
    Beq(u8, AddressingMode),
    /// Transfer Accumulator to X
    Tax(u8, AddressingMode),
    /// Transfer Accumulator to Y
    Tay(u8, AddressingMode),
    /// Transfer X to Accumulator
    Txa(u8, AddressingMode),
    /// Transfer Y to Accumulator
    Tya(u8, AddressingMode),
    /// Transfer Stack Pointer to X
    Tsx(u8, AddressingMode),
    /// Transfer X to Stack Pointer
    Txs(u8, AddressingMode),
    /// Increment Memory
    Inc(u8, AddressingMode),
    /// Increment X Register
    Inx(u8, AddressingMode),
    /// Increment Y Register
    Iny(u8, AddressingMode),
    /// Decrement Memory
    Dec(u8, AddressingMode),
    /// Decrement X Register
    Dex(u8, AddressingMode),
    /// Decrement Y Register
    Dey(u8, AddressingMode),
    /// Arithmetic Shift Left
    Asl(u8, AddressingMode),
    /// Logical Shift Right
    Lsr(u8, AddressingMode),
    /// Rotate Left
    Rol(u8, AddressingMode),
    /// Rotate Right
    Ror(u8, AddressingMode),
    /// Jump to another location
    Jmp(u8, AddressingMode),
    /// Jump to Subroutine
    Jsr(u8, AddressingMode),
    /// Return from Subroutine
    Rts(u8, AddressingMode),
    /// Break - Force an Interrupt
    Brk(u8, AddressingMode),
    /// No Operation
    Nop(u8, AddressingMode),
    /// Push Accumulator on Stack
    Pha(u8, AddressingMode),
    /// Push processor status on Stack
    Php(u8, AddressingMode),
    /// Pull Accumulator from Stack
    Pla(u8, AddressingMode),
    /// Pull processor status from Stack
    Plp(u8, AddressingMode),
    /// Return from Interrupt
    Rti(u8, AddressingMode),
}

/// The opcode table: the instruction and addressing mode that each byte encodes,
/// or `None` for a byte that encodes no instruction.
pub open spec fn decode(value: u8) -> Option<Opcode> {
    match value {
        0x69 => Some(Opcode::Adc(value, AddressingMode::Immediate)),
        0x65 => Some(Opcode::Adc(value, AddressingMode::ZeroPage)),
        0x75 => Some(Opcode::Adc(value, AddressingMode::ZeroPageX)),
        0x6D => Some(Opcode::Adc(value, AddressingMode::Absolute)),
        0x7D => Some(Opcode::Adc(value, AddressingMode::AbsoluteX)),
        0x79 => Some(Opcode::Adc(value, AddressingMode::AbsoluteY)),
        0x61 => Some(Opcode::Adc(value, AddressingMode::IndirectX)),
        0x71 => Some(Opcode::Adc(value, AddressingMode::IndirectY)),
        0xE9 => Some(Opcode::Sbc(value, AddressingMode::Immediate)),
        0xE5 => Some(Opcode::Sbc(value, AddressingMode::ZeroPage)),
        0xF5 => Some(Opcode::Sbc(value, AddressingMode::ZeroPageX)),
        0xED => Some(Opcode::Sbc(value, AddressingMode::Absolute)),
        0xFD => Some(Opcode::Sbc(value, AddressingMode::AbsoluteX)),
        0xF9 => Some(Opcode::Sbc(value, AddressingMode::AbsoluteY)),
        0xE1 => Some(Opcode::Sbc(value, AddressingMode::IndirectX)),
        0xF1 => Some(Opcode::Sbc(value, AddressingMode::IndirectY)),
        0xC9 => Some(Opcode::Cmp(value, AddressingMode::Immediate)),
        0xC5 => Some(Opcode::Cmp(value, AddressingMode::ZeroPage)),
        0xD5 => Some(Opcode::Cmp(value, AddressingMode::ZeroPageX)),
        0xCD => Some(Opcode::Cmp(value, AddressingMode::Absolute)),
        0xDD => Some(Opcode::Cmp(value, AddressingMode::AbsoluteX)),
        0xD9 => Some(Opcode::Cmp(value, AddressingMode::AbsoluteY)),
        0xC1 => Some(Opcode::Cmp(value, AddressingMode::IndirectX)),
        0xD1 => Some(Opcode::Cmp(value, AddressingMode::IndirectY)),
        0xE0 => Some(Opcode::Cpx(value, AddressingMode::Immediate)),
        0xE4 => Some(Opcode::Cpx(value, AddressingMode::ZeroPage)),
        0xEC => Some(Opcode::Cpx(value, AddressingMode::Absolute)),
        0xC0 => Some(Opcode::Cpy(value, AddressingMode::Immediate)),
        0xC4 => Some(Opcode::Cpy(value, AddressingMode::ZeroPage)),
        0xCC => Some(Opcode::Cpy(value, AddressingMode::Absolute)),
        0x29 => Some(Opcode::And(value, AddressingMode::Immediate)),
        0x25 => Some(Opcode::And(value, AddressingMode::ZeroPage)),
        0x35 => Some(Opcode::And(value, AddressingMode::ZeroPageX)),
        0x2D => Some(Opcode::And(value, AddressingMode::Absolute)),
        0x3D => Some(Opcode::And(value, AddressingMode::AbsoluteX)),
        0x39 => Some(Opcode::And(value, AddressingMode::AbsoluteY)),
        0x21 => Some(Opcode::And(value, AddressingMode::IndirectX)),
        0x31 => Some(Opcode::And(value, AddressingMode::IndirectY)),
        0x09 => Some(Opcode::Ora(value, AddressingMode::Immediate)),
        0x05 => Some(Opcode::Ora(value, AddressingMode::ZeroPage)),
        0x15 => Some(Opcode::Ora(value, AddressingMode::ZeroPageX)),
        0x0D => Some(Opcode::Ora(value, AddressingMode::Absolute)),
        0x1D => Some(Opcode::Ora(value, AddressingMode::AbsoluteX)),
        0x19 => Some(Opcode::Ora(value, AddressingMode::AbsoluteY)),
        0x01 => Some(Opcode::Ora(value, AddressingMode::IndirectX)),
        0x11 => Some(Opcode::Ora(value, AddressingMode::IndirectY)),
        0x49 => Some(Opcode::Eor(value, AddressingMode::Immediate)),
        0x45 => Some(Opcode::Eor(value, AddressingMode::ZeroPage)),
        0x55 => Some(Opcode::Eor(value, AddressingMode::ZeroPageX)),
        0x4D => Some(Opcode::Eor(value, AddressingMode::Absolute)),
        0x5D => Some(Opcode::Eor(value, AddressingMode::AbsoluteX)),
        0x59 => Some(Opcode::Eor(value, AddressingMode::AbsoluteY)),
        0x41 => Some(Opcode::Eor(value, AddressingMode::IndirectX)),
        0x51 => Some(Opcode::Eor(value, AddressingMode::IndirectY)),
        0x24 => Some(Opcode::Bit(value, AddressingMode::ZeroPage)),
        0x2C => Some(Opcode::Bit(value, AddressingMode::Absolute)),
        0xA9 => Some(Opcode::Lda(value, AddressingMode::Immediate)),
        0xA5 => Some(Opcode::Lda(value, AddressingMode::ZeroPage)),
        0xB5 => Some(Opcode::Lda(value, AddressingMode::ZeroPageX)),
        0xAD => Some(Opcode::Lda(value, AddressingMode::Absolute)),
        0xBD => Some(Opcode::Lda(value, AddressingMode::AbsoluteX)),
        0xB9 => Some(Opcode::Lda(value, AddressingMode::AbsoluteY)),
        0xA1 => Some(Opcode::Lda(value, AddressingMode::IndirectX)),
        0xB1 => Some(Opcode::Lda(value, AddressingMode::IndirectY)),
        0xA2 => Some(Opcode::Ldx(value, AddressingMode::Immediate)),
        0xA6 => Some(Opcode::Ldx(value, AddressingMode::ZeroPage)),
        0xB6 => Some(Opcode::Ldx(value, AddressingMode::ZeroPageY)),
        0xAE => Some(Opcode::Ldx(value, AddressingMode::Absolute)),
        0xBE => Some(Opcode::Ldx(value, AddressingMode::AbsoluteY)),
        0xA0 => Some(Opcode::Ldy(value, AddressingMode::Immediate)),
        0xA4 => Some(Opcode::Ldy(value, AddressingMode::ZeroPage)),
        0xB4 => Some(Opcode::Ldy(value, AddressingMode::ZeroPageX)),
        0xAC => Some(Opcode::Ldy(value, AddressingMode::Absolute)),
        0xBC => Some(Opcode::Ldy(value, AddressingMode::AbsoluteX)),
        0x85 => Some(Opcode::Sta(value, AddressingMode::ZeroPage)),
        0x95 => Some(Opcode::Sta(value, AddressingMode::ZeroPageX)),
        0x8D => Some(Opcode::Sta(value, AddressingMode::Absolute)),
        0x9D => Some(Opcode::Sta(value, AddressingMode::AbsoluteX)),
        0x99 => Some(Opcode::Sta(value, AddressingMode::AbsoluteY)),
        0x81 => Some(Opcode::Sta(value, AddressingMode::IndirectX)),
        0x91 => Some(Opcode::Sta(value, AddressingMode::IndirectY)),
        0x86 => Some(Opcode::Stx(value, AddressingMode::ZeroPage)),
        0x96 => Some(Opcode::Stx(value, AddressingMode::ZeroPageY)),
        0x8E => Some(Opcode::Stx(value, AddressingMode::Absolute)),
        0x84 => Some(Opcode::Sty(value, AddressingMode::ZeroPage)),
        0x94 => Some(Opcode::Sty(value, AddressingMode::ZeroPageX)),
        0x8C => Some(Opcode::Sty(value, AddressingMode::Absolute)),
        0x18 => Some(Opcode::Clc(value, AddressingMode::Implicit)),
        0xD8 => Some(Opcode::Cld(value, AddressingMode::Implicit)),
        0x58 => Some(Opcode::Cli(value, AddressingMode::Implicit)),
        0xB8 => Some(Opcode::Clv(value, AddressingMode::Implicit)),
        0x38 => Some(Opcode::Sec(value, AddressingMode::Implicit)),
        0xF8 => Some(Opcode::Sed(value, AddressingMode::Implicit)),
        0x78 => Some(Opcode::Sei(value, AddressingMode::Implicit)),
        0x90 => Some(Opcode::Bcc(value, AddressingMode::Relative)),
        0xB0 => Some(Opcode::Bcs(value, AddressingMode::Relative)),
        0xF0 => Some(Opcode::Beq(value, AddressingMode::Relative)),
        0x30 => Some(Opcode::Bmi(value, AddressingMode::Relative)),
        0xD0 => Some(Opcode::Bne(value, AddressingMode::Relative)),
        0x10 => Some(Opcode::Bpl(value, AddressingMode::Relative)),
        0x50 => Some(Opcode::Bvc(value, AddressingMode::Relative)),
        0x70 => Some(Opcode::Bvs(value, AddressingMode::Relative)),
        0xAA => Some(Opcode::Tax(value, AddressingMode::Implicit)),
        0xA8 => Some(Opcode::Tay(value, AddressingMode::Implicit)),
        0x8A => Some(Opcode::Txa(value, AddressingMode::Implicit)),
        0x98 => Some(Opcode::Tya(value, AddressingMode::Implicit)),
        0xBA => Some(Opcode::Tsx(value, AddressingMode::Implicit)),
        0x9A => Some(Opcode::Txs(value, AddressingMode::Implicit)),
        0xE6 => Some(Opcode::Inc(value, AddressingMode::ZeroPage)),
        0xF6 => Some(Opcode::Inc(value, AddressingMode::ZeroPageX)),
        0xEE => Some(Opcode::Inc(value, AddressingMode::Absolute)),
        0xFE => Some(Opcode::Inc(value, AddressingMode::AbsoluteX)),
        0xE8 => Some(Opcode::Inx(value, AddressingMode::Implicit)),
        0xC8 => Some(Opcode::Iny(value, AddressingMode::Implicit)),
        0xC6 => Some(Opcode::Dec(value, AddressingMode::ZeroPage)),
        0xD6 => Some(Opcode::Dec(value, AddressingMode::ZeroPageX)),
        0xCE => Some(Opcode::Dec(value, AddressingMode::Absolute)),
        0xDE => Some(Opcode::Dec(value, AddressingMode::AbsoluteX)),
        0xCA => Some(Opcode::Dex(value, AddressingMode::Implicit)),
        0x88 => Some(Opcode::Dey(value, AddressingMode::Implicit)),
        0x0A => Some(Opcode::Asl(value, AddressingMode::Accumulator)),
        0x06 => Some(Opcode::Asl(value, AddressingMode::ZeroPage)),
        0x16 => Some(Opcode::Asl(value, AddressingMode::ZeroPageX)),
        0x0E => Some(Opcode::Asl(value, AddressingMode::Absolute)),
        0x1E => Some(Opcode::Asl(value, AddressingMode::AbsoluteX)),
        0x4A => Some(Opcode::Lsr(value, AddressingMode::Accumulator)),
        0x46 => Some(Opcode::Lsr(value, AddressingMode::ZeroPage)),
        0x56 => Some(Opcode::Lsr(value, AddressingMode::ZeroPageX)),
        0x4E => Some(Opcode::Lsr(value, AddressingMode::Absolute)),
        0x5E => Some(Opcode::Lsr(value, AddressingMode::AbsoluteX)),
        0x2A => Some(Opcode::Rol(value, AddressingMode::Accumulator)),
        0x26 => Some(Opcode::Rol(value, AddressingMode::ZeroPage)),
        0x36 => Some(Opcode::Rol(value, AddressingMode::ZeroPageX)),
        0x2E => Some(Opcode::Rol(value, AddressingMode::Absolute)),
        0x3E => Some(Opcode::Rol(value, AddressingMode::AbsoluteX)),
        0x6A => Some(Opcode::Ror(value, AddressingMode::Accumulator)),
        0x66 => Some(Opcode::Ror(value, AddressingMode::ZeroPage)),
        0x76 => Some(Opcode::Ror(value, AddressingMode::ZeroPageX)),
        0x6E => Some(Opcode::Ror(value, AddressingMode::Absolute)),
        0x7E => Some(Opcode::Ror(value, AddressingMode::AbsoluteX)),
        0x4C => Some(Opcode::Jmp(value, AddressingMode::Absolute)),
        0x6C => Some(Opcode::Jmp(value, AddressingMode::Indirect)),
        0x20 => Some(Opcode::Jsr(value, AddressingMode::Absolute)),
        0x60 => Some(Opcode::Rts(value, AddressingMode::Implicit)),
        0x48 => Some(Opcode::Pha(value, AddressingMode::Implicit)),
        0x08 => Some(Opcode::Php(value, AddressingMode::Implicit)),
        0x68 => Some(Opcode::Pla(value, AddressingMode::Implicit)),
        0x28 => Some(Opcode::Plp(value, AddressingMode::Implicit)),
        0x00 => Some(Opcode::Brk(value, AddressingMode::Implicit)),
        0x40 => Some(Opcode::Rti(value, AddressingMode::Implicit)),
        0xEA => Some(Opcode::Nop(value, AddressingMode::Implicit)),
        _ => None,
    }
}

impl Opcode {
    /// The addressing mode carried by the opcode.
    pub open spec fn mode(self) -> AddressingMode {
        match self {
            Opcode::Adc(_, m) => m,
            Opcode::Sbc(_, m) => m,
            Opcode::Cmp(_, m) => m,
            Opcode::Cpx(_, m) => m,
            Opcode::Cpy(_, m) => m,
            Opcode::And(_, m) => m,
            Opcode::Ora(_, m) => m,
            Opcode::Eor(_, m) => m,
            Opcode::Bit(_, m) => m,
            Opcode::Lda(_, m) => m,
            Opcode::Ldx(_, m) => m,
            Opcode::Ldy(_, m) => m,
            Opcode::Sta(_, m) => m,
            Opcode::Stx(_, m) => m,
            Opcode::Sty(_, m) => m,
            Opcode::Clc(_, m) => m,
            Opcode::Cld(_, m) => m,
            Opcode::Cli(_, m) => m,
            Opcode::Clv(_, m) => m,
            Opcode::Sec(_, m) => m,
            Opcode::Sed(_, m) => m,
            Opcode::Sei(_, m) => m,
            Opcode::Bpl(_, m) => m,
            Opcode::Bmi(_, m) => m,
            Opcode::Bvc(_, m) => m,
            Opcode::Bvs(_, m) => m,
            Opcode::Bcc(_, m) => m,
            Opcode::Bcs(_, m) => m,
            Opcode::Bne(_, m) => m,
            Opcode::Beq(_, m) => m,
            Opcode::Tax(_, m) => m,
            Opcode::Tay(_, m) => m,
            Opcode::Txa(_, m) => m,
            Opcode::Tya(_, m) => m,
            Opcode::Tsx(_, m) => m,
            Opcode::Txs(_, m) => m,
            Opcode::Inc(_, m) => m,
            Opcode::Inx(_, m) => m,
            Opcode::Iny(_, m) => m,
            Opcode::Dec(_, m) => m,
            Opcode::Dex(_, m) => m,
            Opcode::Dey(_, m) => m,
            Opcode::Asl(_, m) => m,
            Opcode::Lsr(_, m) => m,
            Opcode::Rol(_, m) => m,
            Opcode::Ror(_, m) => m,
            Opcode::Jmp(_, m) => m,
            Opcode::Jsr(_, m) => m,
            Opcode::Rts(_, m) => m,
            Opcode::Brk(_, m) => m,
            Opcode::Nop(_, m) => m,
            Opcode::Pha(_, m) => m,
            Opcode::Php(_, m) => m,
            Opcode::Pla(_, m) => m,
            Opcode::Plp(_, m) => m,
            Opcode::Rti(_, m) => m,
        }
    }

    /// The addressing mode carried by the opcode.
    pub fn addressing_mode(&self) -> (r: AddressingMode)
        ensures
            r == self.mode(),
    {
        match self {
            Opcode::Adc(_, m) => *m,
            Opcode::Sbc(_, m) => *m,
            Opcode::Cmp(_, m) => *m,
            Opcode::Cpx(_, m) => *m,
            Opcode::Cpy(_, m) => *m,
            Opcode::And(_, m) => *m,
            Opcode::Ora(_, m) => *m,
            Opcode::Eor(_, m) => *m,
            Opcode::Bit(_, m) => *m,
            Opcode::Lda(_, m) => *m,
            Opcode::Ldx(_, m) => *m,
            Opcode::Ldy(_, m) => *m,
            Opcode::Sta(_, m) => *m,
            Opcode::Stx(_, m) => *m,
            Opcode::Sty(_, m) => *m,
            Opcode::Clc(_, m) => *m,
            Opcode::Cld(_, m) => *m,
            Opcode::Cli(_, m) => *m,
            Opcode::Clv(_, m) => *m,
            Opcode::Sec(_, m) => *m,
            Opcode::Sed(_, m) => *m,
            Opcode::Sei(_, m) => *m,
            Opcode::Bpl(_, m) => *m,
            Opcode::Bmi(_, m) => *m,
            Opcode::Bvc(_, m) => *m,
            Opcode::Bvs(_, m) => *m,
            Opcode::Bcc(_, m) => *m,
            Opcode::Bcs(_, m) => *m,
            Opcode::Bne(_, m) => *m,
            Opcode::Beq(_, m) => *m,
            Opcode::Tax(_, m) => *m,
            Opcode::Tay(_, m) => *m,
            Opcode::Txa(_, m) => *m,
            Opcode::Tya(_, m) => *m,
            Opcode::Tsx(_, m) => *m,
            Opcode::Txs(_, m) => *m,
            Opcode::Inc(_, m) => *m,
            Opcode::Inx(_, m) => *m,
            Opcode::Iny(_, m) => *m,
            Opcode::Dec(_, m) => *m,
            Opcode::Dex(_, m) => *m,
            Opcode::Dey(_, m) => *m,
            Opcode::Asl(_, m) => *m,
            Opcode::Lsr(_, m) => *m,
            Opcode::Rol(_, m) => *m,
            Opcode::Ror(_, m) => *m,
            Opcode::Jmp(_, m) => *m,
            Opcode::Jsr(_, m) => *m,
            Opcode::Rts(_, m) => *m,
            Opcode::Brk(_, m) => *m,
            Opcode::Nop(_, m) => *m,
            Opcode::Pha(_, m) => *m,
            Opcode::Php(_, m) => *m,
            Opcode::Pla(_, m) => *m,
            Opcode::Plp(_, m) => *m,
            Opcode::Rti(_, m) => *m,
        }
    }

    /// The three-letter mnemonic of the instruction.
    pub open spec fn name(self) -> Seq<char> {
        match self {
            Opcode::Adc(_, _) => "ADC"@,
            Opcode::Sbc(_, _) => "SBC"@,
            Opcode::Cmp(_, _) => "CMP"@,
            Opcode::Cpx(_, _) => "CPX"@,
            Opcode::Cpy(_, _) => "CPY"@,
            Opcode::And(_, _) => "AND"@,
            Opcode::Ora(_, _) => "ORA"@,
            Opcode::Eor(_, _) => "EOR"@,
            Opcode::Bit(_, _) => "BIT"@,
            Opcode::Lda(_, _) => "LDA"@,
            Opcode::Ldx(_, _) => "LDX"@,
            Opcode::Ldy(_, _) => "LDY"@,
            Opcode::Sta(_, _) => "STA"@,
            Opcode::Stx(_, _) => "STX"@,
            Opcode::Sty(_, _) => "STY"@,
            Opcode::Clc(_, _) => "CLC"@,
            Opcode::Cld(_, _) => "CLD"@,
            Opcode::Cli(_, _) => "CLI"@,
            Opcode::Clv(_, _) => "CLV"@,
            Opcode::Sec(_, _) => "SEC"@,
            Opcode::Sed(_, _) => "SED"@,
            Opcode::Sei(_, _) => "SEI"@,
            Opcode::Bpl(_, _) => "BPL"@,
            Opcode::Bmi(_, _) => "BMI"@,
            Opcode::Bvc(_, _) => "BVC"@,
            Opcode::Bvs(_, _) => "BVS"@,
            Opcode::Bcc(_, _) => "BCC"@,
            Opcode::Bcs(_, _) => "BCS"@,
            Opcode::Bne(_, _) => "BNE"@,
            Opcode::Beq(_, _) => "BEQ"@,
            Opcode::Tax(_, _) => "TAX"@,
            Opcode::Tay(_, _) => "TAY"@,
            Opcode::Txa(_, _) => "TXA"@,
            Opcode::Tya(_, _) => "TYA"@,
            Opcode::Tsx(_, _) => "TSX"@,
            Opcode::Txs(_, _) => "TXS"@,
            Opcode::Inc(_, _) => "INC"@,
            Opcode::Inx(_, _) => "INX"@,
            Opcode::Iny(_, _) => "INY"@,
            Opcode::Dec(_, _) => "DEC"@,
            Opcode::Dex(_, _) => "DEX"@,
            Opcode::Dey(_, _) => "DEY"@,
            Opcode::Asl(_, _) => "ASL"@,
            Opcode::Lsr(_, _) => "LSR"@,
            Opcode::Rol(_, _) => "ROL"@,
            Opcode::Ror(_, _) => "ROR"@,
            Opcode::Jmp(_, _) => "JMP"@,
            Opcode::Jsr(_, _) => "JSR"@,
            Opcode::Rts(_, _) => "RTS"@,
            Opcode::Brk(_, _) => "BRK"@,
            Opcode::Nop(_, _) => "NOP"@,
            Opcode::Pha(_, _) => "PHA"@,
            Opcode::Php(_, _) => "PHP"@,
            Opcode::Pla(_, _) => "PLA"@,
            Opcode::Plp(_, _) => "PLP"@,
            Opcode::Rti(_, _) => "RTI"@,
        }
    }

    /// The three-letter mnemonic of the instruction.
    pub fn mnemonic(&self) -> (r: &'static str)
        ensures
            r@ == self.name(),
    {
        match self {
            Opcode::Adc(_, _) => "ADC",
            Opcode::Sbc(_, _) => "SBC",
            Opcode::Cmp(_, _) => "CMP",
            Opcode::Cpx(_, _) => "CPX",
            Opcode::Cpy(_, _) => "CPY",
            Opcode::And(_, _) => "AND",
            Opcode::Ora(_, _) => "ORA",
            Opcode::Eor(_, _) => "EOR",
            Opcode::Bit(_, _) => "BIT",
            Opcode::Lda(_, _) => "LDA",
            Opcode::Ldx(_, _) => "LDX",
            Opcode::Ldy(_, _) => "LDY",
            Opcode::Sta(_, _) => "STA",
            Opcode::Stx(_, _) => "STX",
            Opcode::Sty(_, _) => "STY",
            Opcode::Clc(_, _) => "CLC",
            Opcode::Cld(_, _) => "CLD",
            Opcode::Cli(_, _) => "CLI",
            Opcode::Clv(_, _) => "CLV",
            Opcode::Sec(_, _) => "SEC",
            Opcode::Sed(_, _) => "SED",
            Opcode::Sei(_, _) => "SEI",
            Opcode::Bpl(_, _) => "BPL",
            Opcode::Bmi(_, _) => "BMI",
            Opcode::Bvc(_, _) => "BVC",
            Opcode::Bvs(_, _) => "BVS",
            Opcode::Bcc(_, _) => "BCC",
            Opcode::Bcs(_, _) => "BCS",
            Opcode::Bne(_, _) => "BNE",
            Opcode::Beq(_, _) => "BEQ",
            Opcode::Tax(_, _) => "TAX",
            Opcode::Tay(_, _) => "TAY",
            Opcode::Txa(_, _) => "TXA",
            Opcode::Tya(_, _) => "TYA",
            Opcode::Tsx(_, _) => "TSX",
            Opcode::Txs(_, _) => "TXS",
            Opcode::Inc(_, _) => "INC",
            Opcode::Inx(_, _) => "INX",
            Opcode::Iny(_, _) => "INY",
            Opcode::Dec(_, _) => "DEC",
            Opcode::Dex(_, _) => "DEX",
            Opcode::Dey(_, _) => "DEY",
            Opcode::Asl(_, _) => "ASL",
            Opcode::Lsr(_, _) => "LSR",
            Opcode::Rol(_, _) => "ROL",
            Opcode::Ror(_, _) => "ROR",
            Opcode::Jmp(_, _) => "JMP",
            Opcode::Jsr(_, _) => "JSR",
            Opcode::Rts(_, _) => "RTS",
            Opcode::Brk(_, _) => "BRK",
            Opcode::Nop(_, _) => "NOP",
            Opcode::Pha(_, _) => "PHA",
            Opcode::Php(_, _) => "PHP",
            Opcode::Pla(_, _) => "PLA",
            Opcode::Plp(_, _) => "PLP",
            Opcode::Rti(_, _) => "RTI",
        }
    }

    /// Decodes an opcode byte.
    pub fn from_u8(value: u8) -> (r: Option<Self>)
        ensures
            r == decode(value),
            r matches Some(o) ==> o.resolvable(),
    {
        match value {
            ADC_IMMEDIATE => Some(Opcode::Adc(value, AddressingMode::Immediate)),
            ADC_ZERO_PAGE => Some(Opcode::Adc(value, AddressingMode::ZeroPage)),
            ADC_ZERO_PAGE_X => Some(Opcode::Adc(value, AddressingMode::ZeroPageX)),
            ADC_ABSOLUTE => Some(Opcode::Adc(value, AddressingMode::Absolute)),
            ADC_ABSOLUTE_X => Some(Opcode::Adc(value, AddressingMode::AbsoluteX)),
            ADC_ABSOLUTE_Y => Some(Opcode::Adc(value, AddressingMode::AbsoluteY)),
            ADC_INDIRECT_X => Some(Opcode::Adc(value, AddressingMode::IndirectX)),
            ADC_INDIRECT_Y => Some(Opcode::Adc(value, AddressingMode::IndirectY)),
            SBC_IMMEDIATE => Some(Opcode::Sbc(value, AddressingMode::Immediate)),
            SBC_ZERO_PAGE => Some(Opcode::Sbc(value, AddressingMode::ZeroPage)),
            SBC_ZERO_PAGE_X => Some(Opcode::Sbc(value, AddressingMode::ZeroPageX)),
            SBC_ABSOLUTE => Some(Opcode::Sbc(value, AddressingMode::Absolute)),
            SBC_ABSOLUTE_X => Some(Opcode::Sbc(value, AddressingMode::AbsoluteX)),
            SBC_ABSOLUTE_Y => Some(Opcode::Sbc(value, AddressingMode::AbsoluteY)),
            SBC_INDIRECT_X => Some(Opcode::Sbc(value, AddressingMode::IndirectX)),
            SBC_INDIRECT_Y => Some(Opcode::Sbc(value, AddressingMode::IndirectY)),
            CMP_IMMEDIATE => Some(Opcode::Cmp(value, AddressingMode::Immediate)),
            CMP_ZERO_PAGE => Some(Opcode::Cmp(value, AddressingMode::ZeroPage)),
            CMP_ZERO_PAGE_X => Some(Opcode::Cmp(value, AddressingMode::ZeroPageX)),
            CMP_ABSOLUTE => Some(Opcode::Cmp(value, AddressingMode::Absolute)),
            CMP_ABSOLUTE_X => Some(Opcode::Cmp(value, AddressingMode::AbsoluteX)),
            CMP_ABSOLUTE_Y => Some(Opcode::Cmp(value, AddressingMode::AbsoluteY)),
            CMP_INDIRECT_X => Some(Opcode::Cmp(value, AddressingMode::IndirectX)),
            CMP_INDIRECT_Y => Some(Opcode::Cmp(value, AddressingMode::IndirectY)),
            CPX_IMMEDIATE => Some(Opcode::Cpx(value, AddressingMode::Immediate)),
            CPX_ZERO_PAGE => Some(Opcode::Cpx(value, AddressingMode::ZeroPage)),
            CPX_ABSOLUTE => Some(Opcode::Cpx(value, AddressingMode::Absolute)),
            CPY_IMMEDIATE => Some(Opcode::Cpy(value, AddressingMode::Immediate)),
            CPY_ZERO_PAGE => Some(Opcode::Cpy(value, AddressingMode::ZeroPage)),
            CPY_ABSOLUTE => Some(Opcode::Cpy(value, AddressingMode::Absolute)),
            AND_IMMEDIATE => Some(Opcode::And(value, AddressingMode::Immediate)),
            AND_ZERO_PAGE => Some(Opcode::And(value, AddressingMode::ZeroPage)),
            AND_ZERO_PAGE_X => Some(Opcode::And(value, AddressingMode::ZeroPageX)),
            AND_ABSOLUTE => Some(Opcode::And(value, AddressingMode::Absolute)),
            AND_ABSOLUTE_X => Some(Opcode::And(value, AddressingMode::AbsoluteX)),
            AND_ABSOLUTE_Y => Some(Opcode::And(value, AddressingMode::AbsoluteY)),
            AND_INDIRECT_X => Some(Opcode::And(value, AddressingMode::IndirectX)),
            AND_INDIRECT_Y => Some(Opcode::And(value, AddressingMode::IndirectY)),
            ORA_IMMEDIATE => Some(Opcode::Ora(value, AddressingMode::Immediate)),
            ORA_ZERO_PAGE => Some(Opcode::Ora(value, AddressingMode::ZeroPage)),
            ORA_ZERO_PAGE_X => Some(Opcode::Ora(value, AddressingMode::ZeroPageX)),
            ORA_ABSOLUTE => Some(Opcode::Ora(value, AddressingMode::Absolute)),
            ORA_ABSOLUTE_X => Some(Opcode::Ora(value, AddressingMode::AbsoluteX)),
            ORA_ABSOLUTE_Y => Some(Opcode::Ora(value, AddressingMode::AbsoluteY)),
            ORA_INDIRECT_X => Some(Opcode::Ora(value, AddressingMode::IndirectX)),
            ORA_INDIRECT_Y => Some(Opcode::Ora(value, AddressingMode::IndirectY)),
            EOR_IMMEDIATE => Some(Opcode::Eor(value, AddressingMode::Immediate)),
            EOR_ZERO_PAGE => Some(Opcode::Eor(value, AddressingMode::ZeroPage)),
            EOR_ZERO_PAGE_X => Some(Opcode::Eor(value, AddressingMode::ZeroPageX)),
            EOR_ABSOLUTE => Some(Opcode::Eor(value, AddressingMode::Absolute)),
            EOR_ABSOLUTE_X => Some(Opcode::Eor(value, AddressingMode::AbsoluteX)),
            EOR_ABSOLUTE_Y => Some(Opcode::Eor(value, AddressingMode::AbsoluteY)),
            EOR_INDIRECT_X => Some(Opcode::Eor(value, AddressingMode::IndirectX)),
            EOR_INDIRECT_Y => Some(Opcode::Eor(value, AddressingMode::IndirectY)),
            BIT_ZERO_PAGE => Some(Opcode::Bit(value, AddressingMode::ZeroPage)),
            BIT_ABSOLUTE => Some(Opcode::Bit(value, AddressingMode::Absolute)),
            LDA_IMMEDIATE => Some(Opcode::Lda(value, AddressingMode::Immediate)),
            LDA_ZERO_PAGE => Some(Opcode::Lda(value, AddressingMode::ZeroPage)),
            LDA_ZERO_PAGE_X => Some(Opcode::Lda(value, AddressingMode::ZeroPageX)),
            LDA_ABSOLUTE => Some(Opcode::Lda(value, AddressingMode::Absolute)),
            LDA_ABSOLUTE_X => Some(Opcode::Lda(value, AddressingMode::AbsoluteX)),
            LDA_ABSOLUTE_Y => Some(Opcode::Lda(value, AddressingMode::AbsoluteY)),
            LDA_INDIRECT_X => Some(Opcode::Lda(value, AddressingMode::IndirectX)),
            LDA_INDIRECT_Y => Some(Opcode::Lda(value, AddressingMode::IndirectY)),
            LDX_IMMEDIATE => Some(Opcode::Ldx(value, AddressingMode::Immediate)),
            LDX_ZERO_PAGE => Some(Opcode::Ldx(value, AddressingMode::ZeroPage)),
            LDX_ZERO_PAGE_Y => Some(Opcode::Ldx(value, AddressingMode::ZeroPageY)),
            LDX_ABSOLUTE => Some(Opcode::Ldx(value, AddressingMode::Absolute)),
            LDX_ABSOLUTE_Y => Some(Opcode::Ldx(value, AddressingMode::AbsoluteY)),
            LDY_IMMEDIATE => Some(Opcode::Ldy(value, AddressingMode::Immediate)),
            LDY_ZERO_PAGE => Some(Opcode::Ldy(value, AddressingMode::ZeroPage)),
            LDY_ZERO_PAGE_X => Some(Opcode::Ldy(value, AddressingMode::ZeroPageX)),
            LDY_ABSOLUTE => Some(Opcode::Ldy(value, AddressingMode::Absolute)),
            LDY_ABSOLUTE_X => Some(Opcode::Ldy(value, AddressingMode::AbsoluteX)),
            STA_ZERO_PAGE => Some(Opcode::Sta(value, AddressingMode::ZeroPage)),
            STA_ZERO_PAGE_X => Some(Opcode::Sta(value, AddressingMode::ZeroPageX)),
            STA_ABSOLUTE => Some(Opcode::Sta(value, AddressingMode::Absolute)),
            STA_ABSOLUTE_X => Some(Opcode::Sta(value, AddressingMode::AbsoluteX)),
            STA_ABSOLUTE_Y => Some(Opcode::Sta(value, AddressingMode::AbsoluteY)),
            STA_INDIRECT_X => Some(Opcode::Sta(value, AddressingMode::IndirectX)),
            STA_INDIRECT_Y => Some(Opcode::Sta(value, AddressingMode::IndirectY)),
            STX_ZERO_PAGE => Some(Opcode::Stx(value, AddressingMode::ZeroPage)),
            STX_ZERO_PAGE_Y => Some(Opcode::Stx(value, AddressingMode::ZeroPageY)),
            STX_ABSOLUTE => Some(Opcode::Stx(value, AddressingMode::Absolute)),
            STY_ZERO_PAGE => Some(Opcode::Sty(value, AddressingMode::ZeroPage)),
            STY_ZERO_PAGE_X => Some(Opcode::Sty(value, AddressingMode::ZeroPageX)),
            STY_ABSOLUTE => Some(Opcode::Sty(value, AddressingMode::Absolute)),
            CLC => Some(Opcode::Clc(value, AddressingMode::Implicit)),
            CLD => Some(Opcode::Cld(value, AddressingMode::Implicit)),
            CLI => Some(Opcode::Cli(value, AddressingMode::Implicit)),
            CLV => Some(Opcode::Clv(value, AddressingMode::Implicit)),
            SEC => Some(Opcode::Sec(value, AddressingMode::Implicit)),
            SED => Some(Opcode::Sed(value, AddressingMode::Implicit)),
            SEI => Some(Opcode::Sei(value, AddressingMode::Implicit)),
            BCC => Some(Opcode::Bcc(value, AddressingMode::Relative)),
            BCS => Some(Opcode::Bcs(value, AddressingMode::Relative)),
            BEQ => Some(Opcode::Beq(value, AddressingMode::Relative)),
            BMI => Some(Opcode::Bmi(value, AddressingMode::Relative)),
            BNE => Some(Opcode::Bne(value, AddressingMode::Relative)),
            BPL => Some(Opcode::Bpl(value, AddressingMode::Relative)),
            BVC => Some(Opcode::Bvc(value, AddressingMode::Relative)),
            BVS => Some(Opcode::Bvs(value, AddressingMode::Relative)),
            TAX => Some(Opcode::Tax(value, AddressingMode::Implicit)),
            TAY => Some(Opcode::Tay(value, AddressingMode::Implicit)),
            TXA => Some(Opcode::Txa(value, AddressingMode::Implicit)),
            TYA => Some(Opcode::Tya(value, AddressingMode::Implicit)),
            TSX => Some(Opcode::Tsx(value, AddressingMode::Implicit)),
            TXS => Some(Opcode::Txs(value, AddressingMode::Implicit)),
            INC_ZERO_PAGE => Some(Opcode::Inc(value, AddressingMode::ZeroPage)),
            INC_ZERO_PAGE_X => Some(Opcode::Inc(value, AddressingMode::ZeroPageX)),
            INC_ABSOLUTE => Some(Opcode::Inc(value, AddressingMode::Absolute)),
            INC_ABSOLUTE_X => Some(Opcode::Inc(value, AddressingMode::AbsoluteX)),
            INX => Some(Opcode::Inx(value, AddressingMode::Implicit)),
            INY => Some(Opcode::Iny(value, AddressingMode::Implicit)),
            DEC_ZERO_PAGE => Some(Opcode::Dec(value, AddressingMode::ZeroPage)),
            DEC_ZERO_PAGE_X => Some(Opcode::Dec(value, AddressingMode::ZeroPageX)),
            DEC_ABSOLUTE => Some(Opcode::Dec(value, AddressingMode::Absolute)),
            DEC_ABSOLUTE_X => Some(Opcode::Dec(value, AddressingMode::AbsoluteX)),
            DEX => Some(Opcode::Dex(value, AddressingMode::Implicit)),
            DEY => Some(Opcode::Dey(value, AddressingMode::Implicit)),
            ASL_ACCUMULATOR => Some(Opcode::Asl(value, AddressingMode::Accumulator)),
            ASL_ZERO_PAGE => Some(Opcode::Asl(value, AddressingMode::ZeroPage)),
            ASL_ZERO_PAGE_X => Some(Opcode::Asl(value, AddressingMode::ZeroPageX)),
            ASL_ABSOLUTE => Some(Opcode::Asl(value, AddressingMode::Absolute)),
            ASL_ABSOLUTE_X => Some(Opcode::Asl(value, AddressingMode::AbsoluteX)),
            LSR_ACCUMULATOR => Some(Opcode::Lsr(value, AddressingMode::Accumulator)),
            LSR_ZERO_PAGE => Some(Opcode::Lsr(value, AddressingMode::ZeroPage)),
            LSR_ZERO_PAGE_X => Some(Opcode::Lsr(value, AddressingMode::ZeroPageX)),
            LSR_ABSOLUTE => Some(Opcode::Lsr(value, AddressingMode::Absolute)),
            LSR_ABSOLUTE_X => Some(Opcode::Lsr(value, AddressingMode::AbsoluteX)),
            ROL_ACCUMULATOR => Some(Opcode::Rol(value, AddressingMode::Accumulator)),
            ROL_ZERO_PAGE => Some(Opcode::Rol(value, AddressingMode::ZeroPage)),
            ROL_ZERO_PAGE_X => Some(Opcode::Rol(value, AddressingMode::ZeroPageX)),
            ROL_ABSOLUTE => Some(Opcode::Rol(value, AddressingMode::Absolute)),
            ROL_ABSOLUTE_X => Some(Opcode::Rol(value, AddressingMode::AbsoluteX)),
            ROR_ACCUMULATOR => Some(Opcode::Ror(value, AddressingMode::Accumulator)),
            ROR_ZERO_PAGE => Some(Opcode::Ror(value, AddressingMode::ZeroPage)),
            ROR_ZERO_PAGE_X => Some(Opcode::Ror(value, AddressingMode::ZeroPageX)),
            ROR_ABSOLUTE => Some(Opcode::Ror(value, AddressingMode::Absolute)),
            ROR_ABSOLUTE_X => Some(Opcode::Ror(value, AddressingMode::AbsoluteX)),
            JMP_ABSOLUTE => Some(Opcode::Jmp(value, AddressingMode::Absolute)),
            JMP_INDIRECT => Some(Opcode::Jmp(value, AddressingMode::Indirect)),
            JSR_ABSOLUTE => Some(Opcode::Jsr(value, AddressingMode::Absolute)),
            RTS => Some(Opcode::Rts(value, AddressingMode::Implicit)),
            PHA => Some(Opcode::Pha(value, AddressingMode::Implicit)),
            PHP => Some(Opcode::Php(value, AddressingMode::Implicit)),
            PLA => Some(Opcode::Pla(value, AddressingMode::Implicit)),
            PLP => Some(Opcode::Plp(value, AddressingMode::Implicit)),
            BRK => Some(Opcode::Brk(value, AddressingMode::Implicit)),
            RTI => Some(Opcode::Rti(value, AddressingMode::Implicit)),
            NOP => Some(Opcode::Nop(value, AddressingMode::Implicit)),
            _ => None,
        }
    }

    /// Whether each addressing mode the instruction resolves designates a location:
    /// shifts may also work on the accumulator, and the implied instructions resolve none.
    pub open spec fn resolvable(self) -> bool {
        match self {
            Opcode::Asl(_, m) | Opcode::Lsr(_, m) | Opcode::Rol(_, m) | Opcode::Ror(_, m) => !(
            m is Implicit),
            Opcode::Inx(_, _) | Opcode::Iny(_, _) | Opcode::Dex(_, _) | Opcode::Dey(_, _)
            | Opcode::Tax(_, _) | Opcode::Tay(_, _) | Opcode::Txa(_, _) | Opcode::Tya(_, _)
            | Opcode::Tsx(_, _) | Opcode::Txs(_, _) | Opcode::Clc(_, _) | Opcode::Cld(_, _)
            | Opcode::Cli(_, _) | Opcode::Clv(_, _) | Opcode::Sec(_, _) | Opcode::Sed(_, _)
            | Opcode::Sei(_, _) | Opcode::Pha(_, _) | Opcode::Php(_, _) | Opcode::Pla(_, _)
            | Opcode::Plp(_, _) | Opcode::Rts(_, _) | Opcode::Rti(_, _) | Opcode::Brk(_, _)
            | Opcode::Nop(_, _) => true,
            _ => self.mode().has_address(),
        }
    }

    /// Whether the instruction sets the program counter itself (JMP and JSR).
    pub open spec fn is_jump(self) -> bool {
        self is Jmp || self is Jsr
    }

    /// Whether the instruction sets the program counter itself (JMP and JSR).
    pub fn is_jump_instruction(&self) -> (r: bool)
        ensures
            r == self.is_jump(),
    {
        match self {
            Opcode::Jmp(_, _) | Opcode::Jsr(_, _) => true,
            _ => false,
        }
    }
}

/// Whether `mnemonic` names an instruction of the opcode table.
pub open spec fn names_instruction(mnemonic: Seq<char>) -> bool {
    exists|b: u8| #[trigger] decode(b) matches Some(o) && o.name() == mnemonic
}

/// Whether the byte `b` encodes the instruction `mnemonic` in `mode`.
#[verifier::opaque]
pub open spec fn encodes(b: u8, mnemonic: Seq<char>, mode: AddressingMode) -> bool {
    decode(b) matches Some(o) && o.name() == mnemonic && o.mode() == mode
}

/// The first byte, from `from` on, that encodes `mnemonic` in `mode`.
pub open spec fn first_encoding(mnemonic: Seq<char>, mode: AddressingMode, from: int) -> Option<u8>
    decreases 0x100 - from,
{
    if from < 0 || from >= 0x100 {
        None
    } else if encodes(from as u8, mnemonic, mode) {
        Some(from as u8)
    } else {
        first_encoding(mnemonic, mode, from + 1)
    }
}

/// The opcode of `mnemonic` in `mode`: the first byte that the opcode table decodes to
/// that instruction and mode.
pub open spec fn opcode_for(mnemonic: Seq<char>, mode: AddressingMode) -> Option<u8> {
    first_encoding(mnemonic, mode, 0)
}

proof fn lemma_first_encoding(mnemonic: Seq<char>, mode: AddressingMode, from: int)
    requires
        0 <= from <= 0x100,
    ensures
        first_encoding(mnemonic, mode, from) matches Some(b) ==> encodes(b, mnemonic, mode),
        first_encoding(mnemonic, mode, from) is None ==> forall|b: u8|
            from <= b ==> !#[trigger] encodes(b, mnemonic, mode),
    decreases 0x100 - from,
{
    if from < 0x100 {
        lemma_first_encoding(mnemonic, mode, from + 1);
    }
}

/// The opcode byte of the instruction `mnemonic` in `mode`: the byte that the opcode table
/// decodes to that instruction and mode.
pub fn translate_instruction_to_opcode(mnemonic: &str, addressing_mode: AddressingMode) -> (r:
    Result<u8, InstructionError>)
    ensures
        match opcode_for(mnemonic@, addressing_mode) {
            Some(b) => r == Ok::<u8, InstructionError>(b) && encodes(b, mnemonic@, addressing_mode),
            None => (forall|b: u8| !#[trigger] encodes(b, mnemonic@, addressing_mode)) && (
            r matches Err(InstructionError::InvalidIMnemonicAndAddressingModePair(m, a)) && m@
                == mnemonic@ && a@ == addressing_mode.name()),
        },
{
    proof {
        lemma_first_encoding(mnemonic@, addressing_mode, 0);
    }
    let mut value: u16 = 0;
    while value < 0x100
        invariant
            value <= 0x100,
            opcode_for(mnemonic@, addressing_mode) == first_encoding(
                mnemonic@,
                addressing_mode,
                value as int,
            ),
        decreases 0x100 - value,
    {
        proof {
            reveal(encodes);
        }
        if let Some(o) = Opcode::from_u8(value as u8) {
            if o.addressing_mode() == addressing_mode && same_text(o.mnemonic(), mnemonic) {
                return Ok(value as u8);
            }
        }
        value = value + 1;
    }
    Err(
        InstructionError::InvalidIMnemonicAndAddressingModePair(
            mnemonic.to_owned(),
            addressing_mode.mode_name().to_owned(),
        ),
    )
}

/// Whether `mnemonic` names an instruction of the opcode table.
pub fn is_valid_mnemonic(mnemonic: &str) -> (r: bool)
    ensures
        r == names_instruction(mnemonic@),
{
    let mut value: u16 = 0;
    while value < 0x100
        invariant
            value <= 0x100,
            forall|b: u8|
                (b as u16) < value ==> !(#[trigger] decode(b) matches Some(o) && o.name()
                    == mnemonic@),
        decreases 0x100 - value,
    {
        if let Some(o) = Opcode::from_u8(value as u8) {
            if same_text(o.mnemonic(), mnemonic) {
                assert(decode(value as u8) matches Some(o) && o.name() == mnemonic@);
                return true;
            }
        }
        value = value + 1;
    }
    false
}

/// The addressing modes in which `mnemonic` can be assembled, in the order in which
/// operand text is tried against them.
pub open spec fn modes_of(mnemonic: Seq<char>) -> Option<Seq<AddressingMode>> {
    if mnemonic == "ADC"@ || mnemonic == "SBC"@ || mnemonic == "CMP"@ || mnemonic == "AND"@
        || mnemonic == "EOR"@ || mnemonic == "ORA"@ || mnemonic == "LDA"@
    {
        Some(
            seq![
                AddressingMode::Immediate,
                AddressingMode::ZeroPage,
                AddressingMode::ZeroPageX,
                AddressingMode::Absolute,
                AddressingMode::AbsoluteX,
                AddressingMode::AbsoluteY,
                AddressingMode::IndirectX,
                AddressingMode::IndirectY,
            ],
        )
    } else if mnemonic == "ASL"@ || mnemonic == "LSR"@ || mnemonic == "ROL"@
        || mnemonic == "ROR"@
    {
        Some(
            seq![
                AddressingMode::Accumulator,
                AddressingMode::ZeroPage,
                AddressingMode::ZeroPageX,
                AddressingMode::Absolute,
                AddressingMode::AbsoluteX,
            ],
        )
    } else if mnemonic == "BCC"@ || mnemonic == "BCS"@ || mnemonic == "BEQ"@
        || mnemonic == "BMI"@ || mnemonic == "BNE"@ || mnemonic == "BPL"@ || mnemonic == "BVC"@
        || mnemonic == "BVS"@
    {
        Some(seq![AddressingMode::Relative])
    } else if mnemonic == "BIT"@ {
        Some(seq![AddressingMode::ZeroPage, AddressingMode::Absolute])
    } else if mnemonic == "BRK"@ || mnemonic == "CLC"@ || mnemonic == "CLD"@
        || mnemonic == "CLI"@ || mnemonic == "CLV"@ || mnemonic == "DEX"@ || mnemonic == "DEY"@
        || mnemonic == "INX"@ || mnemonic == "INY"@ || mnemonic == "NOP"@ || mnemonic == "PHA"@
        || mnemonic == "PHP"@ || mnemonic == "PLA"@ || mnemonic == "PLP"@ || mnemonic == "RTI"@
        || mnemonic == "RTS"@ || mnemonic == "SEC"@ || mnemonic == "SED"@ || mnemonic == "SEI"@
        || mnemonic == "TAX"@ || mnemonic == "TAY"@ || mnemonic == "TSX"@ || mnemonic == "TXA"@
        || mnemonic == "TXS"@ || mnemonic == "TYA"@
    {
        Some(seq![AddressingMode::Implicit])
    } else if (mnemonic == "CPX"@ || mnemonic == "CPY"@) {
        Some(seq![AddressingMode::Immediate, AddressingMode::ZeroPage, AddressingMode::Absolute])
    } else if (mnemonic == "DEC"@ || mnemonic == "INC"@) {
        Some(
            seq![
                AddressingMode::ZeroPage,
                AddressingMode::ZeroPageX,
                AddressingMode::Absolute,
                AddressingMode::AbsoluteX,
            ],
        )
    } else if mnemonic == "JMP"@ {
        Some(seq![AddressingMode::Absolute, AddressingMode::Indirect])
    } else if mnemonic == "JSR"@ {
        Some(seq![AddressingMode::Absolute])
    } else if mnemonic == "LDX"@ {
        Some(
            seq![
                AddressingMode::Immediate,
                AddressingMode::ZeroPage,
                AddressingMode::ZeroPageY,
                AddressingMode::Absolute,
                AddressingMode::AbsoluteY,
            ],
        )
    } else if mnemonic == "LDY"@ {
        Some(
            seq![
                AddressingMode::Immediate,
                AddressingMode::ZeroPage,
                AddressingMode::ZeroPageX,
                AddressingMode::Absolute,
                AddressingMode::AbsoluteX,
            ],
        )
    } else if mnemonic == "STA"@ {
        Some(
            seq![
                AddressingMode::ZeroPage,
                AddressingMode::ZeroPageX,
                AddressingMode::Absolute,
                AddressingMode::AbsoluteX,
                AddressingMode::AbsoluteY,
                AddressingMode::IndirectX,
                AddressingMode::IndirectY,
            ],
        )
    } else if mnemonic == "STX"@ {
        Some(
            seq![
                AddressingMode::ZeroPage,
                AddressingMode::ZeroPageY,
                AddressingMode::Absolute,
            ],
        )
    } else if mnemonic == "STY"@ {
        Some(
            seq![
                AddressingMode::ZeroPage,
                AddressingMode::ZeroPageX,
                AddressingMode::Absolute,
            ],
        )
    } else {
        None
    }
}

/// Every opcode in `bytes` encodes `mnemonic` in the mode of `modes` at the same position.
proof fn lemma_witnesses(mnemonic: Seq<char>, modes: Seq<AddressingMode>, bytes: Seq<u8>)
    requires
        bytes.len() == modes.len(),
        forall|i: int| 0 <= i < bytes.len() ==> encodes(#[trigger] bytes[i], mnemonic, modes[i]),
    ensures
        all_encodable(mnemonic, modes),
{
    assert forall|i: int| 0 <= i < modes.len() implies has_encoding(mnemonic, modes[i]) by {
        let b = bytes[i];
        assert(encodes(b, mnemonic, modes[i]));
    }
}

/// Whether some byte encodes `mnemonic` in `mode`.
pub open spec fn has_encoding(mnemonic: Seq<char>, mode: AddressingMode) -> bool {
    exists|b: u8| #[trigger] encodes(b, mnemonic, mode)
}

/// Whether each of `modes` has an opcode for `mnemonic`.
pub open spec fn all_encodable(mnemonic: Seq<char>, modes: Seq<AddressingMode>) -> bool {
    forall|i: int| 0 <= i < modes.len() ==> #[trigger] has_encoding(mnemonic, modes[i])
}

/// Each addressing mode listed for `mnemonic` has an opcode in the table.
pub open spec fn listed_modes_encodable(mnemonic: Seq<char>) -> bool {
    modes_of(mnemonic) matches Some(modes) ==> all_encodable(mnemonic, modes)
}

proof fn lemma_adc_group_encodable(mnemonic: Seq<char>)
    requires
        mnemonic == "ADC"@ || mnemonic == "SBC"@ || mnemonic == "CMP"@ || mnemonic == "AND"@
        || mnemonic == "EOR"@ || mnemonic == "ORA"@ || mnemonic == "LDA"@,
    ensures
        all_encodable(
            mnemonic,
            seq![
                AddressingMode::Immediate,
                AddressingMode::ZeroPage,
                AddressingMode::ZeroPageX,
                AddressingMode::Absolute,
                AddressingMode::AbsoluteX,
                AddressingMode::AbsoluteY,
                AddressingMode::IndirectX,
                AddressingMode::IndirectY,
            ],
        ),
{
    reveal(encodes);
    let modes = seq![
            AddressingMode::Immediate,
            AddressingMode::ZeroPage,
            AddressingMode::ZeroPageX,
            AddressingMode::Absolute,
            AddressingMode::AbsoluteX,
            AddressingMode::AbsoluteY,
            AddressingMode::IndirectX,
            AddressingMode::IndirectY,
        ];
    if mnemonic == "ADC"@ {
        lemma_witnesses(mnemonic, modes, seq![0x69, 0x65, 0x75, 0x6D, 0x7D, 0x79, 0x61, 0x71]);
    } else if mnemonic == "SBC"@ {
        lemma_witnesses(mnemonic, modes, seq![0xE9, 0xE5, 0xF5, 0xED, 0xFD, 0xF9, 0xE1, 0xF1]);
    } else if mnemonic == "CMP"@ {
        lemma_witnesses(mnemonic, modes, seq![0xC9, 0xC5, 0xD5, 0xCD, 0xDD, 0xD9, 0xC1, 0xD1]);
    } else if mnemonic == "AND"@ {
        lemma_witnesses(mnemonic, modes, seq![0x29, 0x25, 0x35, 0x2D, 0x3D, 0x39, 0x21, 0x31]);
    } else if mnemonic == "EOR"@ {
        lemma_witnesses(mnemonic, modes, seq![0x49, 0x45, 0x55, 0x4D, 0x5D, 0x59, 0x41, 0x51]);
    } else if mnemonic == "ORA"@ {
        lemma_witnesses(mnemonic, modes, seq![0x09, 0x05, 0x15, 0x0D, 0x1D, 0x19, 0x01, 0x11]);
    } else {
        lemma_witnesses(mnemonic, modes, seq![0xA9, 0xA5, 0xB5, 0xAD, 0xBD, 0xB9, 0xA1, 0xB1]);
    }
}

proof fn lemma_asl_group_encodable(mnemonic: Seq<char>)
    requires
        mnemonic == "ASL"@ || mnemonic == "LSR"@ || mnemonic == "ROL"@ || mnemonic == "ROR"@,
    ensures
        all_encodable(
            mnemonic,
            seq![
                AddressingMode::Accumulator,
                AddressingMode::ZeroPage,
                AddressingMode::ZeroPageX,
                AddressingMode::Absolute,
                AddressingMode::AbsoluteX,
            ],
        ),
{
    reveal(encodes);
    let modes = seq![
            AddressingMode::Accumulator,
            AddressingMode::ZeroPage,
            AddressingMode::ZeroPageX,
            AddressingMode::Absolute,
            AddressingMode::AbsoluteX,
        ];
    if mnemonic == "ASL"@ {
        lemma_witnesses(mnemonic, modes, seq![0x0A, 0x06, 0x16, 0x0E, 0x1E]);
    } else if mnemonic == "LSR"@ {
        lemma_witnesses(mnemonic, modes, seq![0x4A, 0x46, 0x56, 0x4E, 0x5E]);
    } else if mnemonic == "ROL"@ {
        lemma_witnesses(mnemonic, modes, seq![0x2A, 0x26, 0x36, 0x2E, 0x3E]);
    } else {
        lemma_witnesses(mnemonic, modes, seq![0x6A, 0x66, 0x76, 0x6E, 0x7E]);
    }
}

proof fn lemma_bcc_group_encodable(mnemonic: Seq<char>)
    requires
        mnemonic == "BCC"@ || mnemonic == "BCS"@ || mnemonic == "BEQ"@ || mnemonic == "BMI"@
        || mnemonic == "BNE"@ || mnemonic == "BPL"@ || mnemonic == "BVC"@ || mnemonic == "BVS"@,
    ensures
        all_encodable(
            mnemonic,
            seq![
                AddressingMode::Relative,
            ],
        ),
{
    reveal(encodes);
    let modes = seq![
            AddressingMode::Relative,
        ];
    if mnemonic == "BCC"@ {
        lemma_witnesses(mnemonic, modes, seq![0x90]);
    } else if mnemonic == "BCS"@ {
        lemma_witnesses(mnemonic, modes, seq![0xB0]);
    } else if mnemonic == "BEQ"@ {
        lemma_witnesses(mnemonic, modes, seq![0xF0]);
    } else if mnemonic == "BMI"@ {
        lemma_witnesses(mnemonic, modes, seq![0x30]);
    } else if mnemonic == "BNE"@ {
        lemma_witnesses(mnemonic, modes, seq![0xD0]);
    } else if mnemonic == "BPL"@ {
        lemma_witnesses(mnemonic, modes, seq![0x10]);
    } else if mnemonic == "BVC"@ {
        lemma_witnesses(mnemonic, modes, seq![0x50]);
    } else {
        lemma_witnesses(mnemonic, modes, seq![0x70]);
    }
}

proof fn lemma_bit_group_encodable(mnemonic: Seq<char>)
    requires
        mnemonic == "BIT"@,
    ensures
        all_encodable(
            mnemonic,
            seq![
                AddressingMode::ZeroPage,
                AddressingMode::Absolute,
            ],
        ),
{
    reveal(encodes);
    let modes = seq![
            AddressingMode::ZeroPage,
            AddressingMode::Absolute,
        ];
    lemma_witnesses(mnemonic, modes, seq![0x24, 0x2C]);
}

#[verifier::rlimit(100)]
#[verifier::spinoff_prover]
proof fn lemma_brk_group_encodable(mnemonic: Seq<char>)
    requires
        mnemonic == "BRK"@ || mnemonic == "CLC"@ || mnemonic == "CLD"@ || mnemonic == "CLI"@
        || mnemonic == "CLV"@ || mnemonic == "DEX"@ || mnemonic == "DEY"@ || mnemonic == "INX"@
        || mnemonic == "INY"@ || mnemonic == "NOP"@ || mnemonic == "PHA"@ || mnemonic == "PHP"@
        || mnemonic == "PLA"@ || mnemonic == "PLP"@ || mnemonic == "RTI"@ || mnemonic == "RTS"@
        || mnemonic == "SEC"@ || mnemonic == "SED"@ || mnemonic == "SEI"@ || mnemonic == "TAX"@
        || mnemonic == "TAY"@ || mnemonic == "TSX"@ || mnemonic == "TXA"@ || mnemonic == "TXS"@
        || mnemonic == "TYA"@,
    ensures
        all_encodable(
            mnemonic,
            seq![
                AddressingMode::Implicit,
            ],
        ),
{
    reveal(encodes);
    let modes = seq![
            AddressingMode::Implicit,
        ];
    if mnemonic == "BRK"@ {
        lemma_witnesses(mnemonic, modes, seq![0x00]);
    } else if mnemonic == "CLC"@ {
        lemma_witnesses(mnemonic, modes, seq![0x18]);
    } else if mnemonic == "CLD"@ {
        lemma_witnesses(mnemonic, modes, seq![0xD8]);
    } else if mnemonic == "CLI"@ {
        lemma_witnesses(mnemonic, modes, seq![0x58]);
    } else if mnemonic == "CLV"@ {
        lemma_witnesses(mnemonic, modes, seq![0xB8]);
    } else if mnemonic == "DEX"@ {
        lemma_witnesses(mnemonic, modes, seq![0xCA]);
    } else if mnemonic == "DEY"@ {
        lemma_witnesses(mnemonic, modes, seq![0x88]);
    } else if mnemonic == "INX"@ {
        lemma_witnesses(mnemonic, modes, seq![0xE8]);
    } else if mnemonic == "INY"@ {
        lemma_witnesses(mnemonic, modes, seq![0xC8]);
    } else if mnemonic == "NOP"@ {
        lemma_witnesses(mnemonic, modes, seq![0xEA]);
    } else if mnemonic == "PHA"@ {
        lemma_witnesses(mnemonic, modes, seq![0x48]);
    } else if mnemonic == "PHP"@ {
        lemma_witnesses(mnemonic, modes, seq![0x08]);
    } else if mnemonic == "PLA"@ {
        lemma_witnesses(mnemonic, modes, seq![0x68]);
    } else if mnemonic == "PLP"@ {
        lemma_witnesses(mnemonic, modes, seq![0x28]);
    } else if mnemonic == "RTI"@ {
        lemma_witnesses(mnemonic, modes, seq![0x40]);
    } else if mnemonic == "RTS"@ {
        lemma_witnesses(mnemonic, modes, seq![0x60]);
    } else if mnemonic == "SEC"@ {
        lemma_witnesses(mnemonic, modes, seq![0x38]);
    } else if mnemonic == "SED"@ {
        lemma_witnesses(mnemonic, modes, seq![0xF8]);
    } else if mnemonic == "SEI"@ {
        lemma_witnesses(mnemonic, modes, seq![0x78]);
    } else if mnemonic == "TAX"@ {
        lemma_witnesses(mnemonic, modes, seq![0xAA]);
    } else if mnemonic == "TAY"@ {
        lemma_witnesses(mnemonic, modes, seq![0xA8]);
    } else if mnemonic == "TSX"@ {
        lemma_witnesses(mnemonic, modes, seq![0xBA]);
    } else if mnemonic == "TXA"@ {
        lemma_witnesses(mnemonic, modes, seq![0x8A]);
    } else if mnemonic == "TXS"@ {
        lemma_witnesses(mnemonic, modes, seq![0x9A]);
    } else {
        lemma_witnesses(mnemonic, modes, seq![0x98]);
    }
}

proof fn lemma_cpx_group_encodable(mnemonic: Seq<char>)
    requires
        mnemonic == "CPX"@ || mnemonic == "CPY"@,
    ensures
        all_encodable(
            mnemonic,
            seq![
                AddressingMode::Immediate,
                AddressingMode::ZeroPage,
                AddressingMode::Absolute,
            ],
        ),
{
    reveal(encodes);
    let modes = seq![
            AddressingMode::Immediate,
            AddressingMode::ZeroPage,
            AddressingMode::Absolute,
        ];
    if mnemonic == "CPX"@ {
        lemma_witnesses(mnemonic, modes, seq![0xE0, 0xE4, 0xEC]);
    } else {
        lemma_witnesses(mnemonic, modes, seq![0xC0, 0xC4, 0xCC]);
    }
}

proof fn lemma_dec_group_encodable(mnemonic: Seq<char>)
    requires
        mnemonic == "DEC"@ || mnemonic == "INC"@,
    ensures
        all_encodable(
            mnemonic,
            seq![
                AddressingMode::ZeroPage,
                AddressingMode::ZeroPageX,
                AddressingMode::Absolute,
                AddressingMode::AbsoluteX,
            ],
        ),
{
    reveal(encodes);
    let modes = seq![
            AddressingMode::ZeroPage,
            AddressingMode::ZeroPageX,
            AddressingMode::Absolute,
            AddressingMode::AbsoluteX,
        ];
    if mnemonic == "DEC"@ {
        lemma_witnesses(mnemonic, modes, seq![0xC6, 0xD6, 0xCE, 0xDE]);
    } else {
        lemma_witnesses(mnemonic, modes, seq![0xE6, 0xF6, 0xEE, 0xFE]);
    }
}

proof fn lemma_jmp_group_encodable(mnemonic: Seq<char>)
    requires
        mnemonic == "JMP"@,
    ensures
        all_encodable(
            mnemonic,
            seq![
                AddressingMode::Absolute,
                AddressingMode::Indirect,
            ],
        ),
{
    reveal(encodes);
    let modes = seq![
            AddressingMode::Absolute,
            AddressingMode::Indirect,
        ];
    lemma_witnesses(mnemonic, modes, seq![0x4C, 0x6C]);
}

proof fn lemma_jsr_group_encodable(mnemonic: Seq<char>)
    requires
        mnemonic == "JSR"@,
    ensures
        all_encodable(
            mnemonic,
            seq![
                AddressingMode::Absolute,
            ],
        ),
{
    reveal(encodes);
    let modes = seq![
            AddressingMode::Absolute,
        ];
    lemma_witnesses(mnemonic, modes, seq![0x20]);
}

proof fn lemma_ldx_group_encodable(mnemonic: Seq<char>)
    requires
        mnemonic == "LDX"@,
    ensures
        all_encodable(
            mnemonic,
            seq![
                AddressingMode::Immediate,
                AddressingMode::ZeroPage,
                AddressingMode::ZeroPageY,
                AddressingMode::Absolute,
                AddressingMode::AbsoluteY,
            ],
        ),
{
    reveal(encodes);
    let modes = seq![
            AddressingMode::Immediate,
            AddressingMode::ZeroPage,
            AddressingMode::ZeroPageY,
            AddressingMode::Absolute,
            AddressingMode::AbsoluteY,
        ];
    lemma_witnesses(mnemonic, modes, seq![0xA2, 0xA6, 0xB6, 0xAE, 0xBE]);
}

proof fn lemma_ldy_group_encodable(mnemonic: Seq<char>)
    requires
        mnemonic == "LDY"@,
    ensures
        all_encodable(
            mnemonic,
            seq![
                AddressingMode::Immediate,
                AddressingMode::ZeroPage,
                AddressingMode::ZeroPageX,
                AddressingMode::Absolute,
                AddressingMode::AbsoluteX,
            ],
        ),
{
    reveal(encodes);
    let modes = seq![
            AddressingMode::Immediate,
            AddressingMode::ZeroPage,
            AddressingMode::ZeroPageX,
            AddressingMode::Absolute,
            AddressingMode::AbsoluteX,
        ];
    lemma_witnesses(mnemonic, modes, seq![0xA0, 0xA4, 0xB4, 0xAC, 0xBC]);
}

proof fn lemma_sta_group_encodable(mnemonic: Seq<char>)
    requires
        mnemonic == "STA"@,
    ensures
        all_encodable(
            mnemonic,
            seq![
                AddressingMode::ZeroPage,
                AddressingMode::ZeroPageX,
                AddressingMode::Absolute,
                AddressingMode::AbsoluteX,
                AddressingMode::AbsoluteY,
                AddressingMode::IndirectX,
                AddressingMode::IndirectY,
            ],
        ),
{
    reveal(encodes);
    let modes = seq![
            AddressingMode::ZeroPage,
            AddressingMode::ZeroPageX,
            AddressingMode::Absolute,
            AddressingMode::AbsoluteX,
            AddressingMode::AbsoluteY,
            AddressingMode::IndirectX,
            AddressingMode::IndirectY,
        ];
    lemma_witnesses(mnemonic, modes, seq![0x85, 0x95, 0x8D, 0x9D, 0x99, 0x81, 0x91]);
}

proof fn lemma_stx_group_encodable(mnemonic: Seq<char>)
    requires
        mnemonic == "STX"@,
    ensures
        all_encodable(
            mnemonic,
            seq![
                AddressingMode::ZeroPage,
                AddressingMode::ZeroPageY,
                AddressingMode::Absolute,
            ],
        ),
{
    reveal(encodes);
    let modes = seq![
            AddressingMode::ZeroPage,
            AddressingMode::ZeroPageY,
            AddressingMode::Absolute,
        ];
    lemma_witnesses(mnemonic, modes, seq![0x86, 0x96, 0x8E]);
}

proof fn lemma_sty_group_encodable(mnemonic: Seq<char>)
    requires
        mnemonic == "STY"@,
    ensures
        all_encodable(
            mnemonic,
            seq![
                AddressingMode::ZeroPage,
                AddressingMode::ZeroPageX,
                AddressingMode::Absolute,
            ],
        ),
{
    reveal(encodes);
    let modes = seq![
            AddressingMode::ZeroPage,
            AddressingMode::ZeroPageX,
            AddressingMode::Absolute,
        ];
    lemma_witnesses(mnemonic, modes, seq![0x84, 0x94, 0x8C]);
}

/// Each addressing mode listed for a mnemonic has an opcode in the table.
pub proof fn lemma_listed_modes_encodable(mnemonic: Seq<char>)
    ensures
        listed_modes_encodable(mnemonic),
{
    if mnemonic == "ADC"@ || mnemonic == "SBC"@ || mnemonic == "CMP"@ || mnemonic == "AND"@
        || mnemonic == "EOR"@ || mnemonic == "ORA"@ || mnemonic == "LDA"@ {
        lemma_adc_group_encodable(mnemonic);
    } else if mnemonic == "ASL"@ || mnemonic == "LSR"@ || mnemonic == "ROL"@ || mnemonic == "ROR"@ {
        lemma_asl_group_encodable(mnemonic);
    } else if mnemonic == "BCC"@ || mnemonic == "BCS"@ || mnemonic == "BEQ"@ || mnemonic == "BMI"@
        || mnemonic == "BNE"@ || mnemonic == "BPL"@ || mnemonic == "BVC"@ || mnemonic == "BVS"@ {
        lemma_bcc_group_encodable(mnemonic);
    } else if mnemonic == "BIT"@ {
        lemma_bit_group_encodable(mnemonic);
    } else if mnemonic == "BRK"@ || mnemonic == "CLC"@ || mnemonic == "CLD"@ || mnemonic == "CLI"@
        || mnemonic == "CLV"@ || mnemonic == "DEX"@ || mnemonic == "DEY"@ || mnemonic == "INX"@
        || mnemonic == "INY"@ || mnemonic == "NOP"@ || mnemonic == "PHA"@ || mnemonic == "PHP"@
        || mnemonic == "PLA"@ || mnemonic == "PLP"@ || mnemonic == "RTI"@ || mnemonic == "RTS"@
        || mnemonic == "SEC"@ || mnemonic == "SED"@ || mnemonic == "SEI"@ || mnemonic == "TAX"@
        || mnemonic == "TAY"@ || mnemonic == "TSX"@ || mnemonic == "TXA"@ || mnemonic == "TXS"@
        || mnemonic == "TYA"@ {
        lemma_brk_group_encodable(mnemonic);
    } else if mnemonic == "CPX"@ || mnemonic == "CPY"@ {
        lemma_cpx_group_encodable(mnemonic);
    } else if mnemonic == "DEC"@ || mnemonic == "INC"@ {
        lemma_dec_group_encodable(mnemonic);
    } else if mnemonic == "JMP"@ {
        lemma_jmp_group_encodable(mnemonic);
    } else if mnemonic == "JSR"@ {
        lemma_jsr_group_encodable(mnemonic);
    } else if mnemonic == "LDX"@ {
        lemma_ldx_group_encodable(mnemonic);
    } else if mnemonic == "LDY"@ {
        lemma_ldy_group_encodable(mnemonic);
    } else if mnemonic == "STA"@ {
        lemma_sta_group_encodable(mnemonic);
    } else if mnemonic == "STX"@ {
        lemma_stx_group_encodable(mnemonic);
    } else if mnemonic == "STY"@ {
        lemma_sty_group_encodable(mnemonic);
    }
}

/// The addressing modes in which `mnemonic` can be assembled, in the order in which
/// operand text is tried against them; `InvalidInstruction` for an unknown mnemonic.
pub fn addressing_modes_from_mnemonic(mnemonic: &str) -> (r: Result<
    Vec<AddressingMode>,
    InstructionError,
>)
    ensures
        match modes_of(mnemonic@) {
            Some(modes) => r matches Ok(v) && v@ == modes,
            None => r matches Err(InstructionError::InvalidInstruction(m)) && m@ == mnemonic@,
        },
        listed_modes_encodable(mnemonic@),
{
    proof {
        lemma_listed_modes_encodable(mnemonic@);
    }
    if same_text(mnemonic, "ADC") || same_text(mnemonic, "SBC") || same_text(mnemonic, "CMP")
        || same_text(mnemonic, "AND") || same_text(mnemonic, "EOR")
        || same_text(mnemonic, "ORA") || same_text(mnemonic, "LDA")
    {
        Ok(vec![
            AddressingMode::Immediate,
            AddressingMode::ZeroPage,
            AddressingMode::ZeroPageX,
            AddressingMode::Absolute,
            AddressingMode::AbsoluteX,
            AddressingMode::AbsoluteY,
            AddressingMode::IndirectX,
            AddressingMode::IndirectY,
        ])
    } else if same_text(mnemonic, "ASL") || same_text(mnemonic, "LSR")
        || same_text(mnemonic, "ROL") || same_text(mnemonic, "ROR")
    {
        Ok(vec![
            AddressingMode::Accumulator,
            AddressingMode::ZeroPage,
            AddressingMode::ZeroPageX,
            AddressingMode::Absolute,
            AddressingMode::AbsoluteX,
        ])
    } else if same_text(mnemonic, "BCC") || same_text(mnemonic, "BCS")
        || same_text(mnemonic, "BEQ") || same_text(mnemonic, "BMI")
        || same_text(mnemonic, "BNE") || same_text(mnemonic, "BPL")
        || same_text(mnemonic, "BVC") || same_text(mnemonic, "BVS")
    {
        Ok(vec![AddressingMode::Relative])
    } else if same_text(mnemonic, "BIT") {
        Ok(vec![AddressingMode::ZeroPage, AddressingMode::Absolute])
    } else if same_text(mnemonic, "BRK") || same_text(mnemonic, "CLC")
        || same_text(mnemonic, "CLD") || same_text(mnemonic, "CLI")
        || same_text(mnemonic, "CLV") || same_text(mnemonic, "DEX")
        || same_text(mnemonic, "DEY") || same_text(mnemonic, "INX")
        || same_text(mnemonic, "INY") || same_text(mnemonic, "NOP")
        || same_text(mnemonic, "PHA") || same_text(mnemonic, "PHP")
        || same_text(mnemonic, "PLA") || same_text(mnemonic, "PLP")
        || same_text(mnemonic, "RTI") || same_text(mnemonic, "RTS")
        || same_text(mnemonic, "SEC") || same_text(mnemonic, "SED")
        || same_text(mnemonic, "SEI") || same_text(mnemonic, "TAX")
        || same_text(mnemonic, "TAY") || same_text(mnemonic, "TSX")
        || same_text(mnemonic, "TXA") || same_text(mnemonic, "TXS") || same_text(mnemonic, "TYA")
    {
        Ok(vec![AddressingMode::Implicit])
    } else if same_text(mnemonic, "CPX") || same_text(mnemonic, "CPY") {
        Ok(vec![AddressingMode::Immediate, AddressingMode::ZeroPage, AddressingMode::Absolute])
    } else if same_text(mnemonic, "DEC") || same_text(mnemonic, "INC") {
        Ok(vec![
            AddressingMode::ZeroPage,
            AddressingMode::ZeroPageX,
            AddressingMode::Absolute,
            AddressingMode::AbsoluteX,
        ])
    } else if same_text(mnemonic, "JMP") {
        Ok(vec![AddressingMode::Absolute, AddressingMode::Indirect])
    } else if same_text(mnemonic, "JSR") {
        Ok(vec![AddressingMode::Absolute])
    } else if same_text(mnemonic, "LDX") {
        Ok(vec![
            AddressingMode::Immediate,
            AddressingMode::ZeroPage,
            AddressingMode::ZeroPageY,
            AddressingMode::Absolute,
            AddressingMode::AbsoluteY,
        ])
    } else if same_text(mnemonic, "LDY") {
        Ok(vec![
            AddressingMode::Immediate,
            AddressingMode::ZeroPage,
            AddressingMode::ZeroPageX,
            AddressingMode::Absolute,
            AddressingMode::AbsoluteX,
        ])
    } else if same_text(mnemonic, "STA") {
        Ok(vec![
            AddressingMode::ZeroPage,
            AddressingMode::ZeroPageX,
            AddressingMode::Absolute,
            AddressingMode::AbsoluteX,
            AddressingMode::AbsoluteY,
            AddressingMode::IndirectX,
            AddressingMode::IndirectY,
        ])
    } else if same_text(mnemonic, "STX") {
        Ok(vec![
            AddressingMode::ZeroPage,
            AddressingMode::ZeroPageY,
            AddressingMode::Absolute,
        ])
    } else if same_text(mnemonic, "STY") {
        Ok(vec![
            AddressingMode::ZeroPage,
            AddressingMode::ZeroPageX,
            AddressingMode::Absolute,
        ])
    } else {
        Err(InstructionError::InvalidInstruction(mnemonic.to_owned()))
    }
}

} // verus!
