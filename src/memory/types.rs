use vstd::prelude::*;

verus! {

#[derive(Debug, PartialEq, Eq, Clone, Copy)]
pub enum MemoryError {
    AccessViolation(usize),
}

/// Addressing modes of the 6502: how an instruction locates its operand.
#[derive(Debug, Clone, Copy, PartialEq, Eq, Hash, Structural)]
pub enum AddressingMode {
    /// 16-bit address given in the instruction (`LDA $8000`).
    Absolute,
    /// Absolute address plus X, wrapping at 16 bits (`LDA $8000,X`).
    AbsoluteX,
    /// Absolute address plus Y, wrapping at 16 bits (`LDA $8000,Y`).
    AbsoluteY,
    /// The instruction works on the accumulator (`ASL A`).
    Accumulator,
    /// The operand byte follows the opcode (`LDA #$10`).
    Immediate,
    /// The operand is implied by the instruction (`CLC`).
    Implicit,
    /// The 16-bit address found at the given address (`JMP ($1234)`).
    Indirect,
    /// Zero-page pointer at operand plus X, wrapping within page zero (`LDA ($20,X)`).
    IndirectX,
    /// Zero-page pointer at operand, then plus Y, wrapping at 16 bits (`LDA ($20),Y`).
    IndirectY,
    /// Signed displacement from the program counter, for branches (`BEQ $10`).
    Relative,
    /// Address in page zero (`LDA $20`).
    ZeroPage,
    /// Zero-page address plus X, wrapping within page zero (`LDA $20,X`).
    ZeroPageX,
    /// Zero-page address plus Y, wrapping within page zero (`LDX $20,Y`).
    ZeroPageY,
}

impl AddressingMode {
    /// Length in bytes of an instruction in this mode, opcode byte included.
    pub open spec fn size(self) -> u8 {
        match self {
            AddressingMode::Implicit | AddressingMode::Accumulator => 1,
            AddressingMode::Absolute | AddressingMode::AbsoluteX | AddressingMode::AbsoluteY
            | AddressingMode::Indirect => 3,
            _ => 2,
        }
    }

    /// Whether the mode designates a location: every mode but Accumulator and Implicit.
    pub open spec fn has_address(self) -> bool {
        !(self is Accumulator || self is Implicit)
    }

    /// The name of the mode.
    pub open spec fn name(self) -> Seq<char> {
        match self {
            AddressingMode::Absolute => "Absolute"@,
            AddressingMode::AbsoluteX => "AbsoluteX"@,
            AddressingMode::AbsoluteY => "AbsoluteY"@,
            AddressingMode::Accumulator => "Accumulator"@,
            AddressingMode::Immediate => "Immediate"@,
            AddressingMode::Implicit => "Implicit"@,
            AddressingMode::Indirect => "Indirect"@,
            AddressingMode::IndirectX => "IndirectX"@,
            AddressingMode::IndirectY => "IndirectY"@,
            AddressingMode::Relative => "Relative"@,
            AddressingMode::ZeroPage => "ZeroPage"@,
            AddressingMode::ZeroPageX => "ZeroPageX"@,
            AddressingMode::ZeroPageY => "ZeroPageY"@,
        }
    }

    /// The name of the mode.
    pub fn mode_name(&self) -> (r: &'static str)
        ensures
            r@ == self.name(),
    {
        match self {
            AddressingMode::Absolute => "Absolute",
            AddressingMode::AbsoluteX => "AbsoluteX",
            AddressingMode::AbsoluteY => "AbsoluteY",
            AddressingMode::Accumulator => "Accumulator",
            AddressingMode::Immediate => "Immediate",
            AddressingMode::Implicit => "Implicit",
            AddressingMode::Indirect => "Indirect",
            AddressingMode::IndirectX => "IndirectX",
            AddressingMode::IndirectY => "IndirectY",
            AddressingMode::Relative => "Relative",
            AddressingMode::ZeroPage => "ZeroPage",
            AddressingMode::ZeroPageX => "ZeroPageX",
            AddressingMode::ZeroPageY => "ZeroPageY",
        }
    }

    /// The regular expression that operand text written in this mode matches; its group
    /// `number` holds the numeric operand.
    pub open spec fn pattern_text(self) -> Seq<char> {
        match self {
            AddressingMode::Accumulator => "^A$"@,
            AddressingMode::Implicit => "^$"@,
            AddressingMode::Relative => "^(?P<number>(\\$|0x)[0-9A-Fa-f]{2}|(%|0b)[01]{8}|(@|0o)[0-7]{1,3}|25[0-5]|2[0-4][0-9]|1?[0-9]{1,2})$"@,
            AddressingMode::Immediate => "^#(?P<number>(\\$|0x)[0-9A-Fa-f]{2}|(%|0b)[01]{8}|(@|0o)[0-7]{1,3}|25[0-5]|2[0-4][0-9]|1?[0-9]{1,2})$"@,
            AddressingMode::ZeroPage => "^(?P<number>(\\$|0x)[0-9A-Fa-f]{2}|(%|0b)[01]{8}|(@|0o)[0-7]{1,3}|25[0-5]|2[0-4][0-9]|1?[0-9]{1,2})$"@,
            AddressingMode::ZeroPageX => "^(?P<number>(\\$|0x)[0-9A-Fa-f]{2}|(%|0b)[01]{8}|(@|0o)[0-7]{1,3}|25[0-5]|2[0-4][0-9]|1?[0-9]{1,2})\\s*,\\s*X$"@,
            AddressingMode::ZeroPageY => "^(?P<number>(\\$|0x)[0-9A-Fa-f]{2}|(%|0b)[01]{8}|(@|0o)[0-7]{1,3}|25[0-5]|2[0-4][0-9]|1?[0-9]{1,2})\\s*,\\s*Y$"@,
            AddressingMode::Absolute => "^(?P<number>(\\$|0x)[0-9A-Fa-f]{4}|(%|0b)[01]{16}|(@|0o)[0-7]{1,5}|6553[0-5]|655[0-2][0-9]|65[0-4][0-9]{2}|[0-5]?[0-9]{1,4})$"@,
            AddressingMode::AbsoluteX => "^(?P<number>(\\$|0x)[0-9A-Fa-f]{4}|(%|0b)[01]{16}|(@|0o)[0-7]{1,5}|6553[0-5]|655[0-2][0-9]|65[0-4][0-9]{2}|[0-5]?[0-9]{1,4})\\s*,\\s*X$"@,
            AddressingMode::AbsoluteY => "^(?P<number>(\\$|0x)[0-9A-Fa-f]{4}|(%|0b)[01]{16}|(@|0o)[0-7]{1,5}|6553[0-5]|655[0-2][0-9]|65[0-4][0-9]{2}|[0-5]?[0-9]{1,4})\\s*,\\s*Y$"@,
            AddressingMode::Indirect => "^\\((?P<number>(\\$|0x)[0-9A-Fa-f]{4}|(%|0b)[01]{16}|(@|0o)[0-7]{1,5}|6553[0-5]|655[0-2][0-9]|65[0-4][0-9]{2}|[0-5]?[0-9]{1,4})\\)$"@,
            AddressingMode::IndirectX => "^\\((?P<number>(\\$|0x)[0-9A-Fa-f]{2}|(%|0b)[01]{8}|(@|0o)[0-7]{1,3}|25[0-5]|2[0-4][0-9]|1?[0-9]{1,2})\\s*,\\s*X\\)$"@,
            AddressingMode::IndirectY => "^\\((?P<number>(\\$|0x)[0-9A-Fa-f]{2}|(%|0b)[01]{8}|(@|0o)[0-7]{1,3}|25[0-5]|2[0-4][0-9]|1?[0-9]{1,2})\\)\\s*,\\s*Y$"@,
        }
    }

    /// The regular expression that operand text written in this mode matches; its group
    /// `number` holds the numeric operand.
    pub fn pattern(&self) -> (r: &'static str)
        ensures
            r@ == self.pattern_text(),
    {
        match self {
            AddressingMode::Accumulator => "^A$",
            AddressingMode::Implicit => "^$",
            AddressingMode::Relative => "^(?P<number>(\\$|0x)[0-9A-Fa-f]{2}|(%|0b)[01]{8}|(@|0o)[0-7]{1,3}|25[0-5]|2[0-4][0-9]|1?[0-9]{1,2})$",
            AddressingMode::Immediate => "^#(?P<number>(\\$|0x)[0-9A-Fa-f]{2}|(%|0b)[01]{8}|(@|0o)[0-7]{1,3}|25[0-5]|2[0-4][0-9]|1?[0-9]{1,2})$",
            AddressingMode::ZeroPage => "^(?P<number>(\\$|0x)[0-9A-Fa-f]{2}|(%|0b)[01]{8}|(@|0o)[0-7]{1,3}|25[0-5]|2[0-4][0-9]|1?[0-9]{1,2})$",
            AddressingMode::ZeroPageX => "^(?P<number>(\\$|0x)[0-9A-Fa-f]{2}|(%|0b)[01]{8}|(@|0o)[0-7]{1,3}|25[0-5]|2[0-4][0-9]|1?[0-9]{1,2})\\s*,\\s*X$",
            AddressingMode::ZeroPageY => "^(?P<number>(\\$|0x)[0-9A-Fa-f]{2}|(%|0b)[01]{8}|(@|0o)[0-7]{1,3}|25[0-5]|2[0-4][0-9]|1?[0-9]{1,2})\\s*,\\s*Y$",
            AddressingMode::Absolute => "^(?P<number>(\\$|0x)[0-9A-Fa-f]{4}|(%|0b)[01]{16}|(@|0o)[0-7]{1,5}|6553[0-5]|655[0-2][0-9]|65[0-4][0-9]{2}|[0-5]?[0-9]{1,4})$",
            AddressingMode::AbsoluteX => "^(?P<number>(\\$|0x)[0-9A-Fa-f]{4}|(%|0b)[01]{16}|(@|0o)[0-7]{1,5}|6553[0-5]|655[0-2][0-9]|65[0-4][0-9]{2}|[0-5]?[0-9]{1,4})\\s*,\\s*X$",
            AddressingMode::AbsoluteY => "^(?P<number>(\\$|0x)[0-9A-Fa-f]{4}|(%|0b)[01]{16}|(@|0o)[0-7]{1,5}|6553[0-5]|655[0-2][0-9]|65[0-4][0-9]{2}|[0-5]?[0-9]{1,4})\\s*,\\s*Y$",
            AddressingMode::Indirect => "^\\((?P<number>(\\$|0x)[0-9A-Fa-f]{4}|(%|0b)[01]{16}|(@|0o)[0-7]{1,5}|6553[0-5]|655[0-2][0-9]|65[0-4][0-9]{2}|[0-5]?[0-9]{1,4})\\)$",
            AddressingMode::IndirectX => "^\\((?P<number>(\\$|0x)[0-9A-Fa-f]{2}|(%|0b)[01]{8}|(@|0o)[0-7]{1,3}|25[0-5]|2[0-4][0-9]|1?[0-9]{1,2})\\s*,\\s*X\\)$",
            AddressingMode::IndirectY => "^\\((?P<number>(\\$|0x)[0-9A-Fa-f]{2}|(%|0b)[01]{8}|(@|0o)[0-7]{1,3}|25[0-5]|2[0-4][0-9]|1?[0-9]{1,2})\\)\\s*,\\s*Y$",
        }
    }

    /// Length in bytes of an instruction in this mode, opcode byte included.
    pub fn byte_size(&self) -> (r: u8)
        ensures
            r == self.size(),
    {
        match self {
            AddressingMode::Implicit => 1,
            AddressingMode::Immediate => 2,
            AddressingMode::ZeroPage => 2,
            AddressingMode::ZeroPageX => 2,
            AddressingMode::ZeroPageY => 2,
            AddressingMode::Absolute => 3,
            AddressingMode::AbsoluteX => 3,
            AddressingMode::AbsoluteY => 3,
            AddressingMode::Indirect => 3,
            AddressingMode::IndirectX => 2,
            AddressingMode::IndirectY => 2,
            AddressingMode::Accumulator => 1,
            AddressingMode::Relative => 2,
        }
    }
}

} // verus!
