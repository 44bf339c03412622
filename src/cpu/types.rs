use vstd::prelude::*;
use vstd::string::StringExecFns;

use crate::text::{hex_byte, hex_digit};

verus! {

/// Errors raised while decoding, executing or assembling an instruction.
#[derive(Debug, PartialEq, Eq, Clone)]
pub enum InstructionError {
    InvalidOpcode(u8),
    InvalidInstruction(String),
    NotImplementedOpcode(u8),
    NotImplementedInstruction(String),
    InvalidIMnemonicAndAddressingModePair(String, String),
    AddressingModeNotRecognized(String),
    FatalError(String),
}

/// The text that describes an instruction error.
pub open spec fn message_of(e: InstructionError) -> Seq<char> {
    match e {
        InstructionError::InvalidOpcode(op) => "Invalid opcode: 0x"@ + hex_digit(op as int / 16)
            + hex_digit(op as int % 16),
        InstructionError::NotImplementedOpcode(op) => "Not implemented opcode: 0x"@ + hex_digit(
            op as int / 16,
        ) + hex_digit(op as int % 16),
        InstructionError::NotImplementedInstruction(m) => "Not implemented instruction: "@ + m@,
        InstructionError::InvalidIMnemonicAndAddressingModePair(m, a) =>
            "The mnemonic/addressing mode pair ["@ + m@ + "/"@ + a@ + "] is invalid"@,
        InstructionError::InvalidInstruction(m) => "Invalid instruction with mnemonic: "@ + m@,
        InstructionError::AddressingModeNotRecognized(d) =>
            "Addressing mode not recognized for data: "@ + d@,
        InstructionError::FatalError(m) => "Fatal error! Message: "@ + m@,
    }
}

impl InstructionError {
    /// The text that describes the error.
    pub fn message(&self) -> (r: String)
        ensures
            r@ == message_of(*self),
    {
        match self {
            InstructionError::InvalidOpcode(op) => {
                let mut text = String::from_str("Invalid opcode: 0x");
                text.append(hex_byte(*op).as_str());
                text
            },
            InstructionError::NotImplementedOpcode(op) => {
                let mut text = String::from_str("Not implemented opcode: 0x");
                text.append(hex_byte(*op).as_str());
                text
            },
            InstructionError::NotImplementedInstruction(mnemonic) => {
                let mut text = String::from_str("Not implemented instruction: ");
                text.append(mnemonic.as_str());
                text
            },
            InstructionError::InvalidIMnemonicAndAddressingModePair(mnemonic, addressing_mode) => {
                let mut text = String::from_str("The mnemonic/addressing mode pair [");
                text.append(mnemonic.as_str());
                text.append("/");
                text.append(addressing_mode.as_str());
                text.append("] is invalid");
                text
            },
            InstructionError::InvalidInstruction(mnemonic) => {
                let mut text = String::from_str("Invalid instruction with mnemonic: ");
                text.append(mnemonic.as_str());
                text
            },
            InstructionError::AddressingModeNotRecognized(data) => {
                let mut text = String::from_str("Addressing mode not recognized for data: ");
                text.append(data.as_str());
                text
            },
            InstructionError::FatalError(message) => {
                let mut text = String::from_str("Fatal error! Message: ");
                text.append(message.as_str());
                text
            },
        }
    }
}

/// The processor status register: one bit per flag.
#[derive(Debug, Clone, Copy, PartialEq, Eq, Structural)]
pub struct CpuFlags {
    pub bits: u8,
}

/// `bits` with the bits of `mask` set when `on` holds and cleared otherwise.
pub open spec fn with_bits(bits: u8, mask: u8, on: bool) -> u8 {
    if on {
        bits | mask
    } else {
        bits & !mask
    }
}

/// After setting or clearing the bits of a nonzero mask, they are all set exactly when `on` holds.
pub proof fn lemma_with_has(bits: u8, mask: u8, on: bool)
    requires
        mask != 0,
    ensures
        (with_bits(bits, mask, on) & mask == mask) == on,
{
    if on {
        assert((bits | mask) & mask == mask) by (bit_vector);
    } else {
        assert(mask != 0 ==> (bits & !mask) & mask != mask) by (bit_vector);
    }
}

/// Setting or clearing the bits of a mask leaves the bits outside it unchanged.
pub proof fn lemma_with_other(bits: u8, mask: u8, other: u8, on: bool)
    requires
        mask & other == 0,
    ensures
        with_bits(bits, mask, on) & other == bits & other,
{
    if on {
        assert(mask & other == 0 ==> (bits | mask) & other == bits & other) by (bit_vector);
    } else {
        assert(mask & other == 0 ==> (bits & !mask) & other == bits & other) by (bit_vector);
    }
}

/// Bit 7 of `v`: the sign bit of a two's-complement byte.
pub open spec fn negative(v: u8) -> bool {
    v & 0x80 != 0
}

impl CpuFlags {
    pub const CARRY: u8 = 0b0000_0001;
    pub const ZERO: u8 = 0b0000_0010;
    pub const INTERRUPT_DISABLE: u8 = 0b0000_0100;
    pub const DECIMAL_MODE: u8 = 0b0000_1000;
    pub const BREAK: u8 = 0b0001_0000;
    pub const UNUSED: u8 = 0b0010_0000;
    pub const OVERFLOW: u8 = 0b0100_0000;
    pub const NEGATIVE: u8 = 0b1000_0000;

    /// Whether every bit of `mask` is set.
    pub open spec fn has(self, mask: u8) -> bool {
        self.bits & mask == mask
    }

    /// The flags with the bits of `mask` set or cleared according to `on`.
    pub open spec fn with(self, mask: u8, on: bool) -> CpuFlags {
        CpuFlags { bits: with_bits(self.bits, mask, on) }
    }

    /// ZERO and NEGATIVE set from `v` (zero, bit 7), the other flags kept.
    pub open spec fn with_zn(self, v: u8) -> CpuFlags {
        self.with(CpuFlags::ZERO, v == 0).with(CpuFlags::NEGATIVE, negative(v))
    }

    /// No flag set.
    pub fn empty() -> (r: CpuFlags)
        ensures
            r.bits == 0,
    {
        CpuFlags { bits: 0 }
    }

    /// The raw status byte.
    pub fn bits(&self) -> (r: u8)
        ensures
            r == self.bits,
    {
        self.bits
    }

    /// Flags read back from a raw status byte; every bit of the byte names a flag.
    pub fn from_bits_truncate(bits: u8) -> (r: CpuFlags)
        ensures
            r.bits == bits,
    {
        CpuFlags { bits }
    }

    /// Whether all flags of `mask` are set.
    pub fn contains(&self, mask: u8) -> (r: bool)
        ensures
            r == self.has(mask),
    {
        self.bits & mask == mask
    }

    /// Sets or clears the flags of `mask` according to `value`.
    pub fn set(&mut self, mask: u8, value: bool)
        ensures
            *final(self) == old(self).with(mask, value),
    {
        if value {
            self.bits = self.bits | mask;
        } else {
            self.bits = self.bits & !mask;
        }
    }

    /// Same as `set`: the flags of `mask` end up equal to `condition`.
    pub fn update_flag(&mut self, mask: u8, condition: bool)
        ensures
            *final(self) == old(self).with(mask, condition),
    {
        self.set(mask, condition)
    }

    /// Sets the flags of `mask`.
    pub fn insert(&mut self, mask: u8)
        ensures
            *final(self) == old(self).with(mask, true),
    {
        self.bits = self.bits | mask;
    }

    /// Clears the flags of `mask`.
    pub fn remove(&mut self, mask: u8)
        ensures
            *final(self) == old(self).with(mask, false),
    {
        self.bits = self.bits & !mask;
    }
}

} // verus!
