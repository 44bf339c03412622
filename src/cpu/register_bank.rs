use vstd::prelude::*;

use super::types::CpuFlags;

verus! {

/// Base address of the hardware stack: the stack pointer is an offset into page one.
pub const STACK_POINTER_BASE_ADDRESS: u16 = 0x0100;

/// Registers of the processor.
#[derive(Debug, Clone, Copy, PartialEq, Eq, Structural)]
pub struct RegisterBank {
    pub status: CpuFlags,
    pub program_counter: u16,
    pub stack_pointer: u8,
    pub accumulator: u8,
    pub x_register: u8,
    pub y_register: u8,
}

/// Address of the stack slot that the stack pointer `sp` designates.
pub open spec fn stack_slot(sp: u8) -> u16 {
    (STACK_POINTER_BASE_ADDRESS + sp) as u16
}

impl RegisterBank {
    /// Power-on registers: stack pointer at the top of the stack page, everything else zero.
    pub open spec fn initial() -> RegisterBank {
        RegisterBank {
            status: CpuFlags { bits: 0 },
            program_counter: 0,
            stack_pointer: 0xFF,
            accumulator: 0,
            x_register: 0,
            y_register: 0,
        }
    }

    /// Power-on registers: stack pointer at the top of the stack page, everything else zero.
    pub fn new() -> (r: Self)
        ensures
            r == RegisterBank::initial(),
    {
        RegisterBank {
            status: CpuFlags::empty(),
            program_counter: 0,
            stack_pointer: 0xFF,
            accumulator: 0,
            x_register: 0,
            y_register: 0,
        }
    }
}

} // verus!
