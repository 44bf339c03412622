use vstd::prelude::*;

use crate::cpu::instruction_set::jumps_calls::read_stack;
use crate::cpu::register_bank::{stack_slot, RegisterBank};
use crate::cpu::types::CpuFlags;
use crate::cpu::Cpu;

verus! {

/// Software interrupt and return from interrupt.
pub trait SystemFunctions {
    fn brk(&mut self);

    fn rti(&mut self);
}

/// Registers after RTI: status, then the low and the high byte of the return address,
/// each pulled after raising the stack pointer by one.
pub open spec fn rti_spec(r: RegisterBank, m: Map<u16, u8>) -> RegisterBank {
    let sp = r.stack_pointer;
    let low = m[stack_slot(sp.wrapping_add(2))];
    let high = m[stack_slot(sp.wrapping_add(3))];
    RegisterBank {
        status: CpuFlags { bits: m[stack_slot(sp.wrapping_add(1))] },
        stack_pointer: sp.wrapping_add(3),
        program_counter: (high * 256 + low) as u16,
        ..r
    }
}

impl SystemFunctions for Cpu {
    /// BRK: sets the BREAK flag.
    fn brk(&mut self)
        ensures
            final(self).registers == (RegisterBank {
                status: old(self).registers.status.with(CpuFlags::BREAK, true),
                ..old(self).registers
            }),
            final(self).memory == old(self).memory,
    {
        self.registers.status.insert(CpuFlags::BREAK);
    }

    /// RTI: restores the status byte and then the program counter from the stack.
    fn rti(&mut self)
        ensures
            final(self).registers == rti_spec(old(self).registers, old(self).memory@),
            final(self).memory == old(self).memory,
    {
        let sp = self.registers.stack_pointer;
        let bits = read_stack(&self.memory, sp.wrapping_add(1));
        self.registers.status = CpuFlags::from_bits_truncate(bits);
        let low = read_stack(&self.memory, sp.wrapping_add(2)) as u16;
        let high = read_stack(&self.memory, sp.wrapping_add(3)) as u16;
        self.registers.stack_pointer = sp.wrapping_add(3);
        self.registers.program_counter = high * 256 + low;
    }
}

} // verus!
