use vstd::prelude::*;

use crate::cpu::instruction_set::jumps_calls::{read_stack, stack_address};
use crate::cpu::register_bank::{stack_slot, RegisterBank};
use crate::cpu::types::CpuFlags;
use crate::cpu::Cpu;

verus! {

/// Pushes and pulls of A and of the status byte.
pub trait StackOperations {
    fn pha(&mut self);

    fn php(&mut self);

    fn pla(&mut self);

    fn plp(&mut self);
}

impl StackOperations for Cpu {
    /// PHA: A into the slot of the stack pointer, which then moves down.
    fn pha(&mut self)
        ensures
            final(self).memory@ == old(self).memory@.insert(
                stack_slot(old(self).registers.stack_pointer),
                old(self).registers.accumulator,
            ),
            final(self).registers == (RegisterBank {
                stack_pointer: old(self).registers.stack_pointer.wrapping_sub(1),
                ..old(self).registers
            }),
    {
        let sp = self.registers.stack_pointer;
        let a = self.registers.accumulator;
        self.memory.write(a, stack_address(sp));
        self.registers.stack_pointer = sp.wrapping_sub(1);
    }

    /// PHP: the status byte into the slot of the stack pointer, which then moves down.
    fn php(&mut self)
        ensures
            final(self).memory@ == old(self).memory@.insert(
                stack_slot(old(self).registers.stack_pointer),
                old(self).registers.status.bits,
            ),
            final(self).registers == (RegisterBank {
                stack_pointer: old(self).registers.stack_pointer.wrapping_sub(1),
                ..old(self).registers
            }),
    {
        let sp = self.registers.stack_pointer;
        let bits = self.registers.status.bits();
        self.memory.write(bits, stack_address(sp));
        self.registers.stack_pointer = sp.wrapping_sub(1);
    }

    /// PLA: the stack pointer moves up, then its slot goes into A.
    fn pla(&mut self)
        ensures
            ({
                let sp = old(self).registers.stack_pointer.wrapping_add(1);
                let v = old(self).memory@[stack_slot(sp)];
                final(self).registers == (RegisterBank {
                    stack_pointer: sp,
                    accumulator: v,
                    status: old(self).registers.status.with_zn(v),
                    ..old(self).registers
                })
            }),
            final(self).memory == old(self).memory,
    {
        let sp = self.registers.stack_pointer.wrapping_add(1);
        self.registers.stack_pointer = sp;
        let v = read_stack(&self.memory, sp);
        self.registers.accumulator = v;
        self.registers.status.set(CpuFlags::ZERO, v == 0);
        self.registers.status.set(CpuFlags::NEGATIVE, v & 0x80 != 0);
    }

    /// PLP: the stack pointer moves up, then its slot becomes the status byte.
    fn plp(&mut self)
        ensures
            ({
                let sp = old(self).registers.stack_pointer.wrapping_add(1);
                final(self).registers == (RegisterBank {
                    stack_pointer: sp,
                    status: CpuFlags { bits: old(self).memory@[stack_slot(sp)] },
                    ..old(self).registers
                })
            }),
            final(self).memory == old(self).memory,
    {
        let sp = self.registers.stack_pointer.wrapping_add(1);
        self.registers.stack_pointer = sp;
        self.registers.status = CpuFlags::from_bits_truncate(read_stack(&self.memory, sp));
    }
}

} // verus!
