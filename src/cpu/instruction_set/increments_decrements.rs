use vstd::prelude::*;

use crate::cpu::register_bank::RegisterBank;
use crate::cpu::Cpu;

verus! {

/// Increments and decrements of memory and index registers, wrapping at 8 bits.
pub trait IncrementsDecrements {
    fn inc(&mut self, address: u16);

    fn inx(&mut self);

    fn iny(&mut self);

    fn dec(&mut self, address: u16);

    fn dex(&mut self);

    fn dey(&mut self);
}

fn update_flag(cpu: &mut Cpu, val: u8)
    ensures
        final(cpu).registers == (RegisterBank {
            status: old(cpu).registers.status.with_zn(val),
            ..old(cpu).registers
        }),
        final(cpu).memory == old(cpu).memory,
{
    cpu.registers.status.set(crate::cpu::types::CpuFlags::ZERO, val == 0);
    cpu.registers.status.set(crate::cpu::types::CpuFlags::NEGATIVE, val & 0x80 != 0);
}

impl IncrementsDecrements for Cpu {
    /// INC: adds one to the byte at `address`.
    fn inc(&mut self, address: u16)
        ensures
            ({
                let v = old(self).memory@[address].wrapping_add(1);
                &&& final(self).memory@ == old(self).memory@.insert(address, v)
                &&& final(self).registers == (RegisterBank {
                    status: old(self).registers.status.with_zn(v),
                    ..old(self).registers
                })
            }),
    {
        let val = self.memory.read(address).wrapping_add(0x01);
        self.memory.write(val, address);
        update_flag(self, val);
    }

    /// INX: adds one to X.
    fn inx(&mut self)
        ensures
            ({
                let v = old(self).registers.x_register.wrapping_add(1);
                final(self).registers == (RegisterBank {
                    x_register: v,
                    status: old(self).registers.status.with_zn(v),
                    ..old(self).registers
                })
            }),
            final(self).memory == old(self).memory,
    {
        self.registers.x_register = self.registers.x_register.wrapping_add(0x01);
        let x = self.registers.x_register;
        update_flag(self, x);
    }

    /// INY: adds one to Y.
    fn iny(&mut self)
        ensures
            ({
                let v = old(self).registers.y_register.wrapping_add(1);
                final(self).registers == (RegisterBank {
                    y_register: v,
                    status: old(self).registers.status.with_zn(v),
                    ..old(self).registers
                })
            }),
            final(self).memory == old(self).memory,
    {
        self.registers.y_register = self.registers.y_register.wrapping_add(0x01);
        let y = self.registers.y_register;
        update_flag(self, y);
    }

    /// DEC: subtracts one from the byte at `address`.
    fn dec(&mut self, address: u16)
        ensures
            ({
                let v = old(self).memory@[address].wrapping_sub(1);
                &&& final(self).memory@ == old(self).memory@.insert(address, v)
                &&& final(self).registers == (RegisterBank {
                    status: old(self).registers.status.with_zn(v),
                    ..old(self).registers
                })
            }),
    {
        let val = self.memory.read(address).wrapping_sub(0x01);
        self.memory.write(val, address);
        update_flag(self, val);
    }

    /// DEX: subtracts one from X.
    fn dex(&mut self)
        ensures
            ({
                let v = old(self).registers.x_register.wrapping_sub(1);
                final(self).registers == (RegisterBank {
                    x_register: v,
                    status: old(self).registers.status.with_zn(v),
                    ..old(self).registers
                })
            }),
            final(self).memory == old(self).memory,
    {
        self.registers.x_register = self.registers.x_register.wrapping_sub(0x01);
        let x = self.registers.x_register;
        update_flag(self, x);
    }

    /// DEY: subtracts one from Y.
    fn dey(&mut self)
        ensures
            ({
                let v = old(self).registers.y_register.wrapping_sub(1);
                final(self).registers == (RegisterBank {
                    y_register: v,
                    status: old(self).registers.status.with_zn(v),
                    ..old(self).registers
                })
            }),
            final(self).memory == old(self).memory,
    {
        self.registers.y_register = self.registers.y_register.wrapping_sub(0x01);
        let y = self.registers.y_register;
        update_flag(self, y);
    }
}

} // verus!
