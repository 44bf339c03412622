use vstd::prelude::*;

use crate::cpu::register_bank::RegisterBank;
use crate::cpu::types::CpuFlags;
use crate::cpu::Cpu;

verus! {

/// Loads into and stores from A, X and Y.
pub trait LoadStore {
    fn lda(&mut self, data: u8);

    fn ldx(&mut self, data: u8);

    fn ldy(&mut self, data: u8);

    fn sta(&mut self, address: u16);

    fn stx(&mut self, address: u16);

    fn sty(&mut self, address: u16);
}

impl LoadStore for Cpu {
    /// LDA: `data` into A.
    fn lda(&mut self, data: u8)
        ensures
            final(self).registers == (RegisterBank {
                accumulator: data,
                status: old(self).registers.status.with_zn(data),
                ..old(self).registers
            }),
            final(self).memory == old(self).memory,
    {
        self.registers.accumulator = data;
        self.registers.status.set(CpuFlags::ZERO, data == 0);
        self.registers.status.set(CpuFlags::NEGATIVE, data & 0x80 != 0);
    }

    /// LDX: `data` into X.
    fn ldx(&mut self, data: u8)
        ensures
            final(self).registers == (RegisterBank {
                x_register: data,
                status: old(self).registers.status.with_zn(data),
                ..old(self).registers
            }),
            final(self).memory == old(self).memory,
    {
        self.registers.x_register = data;
        self.registers.status.set(CpuFlags::ZERO, data == 0);
        self.registers.status.set(CpuFlags::NEGATIVE, data & 0x80 != 0);
    }

    /// LDY: `data` into Y.
    fn ldy(&mut self, data: u8)
        ensures
            final(self).registers == (RegisterBank {
                y_register: data,
                status: old(self).registers.status.with_zn(data),
                ..old(self).registers
            }),
            final(self).memory == old(self).memory,
    {
        self.registers.y_register = data;
        self.registers.status.set(CpuFlags::ZERO, data == 0);
        self.registers.status.set(CpuFlags::NEGATIVE, data & 0x80 != 0);
    }

    /// STA: A into the byte at `address`.
    fn sta(&mut self, address: u16)
        ensures
            final(self).memory@ == old(self).memory@.insert(
                address,
                old(self).registers.accumulator,
            ),
            final(self).registers == old(self).registers,
    {
        let a = self.registers.accumulator;
        self.memory.write(a, address);
    }

    /// STX: X into the byte at `address`.
    fn stx(&mut self, address: u16)
        ensures
            final(self).memory@ == old(self).memory@.insert(
                address,
                old(self).registers.x_register,
            ),
            final(self).registers == old(self).registers,
    {
        let x = self.registers.x_register;
        self.memory.write(x, address);
    }

    /// STY: Y into the byte at `address`.
    fn sty(&mut self, address: u16)
        ensures
            final(self).memory@ == old(self).memory@.insert(
                address,
                old(self).registers.y_register,
            ),
            final(self).registers == old(self).registers,
    {
        let y = self.registers.y_register;
        self.memory.write(y, address);
    }
}

} // verus!
