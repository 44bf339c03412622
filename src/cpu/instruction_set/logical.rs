use vstd::prelude::*;

use crate::cpu::register_bank::RegisterBank;
use crate::cpu::types::CpuFlags;
use crate::cpu::Cpu;

verus! {

/// Bitwise operations with the accumulator, and the bit test.
pub trait Logical {
    fn and(&mut self, data: u8);

    fn ora(&mut self, data: u8);

    fn eor(&mut self, data: u8);

    fn bit(&mut self, data: u8);
}

/// Registers after `v` replaced A, with ZERO and NEGATIVE from `v`.
pub open spec fn accumulator_result(r: RegisterBank, v: u8) -> RegisterBank {
    RegisterBank { accumulator: v, status: r.status.with_zn(v), ..r }
}

/// Status after BIT of `data`: ZERO from `A & data`, NEGATIVE and OVERFLOW from bits 7 and 6
/// of `data`.
pub open spec fn bit_spec(status: CpuFlags, a: u8, data: u8) -> CpuFlags {
    status.with(CpuFlags::ZERO, a & data == 0).with(CpuFlags::NEGATIVE, data & 0x80 != 0).with(
        CpuFlags::OVERFLOW,
        data & 0x40 != 0,
    )
}

impl Logical for Cpu {
    /// AND: `A & data` into A.
    fn and(&mut self, data: u8)
        ensures
            final(self).registers == accumulator_result(
                old(self).registers,
                old(self).registers.accumulator & data,
            ),
            final(self).memory == old(self).memory,
    {
        let result = self.registers.accumulator & data;
        self.registers.status.set(CpuFlags::ZERO, result == 0);
        self.registers.status.set(CpuFlags::NEGATIVE, result & 0x80 != 0);
        self.registers.accumulator = result;
    }

    /// ORA: `A | data` into A.
    fn ora(&mut self, data: u8)
        ensures
            final(self).registers == accumulator_result(
                old(self).registers,
                old(self).registers.accumulator | data,
            ),
            final(self).memory == old(self).memory,
    {
        let result = self.registers.accumulator | data;
        self.registers.status.set(CpuFlags::ZERO, result == 0);
        self.registers.status.set(CpuFlags::NEGATIVE, result & 0x80 != 0);
        self.registers.accumulator = result;
    }

    /// EOR: `A ^ data` into A.
    fn eor(&mut self, data: u8)
        ensures
            final(self).registers == accumulator_result(
                old(self).registers,
                old(self).registers.accumulator ^ data,
            ),
            final(self).memory == old(self).memory,
    {
        let result = self.registers.accumulator ^ data;
        self.registers.status.set(CpuFlags::ZERO, result == 0);
        self.registers.status.set(CpuFlags::NEGATIVE, result & 0x80 != 0);
        self.registers.accumulator = result;
    }

    /// BIT: tests `data` against A without changing A.
    fn bit(&mut self, data: u8)
        ensures
            final(self).registers == (RegisterBank {
                status: bit_spec(old(self).registers.status, old(self).registers.accumulator, data),
                ..old(self).registers
            }),
            final(self).memory == old(self).memory,
    {
        let result = self.registers.accumulator & data;
        self.registers.status.set(CpuFlags::ZERO, result == 0);
        self.registers.status.set(CpuFlags::NEGATIVE, data & 0x80 != 0);
        self.registers.status.set(CpuFlags::OVERFLOW, data & 0x40 != 0);
    }
}

} // verus!
