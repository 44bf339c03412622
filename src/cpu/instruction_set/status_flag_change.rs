use vstd::prelude::*;

use crate::cpu::register_bank::RegisterBank;
use crate::cpu::types::CpuFlags;
use crate::cpu::Cpu;

verus! {

/// Instructions that set or clear one status flag.
pub trait StatusFlagChange {
    fn clc(&mut self);

    fn cld(&mut self);

    fn cli(&mut self);

    fn clv(&mut self);

    fn sec(&mut self);

    fn sed(&mut self);

    fn sei(&mut self);
}

/// Registers with the flag `mask` set or cleared according to `on`.
pub open spec fn flag_spec(r: RegisterBank, mask: u8, on: bool) -> RegisterBank {
    RegisterBank { status: r.status.with(mask, on), ..r }
}

impl StatusFlagChange for Cpu {
    /// CLC: clears CARRY.
    fn clc(&mut self)
        ensures
            final(self).registers == flag_spec(old(self).registers, CpuFlags::CARRY, false),
            final(self).memory == old(self).memory,
    {
        self.registers.status.remove(CpuFlags::CARRY);
    }

    /// CLD: clears DECIMAL_MODE.
    fn cld(&mut self)
        ensures
            final(self).registers == flag_spec(old(self).registers, CpuFlags::DECIMAL_MODE, false),
            final(self).memory == old(self).memory,
    {
        self.registers.status.remove(CpuFlags::DECIMAL_MODE);
    }

    /// CLI: clears INTERRUPT_DISABLE.
    fn cli(&mut self)
        ensures
            final(self).registers == flag_spec(
                old(self).registers,
                CpuFlags::INTERRUPT_DISABLE,
                false,
            ),
            final(self).memory == old(self).memory,
    {
        self.registers.status.remove(CpuFlags::INTERRUPT_DISABLE);
    }

    /// CLV: clears OVERFLOW.
    fn clv(&mut self)
        ensures
            final(self).registers == flag_spec(old(self).registers, CpuFlags::OVERFLOW, false),
            final(self).memory == old(self).memory,
    {
        self.registers.status.remove(CpuFlags::OVERFLOW);
    }

    /// SEC: sets CARRY.
    fn sec(&mut self)
        ensures
            final(self).registers == flag_spec(old(self).registers, CpuFlags::CARRY, true),
            final(self).memory == old(self).memory,
    {
        self.registers.status.insert(CpuFlags::CARRY);
    }

    /// SED: sets DECIMAL_MODE.
    fn sed(&mut self)
        ensures
            final(self).registers == flag_spec(old(self).registers, CpuFlags::DECIMAL_MODE, true),
            final(self).memory == old(self).memory,
    {
        self.registers.status.insert(CpuFlags::DECIMAL_MODE);
    }

    /// SEI: sets INTERRUPT_DISABLE.
    fn sei(&mut self)
        ensures
            final(self).registers == flag_spec(
                old(self).registers,
                CpuFlags::INTERRUPT_DISABLE,
                true,
            ),
            final(self).memory == old(self).memory,
    {
        self.registers.status.insert(CpuFlags::INTERRUPT_DISABLE);
    }
}

} // verus!
