use vstd::prelude::*;

use crate::cpu::instruction_set::arithmetic::signed;
use crate::cpu::register_bank::RegisterBank;
use crate::cpu::types::CpuFlags;
use crate::cpu::Cpu;

verus! {

/// Conditional branches on one status flag.
pub trait Branches {
    fn bcc(&mut self, data: u8);

    fn bcs(&mut self, data: u8);

    fn beq(&mut self, data: u8);

    fn bmi(&mut self, data: u8);

    fn bne(&mut self, data: u8);

    fn bpl(&mut self, data: u8);

    fn bvc(&mut self, data: u8);

    fn bvs(&mut self, data: u8);
}

/// `pc` moved by the signed displacement `data`, wrapping at 16 bits.
pub open spec fn displaced(pc: u16, data: u8) -> u16 {
    ((pc + signed(data)) % 0x10000) as u16
}

/// Registers after a branch by `data` taken when `condition` holds.
pub open spec fn branch_spec(r: RegisterBank, data: u8, condition: bool) -> RegisterBank {
    if condition {
        RegisterBank { program_counter: displaced(r.program_counter, data), ..r }
    } else {
        r
    }
}

fn branch_if_condition(cpu: &mut Cpu, data: u8, condition: bool)
    ensures
        final(cpu).registers == branch_spec(old(cpu).registers, data, condition),
        final(cpu).memory == old(cpu).memory,
{
    if condition {
        let pc = cpu.registers.program_counter;
        cpu.registers.program_counter = if data < 0x80 {
            pc.wrapping_add(data as u16)
        } else {
            pc.wrapping_sub(0x100 - data as u16)
        };
    }
}

impl Branches for Cpu {
    /// BCC: branch when CARRY is clear.
    fn bcc(&mut self, data: u8)
        ensures
            final(self).registers == branch_spec(
                old(self).registers,
                data,
                !old(self).registers.status.has(CpuFlags::CARRY),
            ),
            final(self).memory == old(self).memory,
    {
        let condition = !self.registers.status.contains(CpuFlags::CARRY);
        branch_if_condition(self, data, condition);
    }

    /// BCS: branch when CARRY is set.
    fn bcs(&mut self, data: u8)
        ensures
            final(self).registers == branch_spec(
                old(self).registers,
                data,
                old(self).registers.status.has(CpuFlags::CARRY),
            ),
            final(self).memory == old(self).memory,
    {
        let condition = self.registers.status.contains(CpuFlags::CARRY);
        branch_if_condition(self, data, condition);
    }

    /// BEQ: branch when ZERO is set.
    fn beq(&mut self, data: u8)
        ensures
            final(self).registers == branch_spec(
                old(self).registers,
                data,
                old(self).registers.status.has(CpuFlags::ZERO),
            ),
            final(self).memory == old(self).memory,
    {
        let condition = self.registers.status.contains(CpuFlags::ZERO);
        branch_if_condition(self, data, condition);
    }

    /// BMI: branch when NEGATIVE is set.
    fn bmi(&mut self, data: u8)
        ensures
            final(self).registers == branch_spec(
                old(self).registers,
                data,
                old(self).registers.status.has(CpuFlags::NEGATIVE),
            ),
            final(self).memory == old(self).memory,
    {
        let condition = self.registers.status.contains(CpuFlags::NEGATIVE);
        branch_if_condition(self, data, condition);
    }

    /// BNE: branch when ZERO is clear.
    fn bne(&mut self, data: u8)
        ensures
            final(self).registers == branch_spec(
                old(self).registers,
                data,
                !old(self).registers.status.has(CpuFlags::ZERO),
            ),
            final(self).memory == old(self).memory,
    {
        let condition = !self.registers.status.contains(CpuFlags::ZERO);
        branch_if_condition(self, data, condition);
    }

    /// BPL: branch when NEGATIVE is clear.
    fn bpl(&mut self, data: u8)
        ensures
            final(self).registers == branch_spec(
                old(self).registers,
                data,
                !old(self).registers.status.has(CpuFlags::NEGATIVE),
            ),
            final(self).memory == old(self).memory,
    {
        let condition = !self.registers.status.contains(CpuFlags::NEGATIVE);
        branch_if_condition(self, data, condition);
    }

    /// BVC: branch when OVERFLOW is clear.
    fn bvc(&mut self, data: u8)
        ensures
            final(self).registers == branch_spec(
                old(self).registers,
                data,
                !old(self).registers.status.has(CpuFlags::OVERFLOW),
            ),
            final(self).memory == old(self).memory,
    {
        let condition = !self.registers.status.contains(CpuFlags::OVERFLOW);
        branch_if_condition(self, data, condition);
    }

    /// BVS: branch when OVERFLOW is set.
    fn bvs(&mut self, data: u8)
        ensures
            final(self).registers == branch_spec(
                old(self).registers,
                data,
                old(self).registers.status.has(CpuFlags::OVERFLOW),
            ),
            final(self).memory == old(self).memory,
    {
        let condition = self.registers.status.contains(CpuFlags::OVERFLOW);
        branch_if_condition(self, data, condition);
    }
}

} // verus!
