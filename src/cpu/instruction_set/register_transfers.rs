use vstd::prelude::*;

use crate::cpu::register_bank::RegisterBank;
use crate::cpu::types::CpuFlags;
use crate::cpu::Cpu;

verus! {

/// Copies between A, X, Y and the stack pointer.
pub trait RegisterTransfers {
    fn tax(&mut self);

    fn tay(&mut self);

    fn txa(&mut self);

    fn tya(&mut self);

    fn tsx(&mut self);

    fn txs(&mut self);
}

fn raise_flags(cpu: &mut Cpu, value: u8)
    ensures
        final(cpu).registers == (RegisterBank {
            status: old(cpu).registers.status.with_zn(value),
            ..old(cpu).registers
        }),
        final(cpu).memory == old(cpu).memory,
{
    cpu.registers.status.set(CpuFlags::ZERO, value == 0);
    cpu.registers.status.set(CpuFlags::NEGATIVE, value & 0x80 != 0);
}

impl RegisterTransfers for Cpu {
    /// TAX: A into X.
    fn tax(&mut self)
        ensures
            ({
                let v = old(self).registers.accumulator;
                final(self).registers == (RegisterBank {
                    x_register: v,
                    status: old(self).registers.status.with_zn(v),
                    ..old(self).registers
                })
            }),
            final(self).memory == old(self).memory,
    {
        self.registers.x_register = self.registers.accumulator;
        let v = self.registers.x_register;
        raise_flags(self, v);
    }

    /// TAY: A into Y.
    fn tay(&mut self)
        ensures
            ({
                let v = old(self).registers.accumulator;
                final(self).registers == (RegisterBank {
                    y_register: v,
                    status: old(self).registers.status.with_zn(v),
                    ..old(self).registers
                })
            }),
            final(self).memory == old(self).memory,
    {
        self.registers.y_register = self.registers.accumulator;
        let v = self.registers.y_register;
        raise_flags(self, v);
    }

    /// TXA: X into A.
    fn txa(&mut self)
        ensures
            ({
                let v = old(self).registers.x_register;
                final(self).registers == (RegisterBank {
                    accumulator: v,
                    status: old(self).registers.status.with_zn(v),
                    ..old(self).registers
                })
            }),
            final(self).memory == old(self).memory,
    {
        self.registers.accumulator = self.registers.x_register;
        let v = self.registers.accumulator;
        raise_flags(self, v);
    }

    /// TYA: Y into A.
    fn tya(&mut self)
        ensures
            ({
                let v = old(self).registers.y_register;
                final(self).registers == (RegisterBank {
                    accumulator: v,
                    status: old(self).registers.status.with_zn(v),
                    ..old(self).registers
                })
            }),
            final(self).memory == old(self).memory,
    {
        self.registers.accumulator = self.registers.y_register;
        let v = self.registers.accumulator;
        raise_flags(self, v);
    }

    /// TSX: the stack pointer into X.
    fn tsx(&mut self)
        ensures
            ({
                let v = old(self).registers.stack_pointer;
                final(self).registers == (RegisterBank {
                    x_register: v,
                    status: old(self).registers.status.with_zn(v),
                    ..old(self).registers
                })
            }),
            final(self).memory == old(self).memory,
    {
        self.registers.x_register = self.registers.stack_pointer;
        let v = self.registers.x_register;
        raise_flags(self, v);
    }

    /// TXS: X into the stack pointer; no flag changes.
    fn txs(&mut self)
        ensures
            final(self).registers == (RegisterBank {
                stack_pointer: old(self).registers.x_register,
                ..old(self).registers
            }),
            final(self).memory == old(self).memory,
    {
        self.registers.stack_pointer = self.registers.x_register;
    }
}

} // verus!
