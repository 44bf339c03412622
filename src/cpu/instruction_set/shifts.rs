use vstd::prelude::*;

use crate::cpu::register_bank::RegisterBank;
use crate::cpu::types::CpuFlags;
use crate::cpu::Cpu;

verus! {

/// Shifts and rotations of the accumulator or of a byte in memory.
pub trait Shifts {
    fn asl(&mut self, address: u16);

    fn asl_accumulator(&mut self);

    fn lsr(&mut self, address: u16);

    fn lsr_accumulator(&mut self);

    fn rol(&mut self, address: u16);

    fn rol_accumulator(&mut self);

    fn ror(&mut self, address: u16);

    fn ror_accumulator(&mut self);
}

/// The four shift operations.
#[derive(Debug, Clone, Copy, PartialEq, Eq, Structural)]
pub enum ShiftKind {
    Asl,
    Lsr,
    Rol,
    Ror,
}

/// The byte `v` shifted by `kind`, the vacated bit of a rotation filled with `carry`.
pub open spec fn shifted(kind: ShiftKind, v: u8, carry: bool) -> u8 {
    match kind {
        ShiftKind::Asl => ((v * 2) % 256) as u8,
        ShiftKind::Lsr => v / 2,
        ShiftKind::Rol => ((v * 2) % 256 + if carry {
            1int
        } else {
            0
        }) as u8,
        ShiftKind::Ror => (v / 2 + if carry {
            0x80int
        } else {
            0
        }) as u8,
    }
}

/// The bit shifted out of `v`: bit 7 for left shifts, bit 0 for right shifts.
pub open spec fn shifted_out(kind: ShiftKind, v: u8) -> bool {
    match kind {
        ShiftKind::Asl | ShiftKind::Rol => v >= 0x80,
        ShiftKind::Lsr | ShiftKind::Ror => v % 2 == 1,
    }
}

/// Status after shifting `v`: CARRY from the bit shifted out, ZERO and NEGATIVE from the result.
pub open spec fn shift_status(status: CpuFlags, kind: ShiftKind, v: u8) -> CpuFlags {
    status.with(CpuFlags::CARRY, shifted_out(kind, v)).with_zn(
        shifted(kind, v, status.has(CpuFlags::CARRY)),
    )
}

/// Shifts `v` by `kind` with incoming carry `carry`; returns the result and the outgoing carry.
fn shift_value(kind: ShiftKind, v: u8, carry: bool) -> (r: (u8, bool))
    ensures
        r.0 == shifted(kind, v, carry),
        r.1 == shifted_out(kind, v),
{
    match kind {
        ShiftKind::Asl => ((v % 0x80) * 2, v >= 0x80),
        ShiftKind::Lsr => (v / 2, v % 2 == 1),
        ShiftKind::Rol => ((v % 0x80) * 2 + if carry {
            1
        } else {
            0
        }, v >= 0x80),
        ShiftKind::Ror => (v / 2 + if carry {
            0x80
        } else {
            0
        }, v % 2 == 1),
    }
}

fn update_flags(val: u8, has_carry: bool, cpu: &mut Cpu)
    ensures
        final(cpu).registers == (RegisterBank {
            status: old(cpu).registers.status.with(CpuFlags::CARRY, has_carry).with_zn(val),
            ..old(cpu).registers
        }),
        final(cpu).memory == old(cpu).memory,
{
    cpu.registers.status.set(CpuFlags::CARRY, has_carry);
    cpu.registers.status.set(CpuFlags::ZERO, val == 0);
    cpu.registers.status.set(CpuFlags::NEGATIVE, val & 0x80 != 0);
}

/// Shifts the byte at `address` by `kind`.
fn shift_memory(cpu: &mut Cpu, kind: ShiftKind, address: u16)
    ensures
        ({
            let v = old(cpu).memory@[address];
            let st = old(cpu).registers.status;
            &&& final(cpu).memory@ == old(cpu).memory@.insert(
                address,
                shifted(kind, v, st.has(CpuFlags::CARRY)),
            )
            &&& final(cpu).registers == (RegisterBank {
                status: shift_status(st, kind, v),
                ..old(cpu).registers
            })
        }),
{
    let val = cpu.memory.read(address);
    let carry = cpu.registers.status.contains(CpuFlags::CARRY);
    let (result, has_carry) = shift_value(kind, val, carry);
    cpu.memory.write(result, address);
    update_flags(result, has_carry, cpu);
}

/// Shifts the accumulator by `kind`.
fn shift_accumulator(cpu: &mut Cpu, kind: ShiftKind)
    ensures
        ({
            let v = old(cpu).registers.accumulator;
            let st = old(cpu).registers.status;
            final(cpu).registers == (RegisterBank {
                accumulator: shifted(kind, v, st.has(CpuFlags::CARRY)),
                status: shift_status(st, kind, v),
                ..old(cpu).registers
            })
        }),
        final(cpu).memory == old(cpu).memory,
{
    let carry = cpu.registers.status.contains(CpuFlags::CARRY);
    let (result, has_carry) = shift_value(kind, cpu.registers.accumulator, carry);
    cpu.registers.accumulator = result;
    update_flags(result, has_carry, cpu);
}

/// Registers and memory after a shift of the byte at `address`.
pub open spec fn shift_memory_spec(
    r: RegisterBank,
    m: Map<u16, u8>,
    kind: ShiftKind,
    address: u16,
) -> (RegisterBank, Map<u16, u8>) {
    let v = m[address];
    (
        RegisterBank { status: shift_status(r.status, kind, v), ..r },
        m.insert(address, shifted(kind, v, r.status.has(CpuFlags::CARRY))),
    )
}

/// Registers after a shift of the accumulator.
pub open spec fn shift_accumulator_spec(r: RegisterBank, kind: ShiftKind) -> RegisterBank {
    let v = r.accumulator;
    RegisterBank {
        accumulator: shifted(kind, v, r.status.has(CpuFlags::CARRY)),
        status: shift_status(r.status, kind, v),
        ..r
    }
}

impl Shifts for Cpu {
    /// ASL on the byte at `address`.
    fn asl(&mut self, address: u16)
        ensures
            (final(self).registers, final(self).memory@) == shift_memory_spec(
                old(self).registers,
                old(self).memory@,
                ShiftKind::Asl,
                address,
            ),
    {
        shift_memory(self, ShiftKind::Asl, address);
    }

    /// ASL on the accumulator.
    fn asl_accumulator(&mut self)
        ensures
            final(self).registers == shift_accumulator_spec(old(self).registers, ShiftKind::Asl),
            final(self).memory == old(self).memory,
    {
        shift_accumulator(self, ShiftKind::Asl);
    }

    /// LSR on the byte at `address`.
    fn lsr(&mut self, address: u16)
        ensures
            (final(self).registers, final(self).memory@) == shift_memory_spec(
                old(self).registers,
                old(self).memory@,
                ShiftKind::Lsr,
                address,
            ),
    {
        shift_memory(self, ShiftKind::Lsr, address);
    }

    /// LSR on the accumulator.
    fn lsr_accumulator(&mut self)
        ensures
            final(self).registers == shift_accumulator_spec(old(self).registers, ShiftKind::Lsr),
            final(self).memory == old(self).memory,
    {
        shift_accumulator(self, ShiftKind::Lsr);
    }

    /// ROL on the byte at `address`.
    fn rol(&mut self, address: u16)
        ensures
            (final(self).registers, final(self).memory@) == shift_memory_spec(
                old(self).registers,
                old(self).memory@,
                ShiftKind::Rol,
                address,
            ),
    {
        shift_memory(self, ShiftKind::Rol, address);
    }

    /// ROL on the accumulator.
    fn rol_accumulator(&mut self)
        ensures
            final(self).registers == shift_accumulator_spec(old(self).registers, ShiftKind::Rol),
            final(self).memory == old(self).memory,
    {
        shift_accumulator(self, ShiftKind::Rol);
    }

    /// ROR on the byte at `address`.
    fn ror(&mut self, address: u16)
        ensures
            (final(self).registers, final(self).memory@) == shift_memory_spec(
                old(self).registers,
                old(self).memory@,
                ShiftKind::Ror,
                address,
            ),
    {
        shift_memory(self, ShiftKind::Ror, address);
    }

    /// ROR on the accumulator.
    fn ror_accumulator(&mut self)
        ensures
            final(self).registers == shift_accumulator_spec(old(self).registers, ShiftKind::Ror),
            final(self).memory == old(self).memory,
    {
        shift_accumulator(self, ShiftKind::Ror);
    }
}

} // verus!
