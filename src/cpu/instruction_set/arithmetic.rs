use vstd::prelude::*;

use crate::cpu::register_bank::RegisterBank;
use crate::cpu::types::{lemma_with_has, lemma_with_other, negative, CpuFlags};
use crate::cpu::Cpu;

verus! {

/// Add with carry, subtract with carry and the three compares.
pub trait Arithmetic {
    fn adc(&mut self, data: u8);

    fn sbc(&mut self, data: u8);

    fn cmp(&mut self, data: u8);

    fn cpx(&mut self, data: u8);

    fn cpy(&mut self, data: u8);
}

/// The carry flag as the integer 0 or 1.
pub open spec fn carry_in(status: CpuFlags) -> int {
    if status.has(CpuFlags::CARRY) {
        1
    } else {
        0
    }
}

/// A byte read as a two's-complement signed number.
pub open spec fn signed(v: u8) -> int {
    if v < 128 {
        v as int
    } else {
        v - 256
    }
}

/// The byte that ADC leaves in the accumulator: `a + b + carry` modulo 256.
pub open spec fn adc_value(a: u8, b: u8, carry: int) -> u8 {
    ((a + b + carry) % 256) as u8
}

/// Whether the unsigned sum `a + b + carry` does not fit in a byte.
pub open spec fn adc_carry(a: u8, b: u8, carry: int) -> bool {
    a + b + carry > 255
}

/// Whether the signed sum `a + b + carry` falls outside [-128, 127].
pub open spec fn adc_overflow(a: u8, b: u8, carry: int) -> bool {
    !(-128 <= signed(a) + signed(b) + carry <= 127)
}

/// Registers after ADC of `data`.
pub open spec fn adc_spec(r: RegisterBank, data: u8) -> RegisterBank {
    let a = r.accumulator;
    let c = carry_in(r.status);
    let v = adc_value(a, data, c);
    RegisterBank {
        accumulator: v,
        status: r.status.with(CpuFlags::CARRY, adc_carry(a, data, c)).with_zn(v).with(
            CpuFlags::OVERFLOW,
            adc_overflow(a, data, c),
        ),
        ..r
    }
}

/// Registers after SBC of `data`: ADC of the bitwise complement of `data`.
pub open spec fn sbc_spec(r: RegisterBank, data: u8) -> RegisterBank {
    adc_spec(r, !data)
}

/// Status after comparing `register` with `data`: CARRY when `register >= data`,
/// ZERO when they are equal, NEGATIVE from bit 7 of `register - data` (modulo 256).
pub open spec fn compare_spec(status: CpuFlags, register: u8, data: u8) -> CpuFlags {
    status.with(CpuFlags::CARRY, register >= data).with(CpuFlags::ZERO, register == data).with(
        CpuFlags::NEGATIVE,
        negative(register.wrapping_sub(data)),
    )
}

/// The sign-mismatch test used by ADC detects exactly signed overflow.
proof fn lemma_overflow_test(a: u8, b: u8, c: u8)
    requires
        c <= 1,
    ensures
        ((a ^ adc_value(a, b, c as int)) & (b ^ adc_value(a, b, c as int)) & 0x80 != 0)
            == adc_overflow(a, b, c as int),
{
    let r = adc_value(a, b, c as int);
    assert(r == ((a as u16 + b as u16 + c as u16) % 256) as u8);
    assert(((a ^ r) & (b ^ r) & 0x80 != 0) == ((a & 0x80 == b & 0x80) && (r & 0x80 != a & 0x80)))
        by (bit_vector);
    assert(a & 0x80 == 0 <==> a < 128) by (bit_vector);
    assert(b & 0x80 == 0 <==> b < 128) by (bit_vector);
    assert(r & 0x80 == 0 <==> r < 128) by (bit_vector);
    assert(a & 0x80 == 0 || a & 0x80 == 0x80) by (bit_vector);
    assert(b & 0x80 == 0 || b & 0x80 == 0x80) by (bit_vector);
    assert(r & 0x80 == 0 || r & 0x80 == 0x80) by (bit_vector);
}

/// CARRY after ADC is the carry out of the unsigned sum.
proof fn lemma_adc_carry_flag(r: RegisterBank, data: u8)
    ensures
        adc_spec(r, data).status.has(CpuFlags::CARRY) == adc_carry(
            r.accumulator,
            data,
            carry_in(r.status),
        ),
{
    let a = r.accumulator;
    let c = carry_in(r.status);
    let v = adc_value(a, data, c);
    let s1 = r.status.with(CpuFlags::CARRY, adc_carry(a, data, c));
    let s2 = s1.with(CpuFlags::ZERO, v == 0);
    let s3 = s2.with(CpuFlags::NEGATIVE, negative(v));
    assert(0x02u8 & 0x01u8 == 0 && 0x80u8 & 0x01u8 == 0 && 0x40u8 & 0x01u8 == 0) by (bit_vector);
    lemma_with_has(r.status.bits, CpuFlags::CARRY, adc_carry(a, data, c));
    lemma_with_other(s1.bits, CpuFlags::ZERO, CpuFlags::CARRY, v == 0);
    lemma_with_other(s2.bits, CpuFlags::NEGATIVE, CpuFlags::CARRY, negative(v));
    lemma_with_other(s3.bits, CpuFlags::OVERFLOW, CpuFlags::CARRY, adc_overflow(a, data, c));
}

/// SBC subtracts with borrow: A becomes `A - data - (1 - carry)` modulo 256, and CARRY ends
/// up set exactly when that difference is not negative (no borrow).
pub proof fn lemma_sbc_subtracts(r: RegisterBank, data: u8)
    ensures
        sbc_spec(r, data).accumulator as int == (r.accumulator - data - (1 - carry_in(r.status)))
            % 256,
        sbc_spec(r, data).status.has(CpuFlags::CARRY) <==> r.accumulator - data - (1 - carry_in(
            r.status,
        )) >= 0,
{
    assert(!data == 255 - data) by (bit_vector);
    lemma_adc_carry_flag(r, !data);
    let d = r.accumulator - data - (1 - carry_in(r.status));
    assert(r.accumulator + (!data) + carry_in(r.status) == d + 256);
}

/// Adding `data` with carry `c` and then subtracting `data` with the carry flag set to the
/// opposite of `c` gives back the original accumulator.
pub proof fn lemma_adc_then_sbc(r: RegisterBank, data: u8)
    ensures
        ({
            let added = adc_spec(r, data);
            let borrowed = RegisterBank {
                status: added.status.with(CpuFlags::CARRY, !r.status.has(CpuFlags::CARRY)),
                ..added
            };
            sbc_spec(borrowed, data).accumulator == r.accumulator
        }),
{
    let added = adc_spec(r, data);
    let borrowed = RegisterBank {
        status: added.status.with(CpuFlags::CARRY, !r.status.has(CpuFlags::CARRY)),
        ..added
    };
    lemma_with_has(added.status.bits, CpuFlags::CARRY, !r.status.has(CpuFlags::CARRY));
    lemma_sbc_subtracts(borrowed, data);
}

fn compare(cpu: &mut Cpu, register: u8, data: u8)
    ensures
        final(cpu).registers == (RegisterBank {
            status: compare_spec(old(cpu).registers.status, register, data),
            ..old(cpu).registers
        }),
        final(cpu).memory == old(cpu).memory,
{
    cpu.registers.status.update_flag(CpuFlags::CARRY, register >= data);
    cpu.registers.status.update_flag(CpuFlags::ZERO, register == data);
    cpu.registers.status.update_flag(CpuFlags::NEGATIVE, register.wrapping_sub(data) & 0x80 != 0);
}

impl Arithmetic for Cpu {
    /// ADC: `A + data + carry` into A, with CARRY, ZERO, NEGATIVE and OVERFLOW.
    fn adc(&mut self, data: u8)
        ensures
            final(self).registers == adc_spec(old(self).registers, data),
            final(self).memory == old(self).memory,
            final(self).registers.accumulator as int == (old(self).registers.accumulator + data
                + carry_in(old(self).registers.status)) % 256,
            final(self).registers.status.has(CpuFlags::OVERFLOW) <==> !(-128 <= signed(
                old(self).registers.accumulator,
            ) + signed(data) + carry_in(old(self).registers.status) <= 127),
    {
        let carry: u8 = if self.registers.status.contains(CpuFlags::CARRY) {
            1
        } else {
            0
        };
        let a = self.registers.accumulator;
        let sum: u16 = a as u16 + data as u16 + carry as u16;
        let result: u8 = (sum % 256) as u8;
        proof {
            lemma_overflow_test(a, data, carry);
        }
        self.registers.status.update_flag(CpuFlags::CARRY, sum > 255);
        self.registers.status.update_flag(CpuFlags::ZERO, result == 0);
        self.registers.status.update_flag(CpuFlags::NEGATIVE, result & 0x80 != 0);
        // Signed overflow: both operands have one sign and the result the other.
        self.registers.status.update_flag(
            CpuFlags::OVERFLOW,
            (a ^ result) & (data ^ result) & 0x80 != 0,
        );
        self.registers.accumulator = result;
        proof {
            lemma_with_has(
                old(self).registers.status.with(CpuFlags::CARRY, sum > 255).with_zn(result).bits,
                CpuFlags::OVERFLOW,
                adc_overflow(a, data, carry as int),
            );
        }
    }

    /// SBC: ADC of the complement of `data`, so `A - data - (1 - carry)`.
    fn sbc(&mut self, data: u8)
        ensures
            final(self).registers == sbc_spec(old(self).registers, data),
            final(self).memory == old(self).memory,
    {
        self.adc(!data);
    }

    /// CMP: compares A with `data`.
    fn cmp(&mut self, data: u8)
        ensures
            final(self).registers == (RegisterBank {
                status: compare_spec(
                    old(self).registers.status,
                    old(self).registers.accumulator,
                    data,
                ),
                ..old(self).registers
            }),
            final(self).memory == old(self).memory,
    {
        let register = self.registers.accumulator;
        compare(self, register, data);
    }

    /// CPX: compares X with `data`.
    fn cpx(&mut self, data: u8)
        ensures
            final(self).registers == (RegisterBank {
                status: compare_spec(
                    old(self).registers.status,
                    old(self).registers.x_register,
                    data,
                ),
                ..old(self).registers
            }),
            final(self).memory == old(self).memory,
    {
        let register = self.registers.x_register;
        compare(self, register, data);
    }

    /// CPY: compares Y with `data`.
    fn cpy(&mut self, data: u8)
        ensures
            final(self).registers == (RegisterBank {
                status: compare_spec(
                    old(self).registers.status,
                    old(self).registers.y_register,
                    data,
                ),
                ..old(self).registers
            }),
            final(self).memory == old(self).memory,
    {
        let register = self.registers.y_register;
        compare(self, register, data);
    }
}

} // verus!
