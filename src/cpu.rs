use vstd::prelude::*;

pub mod instruction_set;
pub mod opcode;
pub mod register_bank;
pub mod types;

use crate::memory::types::AddressingMode;
use crate::memory::{word_at, Memory};

use instruction_set::arithmetic::{adc_spec, compare_spec, sbc_spec, Arithmetic};
use instruction_set::branches::{branch_spec, Branches};
use instruction_set::increments_decrements::IncrementsDecrements;
use instruction_set::jumps_calls::{jsr_memory, jsr_return_address, rts_spec, JumpsCalls};
use instruction_set::load_store::LoadStore;
use instruction_set::logical::{accumulator_result, bit_spec, Logical};
use instruction_set::register_transfers::RegisterTransfers;
use instruction_set::shifts::{shift_accumulator_spec, shift_memory_spec, ShiftKind, Shifts};
use instruction_set::stack_operations::StackOperations;
use instruction_set::status_flag_change::{flag_spec, StatusFlagChange};
use instruction_set::system_functions::{rti_spec, SystemFunctions};
use opcode::{decode, Opcode};
use register_bank::{stack_slot, RegisterBank};
use types::{CpuFlags, InstructionError};

verus! {

/// The processor: its registers and the memory it owns.
pub struct Cpu {
    pub registers: RegisterBank,
    pub memory: Memory,
}

/// The effective address of an operand in `mode`, with the program counter of `r` just
/// past the opcode byte. Accumulator and Implicit designate no address.
pub open spec fn effective_address(r: RegisterBank, m: Map<u16, u8>, mode: AddressingMode) -> u16 {
    let pc = r.program_counter;
    match mode {
        AddressingMode::Absolute => word_at(m, pc),
        AddressingMode::AbsoluteX => ((word_at(m, pc) + r.x_register) % 0x10000) as u16,
        AddressingMode::AbsoluteY => ((word_at(m, pc) + r.y_register) % 0x10000) as u16,
        AddressingMode::Indirect => word_at(m, word_at(m, pc)),
        AddressingMode::IndirectX => word_at(m, ((m[pc] + r.x_register) % 0x100) as u16),
        AddressingMode::IndirectY => ((word_at(m, m[pc] as u16) + r.y_register) % 0x10000) as u16,
        AddressingMode::ZeroPage => m[pc] as u16,
        AddressingMode::ZeroPageX => ((m[pc] + r.x_register) % 0x100) as u16,
        AddressingMode::ZeroPageY => ((m[pc] + r.y_register) % 0x100) as u16,
        _ => pc,
    }
}

/// Zero-page indexed addressing wraps within page zero: the operand byte plus the index,
/// modulo 256.
pub proof fn lemma_zero_page_indexed_wraps(r: RegisterBank, m: Map<u16, u8>)
    ensures
        effective_address(r, m, AddressingMode::ZeroPageX) < 0x100,
        effective_address(r, m, AddressingMode::ZeroPageY) < 0x100,
        effective_address(r, m, AddressingMode::ZeroPageX) == (m[r.program_counter]
            + r.x_register) % 0x100,
        effective_address(r, m, AddressingMode::ZeroPageY) == (m[r.program_counter]
            + r.y_register) % 0x100,
{
}

/// Absolute indexed addressing adds the index to the whole 16-bit address, so the result
/// may lie in the next page; it wraps only at the end of the address space.
pub proof fn lemma_absolute_indexed_crosses_pages(r: RegisterBank, m: Map<u16, u8>)
    ensures
        word_at(m, r.program_counter) + r.x_register <= 0xFFFF ==> effective_address(
            r,
            m,
            AddressingMode::AbsoluteX,
        ) == word_at(m, r.program_counter) + r.x_register,
        word_at(m, r.program_counter) + r.y_register <= 0xFFFF ==> effective_address(
            r,
            m,
            AddressingMode::AbsoluteY,
        ) == word_at(m, r.program_counter) + r.y_register,
{
}

/// Registers and memory after the instruction `o` ran, the program counter of `r` being
/// just past its opcode byte, before the program counter moves past the operand.
#[verifier::opaque]
pub open spec fn dispatch(o: Opcode, r: RegisterBank, m: Map<u16, u8>) -> (
    RegisterBank,
    Map<u16, u8>,
) {
    let ea = effective_address(r, m, o.mode());
    let data = m[ea];
    let st = r.status;
    let sp = r.stack_pointer;
    match o {
        Opcode::Adc(_, _) => (adc_spec(r, data), m),
        Opcode::Sbc(_, _) => (sbc_spec(r, data), m),
        Opcode::Cmp(_, _) => (
            RegisterBank { status: compare_spec(st, r.accumulator, data), ..r },
            m,
        ),
        Opcode::Cpx(_, _) => (
            RegisterBank { status: compare_spec(st, r.x_register, data), ..r },
            m,
        ),
        Opcode::Cpy(_, _) => (
            RegisterBank { status: compare_spec(st, r.y_register, data), ..r },
            m,
        ),
        Opcode::And(_, _) => (accumulator_result(r, r.accumulator & data), m),
        Opcode::Ora(_, _) => (accumulator_result(r, r.accumulator | data), m),
        Opcode::Eor(_, _) => (accumulator_result(r, r.accumulator ^ data), m),
        Opcode::Bit(_, _) => (RegisterBank { status: bit_spec(st, r.accumulator, data), ..r }, m),
        Opcode::Lda(_, _) => (RegisterBank { accumulator: data, status: st.with_zn(data), ..r }, m),
        Opcode::Ldx(_, _) => (RegisterBank { x_register: data, status: st.with_zn(data), ..r }, m),
        Opcode::Ldy(_, _) => (RegisterBank { y_register: data, status: st.with_zn(data), ..r }, m),
        Opcode::Sta(_, _) => (r, m.insert(ea, r.accumulator)),
        Opcode::Stx(_, _) => (r, m.insert(ea, r.x_register)),
        Opcode::Sty(_, _) => (r, m.insert(ea, r.y_register)),
        Opcode::Clc(_, _) => (flag_spec(r, CpuFlags::CARRY, false), m),
        Opcode::Cld(_, _) => (flag_spec(r, CpuFlags::DECIMAL_MODE, false), m),
        Opcode::Cli(_, _) => (flag_spec(r, CpuFlags::INTERRUPT_DISABLE, false), m),
        Opcode::Clv(_, _) => (flag_spec(r, CpuFlags::OVERFLOW, false), m),
        Opcode::Sec(_, _) => (flag_spec(r, CpuFlags::CARRY, true), m),
        Opcode::Sed(_, _) => (flag_spec(r, CpuFlags::DECIMAL_MODE, true), m),
        Opcode::Sei(_, _) => (flag_spec(r, CpuFlags::INTERRUPT_DISABLE, true), m),
        Opcode::Bpl(_, _) => (branch_spec(r, data, !st.has(CpuFlags::NEGATIVE)), m),
        Opcode::Bmi(_, _) => (branch_spec(r, data, st.has(CpuFlags::NEGATIVE)), m),
        Opcode::Bvc(_, _) => (branch_spec(r, data, !st.has(CpuFlags::OVERFLOW)), m),
        Opcode::Bvs(_, _) => (branch_spec(r, data, st.has(CpuFlags::OVERFLOW)), m),
        Opcode::Bcc(_, _) => (branch_spec(r, data, !st.has(CpuFlags::CARRY)), m),
        Opcode::Bcs(_, _) => (branch_spec(r, data, st.has(CpuFlags::CARRY)), m),
        Opcode::Bne(_, _) => (branch_spec(r, data, !st.has(CpuFlags::ZERO)), m),
        Opcode::Beq(_, _) => (branch_spec(r, data, st.has(CpuFlags::ZERO)), m),
        Opcode::Tax(_, _) => (RegisterBank {
            x_register: r.accumulator,
            status: st.with_zn(r.accumulator),
            ..r
        }, m),
        Opcode::Tay(_, _) => (RegisterBank {
            y_register: r.accumulator,
            status: st.with_zn(r.accumulator),
            ..r
        }, m),
        Opcode::Txa(_, _) => (RegisterBank {
            accumulator: r.x_register,
            status: st.with_zn(r.x_register),
            ..r
        }, m),
        Opcode::Tya(_, _) => (RegisterBank {
            accumulator: r.y_register,
            status: st.with_zn(r.y_register),
            ..r
        }, m),
        Opcode::Tsx(_, _) => (RegisterBank { x_register: sp, status: st.with_zn(sp), ..r }, m),
        Opcode::Txs(_, _) => (RegisterBank { stack_pointer: r.x_register, ..r }, m),
        Opcode::Inc(_, _) => {
            let v = data.wrapping_add(1);
            (RegisterBank { status: st.with_zn(v), ..r }, m.insert(ea, v))
        },
        Opcode::Dec(_, _) => {
            let v = data.wrapping_sub(1);
            (RegisterBank { status: st.with_zn(v), ..r }, m.insert(ea, v))
        },
        Opcode::Inx(_, _) => {
            let v = r.x_register.wrapping_add(1);
            (RegisterBank { x_register: v, status: st.with_zn(v), ..r }, m)
        },
        Opcode::Iny(_, _) => {
            let v = r.y_register.wrapping_add(1);
            (RegisterBank { y_register: v, status: st.with_zn(v), ..r }, m)
        },
        Opcode::Dex(_, _) => {
            let v = r.x_register.wrapping_sub(1);
            (RegisterBank { x_register: v, status: st.with_zn(v), ..r }, m)
        },
        Opcode::Dey(_, _) => {
            let v = r.y_register.wrapping_sub(1);
            (RegisterBank { y_register: v, status: st.with_zn(v), ..r }, m)
        },
        Opcode::Asl(_, mode) => shift(r, m, ShiftKind::Asl, mode, ea),
        Opcode::Lsr(_, mode) => shift(r, m, ShiftKind::Lsr, mode, ea),
        Opcode::Rol(_, mode) => shift(r, m, ShiftKind::Rol, mode, ea),
        Opcode::Ror(_, mode) => shift(r, m, ShiftKind::Ror, mode, ea),
        Opcode::Jmp(_, _) => (RegisterBank { program_counter: ea, ..r }, m),
        Opcode::Jsr(_, mode) => (
            RegisterBank { program_counter: ea, stack_pointer: sp.wrapping_sub(2), ..r },
            jsr_memory(m, sp, jsr_return_address(r.program_counter, mode.size())),
        ),
        Opcode::Rts(_, _) => {
            let back = rts_spec(r, m);
            (RegisterBank { program_counter: back.program_counter.wrapping_add(1), ..back }, m)
        },
        Opcode::Brk(_, _) => (RegisterBank { status: st.with(CpuFlags::BREAK, true), ..r }, m),
        Opcode::Rti(_, _) => (rti_spec(r, m), m),
        Opcode::Nop(_, _) => (r, m),
        Opcode::Pha(_, _) => (
            RegisterBank { stack_pointer: sp.wrapping_sub(1), ..r },
            m.insert(stack_slot(sp), r.accumulator),
        ),
        Opcode::Php(_, _) => (
            RegisterBank { stack_pointer: sp.wrapping_sub(1), ..r },
            m.insert(stack_slot(sp), st.bits),
        ),
        Opcode::Pla(_, _) => {
            let v = m[stack_slot(sp.wrapping_add(1))];
            (
                RegisterBank {
                    stack_pointer: sp.wrapping_add(1),
                    accumulator: v,
                    status: st.with_zn(v),
                    ..r
                },
                m,
            )
        },
        Opcode::Plp(_, _) => (
            RegisterBank {
                stack_pointer: sp.wrapping_add(1),
                status: CpuFlags { bits: m[stack_slot(sp.wrapping_add(1))] },
                ..r
            },
            m,
        ),
    }
}

/// A shift of the accumulator in Accumulator mode, of the byte at `ea` otherwise.
pub open spec fn shift(
    r: RegisterBank,
    m: Map<u16, u8>,
    kind: ShiftKind,
    mode: AddressingMode,
    ea: u16,
) -> (RegisterBank, Map<u16, u8>) {
    if mode is Accumulator {
        (shift_accumulator_spec(r, kind), m)
    } else {
        shift_memory_spec(r, m, kind, ea)
    }
}

/// Registers after the program counter moved past the operand bytes of `o`,
/// except for jumps and calls, which set it themselves.
pub open spec fn advance(o: Opcode, r: RegisterBank) -> RegisterBank {
    if o.is_jump() {
        r
    } else {
        RegisterBank {
            program_counter: ((r.program_counter + o.mode().size() - 1) % 0x10000) as u16,
            ..r
        }
    }
}

/// One instruction step for the opcode byte `op` fetched at the program counter of `r`:
/// decode, move past the opcode byte, run the instruction, move past the operand.
pub open spec fn execute_spec(op: u8, r: RegisterBank, m: Map<u16, u8>) -> Result<
    (RegisterBank, Map<u16, u8>),
    InstructionError,
> {
    match decode(op) {
        None => Err(InstructionError::InvalidOpcode(op)),
        Some(o) => {
            let fetched = RegisterBank {
                program_counter: r.program_counter.wrapping_add(1),
                ..r
            };
            let (r2, m2) = dispatch(o, fetched, m);
            Ok((advance(o, r2), m2))
        },
    }
}

/// The run loop from (r, m) for at most `n` instructions: `Some(Ok(..))` with the state
/// after the halting BRK, `Some(Err(..))` with the error that stopped it and the state
/// before the failing instruction (the program counter at its opcode byte, the effects of
/// the earlier instructions kept), `None` when it is still running after `n` instructions.
pub open spec fn run_spec(r: RegisterBank, m: Map<u16, u8>, n: int) -> Option<
    Result<(RegisterBank, Map<u16, u8>), (InstructionError, RegisterBank, Map<u16, u8>)>,
>
    decreases n,
{
    if m[r.program_counter] == opcode::BRK {
        Some(Ok((RegisterBank { program_counter: r.program_counter.wrapping_add(1), ..r }, m)))
    } else if n <= 0 {
        None
    } else {
        match execute_spec(m[r.program_counter], r, m) {
            Err(e) => Some(Err((e, r, m))),
            Ok((r2, m2)) => run_spec(r2, m2, n - 1),
        }
    }
}

/// One more instruction at the front of a run: the rest runs from the next state.
pub proof fn lemma_run_step(r: RegisterBank, m: Map<u16, u8>, n: int)
    requires
        n >= 0,
        m[r.program_counter] != opcode::BRK,
        execute_spec(m[r.program_counter], r, m) is Ok,
    ensures
        run_spec(r, m, n + 1) == run_spec(
            execute_spec(m[r.program_counter], r, m)->Ok_0.0,
            execute_spec(m[r.program_counter], r, m)->Ok_0.1,
            n,
        ),
{
}

/// JSR to the address `T` stored after its opcode at `S`, then the RTS found at `T`: the
/// program counter ends at `S + 3`, the instruction after the JSR, and the stack pointer
/// is back where it was. The RTS byte must not be one of the two stack slots JSR writes.
pub proof fn lemma_jsr_rts_round_trip(r: RegisterBank, m: Map<u16, u8>)
    requires
        m[r.program_counter] == opcode::JSR_ABSOLUTE,
        m[word_at(m, r.program_counter.wrapping_add(1))] == opcode::RTS,
        word_at(m, r.program_counter.wrapping_add(1)) != stack_slot(r.stack_pointer),
        word_at(m, r.program_counter.wrapping_add(1)) != stack_slot(
            r.stack_pointer.wrapping_sub(1),
        ),
    ensures
        ({
            let first = execute_spec(m[r.program_counter], r, m);
            let r1 = first->Ok_0.0;
            let m1 = first->Ok_0.1;
            let second = execute_spec(m1[r1.program_counter], r1, m1);
            &&& first is Ok
            &&& r1.program_counter == word_at(m, r.program_counter.wrapping_add(1))
            &&& second is Ok
            &&& second->Ok_0.0.program_counter == ((r.program_counter + 3) % 0x10000) as u16
            &&& second->Ok_0.0.stack_pointer == r.stack_pointer
        }),
{
    reveal(dispatch);
    let s = r.program_counter;
    let sp = r.stack_pointer;
    let t = word_at(m, s.wrapping_add(1));
    let ret = jsr_return_address(s.wrapping_add(1), 3);
    let m1 = jsr_memory(m, sp, ret);
    assert(m1[t] == opcode::RTS);
    assert(stack_slot(sp) != stack_slot(sp.wrapping_sub(1)));
    assert(m1[stack_slot(sp.wrapping_sub(2).wrapping_add(1))] == (ret % 256) as u8);
    assert(m1[stack_slot(sp.wrapping_sub(2).wrapping_add(2))] == (ret / 256) as u8);
}

impl Cpu {
    /// A processor with power-on registers and zeroed memory.
    pub fn new() -> (r: Self)
        ensures
            r.registers == RegisterBank::initial(),
            r.memory@ == crate::memory::zeroed(),
    {
        Cpu { registers: RegisterBank::new(), memory: Memory::new() }
    }

    /// A processor built from the given memory and registers.
    pub fn new_with_parameters(memory: Memory, registers: RegisterBank) -> (r: Self)
        ensures
            r.registers == registers,
            r.memory == memory,
    {
        Cpu { registers, memory }
    }

    /// Runs instructions from the program counter until a BRK byte is fetched (the program
    /// counter then moves past it) or an instruction fails. A run that has neither halted
    /// nor failed after `u64::MAX` instructions stops with `FatalError`.
    pub fn execute_program(&mut self) -> (r: Result<(), InstructionError>)
        ensures
            r is Ok ==> exists|n: int|
                #[trigger] run_spec(old(self).registers, old(self).memory@, n) == Some(
                    Ok::<_, (InstructionError, RegisterBank, Map<u16, u8>)>(
                        (final(self).registers, final(self).memory@),
                    ),
                ),
            r is Err ==> (exists|n: int|
                #[trigger] run_spec(old(self).registers, old(self).memory@, n) == Some(
                    Err::<(RegisterBank, Map<u16, u8>), _>(
                        (r->Err_0, final(self).registers, final(self).memory@),
                    ),
                )) || (r->Err_0 is FatalError && run_spec(
                old(self).registers,
                old(self).memory@,
                u64::MAX as int,
            ) is None),
    {
        let ghost r0 = self.registers;
        let ghost m0 = self.memory@;
        let mut steps: u64 = 0;
        loop
            invariant
                r0 == old(self).registers,
                m0 == old(self).memory@,
                forall|k: int|
                    k >= 0 ==> run_spec(r0, m0, steps + k) == #[trigger] run_spec(
                        self.registers,
                        self.memory@,
                        k,
                    ),
            decreases u64::MAX - steps,
        {
            let opcode = self.memory.read(self.registers.program_counter);
            let ghost r1 = self.registers;
            let ghost m1 = self.memory@;
            assert(run_spec(r0, m0, steps + 0) == run_spec(r1, m1, 0));
            if opcode == opcode::BRK {
                self.registers.program_counter = self.registers.program_counter.wrapping_add(1);
                assert(run_spec(r0, m0, steps as int) == Some(
                    Ok::<_, (InstructionError, RegisterBank, Map<u16, u8>)>(
                        (self.registers, self.memory@),
                    ),
                ));
                return Ok(());
            }
            if steps == u64::MAX {
                assert(run_spec(r0, m0, u64::MAX as int) is None);
                return Err(InstructionError::FatalError("step limit reached".to_owned()));
            }
            match self.execute_instruction(opcode) {
                Err(instruction_error) => {
                    assert(run_spec(r0, m0, steps + 1) == run_spec(r1, m1, 1));
                    assert(run_spec(r0, m0, steps + 1) == Some(
                        Err::<(RegisterBank, Map<u16, u8>), _>(
                            (instruction_error, self.registers, self.memory@),
                        ),
                    ));
                    return Err(instruction_error);
                },
                Ok(_) => {},
            }
            proof {
                assert forall|k: int|
                    k >= 0 implies run_spec(r0, m0, (steps + 1) + k) == #[trigger] run_spec(
                        self.registers,
                        self.memory@,
                        k,
                    ) by {
                    lemma_run_step(r1, m1, k);
                    assert(run_spec(r0, m0, steps + (k + 1)) == run_spec(r1, m1, k + 1));
                    assert(steps + (k + 1) == (steps + 1) + k);
                }
            }
            steps = steps + 1;
        }
    }

    /// Decodes and runs the instruction with opcode byte `op`, the program counter pointing
    /// at that byte; fails with `InvalidOpcode` when `op` encodes no instruction.
    pub fn execute_instruction(&mut self, op: u8) -> (r: Result<(), InstructionError>)
        ensures
            match execute_spec(op, old(self).registers, old(self).memory@) {
                Ok((regs, mem)) => r is Ok && final(self).registers == regs && final(self).memory@
                    == mem,
                Err(e) => r == Err::<(), _>(e) && final(self).registers == old(self).registers
                    && final(self).memory == old(self).memory,
            },
    {
        if let Some(opcode) = Opcode::from_u8(op) {
            self.registers.program_counter = self.registers.program_counter.wrapping_add(1);
            let mode = opcode.addressing_mode();
            match opcode {
                Opcode::Adc(_, _) | Opcode::Sbc(_, _) | Opcode::Cmp(_, _) | Opcode::Cpx(_, _)
                | Opcode::Cpy(_, _) | Opcode::Bcc(_, _) | Opcode::Bcs(_, _) | Opcode::Beq(_, _)
                | Opcode::Bmi(_, _) | Opcode::Bne(_, _) | Opcode::Bpl(_, _) | Opcode::Bvc(_, _)
                | Opcode::Bvs(_, _) | Opcode::Lda(_, _) | Opcode::Ldx(_, _) | Opcode::Ldy(_, _)
                | Opcode::And(_, _) | Opcode::Ora(_, _) | Opcode::Eor(_, _) | Opcode::Bit(_, _) => {
                    self.run_operand_instruction(opcode)
                },
                Opcode::Inc(_, _) | Opcode::Dec(_, _) | Opcode::Jmp(_, _) | Opcode::Jsr(_, _)
                | Opcode::Sta(_, _) | Opcode::Stx(_, _) | Opcode::Sty(_, _) => {
                    self.run_address_instruction(opcode)
                },
                Opcode::Asl(_, _) | Opcode::Lsr(_, _) | Opcode::Rol(_, _) | Opcode::Ror(_, _) => {
                    self.run_shift_instruction(opcode)
                },
                Opcode::Inx(_, _) | Opcode::Iny(_, _) | Opcode::Dex(_, _) | Opcode::Dey(_, _)
                | Opcode::Rts(_, _) | Opcode::Tax(_, _) | Opcode::Tay(_, _) | Opcode::Txa(_, _)
                | Opcode::Tya(_, _) | Opcode::Tsx(_, _) | Opcode::Txs(_, _) | Opcode::Pha(_, _)
                | Opcode::Php(_, _) | Opcode::Pla(_, _) | Opcode::Plp(_, _) | Opcode::Clc(_, _)
                | Opcode::Cld(_, _) | Opcode::Cli(_, _) | Opcode::Clv(_, _) | Opcode::Sec(_, _)
                | Opcode::Sed(_, _) | Opcode::Sei(_, _) | Opcode::Brk(_, _) | Opcode::Rti(_, _)
                | Opcode::Nop(_, _) => {
                    self.run_implied_instruction(opcode)
                },
            }
            // Jumps and calls set the program counter to the next instruction themselves.
            if !opcode.is_jump_instruction() {
                self.registers.program_counter = self.registers.program_counter.wrapping_add(
                    mode.byte_size() as u16 - 1,
                );
            }
            Ok(())
        } else {
            Err(InstructionError::InvalidOpcode(op))
        }
    }

    /// Runs an instruction that reads its operand byte.
    fn run_operand_instruction(&mut self, opcode: Opcode)
        requires
            opcode.resolvable(),
            opcode is Adc || opcode is Sbc || opcode is Cmp || opcode is Cpx || opcode is Cpy
                || opcode is Bcc || opcode is Bcs || opcode is Beq || opcode is Bmi
                || opcode is Bne || opcode is Bpl || opcode is Bvc || opcode is Bvs
                || opcode is Lda || opcode is Ldx || opcode is Ldy || opcode is And
                || opcode is Ora || opcode is Eor || opcode is Bit,
        ensures
            (final(self).registers, final(self).memory@) == dispatch(
                opcode,
                old(self).registers,
                old(self).memory@,
            ),
    {
        reveal(dispatch);
        match opcode {
            Opcode::Adc(_, addressing_mode) => {
                let data = self.operand(addressing_mode);
                self.adc(data);
            },
            Opcode::Sbc(_, addressing_mode) => {
                let data = self.operand(addressing_mode);
                self.sbc(data);
            },
            Opcode::Cmp(_, addressing_mode) => {
                let data = self.operand(addressing_mode);
                self.cmp(data);
            },
            Opcode::Cpx(_, addressing_mode) => {
                let data = self.operand(addressing_mode);
                self.cpx(data);
            },
            Opcode::Cpy(_, addressing_mode) => {
                let data = self.operand(addressing_mode);
                self.cpy(data);
            },
            Opcode::Bcc(_, addressing_mode) => {
                let data = self.operand(addressing_mode);
                self.bcc(data);
            },
            Opcode::Bcs(_, addressing_mode) => {
                let data = self.operand(addressing_mode);
                self.bcs(data);
            },
            Opcode::Beq(_, addressing_mode) => {
                let data = self.operand(addressing_mode);
                self.beq(data);
            },
            Opcode::Bmi(_, addressing_mode) => {
                let data = self.operand(addressing_mode);
                self.bmi(data);
            },
            Opcode::Bne(_, addressing_mode) => {
                let data = self.operand(addressing_mode);
                self.bne(data);
            },
            Opcode::Bpl(_, addressing_mode) => {
                let data = self.operand(addressing_mode);
                self.bpl(data);
            },
            Opcode::Bvc(_, addressing_mode) => {
                let data = self.operand(addressing_mode);
                self.bvc(data);
            },
            Opcode::Bvs(_, addressing_mode) => {
                let data = self.operand(addressing_mode);
                self.bvs(data);
            },
            Opcode::Lda(_, addressing_mode) => {
                let data = self.operand(addressing_mode);
                self.lda(data);
            },
            Opcode::Ldx(_, addressing_mode) => {
                let data = self.operand(addressing_mode);
                self.ldx(data);
            },
            Opcode::Ldy(_, addressing_mode) => {
                let data = self.operand(addressing_mode);
                self.ldy(data);
            },
            Opcode::And(_, addressing_mode) => {
                let data = self.operand(addressing_mode);
                self.and(data);
            },
            Opcode::Ora(_, addressing_mode) => {
                let data = self.operand(addressing_mode);
                self.ora(data);
            },
            Opcode::Eor(_, addressing_mode) => {
                let data = self.operand(addressing_mode);
                self.eor(data);
            },
            Opcode::Bit(_, addressing_mode) => {
                let data = self.operand(addressing_mode);
                self.bit(data);
            },
            _ => {},
        }
    }

    /// Runs an instruction that acts on its effective address.
    fn run_address_instruction(&mut self, opcode: Opcode)
        requires
            opcode.resolvable(),
            opcode is Inc || opcode is Dec || opcode is Jmp || opcode is Jsr || opcode is Sta
                || opcode is Stx || opcode is Sty,
        ensures
            (final(self).registers, final(self).memory@) == dispatch(
                opcode,
                old(self).registers,
                old(self).memory@,
            ),
    {
        reveal(dispatch);
        match opcode {
            Opcode::Inc(_, addressing_mode) => {
                let address = self.calculate_address(addressing_mode);
                self.inc(address);
            },
            Opcode::Dec(_, addressing_mode) => {
                let address = self.calculate_address(addressing_mode);
                self.dec(address);
            },
            Opcode::Jmp(_, addressing_mode) => {
                let address = self.calculate_address(addressing_mode);
                self.jmp(address);
            },
            Opcode::Jsr(_, addressing_mode) => {
                let address = self.calculate_address(addressing_mode);
                self.jsr(address, addressing_mode.byte_size());
            },
            Opcode::Sta(_, addressing_mode) => {
                let address = self.calculate_address(addressing_mode);
                self.sta(address);
            },
            Opcode::Stx(_, addressing_mode) => {
                let address = self.calculate_address(addressing_mode);
                self.stx(address);
            },
            Opcode::Sty(_, addressing_mode) => {
                let address = self.calculate_address(addressing_mode);
                self.sty(address);
            },
            _ => {},
        }
    }

    /// Runs a shift or rotation, of the accumulator or of a byte in memory.
    fn run_shift_instruction(&mut self, opcode: Opcode)
        requires
            opcode.resolvable(),
            opcode is Asl || opcode is Lsr || opcode is Rol || opcode is Ror,
        ensures
            (final(self).registers, final(self).memory@) == dispatch(
                opcode,
                old(self).registers,
                old(self).memory@,
            ),
    {
        reveal(dispatch);
        match opcode {
            Opcode::Asl(_, addressing_mode) => {
                if addressing_mode == AddressingMode::Accumulator {
                    self.asl_accumulator();
                } else {
                    let address = self.calculate_address(addressing_mode);
                    self.asl(address);
                }
            },
            Opcode::Lsr(_, addressing_mode) => {
                if addressing_mode == AddressingMode::Accumulator {
                    self.lsr_accumulator();
                } else {
                    let address = self.calculate_address(addressing_mode);
                    self.lsr(address);
                }
            },
            Opcode::Rol(_, addressing_mode) => {
                if addressing_mode == AddressingMode::Accumulator {
                    self.rol_accumulator();
                } else {
                    let address = self.calculate_address(addressing_mode);
                    self.rol(address);
                }
            },
            Opcode::Ror(_, addressing_mode) => {
                if addressing_mode == AddressingMode::Accumulator {
                    self.ror_accumulator();
                } else {
                    let address = self.calculate_address(addressing_mode);
                    self.ror(address);
                }
            },
            _ => {},
        }
    }

    /// Runs an instruction that resolves no operand.
    fn run_implied_instruction(&mut self, opcode: Opcode)
        requires
            opcode.resolvable(),
            opcode is Inx || opcode is Iny || opcode is Dex || opcode is Dey || opcode is Rts
                || opcode is Tax || opcode is Tay || opcode is Txa || opcode is Tya
                || opcode is Tsx || opcode is Txs || opcode is Pha || opcode is Php
                || opcode is Pla || opcode is Plp || opcode is Clc || opcode is Cld
                || opcode is Cli || opcode is Clv || opcode is Sec || opcode is Sed
                || opcode is Sei || opcode is Brk || opcode is Rti || opcode is Nop,
        ensures
            (final(self).registers, final(self).memory@) == dispatch(
                opcode,
                old(self).registers,
                old(self).memory@,
            ),
    {
        reveal(dispatch);
        match opcode {
            Opcode::Inx(_, _) => {
                self.inx();
            },
            Opcode::Iny(_, _) => {
                self.iny();
            },
            Opcode::Dex(_, _) => {
                self.dex();
            },
            Opcode::Dey(_, _) => {
                self.dey();
            },
            Opcode::Rts(_, _) => {
                self.rts();
                // The stack holds the address of the last byte of the JSR instruction:
                // one more byte reaches the instruction after it.
                self.registers.program_counter = self.registers.program_counter.wrapping_add(
                    1,
                );
            },
            Opcode::Tax(_, _) => {
                self.tax();
            },
            Opcode::Tay(_, _) => {
                self.tay();
            },
            Opcode::Txa(_, _) => {
                self.txa();
            },
            Opcode::Tya(_, _) => {
                self.tya();
            },
            Opcode::Tsx(_, _) => {
                self.tsx();
            },
            Opcode::Txs(_, _) => {
                self.txs();
            },
            Opcode::Pha(_, _) => {
                self.pha();
            },
            Opcode::Php(_, _) => {
                self.php();
            },
            Opcode::Pla(_, _) => {
                self.pla();
            },
            Opcode::Plp(_, _) => {
                self.plp();
            },
            Opcode::Clc(_, _) => {
                self.clc();
            },
            Opcode::Cld(_, _) => {
                self.cld();
            },
            Opcode::Cli(_, _) => {
                self.cli();
            },
            Opcode::Clv(_, _) => {
                self.clv();
            },
            Opcode::Sec(_, _) => {
                self.sec();
            },
            Opcode::Sed(_, _) => {
                self.sed();
            },
            Opcode::Sei(_, _) => {
                self.sei();
            },
            Opcode::Brk(_, _) => {
                self.brk();
            },
            Opcode::Rti(_, _) => {
                self.rti();
            },
            Opcode::Nop(_, _) => {},
            _ => {},
        }
    }

    /// The operand byte of an instruction in `mode`: the byte at its effective address.
    fn operand(&self, mode: AddressingMode) -> (r: u8)
        requires
            mode.has_address(),
        ensures
            r == self.memory@[effective_address(self.registers, self.memory@, mode)],
    {
        self.memory.read(self.calculate_address(mode))
    }

    /// The effective address of the operand in `mode`, the program counter being just past
    /// the opcode byte.
    pub fn calculate_address(&self, mode: AddressingMode) -> (r: u16)
        requires
            mode.has_address(),
        ensures
            r == effective_address(self.registers, self.memory@, mode),
    {
        let pc = self.registers.program_counter;
        match mode {
            AddressingMode::Absolute => self.memory.read_u16(pc),
            AddressingMode::AbsoluteX => {
                let address = self.memory.read_u16(pc);
                address.wrapping_add(self.registers.x_register as u16)
            },
            AddressingMode::AbsoluteY => {
                let address = self.memory.read_u16(pc);
                address.wrapping_add(self.registers.y_register as u16)
            },
            AddressingMode::Immediate => pc,
            AddressingMode::Indirect => self.memory.read_u16(self.memory.read_u16(pc)),
            AddressingMode::IndirectX => {
                let base = self.memory.read(pc);
                self.memory.read_u16(base.wrapping_add(self.registers.x_register) as u16)
            },
            AddressingMode::IndirectY => {
                let base = self.memory.read(pc) as u16;
                self.memory.read_u16(base).wrapping_add(self.registers.y_register as u16)
            },
            AddressingMode::ZeroPage => self.memory.read(pc) as u16,
            AddressingMode::ZeroPageX => {
                let address = self.memory.read(pc);
                address.wrapping_add(self.registers.x_register) as u16
            },
            AddressingMode::ZeroPageY => {
                let address = self.memory.read(pc);
                address.wrapping_add(self.registers.y_register) as u16
            },
            AddressingMode::Relative => pc,
            AddressingMode::Accumulator | AddressingMode::Implicit => pc,
        }
    }
}

} // verus!
