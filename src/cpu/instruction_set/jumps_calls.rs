use vstd::prelude::*;

use crate::cpu::register_bank::{stack_slot, RegisterBank, STACK_POINTER_BASE_ADDRESS};
use crate::cpu::Cpu;
use crate::memory::Memory;

verus! {

/// Jumps, subroutine calls and returns.
pub trait JumpsCalls {
    fn jmp(&mut self, address: u16);

    fn jsr(&mut self, address: u16, bytes_to_skip: u8);

    fn rts(&mut self);
}

/// The address JSR pushes: the last byte of the JSR instruction, given the program
/// counter just past the opcode byte and the instruction length.
pub open spec fn jsr_return_address(pc: u16, bytes_to_skip: u8) -> u16 {
    ((pc + bytes_to_skip - 2) % 0x10000) as u16
}

/// Memory after JSR pushed `ret`: high byte at the stack pointer, low byte just below.
pub open spec fn jsr_memory(m: Map<u16, u8>, sp: u8, ret: u16) -> Map<u16, u8> {
    let high = (ret / 256) as u8;
    let low = (ret % 256) as u8;
    m.insert(stack_slot(sp), high).insert(stack_slot(sp.wrapping_sub(1)), low)
}

/// Registers after RTS: the address popped from the two slots above the stack pointer
/// (low byte first), the stack pointer raised by two.
pub open spec fn rts_spec(r: RegisterBank, m: Map<u16, u8>) -> RegisterBank {
    let low = m[stack_slot(r.stack_pointer.wrapping_add(1))];
    let high = m[stack_slot(r.stack_pointer.wrapping_add(2))];
    RegisterBank {
        program_counter: (high * 256 + low) as u16,
        stack_pointer: r.stack_pointer.wrapping_add(2),
        ..r
    }
}

/// The stack slot of the stack pointer `sp`.
pub fn stack_address(sp: u8) -> (r: u16)
    ensures
        r == stack_slot(sp),
{
    STACK_POINTER_BASE_ADDRESS + sp as u16
}

/// Reads the byte in the stack slot of `sp`.
pub fn read_stack(memory: &Memory, sp: u8) -> (r: u8)
    ensures
        r == memory@[stack_slot(sp)],
{
    memory.read(stack_address(sp))
}

impl JumpsCalls for Cpu {
    /// JMP: continues at `address`.
    fn jmp(&mut self, address: u16)
        ensures
            final(self).registers == (RegisterBank {
                program_counter: address,
                ..old(self).registers
            }),
            final(self).memory == old(self).memory,
    {
        self.registers.program_counter = address;
    }

    /// JSR: pushes the address of the last byte of this instruction, then continues at
    /// `address`. `bytes_to_skip` is the instruction length.
    fn jsr(&mut self, address: u16, bytes_to_skip: u8)
        ensures
            final(self).memory@ == jsr_memory(
                old(self).memory@,
                old(self).registers.stack_pointer,
                jsr_return_address(old(self).registers.program_counter, bytes_to_skip),
            ),
            final(self).registers == (RegisterBank {
                program_counter: address,
                stack_pointer: old(self).registers.stack_pointer.wrapping_sub(2),
                ..old(self).registers
            }),
    {
        let address_to_push: u16 = self.registers.program_counter.wrapping_add(
            bytes_to_skip as u16,
        ).wrapping_sub(2);
        let sp = self.registers.stack_pointer;
        self.memory.write((address_to_push / 256) as u8, stack_address(sp));
        self.memory.write((address_to_push % 256) as u8, stack_address(sp.wrapping_sub(1)));
        self.registers.stack_pointer = sp.wrapping_sub(2);
        self.registers.program_counter = address;
    }

    /// RTS: pops the return address pushed by JSR into the program counter.
    fn rts(&mut self)
        ensures
            final(self).registers == rts_spec(old(self).registers, old(self).memory@),
            final(self).memory == old(self).memory,
    {
        let sp = self.registers.stack_pointer;
        let low = read_stack(&self.memory, sp.wrapping_add(1)) as u16;
        let high = read_stack(&self.memory, sp.wrapping_add(2)) as u16;
        self.registers.program_counter = high * 256 + low;
        self.registers.stack_pointer = sp.wrapping_add(2);
    }
}

} // verus!
