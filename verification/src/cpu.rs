//! The processor: registers, flags, program counter and stack pointer, and
//! the memory it owns.

use crate::memory::{make_word, next_addr, split_word, Memory, MemoryError};
use crate::opcodes::{AddressingMode, Opcodes};
use crate::semantics::{
    add_with_carry, after_word_pop, branch_instruction, branch_taken, call_instruction,
    compared, control_instruction, count_wraps, execute_spec, fault, implied_instruction,
    install_all, interrupt_return_instruction, is_negative, load_and_run_spec, load_spec,
    modified_value, modify_instruction, next_in_page, operand_address, operand_instruction,
    operand_value, past_operand, popped, pulled_status, pushed, pushed_word, read_pointer,
    reset_spec, return_instruction, run_spec, set_a, set_x, set_y, stack_top, stack_top_word,
    stack_wraps, step_spec, store_instruction, with_zn, wrap16, wrap8, CpuError, CpuState,
    Failure, StepOutcome, PROGRAM_MAX, PROGRAM_START, RESET_STATUS, RESET_VECTOR, STACK_BASE,
    STACK_SIZE,
};
use crate::status::{with_flag, StatusFlags};
use vstd::prelude::*;

verus! {

/// The processor together with the memory it runs against.
pub struct CPU<M: Memory> {
    /// The accumulator.
    pub register_a: u8,
    /// Index register X.
    pub register_x: u8,
    /// Index register Y.
    pub register_y: u8,
    /// The condition flags.
    pub status: StatusFlags,
    /// The address of the next instruction byte.
    pub program_counter: u16,
    /// The offset of the next free stack cell within the stack page.
    pub stack_pointer: u8,
    /// The memory.
    pub bus: M,
}

impl<M: Memory> View for CPU<M> {
    type V = CpuState<M::V>;

    open spec fn view(&self) -> CpuState<M::V> {
        CpuState {
            a: self.register_a,
            x: self.register_x,
            y: self.register_y,
            status: self.status@,
            pc: self.program_counter,
            sp: self.stack_pointer,
            memory: self.bus@,
        }
    }
}

/// The address after `addr` within the same page.
fn next_address_in_page(addr: u16) -> (r: u16)
    ensures
        r == next_in_page(addr),
{
    assert((addr & 0x00FF == 0x00FF) == (addr % 256 == 255)) by (bit_vector);
    assert(addr & 0xFF00 == addr - addr % 256) by (bit_vector);
    if addr & 0x00FF == 0x00FF {
        addr & 0xFF00
    } else {
        addr + 1
    }
}

/// The sum of two bytes, modulo 256.
fn add_bytes(a: u8, b: u8) -> (r: u8)
    ensures
        r == wrap8(a + b),
{
    a.wrapping_add(b)
}

/// An address moved on by `n`, modulo 65536.
fn add_to_address(addr: u16, n: u16) -> (r: u16)
    ensures
        r == wrap16(addr + n),
{
    addr.wrapping_add(n)
}

impl<M: Memory> CPU<M> {
    /// A processor after power-up, on the given memory: registers zero, the
    /// stack empty, the program counter at address zero.
    pub fn new(bus: M) -> (cpu: CPU<M>)
        ensures
            cpu@ == (CpuState {
                a: 0,
                x: 0,
                y: 0,
                status: RESET_STATUS,
                pc: 0,
                sp: STACK_SIZE,
                memory: bus@,
            }),
    {
        CPU {
            register_a: 0,
            register_x: 0,
            register_y: 0,
            status: StatusFlags::from_bits_truncate(RESET_STATUS),
            program_counter: 0,
            stack_pointer: STACK_SIZE,
            bus,
        }
    }

    /// Sets Zero when `result` is zero and clears it otherwise.
    pub fn update_zero_flag(&mut self, result: u8)
        ensures
            final(self)@ == (CpuState {
                status: with_flag(old(self)@.status, StatusFlags::ZERO, result == 0),
                ..old(self)@
            }),
    {
        if result == 0 {
            self.status.insert(StatusFlags::ZERO);
        } else {
            self.status.remove(StatusFlags::ZERO);
        }
    }

    /// Sets Overflow when bit 6 of `result` is set and clears it otherwise.
    pub fn update_overflow_flag(&mut self, result: u8)
        ensures
            final(self)@ == (CpuState {
                status: with_flag(old(self)@.status, StatusFlags::OVERFLOW, result % 128 >= 64),
                ..old(self)@
            }),
    {
        assert((result & 0b0100_0000 != 0) == (result % 128 >= 64)) by (bit_vector);
        if result & 0b0100_0000 != 0 {
            self.status.insert(StatusFlags::OVERFLOW);
        } else {
            self.status.remove(StatusFlags::OVERFLOW);
        }
    }

    /// Sets Negative when bit 7 of `result` is set and clears it otherwise.
    pub fn update_negative_flag(&mut self, result: u8)
        ensures
            final(self)@ == (CpuState {
                status: with_flag(old(self)@.status, StatusFlags::NEGATIVE, is_negative(result)),
                ..old(self)@
            }),
    {
        assert((result & 0b1000_0000 != 0) == (result >= 0x80)) by (bit_vector);
        if result & 0b1000_0000 != 0 {
            self.status.insert(StatusFlags::NEGATIVE);
        } else {
            self.status.remove(StatusFlags::NEGATIVE);
        }
    }

    /// Loads the accumulator and sets Zero and Negative from the value.
    pub fn set_register_a(&mut self, value: u8)
        ensures
            final(self)@ == set_a(old(self)@, value),
    {
        self.register_a = value;
        self.update_negative_flag(value);
        self.update_zero_flag(value);
    }

    /// Loads X and sets Zero and Negative from the value.
    pub fn set_register_x(&mut self, value: u8)
        ensures
            final(self)@ == set_x(old(self)@, value),
    {
        self.register_x = value;
        self.update_negative_flag(value);
        self.update_zero_flag(value);
    }

    /// Loads Y and sets Zero and Negative from the value.
    pub fn set_register_y(&mut self, value: u8)
        ensures
            final(self)@ == set_y(old(self)@, value),
    {
        self.register_y = value;
        self.update_negative_flag(value);
        self.update_zero_flag(value);
    }

    /// Reads the byte at the program counter and moves the counter past it.
    pub fn next_instruction(&mut self) -> (r: Result<u8, MemoryError>)
        ensures
            r == M::read_spec(old(self)@.memory, old(self)@.pc),
            final(self)@ == (match r {
                Ok(_) => CpuState { pc: wrap16(old(self)@.pc + 1), ..old(self)@ },
                Err(_) => old(self)@,
            }),
    {
        let current_value = self.bus.read_from_memory(self.program_counter)?;
        self.program_counter = add_to_address(self.program_counter, 1);
        Ok(current_value)
    }

    /// Resolves the operand of an instruction to an address, with the program
    /// counter at the first operand byte.
    pub fn get_memory_addr(&self, mode: AddressingMode) -> (r: Result<u16, MemoryError>)
        requires
            mode != AddressingMode::ACCUMULATOR,
        ensures
            r == operand_address::<M>(self@, mode),
    {
        match mode {
            AddressingMode::IMMEDIATE => Ok(self.program_counter),
            AddressingMode::ZERO_PAGE => {
                let pos = self.bus.read_from_memory(self.program_counter)?;
                Ok(pos as u16)
            },
            AddressingMode::ABSOLUTE => self.bus.read_from_memory_le(self.program_counter),
            AddressingMode::ZERO_PAGE_X => {
                let pos = self.bus.read_from_memory(self.program_counter)?;
                Ok(add_bytes(pos, self.register_x) as u16)
            },
            AddressingMode::ZERO_PAGE_Y => {
                let pos = self.bus.read_from_memory(self.program_counter)?;
                Ok(add_bytes(pos, self.register_y) as u16)
            },
            AddressingMode::ABSOLUTE_X => {
                let base = self.bus.read_from_memory_le(self.program_counter)?;
                Ok(add_to_address(base, self.register_x as u16))
            },
            AddressingMode::ABSOLUTE_Y => {
                let base = self.bus.read_from_memory_le(self.program_counter)?;
                Ok(add_to_address(base, self.register_y as u16))
            },
            AddressingMode::INDIRECT => {
                let ptr = self.bus.read_from_memory_le(self.program_counter)?;
                self.read_pointer_at(ptr)
            },
            AddressingMode::INDIRECT_X => {
                let base = self.bus.read_from_memory(self.program_counter)?;
                let ptr: u8 = add_bytes(base, self.register_x);
                self.read_pointer_at(ptr as u16)
            },
            AddressingMode::INDIRECT_Y => {
                let base = self.bus.read_from_memory(self.program_counter)?;
                let deref_base = self.read_pointer_at(base as u16)?;
                Ok(add_to_address(deref_base, self.register_y as u16))
            },
            AddressingMode::ACCUMULATOR => Ok(0),
        }
    }

    /// Reads the pointer stored at `ptr`, its high byte from the same page.
    fn read_pointer_at(&self, ptr: u16) -> (r: Result<u16, MemoryError>)
        ensures
            r == read_pointer::<M>(self@.memory, ptr),
    {
        let lo = self.bus.read_from_memory(ptr)?;
        let hi = self.bus.read_from_memory(next_address_in_page(ptr))?;
        Ok(make_word(lo, hi))
    }

    /// Reads the operand of an instruction and moves the program counter past
    /// the operand bytes. A refused read changes nothing.
    pub fn get_value_from_memory(&mut self, addr_mode: AddressingMode) -> (r: Result<
        u8,
        MemoryError,
    >)
        requires
            addr_mode != AddressingMode::ACCUMULATOR,
        ensures
            r == operand_value::<M>(old(self)@, addr_mode),
            final(self)@ == (match r {
                Ok(_) => past_operand(old(self)@, addr_mode),
                Err(_) => old(self)@,
            }),
    {
        let mode_increment = addr_mode.get_counter_increment();
        let addr = self.get_memory_addr(addr_mode)?;
        let param = self.bus.read_from_memory(addr)?;
        self.program_counter = add_to_address(self.program_counter, mode_increment);
        Ok(param)
    }

    /// Takes a branch or not: reads the signed offset at the program counter,
    /// moves the counter past it, and adds the offset where `condition` holds.
    pub fn branch(&mut self, condition: bool) -> (r: Result<(), MemoryError>)
        ensures
            match branch_instruction::<M>(old(self)@, condition) {
                Ok(s) => r is Ok && final(self)@ == s,
                Err(f) => r == Err::<(), MemoryError>(f.error) && final(self)@ == f.state,
            },
    {
        let offset = self.bus.read_from_memory(self.program_counter)?;
        self.program_counter = add_to_address(self.program_counter, 1);
        if condition {
            if offset < 0x80 {
                self.program_counter = self.program_counter.wrapping_add(offset as u16);
            } else {
                self.program_counter = self.program_counter.wrapping_sub(0x100 - offset as u16);
            }
        }
        Ok(())
    }

    /// Compares a register value with the operand: Carry when the register is
    /// not below it, Zero and Negative from the difference.
    pub fn compare(&mut self, mode: AddressingMode, value: u8) -> (r: Result<(), MemoryError>)
        requires
            mode != AddressingMode::ACCUMULATOR,
        ensures
            match operand_value::<M>(old(self)@, mode) {
                Ok(operand) => r is Ok && final(self)@ == (CpuState {
                    status: compared(old(self)@.status, value, operand),
                    ..past_operand(old(self)@, mode)
                }),
                Err(e) => r == Err::<(), MemoryError>(e) && final(self)@ == old(self)@,
            },
    {
        let mem_value = self.get_value_from_memory(mode)?;
        self.compare_with(value, mem_value);
        Ok(())
    }

    /// Sets the flags from the comparison of a register value with an operand.
    fn compare_with(&mut self, value: u8, mem_value: u8)
        ensures
            final(self)@ == (CpuState {
                status: compared(old(self)@.status, value, mem_value),
                ..old(self)@
            }),
    {
        let result = value.wrapping_sub(mem_value);
        if value >= mem_value {
            self.status.insert(StatusFlags::CARRY);
        } else {
            self.status.remove(StatusFlags::CARRY);
        }
        self.update_negative_flag(result);
        self.update_zero_flag(result);
    }

    /// Adds `value` and the carry to the accumulator, and sets Carry,
    /// Overflow, Zero and Negative from the sum.
    pub fn add_to_register_a(&mut self, value: u8)
        ensures
            final(self)@ == add_with_carry(old(self)@, value),
    {
        let carry_bit: u16 = if self.status.contains(StatusFlags::CARRY) {
            1
        } else {
            0
        };
        let sum: u16 = self.register_a as u16 + value as u16 + carry_bit;
        let carry = sum > 0xff;
        if carry {
            self.status.insert(StatusFlags::CARRY);
        } else {
            self.status.remove(StatusFlags::CARRY);
        }
        assert(sum & 0xff == sum % 256) by (bit_vector);
        let result: u8 = (sum & 0xff) as u8;
        if (value ^ result) & (result ^ self.register_a) & 0x80 != 0 {
            self.status.insert(StatusFlags::OVERFLOW);
        } else {
            self.status.remove(StatusFlags::OVERFLOW);
        }
        self.set_register_a(result);
    }

    /// Pushes a byte: writes it at the stack pointer, then moves the pointer
    /// down. Tells whether the pointer wrapped from the bottom of the stack
    /// page to its top. A refused write changes nothing.
    pub fn stack_push(&mut self, value: u8) -> (r: Result<bool, MemoryError>)
        ensures
            match pushed::<M>(old(self)@, value) {
                Ok(s) => r == Ok::<bool, MemoryError>(old(self)@.sp == 0) && final(self)@ == s,
                Err(f) => r == Err::<bool, MemoryError>(f.error) && final(self)@ == f.state,
            },
    {
        let addr: u16 = STACK_BASE + self.stack_pointer as u16;
        self.bus.write_to_memory(addr, value)?;
        let overflowed = self.stack_pointer == 0;
        self.stack_pointer = self.stack_pointer.wrapping_sub(1);
        Ok(overflowed)
    }

    /// Pushes a 16-bit value, high byte first. Tells whether the pointer
    /// wrapped.
    pub fn stack_push_le(&mut self, value: u16) -> (r: Result<bool, MemoryError>)
        ensures
            match pushed_word::<M>(old(self)@, value) {
                Ok(s) => r == Ok::<bool, MemoryError>(old(self)@.sp <= 1) && final(self)@ == s,
                Err(f) => r == Err::<bool, MemoryError>(f.error) && final(self)@ == f.state,
            },
    {
        let (low, high) = split_word(value);
        let first = self.stack_push(high)?;
        let second = self.stack_push(low)?;
        Ok(first || second)
    }

    /// Pops a byte: moves the stack pointer up, then reads the byte it points
    /// at. Tells with the byte whether the pointer wrapped from the top of the
    /// stack page to its bottom. The pointer moves even where the read is
    /// refused.
    pub fn stack_pop(&mut self) -> (r: Result<(u8, bool), MemoryError>)
        ensures
            final(self)@ == popped(old(self)@),
            r == (match stack_top::<M>(old(self)@) {
                Ok(value) => Ok((value, old(self)@.sp == 0xFF)),
                Err(e) => Err(e),
            }),
    {
        let overflowed = self.stack_pointer == 0xFF;
        self.stack_pointer = self.stack_pointer.wrapping_add(1);
        let addr: u16 = STACK_BASE + self.stack_pointer as u16;
        let result = self.bus.read_from_memory(addr)?;
        Ok((result, overflowed))
    }

    /// Pops a 16-bit value, low byte first. Tells with the value whether the
    /// pointer wrapped.
    pub fn stack_pop_le(&mut self) -> (r: Result<(u16, bool), MemoryError>)
        ensures
            r == (match stack_top_word::<M>(old(self)@) {
                Ok(value) => Ok((value, old(self)@.sp >= 0xFE)),
                Err(e) => Err(e),
            }),
            final(self)@ == after_word_pop::<M>(old(self)@),
    {
        let (low, first) = self.stack_pop()?;
        let (high, second) = self.stack_pop()?;
        Ok((make_word(low, high), first || second))
    }

    /// Shifts, rotates, increments or decrements the accumulator or the
    /// memory cell that the operand names, and sets the flags from it.
    pub fn modify(&mut self, op: Opcodes, mode: AddressingMode) -> (r: Result<(), MemoryError>)
        ensures
            match modify_instruction::<M>(old(self)@, op, mode) {
                Ok(s) => r is Ok && final(self)@ == s,
                Err(f) => r == Err::<(), MemoryError>(f.error) && final(self)@ == f.state,
            },
    {
        let carry_bit: u8 = if self.status.contains(StatusFlags::CARRY) {
            1
        } else {
            0
        };
        if mode == AddressingMode::ACCUMULATOR {
            let value = self.register_a;
            let result = modified_byte(op, value, carry_bit);
            self.register_a = result;
            self.update_modify_flags(op, value, result);
        } else {
            let mode_increment = mode.get_counter_increment();
            let addr = self.get_memory_addr(mode)?;
            let value = self.bus.read_from_memory(addr)?;
            let result = modified_byte(op, value, carry_bit);
            self.bus.write_to_memory(addr, result)?;
            self.program_counter = add_to_address(self.program_counter, mode_increment);
            self.update_modify_flags(op, value, result);
        }
        Ok(())
    }

    /// Sets the flags after `op` has made `result` of `value`: Carry from the
    /// bit shifted out, where `op` shifts or rotates, then Negative and Zero.
    fn update_modify_flags(&mut self, op: Opcodes, value: u8, result: u8)
        ensures
            final(self)@ == (CpuState {
                status: match op {
                    Opcodes::ASL(_) | Opcodes::ROL(_) => with_zn(
                        with_flag(old(self)@.status, StatusFlags::CARRY, is_negative(value)),
                        result,
                    ),
                    Opcodes::LSR(_) | Opcodes::ROR(_) => with_zn(
                        with_flag(old(self)@.status, StatusFlags::CARRY, value % 2 == 1),
                        result,
                    ),
                    _ => with_zn(old(self)@.status, result),
                },
                ..old(self)@
            }),
    {
        assert((value & 0x80 == 0x80) == (value >= 0x80)) by (bit_vector);
        assert((value & 0x01 == 0x01) == (value % 2 == 1)) by (bit_vector);
        match op {
            Opcodes::ASL(_) | Opcodes::ROL(_) => {
                self.status.set(StatusFlags::CARRY, value & 0x80 == 0x80);
            },
            Opcodes::LSR(_) | Opcodes::ROR(_) => {
                self.status.set(StatusFlags::CARRY, value & 0x01 == 0x01);
            },
            _ => {},
        }
        self.update_negative_flag(result);
        self.update_zero_flag(result);
    }

    /// Stores `value` at the address that the operand names and moves the
    /// program counter past the operand.
    pub fn store(&mut self, mode: AddressingMode, value: u8) -> (r: Result<(), MemoryError>)
        requires
            mode != AddressingMode::ACCUMULATOR,
        ensures
            match store_instruction::<M>(old(self)@, mode, value) {
                Ok(s) => r is Ok && final(self)@ == s,
                Err(f) => r == Err::<(), MemoryError>(f.error) && final(self)@ == f.state,
            },
    {
        let mode_increment = mode.get_counter_increment();
        let addr = self.get_memory_addr(mode)?;
        self.bus.write_to_memory(addr, value)?;
        self.program_counter = add_to_address(self.program_counter, mode_increment);
        Ok(())
    }

    /// Executes an instruction that reads its operand and changes registers
    /// and flags only.
    pub fn execute_operand(&mut self, op: Opcodes, addr_mode: AddressingMode) -> (r: Result<
        (),
        MemoryError,
    >)
        requires
            addr_mode != AddressingMode::ACCUMULATOR,
        ensures
            match operand_instruction::<M>(old(self)@, op, addr_mode) {
                Ok(s) => r is Ok && final(self)@ == s,
                Err(f) => r == Err::<(), MemoryError>(f.error) && final(self)@ == f.state,
            },
    {
        let value = self.get_value_from_memory(addr_mode)?;
        match op {
            Opcodes::ADC(_) => {
                self.add_to_register_a(value);
            },
            Opcodes::AND(_) => {
                let result = self.register_a & value;
                self.set_register_a(result);
            },
            Opcodes::BIT(_) => {
                let result = self.register_a & value;
                self.update_negative_flag(value);
                self.update_overflow_flag(value);
                self.update_zero_flag(result);
            },
            Opcodes::CMP(_) => {
                let register = self.register_a;
                self.compare_with(register, value);
            },
            Opcodes::CPX(_) => {
                let register = self.register_x;
                self.compare_with(register, value);
            },
            Opcodes::CPY(_) => {
                let register = self.register_y;
                self.compare_with(register, value);
            },
            Opcodes::EOR(_) => {
                let result = self.register_a ^ value;
                self.set_register_a(result);
            },
            Opcodes::LDA(_) => {
                self.set_register_a(value);
            },
            Opcodes::LDX(_) => {
                self.set_register_x(value);
            },
            Opcodes::LDY(_) => {
                self.set_register_y(value);
            },
            Opcodes::ORA(_) => {
                let result = self.register_a | value;
                self.set_register_a(result);
            },
            Opcodes::SBC(_) => {
                assert(!value == 255 - value) by (bit_vector);
                self.add_to_register_a(!value);
            },
            _ => {},
        }
        Ok(())
    }

    /// Whether the branch instruction `op` is taken under the current flags.
    pub fn branch_condition(&self, op: Opcodes) -> (taken: bool)
        ensures
            taken == branch_taken(self@.status, op),
    {
        match op {
            Opcodes::BCC => !self.status.contains(StatusFlags::CARRY),
            Opcodes::BCS => self.status.contains(StatusFlags::CARRY),
            Opcodes::BNE => !self.status.contains(StatusFlags::ZERO),
            Opcodes::BEQ => self.status.contains(StatusFlags::ZERO),
            Opcodes::BPL => !self.status.contains(StatusFlags::NEGATIVE),
            Opcodes::BMI => self.status.contains(StatusFlags::NEGATIVE),
            Opcodes::BVC => !self.status.contains(StatusFlags::OVERFLOW),
            Opcodes::BVS => self.status.contains(StatusFlags::OVERFLOW),
            _ => false,
        }
    }

    /// Executes an instruction without operand that touches registers and
    /// flags only.
    pub fn execute_implied(&mut self, op: Opcodes)
        ensures
            final(self)@ == implied_instruction(old(self)@, op),
    {
        match op {
            Opcodes::CLC => {
                self.status.remove(StatusFlags::CARRY);
            },
            Opcodes::CLD => {
                self.status.remove(StatusFlags::DECIMAL_MODE);
            },
            Opcodes::CLI => {
                self.status.remove(StatusFlags::INTERRUPT_DISABLE);
            },
            Opcodes::CLV => {
                self.status.remove(StatusFlags::OVERFLOW);
            },
            Opcodes::SEC => {
                self.status.insert(StatusFlags::CARRY);
            },
            Opcodes::SED => {
                self.status.insert(StatusFlags::DECIMAL_MODE);
            },
            Opcodes::SEI => {
                self.status.insert(StatusFlags::INTERRUPT_DISABLE);
            },
            Opcodes::DEX => {
                let result = add_bytes(self.register_x, 0xFF);
                self.set_register_x(result);
            },
            Opcodes::DEY => {
                let result = add_bytes(self.register_y, 0xFF);
                self.set_register_y(result);
            },
            Opcodes::INX => {
                let result = add_bytes(self.register_x, 1);
                self.set_register_x(result);
            },
            Opcodes::INY => {
                let result = add_bytes(self.register_y, 1);
                self.set_register_y(result);
            },
            Opcodes::TAX => {
                let result = self.register_a;
                self.set_register_x(result);
            },
            Opcodes::TAY => {
                let result = self.register_a;
                self.set_register_y(result);
            },
            Opcodes::TSX => {
                let result = self.stack_pointer;
                self.set_register_x(result);
            },
            Opcodes::TXA => {
                let result = self.register_x;
                self.set_register_a(result);
            },
            Opcodes::TXS => {
                let result = self.register_x;
                self.stack_pointer = result;
            },
            Opcodes::TYA => {
                let result = self.register_y;
                self.set_register_a(result);
            },
            _ => {},
        }
    }

    /// Replaces the status with a byte that came off the stack: Break is
    /// cleared and Break2 set, whatever the byte holds.
    fn restore_status(&mut self, byte: u8)
        ensures
            final(self)@ == (CpuState { status: pulled_status(byte), ..old(self)@ }),
    {
        self.status = StatusFlags::from_bits_truncate(byte);
        self.status.remove(StatusFlags::BREAK);
        self.status.insert(StatusFlags::BREAK2);
    }

    /// Calls a subroutine: pushes the address of the last byte of the call
    /// instruction and jumps. Tells whether the stack pointer wrapped.
    pub fn call(&mut self, addr_mode: AddressingMode) -> (r: Result<bool, MemoryError>)
        requires
            addr_mode != AddressingMode::ACCUMULATOR,
        ensures
            match call_instruction::<M>(old(self)@, addr_mode) {
                Ok(s) => final(self)@ == s && r == Ok::<bool, MemoryError>(old(self)@.sp <= 1),
                Err(f) => r == Err::<bool, MemoryError>(f.error) && final(self)@ == f.state,
            },
    {
        let mode_increment = addr_mode.get_counter_increment();
        let addr = self.get_memory_addr(addr_mode)?;
        let return_addr = add_to_address(self.program_counter, mode_increment - 1);
        let wrapped = self.stack_push_le(return_addr)?;
        self.program_counter = addr;
        Ok(wrapped)
    }

    /// Returns from a subroutine: pops an address and continues after it.
    /// Tells whether the stack pointer wrapped.
    pub fn return_from_subroutine(&mut self) -> (r: Result<bool, MemoryError>)
        ensures
            match return_instruction::<M>(old(self)@) {
                Ok(s) => final(self)@ == s && r == Ok::<bool, MemoryError>(
                    old(self)@.sp >= 0xFE,
                ),
                Err(f) => r == Err::<bool, MemoryError>(f.error) && final(self)@ == f.state,
            },
    {
        let (addr, wrapped) = self.stack_pop_le()?;
        self.program_counter = add_to_address(addr, 1);
        Ok(wrapped)
    }

    /// Returns from an interrupt: pops the status, then the address at which
    /// to continue. Tells whether the stack pointer wrapped.
    pub fn return_from_interrupt(&mut self) -> (r: Result<bool, MemoryError>)
        ensures
            match interrupt_return_instruction::<M>(old(self)@) {
                Ok(s) => final(self)@ == s && r == Ok::<bool, MemoryError>(
                    old(self)@.sp >= 0xFD,
                ),
                Err(f) => r == Err::<bool, MemoryError>(f.error) && final(self)@ == f.state,
            },
    {
        let (status, first) = self.stack_pop()?;
        let (addr, second) = self.stack_pop_le()?;
        self.restore_status(status);
        self.program_counter = addr;
        Ok(first || second)
    }

    /// Executes a jump, a call, a return or a stack instruction. Tells whether
    /// the stack pointer wrapped.
    pub fn execute_control(&mut self, op: Opcodes) -> (r: Result<bool, MemoryError>)
        requires
            op.has_resolvable_operand(),
        ensures
            match control_instruction::<M>(old(self)@, op) {
                Ok(s) => final(self)@ == s && r == Ok::<bool, MemoryError>(
                    stack_wraps(old(self)@.sp, op),
                ),
                Err(f) => r == Err::<bool, MemoryError>(f.error) && final(self)@ == f.state,
            },
    {
        match op {
            Opcodes::JMP(addr_mode) => {
                let addr = self.get_memory_addr(addr_mode)?;
                self.program_counter = addr;
                Ok(false)
            },
            Opcodes::JSR(addr_mode) => self.call(addr_mode),
            Opcodes::RTS => self.return_from_subroutine(),
            Opcodes::RTI => self.return_from_interrupt(),
            Opcodes::PHA => {
                let value = self.register_a;
                self.stack_push(value)
            },
            Opcodes::PHP => {
                let mut flags = self.status;
                flags.insert(StatusFlags::BREAK);
                flags.insert(StatusFlags::BREAK2);
                let value = flags.bits();
                self.stack_push(value)
            },
            Opcodes::PLA => {
                let (value, wrapped) = self.stack_pop()?;
                self.set_register_a(value);
                Ok(wrapped)
            },
            Opcodes::PLP => {
                let (value, wrapped) = self.stack_pop()?;
                self.restore_status(value);
                Ok(wrapped)
            },
            _ => Ok(false),
        }
    }

    /// Executes one decoded instruction, with the program counter already past
    /// its opcode byte. Tells whether the stack pointer wrapped.
    pub fn execute(&mut self, op: Opcodes) -> (r: Result<bool, MemoryError>)
        requires
            op.has_resolvable_operand(),
        ensures
            match execute_spec::<M>(old(self)@, op) {
                Ok(s) => final(self)@ == s && r == Ok::<bool, MemoryError>(
                    stack_wraps(old(self)@.sp, op),
                ),
                Err(f) => r == Err::<bool, MemoryError>(f.error) && final(self)@ == f.state,
            },
    {
        match op {
            Opcodes::ADC(addr_mode)
            | Opcodes::AND(addr_mode)
            | Opcodes::BIT(addr_mode)
            | Opcodes::CMP(addr_mode)
            | Opcodes::CPX(addr_mode)
            | Opcodes::CPY(addr_mode)
            | Opcodes::EOR(addr_mode)
            | Opcodes::LDA(addr_mode)
            | Opcodes::LDX(addr_mode)
            | Opcodes::LDY(addr_mode)
            | Opcodes::ORA(addr_mode)
            | Opcodes::SBC(addr_mode) => {
                self.execute_operand(op, addr_mode)?;
                Ok(false)
            },
            Opcodes::ASL(addr_mode)
            | Opcodes::LSR(addr_mode)
            | Opcodes::ROL(addr_mode)
            | Opcodes::ROR(addr_mode)
            | Opcodes::INC(addr_mode)
            | Opcodes::DEC(addr_mode) => {
                self.modify(op, addr_mode)?;
                Ok(false)
            },
            Opcodes::STA(addr_mode) => {
                let value = self.register_a;
                self.store(addr_mode, value)?;
                Ok(false)
            },
            Opcodes::STX(addr_mode) => {
                let value = self.register_x;
                self.store(addr_mode, value)?;
                Ok(false)
            },
            Opcodes::STY(addr_mode) => {
                let value = self.register_y;
                self.store(addr_mode, value)?;
                Ok(false)
            },
            Opcodes::BCC
            | Opcodes::BCS
            | Opcodes::BNE
            | Opcodes::BEQ
            | Opcodes::BPL
            | Opcodes::BMI
            | Opcodes::BVC
            | Opcodes::BVS => {
                let condition = self.branch_condition(op);
                self.branch(condition)?;
                Ok(false)
            },
            Opcodes::JMP(_)
            | Opcodes::JSR(_)
            | Opcodes::RTS
            | Opcodes::RTI
            | Opcodes::PHA
            | Opcodes::PHP
            | Opcodes::PLA
            | Opcodes::PLP => self.execute_control(op),
            _ => {
                self.execute_implied(op);
                Ok(false)
            },
        }
    }

    /// Fetches, decodes and executes one instruction.
    pub fn step(&mut self) -> (r: Result<StepOutcome, CpuError>)
        ensures
            match step_spec::<M>(old(self)@) {
                Ok((s, outcome)) => final(self)@ == s && r == Ok::<StepOutcome, CpuError>(
                    outcome,
                ),
                Err(f) => r == Err::<StepOutcome, CpuError>(f.error) && final(self)@ == f.state,
            },
    {
        reveal(step_spec);
        let opcode_value = match self.next_instruction() {
            Ok(byte) => byte,
            Err(e) => {
                return Err(memory_fault(e));
            },
        };
        let opcode = match Opcodes::from_u8(opcode_value) {
            Ok(opcode) => opcode,
            Err(_) => {
                return Err(CpuError::IllegalOpcode(opcode_value));
            },
        };
        if opcode == Opcodes::BRK {
            return Ok(StepOutcome::Halted);
        }
        match self.execute(opcode) {
            Ok(true) => Ok(StepOutcome::StackWrapped),
            Ok(false) => Ok(StepOutcome::Running),
            Err(e) => Err(memory_fault(e)),
        }
    }

    /// Runs until the break instruction or the first error. The run also ends,
    /// not halted, after `u64::MAX` instructions.
    pub fn run(&mut self) -> (r: Result<RunSummary, CpuError>)
        ensures
            match run_spec::<M>(old(self)@, u64::MAX as nat) {
                Ok(end) => final(self)@ == end.state && end.stack_wraps <= u64::MAX && r == Ok::<
                    RunSummary,
                    CpuError,
                >(RunSummary { halted: end.halted, stack_wraps: end.stack_wraps as u64 }),
                Err(f) => r == Err::<RunSummary, CpuError>(f.error) && final(self)@ == f.state,
            },
    {
        let ghost start = self@;
        let mut budget: u64 = u64::MAX;
        let mut stack_wraps: u64 = 0;
        while budget > 0
            invariant
                start == old(self)@,
                run_spec::<M>(start, u64::MAX as nat) == count_wraps(
                    run_spec::<M>(self@, budget as nat),
                    stack_wraps as nat,
                ),
                stack_wraps <= u64::MAX - budget,
            decreases budget,
        {
            match self.step() {
                Err(e) => {
                    return Err(e);
                },
                Ok(StepOutcome::Halted) => {
                    return Ok(RunSummary { halted: true, stack_wraps });
                },
                Ok(StepOutcome::StackWrapped) => {
                    stack_wraps = stack_wraps + 1;
                },
                Ok(StepOutcome::Running) => {},
            }
            budget = budget - 1;
        }
        Ok(RunSummary { halted: false, stack_wraps })
    }

    /// Runs as `run` does, and hands the processor to `callback` after every
    /// instruction but the break instruction. The callback may change
    /// registers and memory, so the run is told by the states `starts` from
    /// which its steps began: the first is the state at the call, and each
    /// further one is a state in which the callback may leave the processor
    /// when handed the state after the step before it. The result and the
    /// final state are those of the step from the last of them.
    #[verifier::loop_isolation(false)]
    pub fn run_with_callback<F: FnMut(&mut CPU<M>)>(&mut self, mut callback: F) -> (r: Result<
        RunSummary,
        CpuError,
    >)
        requires
            forall|cpu: &mut CPU<M>| call_requires(callback, (cpu,)),
        ensures
            exists|starts: Seq<CpuState<M::V>>|
                {
                    &&& #[trigger] run_ends_with::<M>(starts, r, final(self)@)
                    &&& starts[0] == old(self)@
                    &&& forall|i: int|
                        0 <= i < starts.len() - 1 ==> {
                            &&& #[trigger] step_spec::<M>(starts[i]) is Ok
                            &&& step_spec::<M>(starts[i])->Ok_0.1 != StepOutcome::Halted
                            &&& exists|cpu: &mut CPU<M>|
                                {
                                    &&& mut_ref_current(cpu)@ == step_spec::<M>(starts[i])->Ok_0.0
                                    &&& mut_ref_future(cpu)@ == starts[i + 1]
                                    &&& #[trigger] call_ensures(callback, (cpu,), ())
                                }
                        }
                },
    {
        broadcast use vstd::function::group_function_axioms;

        let ghost mut starts: Seq<CpuState<M::V>> = seq![self@];
        let ghost observer = callback;
        let mut budget: u64 = u64::MAX;
        let mut stack_wraps: u64 = 0;
        while budget > 0
            invariant
                callback == observer,
                forall|cpu: &mut CPU<M>| call_requires(callback, (cpu,)),
                ({
                    &&& starts.len() > 0
                    &&& starts[0] == old(self)@
                    &&& forall|i: int|
                        0 <= i < starts.len() - 1 ==> {
                            &&& #[trigger] step_spec::<M>(starts[i]) is Ok
                            &&& step_spec::<M>(starts[i])->Ok_0.1 != StepOutcome::Halted
                            &&& exists|cpu: &mut CPU<M>|
                                {
                                    &&& mut_ref_current(cpu)@ == step_spec::<M>(starts[i])->Ok_0.0
                                    &&& mut_ref_future(cpu)@ == starts[i + 1]
                                    &&& #[trigger] call_ensures(callback, (cpu,), ())
                                }
                        }
                }),
                starts.last() == self@,
                starts.len() == u64::MAX - budget + 1,
                stack_wraps == observed_wraps::<M>(starts.drop_last()),
                stack_wraps <= u64::MAX - budget,
            decreases budget,
        {
            let ghost before = self@;
            match self.step() {
                Err(e) => {
                    assert(run_ends_with::<M>(starts, Err::<RunSummary, CpuError>(e), self@));
                    return Err(e);
                },
                Ok(StepOutcome::Halted) => {
                    assert(run_ends_with::<M>(
                        starts,
                        Ok::<RunSummary, CpuError>(RunSummary { halted: true, stack_wraps }),
                        self@,
                    ));
                    return Ok(RunSummary { halted: true, stack_wraps });
                },
                Ok(StepOutcome::StackWrapped) => {
                    stack_wraps = stack_wraps + 1;
                },
                Ok(StepOutcome::Running) => {},
            }
            let ghost stepped = self@;
            callback(self);
            proof {
                assert(exists|cpu: &mut CPU<M>|
                    {
                        &&& mut_ref_current(cpu)@ == stepped
                        &&& mut_ref_future(cpu)@ == self@
                        &&& #[trigger] call_ensures(callback, (cpu,), ())
                    });
                let extended = starts.push(self@);
                assert forall|i: int| 0 <= i < extended.len() - 1 implies {
                    &&& #[trigger] step_spec::<M>(extended[i]) is Ok
                    &&& step_spec::<M>(extended[i])->Ok_0.1 != StepOutcome::Halted
                    &&& exists|cpu: &mut CPU<M>|
                        {
                            &&& mut_ref_current(cpu)@ == step_spec::<M>(extended[i])->Ok_0.0
                            &&& mut_ref_future(cpu)@ == extended[i + 1]
                            &&& #[trigger] call_ensures(callback, (cpu,), ())
                        }
                } by {
                    if i < starts.len() - 1 {
                        assert(extended[i] == starts[i] && extended[i + 1] == starts[i + 1]);
                        assert(step_spec::<M>(starts[i]) is Ok);
                    } else {
                        assert(extended[i] == before);
                    }
                }
                assert(extended.drop_last() =~= starts);
                assert(starts.drop_last() =~= extended.drop_last().drop_last());
                starts = extended;
            }
            budget = budget - 1;
        }
        assert(run_ends_with::<M>(
            starts,
            Ok::<RunSummary, CpuError>(RunSummary { halted: false, stack_wraps }),
            self@,
        ));
        Ok(RunSummary { halted: false, stack_wraps })
    }

    /// Loads a program image at `PROGRAM_START` and points the reset vector at
    /// it. Registers, flags and program counter stay as they are.
    pub fn load(&mut self, program: Vec<u8>) -> (r: Result<(), MemoryError>)
        requires
            program@.len() <= PROGRAM_MAX,
        ensures
            match load_spec::<M>(old(self)@.memory, program@) {
                Ok(m) => r is Ok && final(self)@ == (CpuState { memory: m, ..old(self)@ }),
                Err(f) => r == Err::<(), MemoryError>(f.error) && final(self)@ == (CpuState {
                    memory: f.state,
                    ..old(self)@
                }),
            },
    {
        let ghost start = self@.memory;
        let mut i: usize = 0;
        assert(program@.skip(0) =~= program@);
        while i < program.len()
            invariant
                start == old(self)@.memory,
                i <= program@.len() <= PROGRAM_MAX,
                self@ == (CpuState { memory: self@.memory, ..old(self)@ }),
                install_all::<M>(start, PROGRAM_START, program@) == install_all::<M>(
                    self@.memory,
                    (PROGRAM_START + i) as u16,
                    program@.skip(i as int),
                ),
            decreases program@.len() - i,
        {
            let addr: u16 = PROGRAM_START + i as u16;
            proof {
                let rest = program@.skip(i as int);
                assert(rest.len() > 0 && rest[0] == program@[i as int]);
                assert(rest.drop_first() =~= program@.skip(i as int + 1));
                assert(install_all::<M>(self@.memory, addr, rest) == (
                match M::install_spec(self@.memory, addr, rest[0]) {
                    Err(e) => Err(Failure { error: e, state: self@.memory }),
                    Ok(m1) => install_all::<M>(m1, next_addr(addr), rest.drop_first()),
                }));
            }
            self.bus.install(addr, program[i])?;
            i = i + 1;
        }
        let (lo, hi) = split_word(PROGRAM_START);
        self.bus.install(RESET_VECTOR, lo)?;
        self.bus.install(RESET_VECTOR + 1, hi)
    }

    /// Resets the processor: registers zero, flags and stack pointer at their
    /// initial values, and the program counter taken from the reset vector.
    /// Where the vector cannot be read the program counter stays as it is.
    pub fn reset(&mut self) -> (r: Result<(), MemoryError>)
        ensures
            match reset_spec::<M>(old(self)@) {
                Ok(s) => r is Ok && final(self)@ == s,
                Err(f) => r == Err::<(), MemoryError>(f.error) && final(self)@ == f.state,
            },
    {
        self.register_a = 0;
        self.register_x = 0;
        self.register_y = 0;
        self.status = StatusFlags::from_bits_truncate(RESET_STATUS);
        self.stack_pointer = STACK_SIZE;
        self.program_counter = self.bus.read_from_memory_le(RESET_VECTOR)?;
        Ok(())
    }

    /// Loads a program, resets the processor and runs.
    pub fn load_and_run(&mut self, program: Vec<u8>) -> (r: Result<RunSummary, CpuError>)
        requires
            program@.len() <= PROGRAM_MAX,
        ensures
            match load_and_run_spec::<M>(old(self)@, program@, u64::MAX as nat) {
                Ok(end) => final(self)@ == end.state && end.stack_wraps <= u64::MAX && r == Ok::<
                    RunSummary,
                    CpuError,
                >(RunSummary { halted: end.halted, stack_wraps: end.stack_wraps as u64 }),
                Err(f) => r == Err::<RunSummary, CpuError>(f.error) && final(self)@ == f.state,
            },
    {
        match self.load(program) {
            Ok(()) => {},
            Err(e) => {
                return Err(memory_fault(e));
            },
        }
        match self.reset() {
            Ok(()) => {},
            Err(e) => {
                return Err(memory_fault(e));
            },
        }
        self.run()
    }
}

impl<M: Memory> Memory for CPU<M> {
    open spec fn read_spec(m: CpuState<M::V>, addr: u16) -> Result<u8, MemoryError> {
        M::read_spec(m.memory, addr)
    }

    open spec fn write_spec(m: CpuState<M::V>, addr: u16, data: u8) -> Result<
        CpuState<M::V>,
        MemoryError,
    > {
        match M::write_spec(m.memory, addr, data) {
            Ok(memory) => Ok(CpuState { memory: memory, ..m }),
            Err(e) => Err(e),
        }
    }

    open spec fn install_spec(m: CpuState<M::V>, addr: u16, data: u8) -> Result<
        CpuState<M::V>,
        MemoryError,
    > {
        match M::install_spec(m.memory, addr, data) {
            Ok(memory) => Ok(CpuState { memory: memory, ..m }),
            Err(e) => Err(e),
        }
    }

    fn read_from_memory(&self, addr: u16) -> (r: Result<u8, MemoryError>) {
        self.bus.read_from_memory(addr)
    }

    fn write_to_memory(&mut self, addr: u16, data: u8) -> (r: Result<(), MemoryError>) {
        self.bus.write_to_memory(addr, data)
    }

    fn install(&mut self, addr: u16, data: u8) -> (r: Result<(), MemoryError>) {
        self.bus.install(addr, data)
    }
}

/// Whether a run whose steps began in the states `starts` ended with result
/// `r` in state `end`: a halted run with a step from the last of them that
/// halted in `end`, a failed run with a step that failed and left `end`, and
/// a run that used up its budget of `u64::MAX` steps in the last of them.
pub open spec fn run_ends_with<M: Memory>(
    starts: Seq<CpuState<M::V>>,
    r: Result<RunSummary, CpuError>,
    end: CpuState<M::V>,
) -> bool {
    &&& starts.len() > 0
    &&& match r {
        Ok(summary) => {
            &&& summary.stack_wraps == observed_wraps::<M>(starts.drop_last())
            &&& if summary.halted {
                step_spec::<M>(starts.last()) == Ok::<
                    (CpuState<M::V>, StepOutcome),
                    Failure<CpuError, CpuState<M::V>>,
                >((end, StepOutcome::Halted))
            } else {
                starts.len() == u64::MAX + 1 && end == starts.last()
            }
        },
        Err(e) => step_spec::<M>(starts.last()) == Err::<
            (CpuState<M::V>, StepOutcome),
            Failure<CpuError, CpuState<M::V>>,
        >(Failure { error: e, state: end }),
    }
}

/// How many of the steps that began in the given states wrapped the stack
/// pointer.
pub open spec fn observed_wraps<M: Memory>(starts: Seq<CpuState<M::V>>) -> nat
    decreases starts.len(),
{
    if starts.len() == 0 {
        0
    } else {
        observed_wraps::<M>(starts.drop_last()) + (if step_spec::<M>(starts.last()) matches Ok(
            (_, StepOutcome::StackWrapped),
        ) {
            1nat
        } else {
            0nat
        })
    }
}

/// How a run ended.
#[derive(Clone, Copy, Debug, PartialEq, Eq, Structural)]
pub struct RunSummary {
    /// Whether the run ended at the break instruction.
    pub halted: bool,
    /// How many instructions wrapped the stack pointer around its page.
    pub stack_wraps: u64,
}

/// The processor error that a refused memory access becomes.
pub fn memory_fault(e: MemoryError) -> (r: CpuError)
    ensures
        r == fault(e),
{
    match e {
        MemoryError::UnsupportedRegion => CpuError::UnsupportedRegion,
        MemoryError::RomWriteViolation => CpuError::RomWriteViolation,
    }
}

/// What a shift, a rotate, an increment or a decrement makes of a byte.
fn modified_byte(op: Opcodes, value: u8, carry_bit: u8) -> (r: u8)
    requires
        carry_bit <= 1,
    ensures
        r == modified_value(op, value, carry_bit as int),
{
    match op {
        Opcodes::ASL(_) => {
            assert(value << 1 == (2 * (value as u16)) % 256) by (bit_vector);
            value << 1
        },
        Opcodes::LSR(_) => {
            assert(value >> 1 == value / 2) by (bit_vector);
            value >> 1
        },
        Opcodes::ROL(_) => {
            assert(carry_bit <= 1 ==> (value << 1) | carry_bit == (2 * (value as u16) + (
            carry_bit as u16)) % 256) by (bit_vector);
            (value << 1) | carry_bit
        },
        Opcodes::ROR(_) => {
            assert(carry_bit <= 1 ==> (value >> 1) | (carry_bit << 7) == value / 2 + 128
                * carry_bit) by (bit_vector);
            (value >> 1) | (carry_bit << 7)
        },
        Opcodes::INC(_) => add_bytes(value, 1),
        Opcodes::DEC(_) => add_bytes(value, 0xFF),
        _ => value,
    }
}

} // verus!
