//! What each instruction does, as functions on the state of the machine.
//!
//! The state is the registers plus the view of the memory; the functions here
//! are the reference that the executable processor is proved against.

use crate::memory::{high_byte, low_byte, next_addr, read_u16_spec, word, Memory, MemoryError};
use crate::opcodes::{decode_spec, AddressingMode, Opcodes};
use crate::status::{flag_is_set, with_flag, StatusFlags};
use vstd::prelude::*;

verus! {

/// The first address of the stack page.
pub const STACK_BASE: u16 = 0x0100;

/// The stack pointer of an empty stack.
pub const STACK_SIZE: u8 = 0xFF;

/// Where a program image is placed.
pub const PROGRAM_START: u16 = 0x8000;

/// The longest program image that fits above `PROGRAM_START`.
pub const PROGRAM_MAX: usize = 0x7FFF;

/// Where the address of the first instruction is kept, low byte first.
pub const RESET_VECTOR: u16 = 0xFFFC;

/// The status byte after a reset: interrupts disabled, second break marker set.
pub const RESET_STATUS: u8 = 0b0010_0100;

/// The registers of the processor and what its memory holds.
pub struct CpuState<V> {
    pub a: u8,
    pub x: u8,
    pub y: u8,
    pub status: u8,
    pub pc: u16,
    pub sp: u8,
    pub memory: V,
}

/// Why the processor stopped without reaching a halt.
#[derive(Clone, Copy, Debug, PartialEq, Eq, Structural)]
pub enum CpuError {
    /// The byte at the program counter encodes no instruction.
    IllegalOpcode(u8),
    /// An access fell into a register window that is not implemented.
    UnsupportedRegion,
    /// A write fell into read-only memory.
    RomWriteViolation,
}

/// How one instruction ended.
#[derive(Clone, Copy, Debug, PartialEq, Eq, Structural)]
pub enum StepOutcome {
    /// The instruction completed and the next one can be fetched.
    Running,
    /// As `Running`; in addition the stack pointer wrapped around its page.
    StackWrapped,
    /// The instruction was the break instruction: execution is over.
    Halted,
}

/// An operation that did not complete: why, and the state it left behind.
pub struct Failure<E, S> {
    pub error: E,
    pub state: S,
}

/// The outcome of an instruction: the state after it, or the refusal that
/// stopped it and the state at that point.
pub type Attempt<V> = Result<CpuState<V>, Failure<MemoryError, CpuState<V>>>;

/// The failure of an operation that was refused before it changed anything.
pub open spec fn refused<V>(e: MemoryError, s: CpuState<V>) -> Attempt<V> {
    Err(Failure { error: e, state: s })
}

/// The processor error that a refused memory access becomes.
pub open spec fn fault(e: MemoryError) -> CpuError {
    match e {
        MemoryError::UnsupportedRegion => CpuError::UnsupportedRegion,
        MemoryError::RomWriteViolation => CpuError::RomWriteViolation,
    }
}

/// An integer reduced to a byte, modulo 256.
pub open spec fn wrap8(n: int) -> u8 {
    (n % 256) as u8
}

/// An integer reduced to an address, modulo 65536.
pub open spec fn wrap16(n: int) -> u16 {
    (n % 0x10000) as u16
}

/// A byte read as a two's-complement number.
pub open spec fn signed(b: u8) -> int {
    if b >= 0x80 {
        b - 256
    } else {
        b as int
    }
}

/// Whether bit 7 of a byte is set.
pub open spec fn is_negative(v: u8) -> bool {
    v >= 0x80
}

/// The status byte with Negative and Zero taken from `value`.
pub open spec fn with_zn(status: u8, value: u8) -> u8 {
    with_flag(
        with_flag(status, StatusFlags::NEGATIVE, is_negative(value)),
        StatusFlags::ZERO,
        value == 0,
    )
}

/// The carry flag as a number.
pub open spec fn carry_in(status: u8) -> int {
    if flag_is_set(status, StatusFlags::CARRY) {
        1
    } else {
        0
    }
}

/// The status byte that comes off the stack: Break cleared, Break2 set.
pub open spec fn pulled_status(byte: u8) -> u8 {
    with_flag(with_flag(byte, StatusFlags::BREAK, false), StatusFlags::BREAK2, true)
}

/// The status byte that goes onto the stack: Break and Break2 set.
pub open spec fn pushed_status(status: u8) -> u8 {
    with_flag(with_flag(status, StatusFlags::BREAK, true), StatusFlags::BREAK2, true)
}

/// The address after `addr` within the same 256-byte page: the last address of
/// a page is followed by the first of that page.
pub open spec fn next_in_page(addr: u16) -> u16 {
    (addr - addr % 256 + (addr + 1) % 256) as u16
}

/// The state with the accumulator loaded and Zero and Negative set from it.
pub open spec fn set_a<V>(s: CpuState<V>, value: u8) -> CpuState<V> {
    CpuState { a: value, status: with_zn(s.status, value), ..s }
}

/// The state with X loaded and Zero and Negative set from it.
pub open spec fn set_x<V>(s: CpuState<V>, value: u8) -> CpuState<V> {
    CpuState { x: value, status: with_zn(s.status, value), ..s }
}

/// The state with Y loaded and Zero and Negative set from it.
pub open spec fn set_y<V>(s: CpuState<V>, value: u8) -> CpuState<V> {
    CpuState { y: value, status: with_zn(s.status, value), ..s }
}

/// The state after `value` and the carry are added to the accumulator. Carry
/// is set when the sum exceeds a byte; Overflow when the operand and the
/// accumulator agree in sign and the result does not.
pub open spec fn add_with_carry<V>(s: CpuState<V>, value: u8) -> CpuState<V> {
    let sum = s.a + value + carry_in(s.status);
    let result = wrap8(sum);
    let carried = with_flag(s.status, StatusFlags::CARRY, sum > 0xFF);
    let overflowed = with_flag(
        carried,
        StatusFlags::OVERFLOW,
        (value ^ result) & (result ^ s.a) & 0x80 != 0,
    );
    CpuState { a: result, status: with_zn(overflowed, result), ..s }
}

/// The status after `register` is compared with `value`: Carry when the
/// register is not below the value, Zero and Negative from the difference.
pub open spec fn compared(status: u8, register: u8, value: u8) -> u8 {
    with_zn(with_flag(status, StatusFlags::CARRY, register >= value), wrap8(register - value))
}

/// The status after a bit test of `value` against the accumulator `a`.
pub open spec fn bit_tested(status: u8, a: u8, value: u8) -> u8 {
    with_flag(
        with_flag(
            with_flag(status, StatusFlags::NEGATIVE, is_negative(value)),
            StatusFlags::OVERFLOW,
            value % 128 >= 64,
        ),
        StatusFlags::ZERO,
        a & value == 0,
    )
}

/// The address that the operand of an instruction names, with the program
/// counter at the first operand byte. For `IMMEDIATE` it is the address of the
/// operand byte itself; `ACCUMULATOR` names no address.
pub open spec fn operand_address<M: Memory>(s: CpuState<M::V>, mode: AddressingMode) -> Result<
    u16,
    MemoryError,
> {
    match mode {
        AddressingMode::ACCUMULATOR => Ok(0u16),
        AddressingMode::IMMEDIATE => Ok(s.pc),
        AddressingMode::ZERO_PAGE => match M::read_spec(s.memory, s.pc) {
            Err(e) => Err(e),
            Ok(b) => Ok(b as u16),
        },
        AddressingMode::ZERO_PAGE_X => match M::read_spec(s.memory, s.pc) {
            Err(e) => Err(e),
            Ok(b) => Ok(wrap8(b + s.x) as u16),
        },
        AddressingMode::ZERO_PAGE_Y => match M::read_spec(s.memory, s.pc) {
            Err(e) => Err(e),
            Ok(b) => Ok(wrap8(b + s.y) as u16),
        },
        AddressingMode::ABSOLUTE => read_u16_spec::<M>(s.memory, s.pc),
        AddressingMode::ABSOLUTE_X => match read_u16_spec::<M>(s.memory, s.pc) {
            Err(e) => Err(e),
            Ok(base) => Ok(wrap16(base + s.x)),
        },
        AddressingMode::ABSOLUTE_Y => match read_u16_spec::<M>(s.memory, s.pc) {
            Err(e) => Err(e),
            Ok(base) => Ok(wrap16(base + s.y)),
        },
        AddressingMode::INDIRECT => match read_u16_spec::<M>(s.memory, s.pc) {
            Err(e) => Err(e),
            Ok(ptr) => read_pointer::<M>(s.memory, ptr),
        },
        AddressingMode::INDIRECT_X => match M::read_spec(s.memory, s.pc) {
            Err(e) => Err(e),
            Ok(b) => read_pointer::<M>(s.memory, wrap8(b + s.x) as u16),
        },
        AddressingMode::INDIRECT_Y => match M::read_spec(s.memory, s.pc) {
            Err(e) => Err(e),
            Ok(b) => match read_pointer::<M>(s.memory, b as u16) {
                Err(e) => Err(e),
                Ok(base) => Ok(wrap16(base + s.y)),
            },
        },
    }
}

/// The 16-bit pointer stored at `ptr`: its low byte at `ptr`, its high byte at
/// the next address of the same page. A pointer in the last cell of a page has
/// its high byte in the first cell of that page, not in the next page.
pub open spec fn read_pointer<M: Memory>(m: M::V, ptr: u16) -> Result<u16, MemoryError> {
    match M::read_spec(m, ptr) {
        Err(e) => Err(e),
        Ok(lo) => match M::read_spec(m, next_in_page(ptr)) {
            Err(e) => Err(e),
            Ok(hi) => Ok(word(lo, hi)),
        },
    }
}

/// The byte that the operand of an instruction stands for.
pub open spec fn operand_value<M: Memory>(s: CpuState<M::V>, mode: AddressingMode) -> Result<
    u8,
    MemoryError,
> {
    match operand_address::<M>(s, mode) {
        Err(e) => Err(e),
        Ok(addr) => M::read_spec(s.memory, addr),
    }
}

/// The state with the program counter moved past the operand bytes.
pub open spec fn past_operand<V>(s: CpuState<V>, mode: AddressingMode) -> CpuState<V> {
    CpuState { pc: wrap16(s.pc + mode.operand_len()), ..s }
}

/// The state after `value` is pushed: it is written at the stack pointer, and
/// the pointer then moves down, from the bottom of the page to its top.
pub open spec fn pushed<M: Memory>(s: CpuState<M::V>, value: u8) -> Attempt<M::V> {
    match M::write_spec(s.memory, (STACK_BASE + s.sp) as u16, value) {
        Err(e) => refused(e, s),
        Ok(m) => Ok(CpuState { sp: wrap8(s.sp - 1), memory: m, ..s }),
    }
}

/// The state after a 16-bit value is pushed, high byte first. Where the
/// second push is refused the first stays done.
pub open spec fn pushed_word<M: Memory>(s: CpuState<M::V>, value: u16) -> Attempt<M::V> {
    match pushed::<M>(s, high_byte(value)) {
        Err(f) => Err(f),
        Ok(s1) => pushed::<M>(s1, low_byte(value)),
    }
}

/// The state with the stack pointer moved up by one, from the top of the page
/// to its bottom.
pub open spec fn popped<V>(s: CpuState<V>) -> CpuState<V> {
    CpuState { sp: wrap8(s.sp + 1), ..s }
}

/// The byte on top of the stack: the one that a pop yields.
pub open spec fn stack_top<M: Memory>(s: CpuState<M::V>) -> Result<u8, MemoryError> {
    M::read_spec(s.memory, (STACK_BASE + wrap8(s.sp + 1)) as u16)
}

/// The 16-bit value on top of the stack, low byte on top.
pub open spec fn stack_top_word<M: Memory>(s: CpuState<M::V>) -> Result<u16, MemoryError> {
    match stack_top::<M>(s) {
        Err(e) => Err(e),
        Ok(lo) => match stack_top::<M>(popped(s)) {
            Err(e) => Err(e),
            Ok(hi) => Ok(word(lo, hi)),
        },
    }
}

/// The state in which a pop of a 16-bit value stops: the stack pointer has
/// moved once for each byte that was tried.
pub open spec fn after_word_pop<M: Memory>(s: CpuState<M::V>) -> CpuState<M::V> {
    if stack_top::<M>(s) is Err {
        popped(s)
    } else {
        popped(popped(s))
    }
}

/// The state after an instruction that reads an operand byte `value` and
/// changes registers only; the program counter is already past the operand.
pub open spec fn with_operand<V>(s: CpuState<V>, op: Opcodes, value: u8) -> CpuState<V> {
    match op {
        Opcodes::ADC(_) => add_with_carry(s, value),
        Opcodes::SBC(_) => add_with_carry(s, (255 - value) as u8),
        Opcodes::AND(_) => set_a(s, s.a & value),
        Opcodes::ORA(_) => set_a(s, s.a | value),
        Opcodes::EOR(_) => set_a(s, s.a ^ value),
        Opcodes::BIT(_) => CpuState { status: bit_tested(s.status, s.a, value), ..s },
        Opcodes::CMP(_) => CpuState { status: compared(s.status, s.a, value), ..s },
        Opcodes::CPX(_) => CpuState { status: compared(s.status, s.x, value), ..s },
        Opcodes::CPY(_) => CpuState { status: compared(s.status, s.y, value), ..s },
        Opcodes::LDA(_) => set_a(s, value),
        Opcodes::LDX(_) => set_x(s, value),
        Opcodes::LDY(_) => set_y(s, value),
        _ => s,
    }
}

/// The state after an instruction that fetches its operand through `mode` and
/// changes registers only.
pub open spec fn operand_instruction<M: Memory>(
    s: CpuState<M::V>,
    op: Opcodes,
    mode: AddressingMode,
) -> Attempt<M::V> {
    match operand_value::<M>(s, mode) {
        Err(e) => refused(e, s),
        Ok(value) => Ok(with_operand(past_operand(s, mode), op, value)),
    }
}

/// The byte that a shift, a rotate, an increment or a decrement makes of
/// `value`; `carry` is the carry flag before the instruction, as 0 or 1.
pub open spec fn modified_value(op: Opcodes, value: u8, carry: int) -> u8 {
    match op {
        Opcodes::ASL(_) => wrap8(2 * value),
        Opcodes::LSR(_) => (value / 2) as u8,
        Opcodes::ROL(_) => wrap8(2 * value + carry),
        Opcodes::ROR(_) => (value / 2 + 128 * carry) as u8,
        Opcodes::INC(_) => wrap8(value + 1),
        Opcodes::DEC(_) => wrap8(value - 1),
        _ => value,
    }
}

/// The status after a shift, a rotate, an increment or a decrement of `value`.
/// A shift or rotate to the left carries out bit 7 of the value as it was
/// before the instruction, one to the right bit 0; an increment or decrement
/// leaves Carry alone. Zero and Negative follow the result.
pub open spec fn modified_status(op: Opcodes, status: u8, value: u8) -> u8 {
    let result = modified_value(op, value, carry_in(status));
    match op {
        Opcodes::ASL(_) | Opcodes::ROL(_) => with_zn(
            with_flag(status, StatusFlags::CARRY, is_negative(value)),
            result,
        ),
        Opcodes::LSR(_) | Opcodes::ROR(_) => with_zn(
            with_flag(status, StatusFlags::CARRY, value % 2 == 1),
            result,
        ),
        _ => with_zn(status, result),
    }
}

/// The state after a shift, a rotate, an increment or a decrement, of the
/// accumulator or of the memory cell that the operand names. A refusal
/// changes nothing.
pub open spec fn modify_instruction<M: Memory>(
    s: CpuState<M::V>,
    op: Opcodes,
    mode: AddressingMode,
) -> Attempt<M::V> {
    if mode == AddressingMode::ACCUMULATOR {
        Ok(
            CpuState {
                a: modified_value(op, s.a, carry_in(s.status)),
                status: modified_status(op, s.status, s.a),
                ..s
            },
        )
    } else {
        match operand_address::<M>(s, mode) {
            Err(e) => refused(e, s),
            Ok(addr) => match M::read_spec(s.memory, addr) {
                Err(e) => refused(e, s),
                Ok(value) => match M::write_spec(
                    s.memory,
                    addr,
                    modified_value(op, value, carry_in(s.status)),
                ) {
                    Err(e) => refused(e, s),
                    Ok(m) => Ok(
                        CpuState {
                            status: modified_status(op, s.status, value),
                            memory: m,
                            ..past_operand(s, mode)
                        },
                    ),
                },
            },
        }
    }
}

/// The state after `value` is stored at the address that the operand names.
/// No flag changes.
pub open spec fn store_instruction<M: Memory>(
    s: CpuState<M::V>,
    mode: AddressingMode,
    value: u8,
) -> Attempt<M::V> {
    match operand_address::<M>(s, mode) {
        Err(e) => refused(e, s),
        Ok(addr) => match M::write_spec(s.memory, addr, value) {
            Err(e) => refused(e, s),
            Ok(m) => Ok(CpuState { memory: m, ..past_operand(s, mode) }),
        },
    }
}

/// The state after a branch: the program counter moves past the offset byte
/// and, where `condition` holds, on by the offset read as a signed number.
pub open spec fn branch_instruction<M: Memory>(s: CpuState<M::V>, condition: bool) -> Attempt<
    M::V,
> {
    match M::read_spec(s.memory, s.pc) {
        Err(e) => refused(e, s),
        Ok(offset) => Ok(
            CpuState {
                pc: if condition {
                    wrap16(s.pc + 1 + signed(offset))
                } else {
                    wrap16(s.pc + 1)
                },
                ..s
            },
        ),
    }
}

/// The state after an instruction without operand that touches registers and
/// flags only.
pub open spec fn implied_instruction<V>(s: CpuState<V>, op: Opcodes) -> CpuState<V> {
    match op {
        Opcodes::CLC => CpuState { status: with_flag(s.status, StatusFlags::CARRY, false), ..s },
        Opcodes::SEC => CpuState { status: with_flag(s.status, StatusFlags::CARRY, true), ..s },
        Opcodes::CLD => CpuState {
            status: with_flag(s.status, StatusFlags::DECIMAL_MODE, false),
            ..s
        },
        Opcodes::SED => CpuState {
            status: with_flag(s.status, StatusFlags::DECIMAL_MODE, true),
            ..s
        },
        Opcodes::CLI => CpuState {
            status: with_flag(s.status, StatusFlags::INTERRUPT_DISABLE, false),
            ..s
        },
        Opcodes::SEI => CpuState {
            status: with_flag(s.status, StatusFlags::INTERRUPT_DISABLE, true),
            ..s
        },
        Opcodes::CLV => CpuState {
            status: with_flag(s.status, StatusFlags::OVERFLOW, false),
            ..s
        },
        Opcodes::DEX => set_x(s, wrap8(s.x - 1)),
        Opcodes::DEY => set_y(s, wrap8(s.y - 1)),
        Opcodes::INX => set_x(s, wrap8(s.x + 1)),
        Opcodes::INY => set_y(s, wrap8(s.y + 1)),
        Opcodes::TAX => set_x(s, s.a),
        Opcodes::TAY => set_y(s, s.a),
        Opcodes::TSX => set_x(s, s.sp),
        Opcodes::TXA => set_a(s, s.x),
        Opcodes::TYA => set_a(s, s.y),
        Opcodes::TXS => CpuState { sp: s.x, ..s },
        _ => s,
    }
}

/// The state after a jump to the address that the operand names.
pub open spec fn jump_instruction<M: Memory>(s: CpuState<M::V>, mode: AddressingMode) -> Attempt<
    M::V,
> {
    match operand_address::<M>(s, mode) {
        Err(e) => refused(e, s),
        Ok(target) => Ok(CpuState { pc: target, ..s }),
    }
}

/// The state after a subroutine call: the address of the last byte of the
/// call instruction is pushed, high byte first, and control goes to the
/// address that the operand names.
pub open spec fn call_instruction<M: Memory>(s: CpuState<M::V>, mode: AddressingMode) -> Attempt<
    M::V,
> {
    match operand_address::<M>(s, mode) {
        Err(e) => refused(e, s),
        Ok(target) => match pushed_word::<M>(s, wrap16(s.pc + mode.operand_len() - 1)) {
            Err(f) => Err(f),
            Ok(s1) => Ok(CpuState { pc: target, ..s1 }),
        },
    }
}

/// The state after a return from subroutine: a 16-bit address is popped, low
/// byte first, and control goes to the address after it.
pub open spec fn return_instruction<M: Memory>(s: CpuState<M::V>) -> Attempt<M::V> {
    match stack_top_word::<M>(s) {
        Err(e) => refused(e, after_word_pop::<M>(s)),
        Ok(addr) => Ok(CpuState { pc: wrap16(addr + 1), ..popped(popped(s)) }),
    }
}

/// The state after a return from interrupt: the status is popped, with Break
/// cleared and Break2 set, then a 16-bit address to which control goes.
pub open spec fn interrupt_return_instruction<M: Memory>(s: CpuState<M::V>) -> Attempt<M::V> {
    match stack_top::<M>(s) {
        Err(e) => refused(e, popped(s)),
        Ok(byte) => match stack_top_word::<M>(popped(s)) {
            Err(e) => refused(e, after_word_pop::<M>(popped(s))),
            Ok(addr) => Ok(
                CpuState { status: pulled_status(byte), pc: addr, ..popped(popped(popped(s))) },
            ),
        },
    }
}

/// The state after the accumulator is pulled from the stack.
pub open spec fn pull_accumulator_instruction<M: Memory>(s: CpuState<M::V>) -> Attempt<M::V> {
    match stack_top::<M>(s) {
        Err(e) => refused(e, popped(s)),
        Ok(value) => Ok(set_a(popped(s), value)),
    }
}

/// The state after the status is pulled from the stack: whatever the byte
/// holds, Break ends up cleared and Break2 set.
pub open spec fn pull_status_instruction<M: Memory>(s: CpuState<M::V>) -> Attempt<M::V> {
    match stack_top::<M>(s) {
        Err(e) => refused(e, popped(s)),
        Ok(byte) => Ok(CpuState { status: pulled_status(byte), ..popped(s) }),
    }
}

/// Whether the branch instruction `op` is taken under the given status.
pub open spec fn branch_taken(status: u8, op: Opcodes) -> bool {
    match op {
        Opcodes::BCC => !flag_is_set(status, StatusFlags::CARRY),
        Opcodes::BCS => flag_is_set(status, StatusFlags::CARRY),
        Opcodes::BNE => !flag_is_set(status, StatusFlags::ZERO),
        Opcodes::BEQ => flag_is_set(status, StatusFlags::ZERO),
        Opcodes::BPL => !flag_is_set(status, StatusFlags::NEGATIVE),
        Opcodes::BMI => flag_is_set(status, StatusFlags::NEGATIVE),
        Opcodes::BVC => !flag_is_set(status, StatusFlags::OVERFLOW),
        Opcodes::BVS => flag_is_set(status, StatusFlags::OVERFLOW),
        _ => false,
    }
}

/// The state after a jump, a call, a return or a stack instruction.
pub open spec fn control_instruction<M: Memory>(s: CpuState<M::V>, op: Opcodes) -> Attempt<
    M::V,
> {
    match op {
        Opcodes::JMP(mode) => jump_instruction::<M>(s, mode),
        Opcodes::JSR(mode) => call_instruction::<M>(s, mode),
        Opcodes::RTS => return_instruction::<M>(s),
        Opcodes::RTI => interrupt_return_instruction::<M>(s),
        Opcodes::PHA => pushed::<M>(s, s.a),
        Opcodes::PHP => pushed::<M>(s, pushed_status(s.status)),
        Opcodes::PLA => pull_accumulator_instruction::<M>(s),
        Opcodes::PLP => pull_status_instruction::<M>(s),
        _ => Ok(s),
    }
}

/// The state after instruction `op`, with the program counter already past the
/// opcode byte. The break instruction changes nothing: it ends the run.
pub open spec fn execute_spec<M: Memory>(s: CpuState<M::V>, op: Opcodes) -> Attempt<M::V> {
    match op {
        Opcodes::ADC(mode)
        | Opcodes::AND(mode)
        | Opcodes::BIT(mode)
        | Opcodes::CMP(mode)
        | Opcodes::CPX(mode)
        | Opcodes::CPY(mode)
        | Opcodes::EOR(mode)
        | Opcodes::LDA(mode)
        | Opcodes::LDX(mode)
        | Opcodes::LDY(mode)
        | Opcodes::ORA(mode)
        | Opcodes::SBC(mode) => operand_instruction::<M>(s, op, mode),
        Opcodes::ASL(mode)
        | Opcodes::LSR(mode)
        | Opcodes::ROL(mode)
        | Opcodes::ROR(mode)
        | Opcodes::INC(mode)
        | Opcodes::DEC(mode) => modify_instruction::<M>(s, op, mode),
        Opcodes::STA(mode) => store_instruction::<M>(s, mode, s.a),
        Opcodes::STX(mode) => store_instruction::<M>(s, mode, s.x),
        Opcodes::STY(mode) => store_instruction::<M>(s, mode, s.y),
        Opcodes::BCC
        | Opcodes::BCS
        | Opcodes::BNE
        | Opcodes::BEQ
        | Opcodes::BPL
        | Opcodes::BMI
        | Opcodes::BVC
        | Opcodes::BVS => branch_instruction::<M>(s, branch_taken(s.status, op)),
        Opcodes::JMP(_)
        | Opcodes::JSR(_)
        | Opcodes::RTS
        | Opcodes::RTI
        | Opcodes::PHA
        | Opcodes::PHP
        | Opcodes::PLA
        | Opcodes::PLP => control_instruction::<M>(s, op),
        _ => Ok(implied_instruction(s, op)),
    }
}

/// Whether the stack pointer wraps around its page while `op` executes from a
/// state with stack pointer `sp`.
pub open spec fn stack_wraps(sp: u8, op: Opcodes) -> bool {
    match op {
        Opcodes::PHA | Opcodes::PHP => sp == 0,
        Opcodes::PLA | Opcodes::PLP => sp == 0xFF,
        Opcodes::JSR(_) => sp <= 1,
        Opcodes::RTS => sp >= 0xFE,
        Opcodes::RTI => sp >= 0xFD,
        _ => false,
    }
}

/// How instruction `op` ends when it completes from a state with stack
/// pointer `sp`.
pub open spec fn outcome_spec(sp: u8, op: Opcodes) -> StepOutcome {
    if op == Opcodes::BRK {
        StepOutcome::Halted
    } else if stack_wraps(sp, op) {
        StepOutcome::StackWrapped
    } else {
        StepOutcome::Running
    }
}

/// One fetch, decode and execute: the byte at the program counter is read,
/// the counter moves past it, and the instruction that the byte encodes runs.
/// A byte that encodes nothing, or a refused memory access, is an error; the
/// state is then left as it was when the error came up: untouched where the
/// fetch was refused, with the program counter past the opcode byte otherwise.
#[verifier::opaque]
pub open spec fn step_spec<M: Memory>(s: CpuState<M::V>) -> Result<
    (CpuState<M::V>, StepOutcome),
    Failure<CpuError, CpuState<M::V>>,
> {
    match M::read_spec(s.memory, s.pc) {
        Err(e) => Err(Failure { error: fault(e), state: s }),
        Ok(byte) => {
            let fetched = CpuState { pc: wrap16(s.pc + 1), ..s };
            match decode_spec(byte) {
                None => Err(Failure { error: CpuError::IllegalOpcode(byte), state: fetched }),
                Some(op) => match execute_spec::<M>(fetched, op) {
                    Err(f) => Err(Failure { error: fault(f.error), state: f.state }),
                    Ok(t) => Ok((t, outcome_spec(s.sp, op))),
                },
            }
        },
    }
}

/// Where a run ended.
pub struct RunResult<V> {
    /// The state after the last instruction.
    pub state: CpuState<V>,
    /// Whether the last instruction was the break instruction.
    pub halted: bool,
    /// How many instructions wrapped the stack pointer.
    pub stack_wraps: nat,
}

/// A run result with `n` further stack wraps counted.
pub open spec fn count_wraps<V>(
    r: Result<RunResult<V>, Failure<CpuError, CpuState<V>>>,
    n: nat,
) -> Result<RunResult<V>, Failure<CpuError, CpuState<V>>> {
    match r {
        Err(f) => Err(f),
        Ok(r) => Ok(RunResult { stack_wraps: r.stack_wraps + n, ..r }),
    }
}

/// The run from state `s` of at most `budget` instructions: it ends at the
/// break instruction, at the first error, or when the budget is used up.
pub open spec fn run_spec<M: Memory>(s: CpuState<M::V>, budget: nat) -> Result<
    RunResult<M::V>,
    Failure<CpuError, CpuState<M::V>>,
>
    decreases budget,
{
    if budget == 0 {
        Ok(RunResult { state: s, halted: false, stack_wraps: 0 })
    } else {
        match step_spec::<M>(s) {
            Err(f) => Err(f),
            Ok((t, outcome)) => match outcome {
                StepOutcome::Halted => Ok(RunResult { state: t, halted: true, stack_wraps: 0 }),
                StepOutcome::StackWrapped => count_wraps(
                    run_spec::<M>(t, (budget - 1) as nat),
                    1,
                ),
                StepOutcome::Running => run_spec::<M>(t, (budget - 1) as nat),
            },
        }
    }
}

/// The memory after the loader has placed `bytes` at `start` and the
/// addresses that follow, in order, stopping at the first refusal with what
/// was placed until then.
pub open spec fn install_all<M: Memory>(m: M::V, start: u16, bytes: Seq<u8>) -> Result<
    M::V,
    Failure<MemoryError, M::V>,
>
    decreases bytes.len(),
{
    if bytes.len() == 0 {
        Ok(m)
    } else {
        match M::install_spec(m, start, bytes[0]) {
            Err(e) => Err(Failure { error: e, state: m }),
            Ok(m1) => install_all::<M>(m1, next_addr(start), bytes.drop_first()),
        }
    }
}

/// The memory after a program image is loaded: the image lies at
/// `PROGRAM_START`, and the reset vector holds that address, low byte first.
pub open spec fn load_spec<M: Memory>(m: M::V, program: Seq<u8>) -> Result<
    M::V,
    Failure<MemoryError, M::V>,
> {
    match install_all::<M>(m, PROGRAM_START, program) {
        Err(f) => Err(f),
        Ok(m1) => match M::install_spec(m1, RESET_VECTOR, low_byte(PROGRAM_START)) {
            Err(e) => Err(Failure { error: e, state: m1 }),
            Ok(m2) => match M::install_spec(
                m2,
                next_addr(RESET_VECTOR),
                high_byte(PROGRAM_START),
            ) {
                Err(e) => Err(Failure { error: e, state: m2 }),
                Ok(m3) => Ok(m3),
            },
        },
    }
}

/// The state after a reset on memory `m` that sends control to `pc`.
pub open spec fn reset_state<V>(m: V, pc: u16) -> CpuState<V> {
    CpuState { a: 0, x: 0, y: 0, status: RESET_STATUS, pc: pc, sp: STACK_SIZE, memory: m }
}

/// The state after a reset: registers zero, flags and stack pointer at their
/// initial values, the program counter taken from the reset vector. Where
/// the vector cannot be read the program counter stays as it is.
pub open spec fn reset_spec<M: Memory>(s: CpuState<M::V>) -> Attempt<M::V> {
    match read_u16_spec::<M>(s.memory, RESET_VECTOR) {
        Err(e) => refused(e, reset_state(s.memory, s.pc)),
        Ok(pc) => Ok(reset_state(s.memory, pc)),
    }
}

/// Loading a program, resetting, and running at most `budget` instructions.
pub open spec fn load_and_run_spec<M: Memory>(
    s: CpuState<M::V>,
    program: Seq<u8>,
    budget: nat,
) -> Result<RunResult<M::V>, Failure<CpuError, CpuState<M::V>>> {
    match load_spec::<M>(s.memory, program) {
        Err(f) => Err(Failure { error: fault(f.error), state: CpuState { memory: f.state, ..s } }),
        Ok(m) => match reset_spec::<M>(CpuState { memory: m, ..s }) {
            Err(f) => Err(Failure { error: fault(f.error), state: f.state }),
            Ok(t) => run_spec::<M>(t, budget),
        },
    }
}

} // verus!
