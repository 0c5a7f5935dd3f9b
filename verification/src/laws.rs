//! Properties of the instruction set that follow from its definition.

use crate::bus::{Bus, BusView, PG_ROOM_SIZE, PG_ROOM_START};
use crate::flat::{FlatMemory, FLAT_SIZE};
use crate::memory::{next_addr, read_u16_spec, Memory, MemoryError};
use crate::opcodes::{decode_spec, AddressingMode, Opcodes};
use crate::semantics::{
    add_with_carry, call_instruction, carry_in, compared, execute_spec, install_all, is_negative, load_spec, next_in_page,
    operand_value, popped, pulled_status, pushed, pushed_status, pushed_word,
    return_instruction, signed, stack_top, stack_top_word, step_spec, with_zn, wrap16, wrap8, CpuState,
    PROGRAM_MAX, PROGRAM_START, RESET_VECTOR,
};
use crate::status::{
    flag_is_set, lemma_flag_reads_as_written, lemma_flag_write_keeps_others, with_flag,
    StatusFlags,
};
use vstd::prelude::*;

verus! {

/// Whether `mask` is one of the flags that a load leaves alone.
pub open spec fn is_not_zero_or_negative(mask: u8) -> bool {
    mask == StatusFlags::CARRY || mask == StatusFlags::INTERRUPT_DISABLE || mask
        == StatusFlags::DECIMAL_MODE || mask == StatusFlags::BREAK || mask == StatusFlags::BREAK2
        || mask == StatusFlags::OVERFLOW
}

/// Once Zero and Negative are taken from a byte, Zero is set exactly when the
/// byte is zero and Negative exactly when its bit 7 is set; the other flags
/// are as before.
pub proof fn lemma_zero_and_negative_follow_value(status: u8, value: u8, other: u8)
    requires
        is_not_zero_or_negative(other),
    ensures
        flag_is_set(with_zn(status, value), StatusFlags::ZERO) == (value == 0),
        flag_is_set(with_zn(status, value), StatusFlags::NEGATIVE) == (value & 0x80 == 0x80),
        (value & 0x80 == 0x80) == (value >= 0x80),
        flag_is_set(with_zn(status, value), other) == flag_is_set(status, other),
{
    let n = with_flag(status, StatusFlags::NEGATIVE, is_negative(value));
    assert(0x02u8 & 0x80u8 == 0) by (bit_vector);
    lemma_flag_reads_as_written(n, StatusFlags::ZERO, value == 0);
    lemma_flag_write_keeps_others(n, StatusFlags::ZERO, value == 0, StatusFlags::NEGATIVE);
    lemma_flag_reads_as_written(status, StatusFlags::NEGATIVE, is_negative(value));
    assert((value & 0x80 == 0x80) == (value >= 0x80)) by (bit_vector);
    assert(StatusFlags::ZERO & other == 0 && StatusFlags::NEGATIVE & other == 0) by (bit_vector)
        requires
            other == 1u8 || other == 4u8 || other == 8u8 || other == 16u8 || other == 32u8
                || other == 64u8,
    ;
    lemma_flag_write_keeps_others(n, StatusFlags::ZERO, value == 0, other);
    lemma_flag_write_keeps_others(status, StatusFlags::NEGATIVE, is_negative(value), other);
}

/// Every load instruction that completes leaves the operand in its register,
/// with Zero set exactly when the loaded byte is zero and Negative exactly
/// when its bit 7 is set.
pub proof fn lemma_load_sets_zero_and_negative<M: Memory>(
    s: CpuState<M::V>,
    op: Opcodes,
    mode: AddressingMode,
)
    requires
        op == Opcodes::LDA(mode) || op == Opcodes::LDX(mode) || op == Opcodes::LDY(mode),
        execute_spec::<M>(s, op) is Ok,
    ensures
        operand_value::<M>(s, mode) is Ok,
        ({
            let t = execute_spec::<M>(s, op)->Ok_0;
            let value = operand_value::<M>(s, mode)->Ok_0;
            &&& op == Opcodes::LDA(mode) ==> t.a == value
            &&& op == Opcodes::LDX(mode) ==> t.x == value
            &&& op == Opcodes::LDY(mode) ==> t.y == value
            &&& flag_is_set(t.status, StatusFlags::ZERO) == (value == 0)
            &&& flag_is_set(t.status, StatusFlags::NEGATIVE) == (value & 0x80 == 0x80)
            &&& (value & 0x80 == 0x80) == (value >= 0x80)
        }),
{
    let value = operand_value::<M>(s, mode)->Ok_0;
    lemma_zero_and_negative_follow_value(s.status, value, StatusFlags::CARRY);
}

/// An addition sets Carry exactly when the sum of accumulator, operand and
/// carry exceeds a byte, and Overflow exactly when the sum of the three, with
/// accumulator and operand read as signed numbers, does not fit in a signed
/// byte. The accumulator receives the sum modulo 256.
pub proof fn lemma_addition_flags<V>(s: CpuState<V>, value: u8)
    ensures
        ({
            let t = add_with_carry(s, value);
            let carry = if flag_is_set(s.status, StatusFlags::CARRY) {
                1int
            } else {
                0int
            };
            let signed_sum = signed(s.a) + signed(value) + carry;
            &&& t.a == (s.a + value + carry) % 256
            &&& flag_is_set(t.status, StatusFlags::CARRY) == (s.a + value + carry > 255)
            &&& flag_is_set(t.status, StatusFlags::OVERFLOW) == (signed_sum < -128 || signed_sum
                > 127)
        }),
{
    let sum = s.a + value + carry_in(s.status);
    let result = wrap8(sum);
    let a = s.a;
    assert(((value ^ result) & (result ^ a) & 0x80 != 0) == ((value >= 0x80) != (result >= 0x80)
        && (result >= 0x80) != (a >= 0x80))) by (bit_vector);
    let carried = with_flag(s.status, StatusFlags::CARRY, sum > 0xFF);
    let overflowed = with_flag(
        carried,
        StatusFlags::OVERFLOW,
        (value ^ result) & (result ^ a) & 0x80 != 0,
    );
    lemma_zero_and_negative_follow_value(overflowed, result, StatusFlags::CARRY);
    lemma_zero_and_negative_follow_value(overflowed, result, StatusFlags::OVERFLOW);
    lemma_flag_reads_as_written(
        carried,
        StatusFlags::OVERFLOW,
        (value ^ result) & (result ^ a) & 0x80 != 0,
    );
    assert(0x40u8 & 0x01u8 == 0 && 0x40u8 != 0 && 0x01u8 != 0) by (bit_vector);
    lemma_flag_write_keeps_others(
        carried,
        StatusFlags::OVERFLOW,
        (value ^ result) & (result ^ a) & 0x80 != 0,
        StatusFlags::CARRY,
    );
    lemma_flag_reads_as_written(s.status, StatusFlags::CARRY, sum > 0xFF);
}

/// A comparison sets Carry exactly when the register is not below the
/// operand, Zero exactly when the two are equal, and Negative from bit 7 of
/// their difference modulo 256.
pub proof fn lemma_compare_flags(status: u8, register: u8, value: u8)
    ensures
        flag_is_set(compared(status, register, value), StatusFlags::CARRY) == (register >= value),
        flag_is_set(compared(status, register, value), StatusFlags::ZERO) == (register == value),
        flag_is_set(compared(status, register, value), StatusFlags::NEGATIVE) == ((register
            - value) % 256 >= 128),
{
    let carried = with_flag(status, StatusFlags::CARRY, register >= value);
    let difference = wrap8(register - value);
    lemma_zero_and_negative_follow_value(carried, difference, StatusFlags::CARRY);
    assert(0x01u8 != 0) by (bit_vector);
    lemma_flag_reads_as_written(status, StatusFlags::CARRY, register >= value);
}

/// Within a page the address after the last cell is the first cell: a pointer
/// stored at an address that ends in `0xFF` has its high byte at the start of
/// the same page. Everywhere else the next address is the next cell.
pub proof fn lemma_pointer_high_byte_stays_in_page(ptr: u16)
    ensures
        ptr % 256 == 255 ==> next_in_page(ptr) == ptr - 255,
        ptr % 256 != 255 ==> next_in_page(ptr) == ptr + 1,
        next_in_page(ptr) / 256 == ptr / 256,
{
}

/// The status byte that is pushed has Break and Break2 set, whatever the live
/// flags are, and agrees with the live flags everywhere else.
pub proof fn lemma_pushed_status_sets_break_markers(status: u8, other: u8)
    requires
        other == StatusFlags::CARRY || other == StatusFlags::ZERO || other
            == StatusFlags::INTERRUPT_DISABLE || other == StatusFlags::DECIMAL_MODE || other
            == StatusFlags::OVERFLOW || other == StatusFlags::NEGATIVE,
    ensures
        flag_is_set(pushed_status(status), StatusFlags::BREAK),
        flag_is_set(pushed_status(status), StatusFlags::BREAK2),
        flag_is_set(pushed_status(status), other) == flag_is_set(status, other),
{
    assert(((status | 0x10u8) | 0x20u8) & 0x10u8 == 0x10u8) by (bit_vector);
    assert(((status | 0x10u8) | 0x20u8) & 0x20u8 == 0x20u8) by (bit_vector);
    assert((((status | 0x10u8) | 0x20u8) & other == other) == (status & other == other))
        by (bit_vector)
        requires
            other == 1u8 || other == 2u8 || other == 4u8 || other == 8u8 || other == 64u8
                || other == 128u8,
    ;
}

/// The status that is pulled has Break cleared and Break2 set, whatever the
/// byte on the stack holds, and agrees with that byte everywhere else.
pub proof fn lemma_pulled_status_fixes_break_markers(byte: u8, other: u8)
    requires
        other == StatusFlags::CARRY || other == StatusFlags::ZERO || other
            == StatusFlags::INTERRUPT_DISABLE || other == StatusFlags::DECIMAL_MODE || other
            == StatusFlags::OVERFLOW || other == StatusFlags::NEGATIVE,
    ensures
        !flag_is_set(pulled_status(byte), StatusFlags::BREAK),
        flag_is_set(pulled_status(byte), StatusFlags::BREAK2),
        flag_is_set(pulled_status(byte), other) == flag_is_set(byte, other),
{
    assert(((byte & !0x10u8) | 0x20u8) & 0x10u8 != 0x10u8) by (bit_vector);
    assert(((byte & !0x10u8) | 0x20u8) & 0x20u8 == 0x20u8) by (bit_vector);
    assert((((byte & !0x10u8) | 0x20u8) & other == other) == (byte & other == other))
        by (bit_vector)
        requires
            other == 1u8 || other == 2u8 || other == 4u8 || other == 8u8 || other == 64u8
                || other == 128u8,
    ;
}

/// The instruction that pushes the status pushes a byte with Break and Break2
/// set; the one that pulls it leaves Break cleared and Break2 set.
pub proof fn lemma_status_push_and_pull<M: Memory>(s: CpuState<M::V>)
    ensures
        execute_spec::<M>(s, Opcodes::PHP) == pushed::<M>(s, pushed_status(s.status)),
        flag_is_set(pushed_status(s.status), StatusFlags::BREAK),
        flag_is_set(pushed_status(s.status), StatusFlags::BREAK2),
        execute_spec::<M>(s, Opcodes::PLP) is Ok ==> {
            let t = execute_spec::<M>(s, Opcodes::PLP)->Ok_0;
            !flag_is_set(t.status, StatusFlags::BREAK) && flag_is_set(
                t.status,
                StatusFlags::BREAK2,
            )
        },
{
    lemma_pushed_status_sets_break_markers(s.status, StatusFlags::CARRY);
    if execute_spec::<M>(s, Opcodes::PLP) is Ok {
        let byte = stack_top::<M>(s)->Ok_0;
        lemma_pulled_status_fixes_break_markers(byte, StatusFlags::CARRY);
    }
}

/// A call followed at once by a return continues at the instruction after the
/// call, with the stack pointer where it was: the call pushes the address of
/// its own last byte and the return continues one past what it pops. This
/// holds on any memory that gives back the pushed address when the return
/// pops it.
pub proof fn lemma_call_then_return<M: Memory>(s: CpuState<M::V>)
    requires
        M::read_spec(s.memory, s.pc) == Ok::<u8, MemoryError>(0x20),
        step_spec::<M>(s) is Ok,
        ({
            let called = step_spec::<M>(s)->Ok_0.0;
            &&& M::read_spec(called.memory, called.pc) == Ok::<u8, MemoryError>(0x60)
            &&& step_spec::<M>(called) is Ok
            &&& stack_top_word::<M>(called) == Ok::<u16, MemoryError>(wrap16(s.pc + 2))
        }),
    ensures
        ({
            let called = step_spec::<M>(s)->Ok_0.0;
            let returned = step_spec::<M>(called)->Ok_0.0;
            &&& returned.pc == wrap16(s.pc + 3)
            &&& returned.sp == s.sp
            &&& returned.a == s.a && returned.x == s.x && returned.y == s.y
            &&& returned.status == s.status
        }),
{
    lemma_call_step::<M>(s);
    lemma_return_step::<M>(step_spec::<M>(s)->Ok_0.0);
    lemma_wrap8_twice(s.sp);
    assert(wrap16(wrap16(s.pc + 2) + 1) == wrap16(s.pc + 3));
}

/// Moving a byte down twice, or up twice, is moving it by two.
proof fn lemma_wrap8_twice(b: u8)
    ensures
        wrap8(wrap8(b - 1) - 1) == wrap8(b - 2),
        wrap8(wrap8(b + 1) + 1) == wrap8(b + 2),
        wrap8(wrap8(b - 2) + 2) == b,
{
}

/// The call instruction and the return instruction, as bytes.
proof fn lemma_decode_call_and_return()
    ensures
        decode_spec(0x20u8) == Some(Opcodes::JSR(AddressingMode::ABSOLUTE)),
        decode_spec(0x60u8) == Some(Opcodes::RTS),
{
}

/// What a call changes besides memory and program counter.
proof fn lemma_call_instruction<M: Memory>(s: CpuState<M::V>)
    requires
        call_instruction::<M>(s, AddressingMode::ABSOLUTE) is Ok,
    ensures
        ({
            let called = call_instruction::<M>(
                s,
                AddressingMode::ABSOLUTE,
            )->Ok_0;
            &&& called.sp == wrap8(s.sp - 2)
            &&& called.a == s.a && called.x == s.x && called.y == s.y
            &&& called.status == s.status
        }),
{
    lemma_wrap8_twice(s.sp);
}

/// What a completed call leaves behind.
proof fn lemma_call_step<M: Memory>(s: CpuState<M::V>)
    requires
        M::read_spec(s.memory, s.pc) == Ok::<u8, MemoryError>(0x20),
        step_spec::<M>(s) is Ok,
    ensures
        ({
            let called = step_spec::<M>(s)->Ok_0.0;
            &&& called.sp == wrap8(s.sp - 2)
            &&& called.a == s.a && called.x == s.x && called.y == s.y
            &&& called.status == s.status
        }),
{
    reveal(step_spec);
    lemma_decode_call_and_return();
    let fetched = CpuState { pc: wrap16(s.pc + 1), ..s };
    let op = Opcodes::JSR(AddressingMode::ABSOLUTE);
    assert(execute_spec::<M>(fetched, op) == call_instruction::<M>(
        fetched,
        AddressingMode::ABSOLUTE,
    ));
    lemma_call_instruction::<M>(fetched);
}

/// What a completed return leaves behind.
proof fn lemma_return_step<M: Memory>(s: CpuState<M::V>)
    requires
        M::read_spec(s.memory, s.pc) == Ok::<u8, MemoryError>(0x60),
        step_spec::<M>(s) is Ok,
    ensures
        stack_top_word::<M>(s) is Ok,
        ({
            let returned = step_spec::<M>(s)->Ok_0.0;
            &&& returned.pc == wrap16(stack_top_word::<M>(s)->Ok_0 + 1)
            &&& returned.sp == wrap8(s.sp + 2)
            &&& returned.a == s.a && returned.x == s.x && returned.y == s.y
            &&& returned.status == s.status
        }),
{
    reveal(step_spec);
    lemma_decode_call_and_return();
    lemma_wrap8_twice(s.sp);
    let fetched = CpuState { pc: wrap16(s.pc + 1), ..s };
    assert(execute_spec::<M>(fetched, Opcodes::RTS) == return_instruction::<M>(
        fetched,
    ));
    assert(stack_top_word::<M>(fetched) == stack_top_word::<M>(s));
}

/// On a flat memory the two bytes that a push of a 16-bit value writes are
/// the ones that the next pop of a 16-bit value reads.
pub proof fn lemma_flat_stack_keeps_word(s: CpuState<Seq<u8>>, value: u16)
    requires
        s.memory.len() == FLAT_SIZE,
    ensures
        pushed_word::<FlatMemory>(s, value) is Ok,
        stack_top_word::<FlatMemory>(pushed_word::<FlatMemory>(s, value)->Ok_0) == Ok::<
            u16,
            MemoryError,
        >(value),
        popped(popped(pushed_word::<FlatMemory>(s, value)->Ok_0)).sp == s.sp,
{
}

/// On the bus the two bytes that a push of a 16-bit value writes are the ones
/// that the next pop of a 16-bit value reads: the stack page lies in RAM.
pub proof fn lemma_bus_stack_keeps_word(s: CpuState<BusView>, value: u16)
    requires
        s.memory.wf(),
    ensures
        pushed_word::<Bus>(s, value) is Ok,
        stack_top_word::<Bus>(pushed_word::<Bus>(s, value)->Ok_0) == Ok::<u16, MemoryError>(
            value,
        ),
        popped(popped(pushed_word::<Bus>(s, value)->Ok_0)).sp == s.sp,
{
}

/// On a flat memory the loader's bytes land at consecutive addresses and every
/// other cell stays as it was.
pub proof fn lemma_flat_install_all(m: Seq<u8>, start: u16, bytes: Seq<u8>)
    requires
        m.len() == FLAT_SIZE,
        start + bytes.len() <= FLAT_SIZE,
    ensures
        install_all::<FlatMemory>(m, start, bytes) is Ok,
        ({
            let after = install_all::<FlatMemory>(m, start, bytes)->Ok_0;
            &&& after.len() == FLAT_SIZE
            &&& forall|i: int| 0 <= i < bytes.len() ==> #[trigger] after[start + i] == bytes[i]
            &&& forall|a: int|
                0 <= a < FLAT_SIZE && !(start <= a < start + bytes.len()) ==> #[trigger] after[a]
                    == m[a]
        }),
    decreases bytes.len(),
{
    if bytes.len() > 0 {
        let m1 = m.update(start as int, bytes[0]);
        let rest = bytes.drop_first();
        if rest.len() > 0 {
            lemma_flat_install_all(m1, (start + 1) as u16, rest);
            let after = install_all::<FlatMemory>(m, start, bytes)->Ok_0;
            assert forall|i: int| 0 <= i < bytes.len() implies #[trigger] after[start + i]
                == bytes[i] by {
                if i > 0 {
                    assert(after[(start + 1) + (i - 1)] == rest[i - 1]);
                }
            }
        } else {
            assert(install_all::<FlatMemory>(m1, next_addr(start), rest) is Ok);
            assert(install_all::<FlatMemory>(m1, next_addr(start), rest)->Ok_0 == m1);
        }
    }
}

/// On a flat memory a load always succeeds: afterwards the program is read
/// back from `PROGRAM_START` on, up to the reset vector, and the reset vector
/// holds `PROGRAM_START`.
pub proof fn lemma_flat_load_reads_back(m: Seq<u8>, program: Seq<u8>)
    requires
        m.len() == FLAT_SIZE,
        program.len() <= PROGRAM_MAX,
    ensures
        load_spec::<FlatMemory>(m, program) is Ok,
        ({
            let after = load_spec::<FlatMemory>(m, program)->Ok_0;
            &&& after.len() == FLAT_SIZE
            &&& forall|i: int|
                0 <= i < program.len() && PROGRAM_START + i < RESET_VECTOR
                    ==> #[trigger] FlatMemory::read_spec(after, (PROGRAM_START + i) as u16) == Ok::<
                    u8,
                    MemoryError,
                >(program[i])
            &&& read_u16_spec::<FlatMemory>(after, RESET_VECTOR) == Ok::<u16, MemoryError>(
                PROGRAM_START,
            )
        }),
{
    lemma_flat_install_all(m, PROGRAM_START, program);
    let placed = install_all::<FlatMemory>(m, PROGRAM_START, program)->Ok_0;
    let after = load_spec::<FlatMemory>(m, program)->Ok_0;
    assert forall|i: int|
        0 <= i < program.len() && PROGRAM_START + i < RESET_VECTOR implies #[trigger] FlatMemory::read_spec(
        after,
        (PROGRAM_START + i) as u16,
    ) == Ok::<u8, MemoryError>(program[i]) by {
        assert(placed[PROGRAM_START + i] == program[i]);
    }
}

/// On the bus the loader's bytes land in consecutive cells of the program
/// ROM; the RAM and every other ROM cell stay as they were.
pub proof fn lemma_bus_install_all(m: BusView, start: u16, bytes: Seq<u8>)
    requires
        m.wf(),
        start >= PG_ROOM_START,
        start + bytes.len() <= 0x10000,
    ensures
        install_all::<Bus>(m, start, bytes) is Ok,
        ({
            let after = install_all::<Bus>(m, start, bytes)->Ok_0;
            &&& after.wf()
            &&& after.ram == m.ram
            &&& forall|i: int|
                0 <= i < bytes.len() ==> #[trigger] after.rom[start - PG_ROOM_START + i]
                    == bytes[i]
            &&& forall|a: int|
                0 <= a < PG_ROOM_SIZE && !(start - PG_ROOM_START <= a < start - PG_ROOM_START
                    + bytes.len()) ==> #[trigger] after.rom[a] == m.rom[a]
        }),
    decreases bytes.len(),
{
    if bytes.len() > 0 {
        let m1 = BusView { ram: m.ram, rom: m.rom.update(start - PG_ROOM_START, bytes[0]) };
        let rest = bytes.drop_first();
        if rest.len() > 0 {
            lemma_bus_install_all(m1, (start + 1) as u16, rest);
            let after = install_all::<Bus>(m, start, bytes)->Ok_0;
            assert forall|i: int| 0 <= i < bytes.len() implies #[trigger] after.rom[start
                - PG_ROOM_START + i] == bytes[i] by {
                if i > 0 {
                    assert(after.rom[(start + 1) - PG_ROOM_START + (i - 1)] == rest[i - 1]);
                }
            }
        } else {
            assert(install_all::<Bus>(m1, next_addr(start), rest) is Ok);
            assert(install_all::<Bus>(m1, next_addr(start), rest)->Ok_0 == m1);
        }
    }
}

/// On the bus a load always succeeds: afterwards the program is read back from
/// `PROGRAM_START` on, up to the reset vector, the reset vector holds
/// `PROGRAM_START`, and the RAM is as it was.
pub proof fn lemma_bus_load_reads_back(m: BusView, program: Seq<u8>)
    requires
        m.wf(),
        program.len() <= PROGRAM_MAX,
    ensures
        load_spec::<Bus>(m, program) is Ok,
        ({
            let after = load_spec::<Bus>(m, program)->Ok_0;
            &&& after.wf()
            &&& after.ram == m.ram
            &&& forall|i: int|
                0 <= i < program.len() && PROGRAM_START + i < RESET_VECTOR ==> #[trigger] Bus::read_spec(
                    after,
                    (PROGRAM_START + i) as u16,
                ) == Ok::<u8, MemoryError>(program[i])
            &&& read_u16_spec::<Bus>(after, RESET_VECTOR) == Ok::<u16, MemoryError>(PROGRAM_START)
        }),
{
    lemma_bus_install_all(m, PROGRAM_START, program);
    let placed = install_all::<Bus>(m, PROGRAM_START, program)->Ok_0;
    let after = load_spec::<Bus>(m, program)->Ok_0;
    assert forall|i: int|
        0 <= i < program.len() && PROGRAM_START + i < RESET_VECTOR implies #[trigger] Bus::read_spec(
        after,
        (PROGRAM_START + i) as u16,
    ) == Ok::<u8, MemoryError>(program[i]) by {
        assert(placed.rom[PROGRAM_START - PG_ROOM_START + i] == program[i]);
    }
}

} // verus!
