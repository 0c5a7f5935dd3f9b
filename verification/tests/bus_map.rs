use mos6502::bus::{build_bus_with_values, read_bus_cpu_ram, Bus};
use mos6502::cpu::{RunSummary, CPU};
use mos6502::memory::{make_word, split_word, Memory, MemoryError};
use mos6502::flat::FlatMemory;
use mos6502::semantics::{CpuError, StepOutcome};
use std::collections::HashMap;

#[test]
fn test_read_from_memory_le() {
    let mut memory = FlatMemory::new();
    memory.write_to_memory(0x1234, 0x56).unwrap();
    memory.write_to_memory(0x1235, 0x78).unwrap();
    assert_eq!(memory.read_from_memory_le(0x1234), Ok(0x7856));
}

#[test]
fn test_write_to_memory_le() {
    let mut memory = FlatMemory::new();
    let addr: u16 = 0x1234;
    let data: u16 = 0xABCD;
    memory.write_to_memory_le(addr, data).unwrap();
    assert_eq!(memory.read_from_memory(addr), Ok(0xCD));
    assert_eq!(memory.read_from_memory(addr + 1), Ok(0xAB));
}

#[test]
fn words_are_joined_and_split_low_byte_first() {
    assert_eq!(make_word(0x34, 0x12), 0x1234);
    assert_eq!(make_word(0xff, 0x00), 0x00ff);
    assert_eq!(split_word(0x1234), (0x34, 0x12));
    assert_eq!(split_word(0xff00), (0x00, 0xff));
}

#[test]
fn new_bus_reads_zero() {
    let bus = Bus::new();
    for addr in [0x0000u16, 0x07ff, 0x1fff, 0x4000, 0x7fff, 0x8000, 0xfffc, 0xffff] {
        assert_eq!(bus.read_from_memory(addr), Ok(0));
    }
}

#[test]
fn picture_unit_registers_are_not_supported() {
    let mut bus = Bus::new();
    for addr in [0x2000u16, 0x2007, 0x3000, 0x3fff] {
        assert_eq!(bus.read_from_memory(addr), Err(MemoryError::UnsupportedRegion));
        assert_eq!(bus.write_to_memory(addr, 1), Err(MemoryError::UnsupportedRegion));
        assert_eq!(bus.install(addr, 1), Err(MemoryError::UnsupportedRegion));
    }
}

#[test]
fn program_rom_refuses_writes() {
    let mut bus = Bus::new();
    for addr in [0x8000u16, 0xc000, 0xffff] {
        assert_eq!(bus.write_to_memory(addr, 1), Err(MemoryError::RomWriteViolation));
        assert_eq!(bus.read_from_memory(addr), Ok(0));
    }
}

#[test]
fn loader_fills_program_rom() {
    let mut bus = Bus::new();
    bus.install(0x8000, 0xa9).unwrap();
    bus.install(0xffff, 0x12).unwrap();
    assert_eq!(bus.read_from_memory(0x8000), Ok(0xa9));
    assert_eq!(bus.read_from_memory(0xffff), Ok(0x12));
    bus.install(0x0010, 0x33).unwrap();
    assert_eq!(bus.read_from_memory(0x0810), Ok(0x33));
}

#[test]
fn unmapped_addresses_read_zero_and_drop_writes() {
    let mut bus = Bus::new();
    for addr in [0x4000u16, 0x6000, 0x7fff] {
        assert_eq!(bus.write_to_memory(addr, 0x99), Ok(()));
        assert_eq!(bus.read_from_memory(addr), Ok(0));
    }
}

#[test]
fn word_write_into_rom_keeps_nothing_and_into_the_window_edge_keeps_the_low_byte() {
    let mut bus = Bus::new();
    assert_eq!(bus.write_to_memory_le(0x8000, 0x1234), Err(MemoryError::RomWriteViolation));
    assert_eq!(bus.write_to_memory_le(0x1fff, 0x1234), Err(MemoryError::UnsupportedRegion));
    assert_eq!(bus.read_from_memory(0x1fff), Ok(0x34));
    assert_eq!(bus.read_from_memory_le(0x1fff), Err(MemoryError::UnsupportedRegion));
}

#[test]
fn bus_built_from_tables_holds_their_cells() {
    let mut ram = HashMap::new();
    ram.insert(0x0000u16, 0x11u8);
    ram.insert(0x07ff, 0x22);
    let mut rom = HashMap::new();
    rom.insert(0x0000u16, 0xa9u8);
    rom.insert(0x0001, 0x05);
    rom.insert(0x7ffc, 0x00);
    rom.insert(0x7ffd, 0x80);
    let bus = build_bus_with_values(ram, rom);
    assert_eq!(read_bus_cpu_ram(&bus, 0x0000), 0x11);
    assert_eq!(read_bus_cpu_ram(&bus, 0x07ff), 0x22);
    assert_eq!(read_bus_cpu_ram(&bus, 0x0001), 0x00);
    assert_eq!(bus.read_from_memory(0x0800), Ok(0x11));
    assert_eq!(bus.read_from_memory(0x8000), Ok(0xa9));
    assert_eq!(bus.read_from_memory_le(0xfffc), Ok(0x8000));
    let mut cpu = CPU::new(bus);
    cpu.reset().unwrap();
    assert_eq!(cpu.run(), Ok(RunSummary { halted: true, stack_wraps: 0 }));
    assert_eq!(cpu.register_a, 0x05);
}

#[test]
fn program_runs_from_rom_on_the_bus() {
    let mut cpu = CPU::new(Bus::new());
    let end = cpu.load_and_run(vec![0xa9, 0xc0, 0xaa, 0xe8, 0x85, 0x10, 0x00]).unwrap();
    assert!(end.halted);
    assert_eq!(cpu.register_x, 0xc1);
    assert_eq!(cpu.read_from_memory(0x0010), Ok(0xc0));
    assert_eq!(cpu.read_from_memory(0x8000), Ok(0xa9));
    assert_eq!(cpu.read_from_memory_le(0xfffc), Ok(0x8000));
}

#[test]
fn store_into_rom_is_fatal() {
    let mut cpu = CPU::new(Bus::new());
    assert_eq!(
        cpu.load_and_run(vec![0xa9, 0x01, 0x8d, 0x00, 0x90, 0x00]),
        Err(CpuError::RomWriteViolation)
    );
    assert_eq!(cpu.program_counter, 0x8003);
    assert_eq!(cpu.read_from_memory(0x9000), Ok(0));
}

#[test]
fn access_to_picture_unit_registers_is_fatal() {
    let mut cpu = CPU::new(Bus::new());
    assert_eq!(
        cpu.load_and_run(vec![0xad, 0x02, 0x20, 0x00]),
        Err(CpuError::UnsupportedRegion)
    );
    let mut cpu = CPU::new(Bus::new());
    assert_eq!(
        cpu.load_and_run(vec![0x8d, 0x00, 0x20, 0x00]),
        Err(CpuError::UnsupportedRegion)
    );
    let mut cpu = CPU::new(Bus::new());
    cpu.program_counter = 0x2000;
    assert_eq!(cpu.step(), Err(CpuError::UnsupportedRegion));
    assert_eq!(cpu.program_counter, 0x2000);
}

#[test]
fn jump_into_unmapped_memory_halts_on_the_zero_byte() {
    let mut cpu = CPU::new(Bus::new());
    cpu.load(vec![0x4c, 0x00, 0x70]).unwrap();
    cpu.reset().unwrap();
    assert_eq!(cpu.step(), Ok(StepOutcome::Running));
    assert_eq!(cpu.step(), Ok(StepOutcome::Halted));
    assert_eq!(cpu.program_counter, 0x7001);
}
