//! The address bus of the console: 2 KiB of RAM mirrored over 8 KiB, a window
//! of picture-unit registers that is not implemented, and 32 KiB of program
//! ROM at the top of the address space.

use crate::memory::{read_u16_spec, write_u16_spec, Memory, MemoryError};
use std::collections::HashMap;
use vstd::prelude::*;

verus! {

/// The first address of the RAM window.
pub const RAM_START: u16 = 0x0000;

/// The number of RAM cells.
pub const RAM_SIZE: usize = 0x0800;

/// The last address of the RAM window, mirrors included.
pub const RAM_MIRRORS_END: u16 = 0x1FFF;

/// The first address of the picture-unit registers.
pub const PPU_REGISTERS: u16 = 0x2000;

/// The last address of the picture-unit registers, mirrors included.
pub const PPU_REGISTERS_MIRRORS_END: u16 = 0x3FFF;

/// The first address of the program ROM.
pub const PG_ROOM_START: u16 = 0x8000;

/// The last address of the program ROM.
pub const PG_ROOM_END: u16 = 0xFFFF;

/// The number of program ROM cells.
pub const PG_ROOM_SIZE: usize = 0x8000;

/// What a bus holds: the RAM cells and the program ROM cells.
pub struct BusView {
    pub ram: Seq<u8>,
    pub rom: Seq<u8>,
}

impl BusView {
    /// Both memories have their full size.
    pub open spec fn wf(self) -> bool {
        self.ram.len() == RAM_SIZE && self.rom.len() == PG_ROOM_SIZE
    }
}

/// The RAM cell that an address of the RAM window falls on.
pub open spec fn ram_cell(addr: u16) -> int {
    addr as int % 0x0800
}

/// The address bus.
pub struct Bus {
    cpu_ram: [u8; RAM_SIZE],
    pg_room: [u8; PG_ROOM_SIZE],
}

impl View for Bus {
    type V = BusView;

    closed spec fn view(&self) -> BusView {
        BusView { ram: self.cpu_ram@, rom: self.pg_room@ }
    }
}

impl Bus {
    /// A bus whose RAM and ROM hold zero throughout.
    pub fn new() -> (r: Bus)
        ensures
            r@.wf(),
            forall|i: int| 0 <= i < RAM_SIZE ==> r@.ram[i] == 0,
            forall|i: int| 0 <= i < PG_ROOM_SIZE ==> r@.rom[i] == 0,
    {
        Bus { cpu_ram: [0u8; RAM_SIZE], pg_room: [0u8; PG_ROOM_SIZE] }
    }

    /// The view of a bus always has both memories at full size.
    pub proof fn lemma_wf(&self)
        ensures
            self@.wf(),
    {
    }

    /// Reads the program ROM cell behind an address of the ROM window.
    fn read_from_pg_rom(&self, addr: u16) -> (r: u8)
        requires
            addr >= PG_ROOM_START,
        ensures
            r == self@.rom[addr - PG_ROOM_START],
    {
        let room_addr: u16 = addr - PG_ROOM_START;
        self.pg_room[room_addr as usize]
    }
}

impl Memory for Bus {
    open spec fn read_spec(m: BusView, addr: u16) -> Result<u8, MemoryError> {
        if addr <= RAM_MIRRORS_END {
            Ok(m.ram[ram_cell(addr)])
        } else if addr <= PPU_REGISTERS_MIRRORS_END {
            Err(MemoryError::UnsupportedRegion)
        } else if addr >= PG_ROOM_START {
            Ok(m.rom[addr - PG_ROOM_START])
        } else {
            Ok(0u8)
        }
    }

    open spec fn write_spec(m: BusView, addr: u16, data: u8) -> Result<BusView, MemoryError> {
        if addr <= RAM_MIRRORS_END {
            Ok(BusView { ram: m.ram.update(ram_cell(addr), data), rom: m.rom })
        } else if addr <= PPU_REGISTERS_MIRRORS_END {
            Err(MemoryError::UnsupportedRegion)
        } else if addr >= PG_ROOM_START {
            Err(MemoryError::RomWriteViolation)
        } else {
            Ok(m)
        }
    }

    open spec fn install_spec(m: BusView, addr: u16, data: u8) -> Result<BusView, MemoryError> {
        if addr >= PG_ROOM_START {
            Ok(BusView { ram: m.ram, rom: m.rom.update(addr - PG_ROOM_START, data) })
        } else {
            Self::write_spec(m, addr, data)
        }
    }

    fn read_from_memory(&self, addr: u16) -> (r: Result<u8, MemoryError>) {
        if addr <= RAM_MIRRORS_END {
            let mirror: u16 = addr & 0x7FF;
            assert(addr & 0x7FF == addr % 0x800) by (bit_vector);
            Ok(self.cpu_ram[mirror as usize])
        } else if addr <= PPU_REGISTERS_MIRRORS_END {
            Err(MemoryError::UnsupportedRegion)
        } else if addr >= PG_ROOM_START {
            Ok(self.read_from_pg_rom(addr))
        } else {
            Ok(0)
        }
    }

    fn write_to_memory(&mut self, addr: u16, data: u8) -> (r: Result<(), MemoryError>) {
        if addr <= RAM_MIRRORS_END {
            let mirror: u16 = addr & 0x7FF;
            assert(addr & 0x7FF == addr % 0x800) by (bit_vector);
            self.cpu_ram[mirror as usize] = data;
            Ok(())
        } else if addr <= PPU_REGISTERS_MIRRORS_END {
            Err(MemoryError::UnsupportedRegion)
        } else if addr >= PG_ROOM_START {
            Err(MemoryError::RomWriteViolation)
        } else {
            Ok(())
        }
    }

    fn install(&mut self, addr: u16, data: u8) -> (r: Result<(), MemoryError>) {
        if addr >= PG_ROOM_START {
            let room_addr: u16 = addr - PG_ROOM_START;
            self.pg_room[room_addr as usize] = data;
            Ok(())
        } else {
            self.write_to_memory(addr, data)
        }
    }
}

/// What a memory built from a table of cells holds at index `i`: the entry of
/// the table, and zero where the table has none.
pub open spec fn cell_from(table: Map<u16, u8>, i: int) -> u8 {
    if table.contains_key(i as u16) {
        table[i as u16]
    } else {
        0u8
    }
}

/// A bus whose RAM and program ROM hold the given cells, by index into each
/// memory, and zero elsewhere. An entry beyond the end of its memory has no
/// cell and is left out.
pub fn build_bus_with_values(cpu_ram: HashMap<u16, u8>, pg_room: HashMap<u16, u8>) -> (bus: Bus)
    ensures
        bus@.wf(),
        forall|i: int| 0 <= i < RAM_SIZE ==> #[trigger] bus@.ram[i] == cell_from(cpu_ram@, i),
        forall|i: int| 0 <= i < PG_ROOM_SIZE ==> #[trigger] bus@.rom[i] == cell_from(pg_room@, i),
{
    let mut bus = Bus::new();
    let mut addr: usize = 0;
    while addr < RAM_SIZE
        invariant
            addr <= RAM_SIZE,
            bus@.wf(),
            forall|i: int| 0 <= i < addr ==> #[trigger] bus@.ram[i] == cell_from(cpu_ram@, i),
            forall|i: int| addr <= i < RAM_SIZE ==> bus@.ram[i] == 0,
            forall|i: int| 0 <= i < PG_ROOM_SIZE ==> bus@.rom[i] == 0,
        decreases RAM_SIZE - addr,
    {
        let key: u16 = addr as u16;
        match cpu_ram.get(&key) {
            Some(data) => {
                bus.cpu_ram[addr] = *data;
            },
            None => {},
        }
        addr = addr + 1;
    }
    addr = 0;
    while addr < PG_ROOM_SIZE
        invariant
            addr <= PG_ROOM_SIZE,
            bus@.wf(),
            forall|i: int| 0 <= i < RAM_SIZE ==> #[trigger] bus@.ram[i] == cell_from(cpu_ram@, i),
            forall|i: int| 0 <= i < addr ==> #[trigger] bus@.rom[i] == cell_from(pg_room@, i),
            forall|i: int| addr <= i < PG_ROOM_SIZE ==> bus@.rom[i] == 0,
        decreases PG_ROOM_SIZE - addr,
    {
        let key: u16 = addr as u16;
        match pg_room.get(&key) {
            Some(data) => {
                bus.pg_room[addr] = *data;
            },
            None => {},
        }
        addr = addr + 1;
    }
    bus
}

/// The RAM cell of the bus at the given index.
pub fn read_bus_cpu_ram(bus: &Bus, addr: u16) -> (r: u8)
    requires
        addr < RAM_SIZE,
    ensures
        r == bus@.ram[addr as int],
{
    bus.cpu_ram[addr as usize]
}

/// A byte written anywhere in the RAM window is read back from every address
/// of the window that lies a multiple of 2 KiB away.
pub proof fn lemma_ram_mirroring(m: BusView, addr: u16, data: u8, mirror: u16)
    requires
        m.wf(),
        addr <= RAM_MIRRORS_END,
        mirror <= RAM_MIRRORS_END,
        mirror as int % 0x0800 == addr as int % 0x0800,
    ensures
        Bus::write_spec(m, addr, data) is Ok,
        Bus::read_spec(Bus::write_spec(m, addr, data).unwrap(), mirror) == Ok::<u8, MemoryError>(
            data,
        ),
{
}

/// A write to the RAM window leaves every cell but the one it falls on as it
/// was, and the program ROM too.
pub proof fn lemma_ram_write_is_local(m: BusView, addr: u16, data: u8, other: u16)
    requires
        m.wf(),
        addr <= RAM_MIRRORS_END,
        other > RAM_MIRRORS_END || other as int % 0x0800 != addr as int % 0x0800,
    ensures
        Bus::read_spec(Bus::write_spec(m, addr, data).unwrap(), other) == Bus::read_spec(
            m,
            other,
        ),
{
}

/// A 16-bit value written low byte first into the RAM window is read back
/// unchanged from the same address.
pub proof fn lemma_bus_ram_u16_round_trip(m: BusView, addr: u16, value: u16)
    requires
        m.wf(),
        addr < RAM_MIRRORS_END,
    ensures
        write_u16_spec::<Bus>(m, addr, value) is Ok,
        read_u16_spec::<Bus>(write_u16_spec::<Bus>(m, addr, value).unwrap(), addr) == Ok::<
            u16,
            MemoryError,
        >(value),
{
}

} // verus!
