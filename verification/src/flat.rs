//! A memory without a map: 65536 cells, each readable and writable.

use crate::memory::{read_u16_spec, write_u16_spec, Memory, MemoryError};
use vstd::prelude::*;

verus! {

/// The number of cells of a flat memory.
pub const FLAT_SIZE: usize = 0x10000;

/// 64 KiB of plain storage, one cell per address.
pub struct FlatMemory {
    cells: [u8; FLAT_SIZE],
}

impl View for FlatMemory {
    type V = Seq<u8>;

    closed spec fn view(&self) -> Seq<u8> {
        self.cells@
    }
}

impl FlatMemory {
    /// A memory whose cells all hold zero.
    pub fn new() -> (r: FlatMemory)
        ensures
            r@.len() == FLAT_SIZE,
            forall|a: int| 0 <= a < FLAT_SIZE ==> r@[a] == 0,
    {
        FlatMemory { cells: [0u8; FLAT_SIZE] }
    }

    /// Every view of a flat memory has one cell per address.
    pub proof fn lemma_len(&self)
        ensures
            self@.len() == FLAT_SIZE,
    {
    }
}

impl Memory for FlatMemory {
    open spec fn read_spec(m: Seq<u8>, addr: u16) -> Result<u8, MemoryError> {
        Ok(m[addr as int])
    }

    open spec fn write_spec(m: Seq<u8>, addr: u16, data: u8) -> Result<Seq<u8>, MemoryError> {
        Ok(m.update(addr as int, data))
    }

    open spec fn install_spec(m: Seq<u8>, addr: u16, data: u8) -> Result<Seq<u8>, MemoryError> {
        Ok(m.update(addr as int, data))
    }

    fn read_from_memory(&self, addr: u16) -> (r: Result<u8, MemoryError>) {
        Ok(self.cells[addr as usize])
    }

    fn write_to_memory(&mut self, addr: u16, data: u8) -> (r: Result<(), MemoryError>) {
        self.cells[addr as usize] = data;
        Ok(())
    }

    fn install(&mut self, addr: u16, data: u8) -> (r: Result<(), MemoryError>) {
        self.cells[addr as usize] = data;
        Ok(())
    }
}

/// A 16-bit value written low byte first is read back unchanged from the same
/// address, at every address and for every value.
pub proof fn lemma_flat_u16_round_trip(m: Seq<u8>, addr: u16, value: u16)
    requires
        m.len() == FLAT_SIZE,
    ensures
        write_u16_spec::<FlatMemory>(m, addr, value) is Ok,
        read_u16_spec::<FlatMemory>(
            write_u16_spec::<FlatMemory>(m, addr, value).unwrap(),
            addr,
        ) == Ok::<u16, MemoryError>(value),
{
}

} // verus!
