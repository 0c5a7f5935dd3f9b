//! The memory capability that the processor runs against: reading and writing
//! single bytes, and the little-endian 16-bit accesses built from them.

use vstd::prelude::*;

verus! {

/// Why a memory refused an access.
#[derive(Clone, Copy, Debug, PartialEq, Eq, Structural)]
pub enum MemoryError {
    /// The address lies in a register window that is not implemented.
    UnsupportedRegion,
    /// The address lies in read-only memory and the access was a write.
    RomWriteViolation,
}

/// The address that follows `addr`; the last address is followed by the first.
pub open spec fn next_addr(addr: u16) -> u16 {
    if addr == 0xFFFF {
        0
    } else {
        (addr + 1) as u16
    }
}

/// The 16-bit value whose low byte is `lo` and whose high byte is `hi`.
pub open spec fn word(lo: u8, hi: u8) -> u16 {
    (hi * 256 + lo) as u16
}

/// The low byte of a 16-bit value.
pub open spec fn low_byte(value: u16) -> u8 {
    (value % 256) as u8
}

/// The high byte of a 16-bit value.
pub open spec fn high_byte(value: u16) -> u8 {
    (value / 256) as u8
}

/// What a little-endian 16-bit read at `addr` yields: the low byte comes from
/// `addr`, the high byte from the address that follows.
pub open spec fn read_u16_spec<M: Memory>(m: M::V, addr: u16) -> Result<u16, MemoryError> {
    match M::read_spec(m, addr) {
        Err(e) => Err(e),
        Ok(lo) => match M::read_spec(m, next_addr(addr)) {
            Err(e) => Err(e),
            Ok(hi) => Ok(word(lo, hi)),
        },
    }
}

/// The memory after a little-endian 16-bit write at `addr`: the low byte goes
/// to `addr` first, then the high byte to the address that follows.
pub open spec fn write_u16_spec<M: Memory>(m: M::V, addr: u16, value: u16) -> Result<
    M::V,
    MemoryError,
> {
    match M::write_spec(m, addr, low_byte(value)) {
        Err(e) => Err(e),
        Ok(m1) => M::write_spec(m1, next_addr(addr), high_byte(value)),
    }
}

/// Joins two bytes into a 16-bit value.
pub fn make_word(lo: u8, hi: u8) -> (r: u16)
    ensures
        r == word(lo, hi),
{
    let r: u16 = ((hi as u16) << 8) | (lo as u16);
    assert(((hi as u16) << 8) | (lo as u16) == (hi as u16) * 256 + (lo as u16)) by (bit_vector);
    r
}

/// Splits a 16-bit value into its low and its high byte.
pub fn split_word(value: u16) -> (r: (u8, u8))
    ensures
        r.0 == low_byte(value),
        r.1 == high_byte(value),
        word(r.0, r.1) == value,
{
    let lo: u8 = (value & 0xff) as u8;
    let hi: u8 = (value >> 8) as u8;
    assert(value & 0xff == value % 256) by (bit_vector);
    assert(value >> 8 == value / 256) by (bit_vector);
    (lo, hi)
}

/// A byte-addressable memory of 65536 addresses.
///
/// An implementation says, over its view, what a read yields and what a write
/// leaves behind; the processor's behaviour is stated in terms of the two.
pub trait Memory: View + Sized {
    /// What a read of `addr` yields.
    spec fn read_spec(m: Self::V, addr: u16) -> Result<u8, MemoryError>;

    /// The memory after `data` is written to `addr`.
    spec fn write_spec(m: Self::V, addr: u16, data: u8) -> Result<Self::V, MemoryError>;

    /// The memory after the loader has placed `data` at `addr`. Unlike a write,
    /// the loader may fill a read-only cell.
    spec fn install_spec(m: Self::V, addr: u16, data: u8) -> Result<Self::V, MemoryError>;

    /// Reads the byte at `addr`.
    fn read_from_memory(&self, addr: u16) -> (r: Result<u8, MemoryError>)
        ensures
            r == Self::read_spec(self@, addr),
    ;

    /// Writes `data` to `addr`. A refused write changes nothing.
    fn write_to_memory(&mut self, addr: u16, data: u8) -> (r: Result<(), MemoryError>)
        ensures
            match Self::write_spec(old(self)@, addr, data) {
                Ok(m) => r is Ok && final(self)@ == m,
                Err(e) => r == Err::<(), MemoryError>(e) && final(self)@ == old(self)@,
            },
    ;

    /// Places `data` at `addr` on behalf of the loader. A refused placement
    /// changes nothing.
    fn install(&mut self, addr: u16, data: u8) -> (r: Result<(), MemoryError>)
        ensures
            match Self::install_spec(old(self)@, addr, data) {
                Ok(m) => r is Ok && final(self)@ == m,
                Err(e) => r == Err::<(), MemoryError>(e) && final(self)@ == old(self)@,
            },
    ;

    /// Reads a 16-bit value stored low byte first at `addr`.
    fn read_from_memory_le(&self, addr: u16) -> (r: Result<u16, MemoryError>)
        ensures
            r == (match Self::read_spec(self@, addr) {
                Err(e) => Err(e),
                Ok(lo) => match Self::read_spec(self@, next_addr(addr)) {
                    Err(e) => Err(e),
                    Ok(hi) => Ok(word(lo, hi)),
                },
            }),
    {
        let lo = match self.read_from_memory(addr) {
            Ok(b) => b,
            Err(e) => {
                return Err(e);
            },
        };
        match self.read_from_memory(addr.wrapping_add(1)) {
            Ok(hi) => Ok(make_word(lo, hi)),
            Err(e) => Err(e),
        }
    }

    /// Writes a 16-bit value low byte first at `addr`. Where the low byte is
    /// refused nothing is written; where only the high byte is refused the low
    /// byte stays written.
    fn write_to_memory_le(&mut self, addr: u16, data: u16) -> (r: Result<(), MemoryError>)
        ensures
            match Self::write_spec(old(self)@, addr, low_byte(data)) {
                Err(e) => r == Err::<(), MemoryError>(e) && final(self)@ == old(self)@,
                Ok(m1) => match Self::write_spec(m1, next_addr(addr), high_byte(data)) {
                    Err(e) => r == Err::<(), MemoryError>(e) && final(self)@ == m1,
                    Ok(m2) => r is Ok && final(self)@ == m2,
                },
            },
    {
        let (lo, hi) = split_word(data);
        match self.write_to_memory(addr, lo) {
            Ok(()) => {},
            Err(e) => {
                return Err(e);
            },
        }
        self.write_to_memory(addr.wrapping_add(1), hi)
    }
}

} // verus!
