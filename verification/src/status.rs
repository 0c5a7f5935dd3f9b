//! The processor status register as a set of named flags.

use vstd::prelude::*;

verus! {

/// Whether every bit of `mask` is set in `bits`.
pub open spec fn flag_is_set(bits: u8, mask: u8) -> bool {
    bits & mask == mask
}

/// `bits` with the bits of `mask` set when `on` holds, and cleared otherwise.
pub open spec fn with_flag(bits: u8, mask: u8, on: bool) -> u8 {
    if on {
        bits | mask
    } else {
        bits & !mask
    }
}

/// The eight condition flags of the processor, kept as one byte.
#[derive(Clone, Copy, Debug, PartialEq, Eq, Structural)]
pub struct StatusFlags {
    bits: u8,
}

impl View for StatusFlags {
    type V = u8;

    closed spec fn view(&self) -> u8 {
        self.bits
    }
}

impl StatusFlags {
    /// An addition or a shift carried out of bit 7.
    pub const CARRY: u8 = 0b0000_0001;

    /// The last result was zero.
    pub const ZERO: u8 = 0b0000_0010;

    /// Interrupts are disabled.
    pub const INTERRUPT_DISABLE: u8 = 0b0000_0100;

    /// Decimal mode; tracked, and without effect on arithmetic.
    pub const DECIMAL_MODE: u8 = 0b0000_1000;

    /// Marks a status byte that a software interrupt pushed.
    pub const BREAK: u8 = 0b0001_0000;

    /// The second break marker, set in every pushed status byte.
    pub const BREAK2: u8 = 0b0010_0000;

    /// The last addition overflowed as a signed number.
    pub const OVERFLOW: u8 = 0b0100_0000;

    /// Bit 7 of the last result.
    pub const NEGATIVE: u8 = 0b1000_0000;

    /// The register with no flag set.
    pub fn empty() -> (r: StatusFlags)
        ensures
            r@ == 0,
    {
        StatusFlags { bits: 0 }
    }

    /// The register that holds exactly the given byte: each of its eight bits
    /// is a flag, so none is dropped.
    pub fn from_bits_truncate(bits: u8) -> (r: StatusFlags)
        ensures
            r@ == bits,
    {
        StatusFlags { bits }
    }

    /// The register as one byte.
    pub fn bits(&self) -> (r: u8)
        ensures
            r == self@,
    {
        self.bits
    }

    /// Whether all the flags of `mask` are set.
    pub fn contains(&self, mask: u8) -> (r: bool)
        ensures
            r == flag_is_set(self@, mask),
    {
        self.bits & mask == mask
    }

    /// Sets the flags of `mask`.
    pub fn insert(&mut self, mask: u8)
        ensures
            final(self)@ == with_flag(old(self)@, mask, true),
    {
        self.bits = self.bits | mask;
    }

    /// Clears the flags of `mask`.
    pub fn remove(&mut self, mask: u8)
        ensures
            final(self)@ == with_flag(old(self)@, mask, false),
    {
        self.bits = self.bits & !mask;
    }

    /// Sets the flags of `mask` when `on` holds, and clears them otherwise.
    pub fn set(&mut self, mask: u8, on: bool)
        ensures
            final(self)@ == with_flag(old(self)@, mask, on),
    {
        if on {
            self.insert(mask);
        } else {
            self.remove(mask);
        }
    }
}

/// After a flag is written it reads as written, whatever the register held.
pub proof fn lemma_flag_reads_as_written(bits: u8, mask: u8, on: bool)
    requires
        mask != 0,
    ensures
        flag_is_set(with_flag(bits, mask, on), mask) == on,
{
    assert((bits | mask) & mask == mask) by (bit_vector);
    assert(mask != 0 ==> (bits & !mask) & mask != mask) by (bit_vector);
}

/// Writing one flag leaves every flag outside its mask as it was.
pub proof fn lemma_flag_write_keeps_others(bits: u8, mask: u8, on: bool, other: u8)
    requires
        mask & other == 0,
    ensures
        flag_is_set(with_flag(bits, mask, on), other) == flag_is_set(bits, other),
{
    assert(mask & other == 0 ==> ((bits | mask) & other == other) == (bits & other == other))
        by (bit_vector);
    assert(mask & other == 0 ==> ((bits & !mask) & other == other) == (bits & other == other))
        by (bit_vector);
}

} // verus!
