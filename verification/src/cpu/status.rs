//! The processor status register: eight one-bit flags in one byte.

use vstd::prelude::*;

verus! {

/// Set when an addition carried out of bit 7 or a subtraction needed no borrow.
pub const CARRY: u8 = 0b0000_0001;

/// Set when the last result was zero.
pub const ZERO: u8 = 0b0000_0010;

/// Set while maskable interrupts are disabled.
pub const INTERRUPT: u8 = 0b0000_0100;

/// Set while arithmetic is to be done on binary-coded decimals.
pub const DECIMAL: u8 = 0b0000_1000;

/// Marks a status byte that a break instruction pushed.
pub const BREAK: u8 = 0b0001_0000;

/// The bit without a meaning; it reads as set.
pub const UNUSED: u8 = 0b0010_0000;

/// Set when the last signed result did not fit in a byte.
pub const OVERFLOW: u8 = 0b0100_0000;

/// Set when bit 7 of the last result was set.
pub const NEGATIVE: u8 = 0b1000_0000;

/// The flags of a processor that has just been created: `UNUSED` and `BREAK`.
pub const DEFAULT: u8 = 0b0011_0000;

/// A set of status flags, held as the byte of the status register.
///
/// Every byte is a valid set: each of its eight bits is one of the named
/// flags.
#[derive(Clone, Copy, Debug, PartialEq, Eq, Structural, Hash)]
pub struct StatusFlags {
    pub bits: u8,
}

impl StatusFlags {
    /// Whether any flag of `mask` is in this set.
    pub open spec fn has(self, mask: u8) -> bool {
        self.bits & mask != 0
    }

    /// This set with the flags of `mask` added where `value` holds and taken
    /// out where it does not.
    pub open spec fn with(self, mask: u8, value: bool) -> StatusFlags {
        if value {
            StatusFlags { bits: self.bits | mask }
        } else {
            StatusFlags { bits: self.bits & !mask }
        }
    }

    /// This set with each flag of `mask` turned over.
    pub open spec fn toggled(self, mask: u8) -> StatusFlags {
        StatusFlags { bits: self.bits ^ mask }
    }

    /// The set whose register byte is `bits`.
    pub fn from_bits(bits: u8) -> (flags: StatusFlags)
        ensures
            flags.bits == bits,
    {
        StatusFlags { bits }
    }

    /// The set with no flag in it.
    pub fn empty() -> (flags: StatusFlags)
        ensures
            flags.bits == 0,
    {
        StatusFlags { bits: 0 }
    }

    /// The register byte of this set.
    pub fn bits(&self) -> (bits: u8)
        ensures
            bits == self.bits,
    {
        self.bits
    }

    /// Whether every flag of `other` is in this set.
    pub fn contains(&self, other: StatusFlags) -> (all: bool)
        ensures
            all == (self.bits & other.bits == other.bits),
    {
        self.bits & other.bits == other.bits
    }

    /// Whether at least one flag of `other` is in this set.
    pub fn intersects(&self, other: StatusFlags) -> (any: bool)
        ensures
            any == self.has(other.bits),
    {
        self.bits & other.bits != 0
    }

    /// Adds the flags of `other`.
    pub fn insert(&mut self, other: StatusFlags)
        ensures
            *final(self) == old(self).with(other.bits, true),
    {
        self.bits = self.bits | other.bits;
    }

    /// Takes out the flags of `other`.
    pub fn remove(&mut self, other: StatusFlags)
        ensures
            *final(self) == old(self).with(other.bits, false),
    {
        self.bits = self.bits & !other.bits;
    }

    /// Adds the flags of `other` where `value` holds, takes them out where it
    /// does not.
    pub fn set(&mut self, other: StatusFlags, value: bool)
        ensures
            *final(self) == old(self).with(other.bits, value),
    {
        if value {
            self.bits = self.bits | other.bits;
        } else {
            self.bits = self.bits & !other.bits;
        }
    }

    /// Turns over each flag of `other`.
    pub fn toggle(&mut self, other: StatusFlags)
        ensures
            *final(self) == old(self).toggled(other.bits),
    {
        self.bits = self.bits ^ other.bits;
    }
}

impl Default for StatusFlags {
    /// The flags of a processor that has just been created.
    fn default() -> (flags: StatusFlags)
        ensures
            flags.bits == DEFAULT,
    {
        StatusFlags { bits: DEFAULT }
    }
}

/// A flag that was set or cleared reads back as it was written.
pub proof fn lemma_with_then_has(flags: StatusFlags, mask: u8, value: bool)
    requires
        mask != 0,
    ensures
        flags.with(mask, value).has(mask) == value,
{
    let bits = flags.bits;
    assert(mask != 0 ==> (bits | mask) & mask != 0 && (bits & !mask) & mask == 0) by (bit_vector);
}

/// Setting or clearing some flags leaves every flag outside them as it was.
pub proof fn lemma_with_keeps_others(flags: StatusFlags, mask: u8, value: bool, other: u8)
    requires
        mask & other == 0,
    ensures
        flags.with(mask, value).has(other) == flags.has(other),
{
    let bits = flags.bits;
    assert(mask & other == 0 ==> (bits | mask) & other == bits & other && (bits & !mask) & other
        == bits & other) by (bit_vector);
}

/// Turning the same flags over twice gives the first set back.
pub proof fn lemma_toggle_twice(flags: StatusFlags, mask: u8)
    ensures
        flags.toggled(mask).toggled(mask) == flags,
{
    let bits = flags.bits;
    assert((bits ^ mask) ^ mask == bits) by (bit_vector);
}

/// The flags of a fresh processor are exactly `UNUSED` and `BREAK`.
pub proof fn lemma_default_flags()
    ensures
        DEFAULT == UNUSED | BREAK,
        (StatusFlags { bits: DEFAULT }).has(UNUSED),
        (StatusFlags { bits: DEFAULT }).has(BREAK),
        !(StatusFlags { bits: DEFAULT }).has(
            CARRY | ZERO | INTERRUPT | DECIMAL | OVERFLOW | NEGATIVE,
        ),
{
    assert(0x30u8 == 0x20u8 | 0x10u8 && 0x30u8 & 0x20u8 != 0 && 0x30u8 & 0x10u8 != 0 && 0x30u8 & (
    0x01u8 | 0x02u8 | 0x04u8 | 0x08u8 | 0x40u8 | 0x80u8) == 0) by (bit_vector);
}

/// Whether `mask` is one of the eight named flags.
pub open spec fn is_flag(mask: u8) -> bool {
    mask == CARRY || mask == ZERO || mask == INTERRUPT || mask == DECIMAL || mask == BREAK || mask
        == UNUSED || mask == OVERFLOW || mask == NEGATIVE
}

/// Two different named flags have no bit in common, and none is empty.
pub proof fn lemma_flags_disjoint(a: u8, b: u8)
    requires
        is_flag(a),
        is_flag(b),
    ensures
        a != 0,
        a != b ==> a & b == 0,
{
    assert((a == 1 || a == 2 || a == 4 || a == 8 || a == 16 || a == 32 || a == 64 || a == 128) && (
    b == 1 || b == 2 || b == 4 || b == 8 || b == 16 || b == 32 || b == 64 || b == 128) && a != b
        ==> a & b == 0) by (bit_vector);
}

} // verus!
