//! The processor status register: a packed byte of named condition bits.

use vstd::prelude::*;

verus! {

/// Negative flag: bit 7 of the most recent flag-affecting result.
pub const NEGATIVE: u8 = 0x80;
/// Overflow flag.
pub const OVERFLOW: u8 = 0x40;
/// Unused bit, kept so the packed byte round-trips through stack push/pull.
pub const UNUSED: u8 = 0x20;
/// Break flag: set by `BRK`; observing it set halts `run`.
pub const BREAK: u8 = 0x10;
/// Decimal-mode flag (decimal arithmetic itself is out of scope).
pub const DECIMAL: u8 = 0x08;
/// Interrupt-disable flag.
pub const INTERRUPT: u8 = 0x04;
/// Zero flag: the most recent flag-affecting result was exactly zero.
pub const ZERO: u8 = 0x02;
/// Carry flag.
pub const CARRY: u8 = 0x01;

/// Holds when every bit of `mask` is set in the packed byte `p`.
pub open spec fn flag_set(p: u8, mask: u8) -> bool {
    p & mask == mask
}

/// The status register.
///
/// ```text
///  7 6 5 4 3 2 1 0
///  N V _ B D I Z C
/// ```
///
/// Invariant-free by design: every byte value is a valid register state, and
/// the packed byte is pushed verbatim by `BRK`.
#[derive(Clone, Copy, Debug, PartialEq, Eq, Structural)]
pub struct Flags {
    pub bits: u8,
}

impl Flags {
    /// A register with every bit clear.
    pub fn empty() -> (r: Flags)
        ensures
            r.bits == 0,
    {
        Flags { bits: 0 }
    }

    /// Set every bit of `mask`, leaving the other bits alone.
    pub fn insert(&mut self, mask: u8)
        ensures
            final(self).bits == old(self).bits | mask,
    {
        self.bits = self.bits | mask;
    }

    /// Clear every bit of `mask`, leaving the other bits alone.
    pub fn remove(&mut self, mask: u8)
        ensures
            final(self).bits == old(self).bits & !mask,
    {
        self.bits = self.bits & !mask;
    }

    /// True when every bit of `mask` is set.
    pub fn contains(&self, mask: u8) -> (r: bool)
        ensures
            r == flag_set(self.bits, mask),
    {
        self.bits & mask == mask
    }

    /// The packed status byte, as pushed on the stack by `BRK`.
    pub fn to_byte(&self) -> (r: u8)
        ensures
            r == self.bits,
    {
        self.bits
    }
}

impl Default for Flags {
    /// Fresh status register: every bit clear.
    fn default() -> (r: Flags)
        ensures
            r.bits == 0,
    {
        Flags { bits: 0 }
    }
}

} // verus!
