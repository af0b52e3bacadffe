//! Status register flag bits.
use vstd::prelude::*;

verus! {

/// Carry.
pub const C: u8 = 0b0000_0001;
/// Zero.
pub const Z: u8 = 0b0000_0010;
/// IRQ disable.
pub const I: u8 = 0b0000_0100;
/// Decimal (ignored on the 2A03).
pub const D: u8 = 0b0000_1000;
/// Break.
pub const B: u8 = 0b0001_0000;
/// Unused (always 1 when pushed).
pub const U: u8 = 0b0010_0000;
/// Overflow.
pub const V: u8 = 0b0100_0000;
/// Negative.
pub const N: u8 = 0b1000_0000;

} // verus!
