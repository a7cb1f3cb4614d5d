//! Fixed-point clock divisor.
//!
//! A unit's clock divisor is logically a positive number with a granularity
//! of 1/256: it is programmed into the hardware as a 16-bit integer part and
//! an 8-bit fractional part (the fraction in units of 1/256). A divisor of
//! 1 runs the unit at full speed. This module holds the divisor as its raw
//! fixed-point bit value, so the split into the two register fields is plain
//! integer arithmetic.

use vstd::prelude::*;

verus! {

/// A clock divisor in fixed-point form: `bits` is the divisor value scaled
/// by 256, so the divisor covers 1/256 ..= 65535 + 255/256.
///
/// A small integer part combined with a nonzero fraction introduces timing
/// jitter; that is a documented caveat of the hardware, not a failure.
#[derive(Clone, Copy, PartialEq, Eq, Structural, Debug)]
pub struct ClockDivisor {
    bits: u32,
}

impl ClockDivisor {
    /// The raw fixed-point value: divisor scaled by 256.
    pub closed spec fn spec_bits(&self) -> u32 {
        self.bits
    }

    /// The 16-bit integer part of the divisor.
    pub open spec fn spec_int_part(&self) -> u16 {
        (self.spec_bits() / 256) as u16
    }

    /// The 8-bit fractional part of the divisor, in units of 1/256.
    pub open spec fn spec_frac_part(&self) -> u8 {
        (self.spec_bits() % 256) as u8
    }

    /// A divisor is valid when it is at least the minimal representable step
    /// (1/256) and its integer part fits the 16-bit register field.
    pub open spec fn wf(&self) -> bool {
        1 <= self.spec_bits() < 0x1000000
    }

    /// Build a divisor from its raw fixed-point value (the divisor scaled by
    /// 256): 256 is a divisor of 1 (full speed), 640 is 2.5.
    pub fn from_fixed_point(bits: u32) -> (r: ClockDivisor)
        requires
            1 <= bits < 0x1000000,
        ensures
            r.spec_bits() == bits,
            r.wf(),
    {
        ClockDivisor { bits }
    }

    /// Full speed: a divisor of 1.
    pub fn one() -> (r: ClockDivisor)
        ensures
            r.spec_bits() == 256,
            r.spec_int_part() == 1,
            r.spec_frac_part() == 0,
            r.wf(),
    {
        ClockDivisor { bits: 256 }
    }

    /// The integer part, as written to the register's 16-bit field.
    pub fn int_part(&self) -> (r: u16)
        requires
            self.wf(),
        ensures
            r == self.spec_int_part(),
    {
        (self.bits / 256) as u16
    }

    /// The fractional part, as written to the register's 8-bit field.
    pub fn frac_part(&self) -> (r: u8)
        ensures
            r == self.spec_frac_part(),
    {
        (self.bits % 256) as u8
    }
}

} // verus!
