//! Fixed-point numbers for combat stats, and exact fractions for the damage
//! that is worked out from them.

use vstd::prelude::*;

verus! {

/// How many units of a `Fixed` make one.
pub const SCALE: i64 = 65536;

/// A number with sixteen binary places: `raw` counts 65536ths.
#[derive(Clone, Copy, Debug, PartialEq, Eq, Structural)]
pub struct Fixed {
    pub raw: i32,
}

impl Fixed {
    /// The whole number `n`.
    pub fn whole(n: i16) -> (f: Fixed)
        ensures
            f.raw == n * SCALE,
    {
        let wide: i64 = n as i64 * SCALE;
        Fixed { raw: wide as i32 }
    }

    /// The number `n / 65536`.
    pub fn from_raw(raw: i32) -> (f: Fixed)
        ensures
            f.raw == raw,
    {
        Fixed { raw }
    }
}

/// An exact fraction `num / den`, as mathematics has it.
pub struct Amount {
    pub num: int,
    pub den: int,
}

/// An exact fraction `num / den` with a positive denominator.
#[derive(Clone, Copy, Debug)]
pub struct Ratio {
    pub num: i128,
    pub den: i128,
}

impl View for Ratio {
    type V = Amount;

    open spec fn view(&self) -> Amount {
        Amount { num: self.num as int, den: self.den as int }
    }
}

} // verus!
