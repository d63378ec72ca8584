//! Fixed-point length and ratio-weight algebra.
//!
//! A `Unit` is an integer length in a fixed micro-unit (1 unit = 1/1000 mm).
//! A `Fill` is a non-negative integer weight used for grow/shrink
//! distribution and for parent-relative per-mille percentages.
//!
//! Arithmetic never fails: additions and subtractions saturate at the
//! representable bounds, and applying a ratio with a zero denominator yields
//! zero.  `Unit(i64::MAX)` serves as the infinity sentinel that break
//! markers use to force a wrap.

use vstd::prelude::*;

verus! {

/// Clips a mathematical integer into the `i64` range.
pub open spec fn clip(x: int) -> int {
    if x > i64::MAX {
        i64::MAX as int
    } else if x < i64::MIN {
        i64::MIN as int
    } else {
        x
    }
}

/// Saturating sum of two lengths.
pub open spec fn sat_add(a: int, b: int) -> int {
    clip(a + b)
}

/// Saturating difference of two lengths.
pub open spec fn sat_sub(a: int, b: int) -> int {
    clip(a - b)
}

/// Clips a mathematical integer into the `usize` range.
pub open spec fn clip_usize(x: int) -> int {
    if x > usize::MAX {
        usize::MAX as int
    } else if x < 0 {
        0
    } else {
        x
    }
}

pub open spec fn abs_of(x: int) -> int {
    if x < 0 {
        -x
    } else {
        x
    }
}

pub open spec fn sign_of(x: int) -> int {
    if x < 0 {
        -1
    } else if x == 0 {
        0
    } else {
        1
    }
}

/// What multiplying a length by the ratio `num / den` yields: the magnitude
/// is rounded half away from zero, and a zero denominator yields zero.
pub open spec fn ratio_round(u: int, num: int, den: int) -> int
    recommends
        num >= 0,
        den >= 0,
{
    if den == 0 {
        0
    } else {
        clip(sign_of(u) * ((abs_of(u) * num + den / 2) / den))
    }
}

#[derive(Debug, Clone, Copy, PartialEq, Eq, Structural)]
pub struct Unit(pub i64);

impl Unit {
    pub fn zero() -> (r: Self)
        ensures
            r.0 == 0,
    {
        Unit(0)
    }

    pub fn is_zero(&self) -> (r: bool)
        ensures
            r == (self.0 == 0),
    {
        self.0 == 0
    }

    /// The sentinel length that forces a line break wherever it occurs.
    pub fn infinity() -> (r: Self)
        ensures
            r.0 == i64::MAX,
    {
        Unit(i64::MAX)
    }

    pub fn from_i64(v: i64) -> (r: Self)
        ensures
            r.0 == v,
    {
        Unit(v)
    }

    /// Saturating addition.
    pub fn add(self, rhs: Unit) -> (r: Unit)
        ensures
            r.0 == sat_add(self.0 as int, rhs.0 as int),
    {
        match self.0.checked_add(rhs.0) {
            Some(v) => Unit(v),
            None => if rhs.0 > 0 {
                Unit(i64::MAX)
            } else {
                Unit(i64::MIN)
            },
        }
    }

    /// Saturating subtraction.
    pub fn sub(self, rhs: Unit) -> (r: Unit)
        ensures
            r.0 == sat_sub(self.0 as int, rhs.0 as int),
    {
        match self.0.checked_sub(rhs.0) {
            Some(v) => Unit(v),
            None => if rhs.0 < 0 {
                Unit(i64::MAX)
            } else {
                Unit(i64::MIN)
            },
        }
    }

    pub fn min_with(self, rhs: Unit) -> (r: Unit)
        ensures
            r.0 == if self.0 <= rhs.0 {
                self.0
            } else {
                rhs.0
            },
    {
        if self.0 <= rhs.0 {
            self
        } else {
            rhs
        }
    }

    pub fn max_with(self, rhs: Unit) -> (r: Unit)
        ensures
            r.0 == if self.0 >= rhs.0 {
                self.0
            } else {
                rhs.0
            },
    {
        if self.0 >= rhs.0 {
            self
        } else {
            rhs
        }
    }

    /// Half of this length, rounding toward zero.
    pub fn half(self) -> (r: Unit)
        ensures
            r.0 == half_toward_zero(self.0 as int),
    {
        if self.0 >= 0 {
            Unit(((self.0 as u64) / 2) as i64)
        } else {
            let magnitude: u64 = (-(self.0 as i128)) as u64;
            Unit((-((magnitude / 2) as i128)) as i64)
        }
    }

    /// Multiplies by the ratio `num / den`, rounding half away from zero.
    pub fn mul_ratio(self, num: Fill, den: Fill) -> (r: Unit)
        ensures
            r.0 == ratio_round(self.0 as int, num.0 as int, den.0 as int),
    {
        if den.0 == 0 {
            Unit(0)
        } else if self.0 == 0 || num.0 == 0 {
            proof {
                let d = den.0 as int;
                vstd::arithmetic::div_mod::lemma_basic_div(d / 2, d);
            }
            Unit(0)
        } else {
            let magnitude: u128 = if self.0 < 0 {
                (-(self.0 as i128)) as u128
            } else {
                self.0 as u128
            };
            proof {
                let m = magnitude as int;
                let w = num.0 as int;
                assert(m * w <= 0x8000_0000_0000_0000 * 0xffff_ffff_ffff_ffff)
                    by (nonlinear_arith)
                    requires
                        0 <= m <= 0x8000_0000_0000_0000,
                        0 <= w <= 0xffff_ffff_ffff_ffff,
                ;
            }
            let numerator: u128 = magnitude * (num.0 as u128) + ((den.0 as u128) / 2);
            let quotient: u128 = numerator / (den.0 as u128);
            proof {
                let u = self.0 as int;
                let d = den.0 as int;
                let w = num.0 as int;
                assert(magnitude as int == abs_of(u));
                assert(numerator as int == abs_of(u) * w + d / 2);
                assert(quotient as int == (abs_of(u) * w + d / 2) / d);
            }
            if self.0 < 0 {
                if quotient > (i64::MAX as u128) + 1 {
                    Unit(i64::MIN)
                } else {
                    Unit((-(quotient as i128)) as i64)
                }
            } else {
                if quotient > i64::MAX as u128 {
                    Unit(i64::MAX)
                } else {
                    Unit(quotient as i64)
                }
            }
        }
    }
}

#[derive(Debug, Clone, Copy, PartialEq, Eq, Structural)]
pub struct Fill(pub usize);

/// A `Fill` read as thousandths of a parent-provided length.
pub type FillPerMille = Fill;

impl Fill {
    pub fn new(fill: usize) -> (r: Self)
        ensures
            r.0 == fill,
    {
        Fill(fill)
    }

    pub fn none() -> (r: Self)
        ensures
            r.0 == 0,
    {
        Fill(0)
    }

    pub fn equal() -> (r: Self)
        ensures
            r.0 == 1,
    {
        Fill(1)
    }

    pub fn full() -> (r: Self)
        ensures
            r.0 == 1000,
    {
        Fill(1000)
    }

    /// The denominator of parent-percentage resolution.
    pub fn mille() -> (r: Self)
        ensures
            r.0 == 1000,
    {
        Fill(1000)
    }

    /// Saturating addition of weights.
    pub fn add(self, rhs: Fill) -> (r: Fill)
        ensures
            r.0 == clip_usize(self.0 + rhs.0),
    {
        Fill(self.0.saturating_add(rhs.0))
    }

    /// Subtraction of weights, saturating at zero.
    pub fn sub(self, rhs: Fill) -> (r: Fill)
        ensures
            r.0 == clip_usize(self.0 - rhs.0),
    {
        if rhs.0 >= self.0 {
            Fill(0)
        } else {
            Fill(self.0 - rhs.0)
        }
    }
}

pub open spec fn spec_add_unit(l: Option<Unit>, r: Option<Unit>) -> Option<Unit> {
    match (l, r) {
        (Option::None, Option::None) => Option::None,
        (Option::None, Option::Some(rv)) => Option::Some(rv),
        (Option::Some(lv), Option::None) => Option::Some(lv),
        (Option::Some(lv), Option::Some(rv)) => Option::Some(
            Unit(clip(lv.0 + rv.0) as i64),
        ),
    }
}

/// Sum of two optional lengths; an absent side is treated as the identity.
pub fn add_unit(l: Option<Unit>, r: Option<Unit>) -> (result: Option<Unit>)
    ensures
        result == spec_add_unit(l, r),
{
    match (l, r) {
        (None, None) => None,
        (None, Some(rv)) => Some(rv),
        (Some(lv), None) => Some(lv),
        (Some(lv), Some(rv)) => Some(lv.add(rv)),
    }
}

pub open spec fn spec_sub_unit(l: Option<Unit>, r: Option<Unit>) -> Option<Unit> {
    match (l, r) {
        (Option::None, Option::None) => Option::None,
        (Option::None, Option::Some(rv)) => Option::Some(Unit(clip(-rv.0) as i64)),
        (Option::Some(lv), Option::None) => Option::Some(lv),
        (Option::Some(lv), Option::Some(rv)) => Option::Some(
            Unit(clip(lv.0 - rv.0) as i64),
        ),
    }
}

/// Difference of two optional lengths; `None - Some(r)` negates `r`.
pub fn sub_unit(l: Option<Unit>, r: Option<Unit>) -> (result: Option<Unit>)
    ensures
        result == spec_sub_unit(l, r),
{
    match (l, r) {
        (None, None) => None,
        (None, Some(rv)) => Some(Unit::zero().sub(rv)),
        (Some(lv), None) => Some(lv),
        (Some(lv), Some(rv)) => Some(lv.sub(rv)),
    }
}

pub open spec fn spec_add_fill(l: Option<Fill>, r: Option<Fill>) -> Option<Fill> {
    match (l, r) {
        (Option::None, Option::None) => Option::None,
        (Option::None, Option::Some(rv)) => Option::Some(rv),
        (Option::Some(lv), Option::None) => Option::Some(lv),
        (Option::Some(lv), Option::Some(rv)) => Option::Some(
            Fill(clip_usize(lv.0 + rv.0) as usize),
        ),
    }
}

/// Sum of two optional weights; an absent side is treated as the identity.
pub fn add_fill(l: Option<Fill>, r: Option<Fill>) -> (result: Option<Fill>)
    ensures
        result == spec_add_fill(l, r),
{
    match (l, r) {
        (None, None) => None,
        (None, Some(rv)) => Some(rv),
        (Some(lv), None) => Some(lv),
        (Some(lv), Some(rv)) => Some(lv.add(rv)),
    }
}

pub open spec fn spec_sub_fill(l: Option<Fill>, r: Option<Fill>) -> Option<Fill> {
    match (l, r) {
        (Option::None, Option::None) => Option::None,
        (Option::None, Option::Some(_)) => Option::Some(Fill(0)),
        (Option::Some(lv), Option::None) => Option::Some(lv),
        (Option::Some(lv), Option::Some(rv)) => Option::Some(
            Fill(clip_usize(lv.0 - rv.0) as usize),
        ),
    }
}

/// Difference of two optional weights, saturating at zero.
pub fn sub_fill(l: Option<Fill>, r: Option<Fill>) -> (result: Option<Fill>)
    ensures
        result == spec_sub_fill(l, r),
{
    match (l, r) {
        (None, None) => None,
        (None, Some(rv)) => Some(Fill::none().sub(rv)),
        (Some(lv), None) => Some(lv),
        (Some(lv), Some(rv)) => Some(lv.sub(rv)),
    }
}


/// Half of a length, rounding toward zero.
pub open spec fn half_toward_zero(x: int) -> int {
    sign_of(x) * (abs_of(x) / 2)
}

} // verus!
