//! Exact non-negative rational values and saturating counters.
//!
//! Derived features such as the paste ratio or the typing speed are exact
//! quotients of event counters. They are kept as numerator/denominator pairs
//! so that every threshold comparison in the rule engine is exact; consumers
//! that want a floating-point reading divide the two fields themselves.

use vstd::prelude::*;

verus! {

/// `a + b`, stopping at `u64::MAX`.
pub open spec fn sat_add(a: u64, b: u64) -> u64 {
    if a + b > u64::MAX {
        u64::MAX
    } else {
        (a + b) as u64
    }
}

/// `a - b`, stopping at zero.
pub open spec fn sat_sub(a: u64, b: u64) -> u64 {
    if a >= b {
        (a - b) as u64
    } else {
        0
    }
}

/// `a * 1000`, stopping at `u64::MAX`.
pub open spec fn sat_mul_1000(a: u64) -> u64 {
    if a * 1000 > u64::MAX {
        u64::MAX
    } else {
        (a * 1000) as u64
    }
}

/// Executable saturating addition on `u64`.
pub fn add_sat(a: u64, b: u64) -> (r: u64)
    ensures
        r == sat_add(a, b),
{
    if a <= u64::MAX - b {
        a + b
    } else {
        u64::MAX
    }
}

/// Executable saturating subtraction on `u64`.
pub fn sub_sat(a: u64, b: u64) -> (r: u64)
    ensures
        r == sat_sub(a, b),
{
    if a >= b {
        a - b
    } else {
        0
    }
}

/// Executable saturating multiplication by 1000 on `u64`.
pub fn mul_1000_sat(a: u64) -> (r: u64)
    ensures
        r == sat_mul_1000(a),
{
    if a <= u64::MAX / 1000 {
        assert(a * 1000 <= (u64::MAX / 1000) * 1000) by (nonlinear_arith)
            requires
                a <= u64::MAX / 1000,
        ;
        a * 1000
    } else {
        assert(a * 1000 > u64::MAX) by (nonlinear_arith)
            requires
                a > u64::MAX / 1000,
        ;
        u64::MAX
    }
}

/// The product of two values bounded by `u64::MAX` fits in a `u128`.
proof fn lemma_mul_u64_fits_u128(x: int, y: int)
    requires
        0 <= x <= u64::MAX,
        0 <= y <= u64::MAX,
    ensures
        x * y <= u128::MAX,
{
    assert(x * y <= u64::MAX * u64::MAX) by (nonlinear_arith)
        requires
            0 <= x <= u64::MAX,
            0 <= y <= u64::MAX,
    ;
}

/// An exact non-negative rational `num / den`. The denominator is never zero:
/// a quotient whose mathematical denominator would be zero is stored with the
/// guarded value that the producing formula prescribes, over `den == 1`.
#[derive(Debug, Clone, Copy, PartialEq, Eq, Structural)]
pub struct Ratio {
    pub num: u64,
    pub den: u64,
}

impl Ratio {
    /// A well-formed ratio has a positive denominator.
    pub open spec fn wf(self) -> bool {
        self.den >= 1
    }

    /// The ratio lies in the unit interval.
    pub open spec fn unit(self) -> bool {
        self.num <= self.den
    }

    /// Whether `self > a / b`, as exact rationals.
    pub open spec fn spec_gt_frac(self, a: u64, b: u64) -> bool {
        self.num * b > a * self.den
    }

    /// Whether `self < a / b`, as exact rationals.
    pub open spec fn spec_lt_frac(self, a: u64, b: u64) -> bool {
        self.num * b < a * self.den
    }

    /// The exact value `num / den`.
    pub fn new(num: u64, den: u64) -> (r: Ratio)
        requires
            den >= 1,
        ensures
            r == (Ratio { num, den }),
    {
        Ratio { num, den }
    }

    /// The ratio zero.
    pub fn zero() -> (r: Ratio)
        ensures
            r == (Ratio { num: 0, den: 1 }),
    {
        Ratio { num: 0, den: 1 }
    }

    /// The ratio one.
    pub fn one() -> (r: Ratio)
        ensures
            r == (Ratio { num: 1, den: 1 }),
    {
        Ratio { num: 1, den: 1 }
    }

    /// Compares `self` with the fraction `a / b`: true when `self > a / b`.
    pub fn gt_frac(&self, a: u64, b: u64) -> (r: bool)
        ensures
            r == self.spec_gt_frac(a, b),
    {
        proof {
            lemma_mul_u64_fits_u128(self.num as int, b as int);
            lemma_mul_u64_fits_u128(a as int, self.den as int);
        }
        let lhs: u128 = (self.num as u128) * (b as u128);
        let rhs: u128 = (a as u128) * (self.den as u128);
        lhs > rhs
    }

    /// Compares `self` with the fraction `a / b`: true when `self < a / b`.
    pub fn lt_frac(&self, a: u64, b: u64) -> (r: bool)
        ensures
            r == self.spec_lt_frac(a, b),
    {
        proof {
            lemma_mul_u64_fits_u128(self.num as int, b as int);
            lemma_mul_u64_fits_u128(a as int, self.den as int);
        }
        let lhs: u128 = (self.num as u128) * (b as u128);
        let rhs: u128 = (a as u128) * (self.den as u128);
        lhs < rhs
    }
}

} // verus!
