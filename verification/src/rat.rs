//! Exact rational quantities.
//!
//! A [`Frac`] is an executable, unreduced fraction of two `u128` values; it is
//! how the planner hands out derived gigabyte amounts without rounding. Its
//! mathematical meaning is the ghost rational [`Rat`], a pair of unbounded
//! integers, together with the relations and operations below. Equality of
//! two rationals is cross-multiplied equality, so it is insensitive to the
//! particular (unreduced) representation.

use vstd::prelude::*;

verus! {

/// A ghost rational number `num / den`. Only meaningful when `den != 0`.
pub ghost struct Rat {
    pub num: int,
    pub den: int,
}

/// `a` and `b` denote the same rational (cross-multiplied equality).
pub open spec fn rat_eq(a: Rat, b: Rat) -> bool {
    a.num * b.den == b.num * a.den
}

/// `a <= b` as rationals; meaningful when both denominators are positive.
pub open spec fn rat_le(a: Rat, b: Rat) -> bool {
    a.num * b.den <= b.num * a.den
}

/// Sum of two rationals.
pub open spec fn rat_add(a: Rat, b: Rat) -> Rat {
    Rat { num: a.num * b.den + b.num * a.den, den: a.den * b.den }
}

/// Product of two rationals.
pub open spec fn rat_mul(a: Rat, b: Rat) -> Rat {
    Rat { num: a.num * b.num, den: a.den * b.den }
}

/// Quotient `a / b`; meaningful when `b.num != 0`.
pub open spec fn rat_div(a: Rat, b: Rat) -> Rat {
    Rat { num: a.num * b.den, den: a.den * b.num }
}

/// The integer `n` as a rational.
pub open spec fn rat_of_int(n: int) -> Rat {
    Rat { num: n, den: 1 }
}

/// The real number written as `m` milli-units, as a rational.
pub open spec fn rat_of_milli(m: int) -> Rat {
    Rat { num: m, den: 1000 }
}

/// An executable, unreduced fraction `num / den` of nonnegative values.
///
/// The planner only ever builds fractions with a positive denominator.
#[derive(Debug, Clone, Copy, PartialEq, Eq, Structural)]
pub struct Frac {
    pub num: u128,
    pub den: u128,
}

impl View for Frac {
    type V = Rat;

    /// The rational this fraction denotes.
    open spec fn view(&self) -> Rat {
        Rat { num: self.num as int, den: self.den as int }
    }
}

} // verus!
