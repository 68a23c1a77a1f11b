//! Easing curves in exact arithmetic.
//!
//! A place along an animation is a fraction of whole numbers, 0 at the start
//! and 1 at the end. An easing curve maps a place to a place, and does so
//! without rounding: its result is again a fraction.

use vstd::prelude::*;

verus! {

/// A fraction `num / den` of whole numbers.
#[derive(Clone, Copy, Debug)]
pub struct Fraction {
    /// The numerator.
    pub num: i64,
    /// The denominator. A fraction stands for a number only if it is positive.
    pub den: i64,
}

impl Fraction {
    /// The fraction stands for a number.
    pub open spec fn wf(self) -> bool {
        self.den > 0
    }

    /// The two fractions stand for the same number.
    pub open spec fn same_value(self, other: Fraction) -> bool {
        self.num * other.den == other.num * self.den
    }

    /// The number `self` stands for is at most the number `other` stands for.
    pub open spec fn at_most(self, other: Fraction) -> bool {
        self.num * other.den <= other.num * self.den
    }

    /// The fraction `num / den`, or nothing when `den` is not positive.
    pub fn new(num: i64, den: i64) -> (f: Option<Fraction>)
        ensures
            den > 0 ==> f == Some(Fraction { num: num, den: den }),
            den <= 0 ==> f is None,
    {
        if den > 0 {
            Some(Fraction { num, den })
        } else {
            None
        }
    }
}

/// The largest numerator, in size, and the largest denominator for which
/// `ease_in_out_cubic` can hold its result in a `Fraction`.
pub const CUBIC_LIMIT: i64 = 1_048_576;

/// The fraction is one that `ease_in_out_cubic` takes.
pub open spec fn cubic_takes(x: Fraction) -> bool {
    &&& 0 < x.den <= CUBIC_LIMIT
    &&& -CUBIC_LIMIT <= x.num <= CUBIC_LIMIT
}

/// Whether `ease_in_out_cubic` takes the fraction.
pub fn cubic_accepts(x: Fraction) -> (ok: bool)
    ensures
        ok == cubic_takes(x),
{
    0 < x.den && x.den <= CUBIC_LIMIT && -CUBIC_LIMIT <= x.num && x.num <= CUBIC_LIMIT
}

/// The curve `3x^2 - 2x^3` at `x = num / den`, over the denominator `den^3`.
pub open spec fn cubic(x: Fraction) -> Fraction {
    Fraction {
        num: (3 * x.num * x.num * x.den - 2 * x.num * x.num * x.num) as i64,
        den: (x.den * x.den * x.den) as i64,
    }
}

proof fn lemma_cubic_bounds(n: int, d: int)
    by (nonlinear_arith)
    requires
        0 < d <= 1_048_576,
        -1_048_576 <= n <= 1_048_576,
    ensures
        0 <= n * n <= 1_099_511_627_776,
        0 <= (3 * (n * n)) * d <= 3_458_764_513_820_540_928,
        (3 * (n * n)) * d == 3 * n * n * d,
        -1_152_921_504_606_846_976 <= (n * n) * n <= 1_152_921_504_606_846_976,
        2 * ((n * n) * n) == 2 * n * n * n,
        0 < d * d <= 1_099_511_627_776,
        0 < d * d * d <= 1_152_921_504_606_846_976,
{
}

/// The easing curve `3x^2 - 2x^3`, which runs from 0 at 0 to 1 at 1 and
/// passes through one half at one half.
pub fn ease_in_out_cubic(x: Fraction) -> (y: Fraction)
    requires
        cubic_takes(x),
    ensures
        y == cubic(x),
        y.wf(),
{
    proof {
        lemma_cubic_bounds(x.num as int, x.den as int);
    }
    let n = x.num;
    let d = x.den;
    let square = n * n;
    let rise = 3 * square * d;
    let fall = 2 * (square * n);
    let den = d * d * d;
    Fraction { num: rise - fall, den }
}

/// The cubic curve holds 0, 1 and one half in place: it maps each of them
/// to a fraction that stands for the same number.
pub proof fn law_cubic_fixes_ends_and_middle(den: i64, half: i64)
    requires
        0 < den <= CUBIC_LIMIT,
        0 < half,
        2 * half <= CUBIC_LIMIT,
    ensures
        cubic(Fraction { num: 0, den: den }).wf(),
        cubic(Fraction { num: 0, den: den }).same_value(Fraction { num: 0, den: 1 }),
        cubic(Fraction { num: den, den: den }).wf(),
        cubic(Fraction { num: den, den: den }).same_value(Fraction { num: 1, den: 1 }),
        cubic(Fraction { num: half, den: (2 * half) as i64 }).wf(),
        cubic(Fraction { num: half, den: (2 * half) as i64 }).same_value(
            Fraction { num: 1, den: 2 },
        ),
{
    lemma_cubic_bounds(0, den as int);
    lemma_cubic_bounds(den as int, den as int);
    lemma_cubic_bounds(half as int, 2 * half);
    assert(3 * den * den * den - 2 * den * den * den == den * den * den) by (nonlinear_arith);
    let d = 2 * half;
    assert((3 * half * half * d - 2 * half * half * half) * 2 == 1 * (d * d * d))
        by (nonlinear_arith)
        requires
            d == 2 * half,
    ;
}

/// Between 0 and 1 the cubic curve never falls: of two places over one
/// denominator, the later one is mapped at least as high.
pub proof fn law_cubic_rises(earlier: Fraction, later: Fraction)
    requires
        cubic_takes(earlier),
        cubic_takes(later),
        earlier.den == later.den,
        0 <= earlier.num <= later.num <= later.den,
    ensures
        cubic(earlier).wf(),
        cubic(later).wf(),
        cubic(earlier).at_most(cubic(later)),
{
    let d = earlier.den as int;
    let m = earlier.num as int;
    let n = later.num as int;
    lemma_cubic_bounds(m, d);
    lemma_cubic_bounds(n, d);
    assert(3 * m * m * d - 2 * m * m * m <= 3 * n * n * d - 2 * n * n * n) by (nonlinear_arith)
        requires
            0 <= m <= n <= d,
    {
        // The difference is (n - m) * (3d(n + m) - 2(n^2 + nm + m^2)), and
        // 3d(n + m) >= 3n(n + m) >= 2(n^2 + nm + m^2).
        assert(3 * d * (n + m) >= 3 * n * (n + m));
        assert(3 * n * (n + m) >= 2 * (n * n + n * m + m * m));
        assert((3 * n * n * d - 2 * n * n * n) - (3 * m * m * d - 2 * m * m * m) == (n - m) * (3
            * d * (n + m) - 2 * (n * n + n * m + m * m)));
    }
    assert((3 * m * m * d - 2 * m * m * m) * (d * d * d) <= (3 * n * n * d - 2 * n * n * n) * (d
        * d * d)) by (nonlinear_arith)
        requires
            3 * m * m * d - 2 * m * m * m <= 3 * n * n * d - 2 * n * n * n,
            0 < d * d * d,
    ;
}

} // verus!
