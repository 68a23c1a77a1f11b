//! What holds of every interpolation.
//!
//! The laws are stated over `Interpolation::maps`, the relation between an
//! input and what `Interpolation::apply` and the maps made by `interpolate`
//! give for it. An easing curve enters a law through what its contract
//! allows it to return.

use vstd::prelude::*;
use vstd::arithmetic::div_mod::lemma_div_multiples_vanish;
use vstd::arithmetic::div_mod::lemma_fundamental_div_mod;
use vstd::arithmetic::div_mod::lemma_mod_bound;
use crate::easing::Fraction;
use crate::interpolation::fits_i64;
use crate::interpolation::Interpolation;

verus! {

/// The output that a straight line from the first bounds of the two ranges
/// to their second bounds gives for `input`, rounded down.
pub open spec fn linear_value(input_range: (i64, i64), output_range: (i64, i64), input: i64) -> int {
    output_range.0 + ((input - input_range.0) * (output_range.1 - output_range.0)) / (
    input_range.1 - input_range.0)
}

/// `linear_value` is the point on the straight line, rounded down to a whole
/// number: measured from the first output bound and scaled by the width of
/// the input range, it is at most the line's rise at `input`, and less than
/// one step short of it. Where the rise is a whole number of steps, it is
/// exact.
pub proof fn law_linear_value_is_line_rounded_down(
    input_range: (i64, i64),
    output_range: (i64, i64),
    input: i64,
)
    requires
        input_range.0 < input_range.1,
    ensures
        ({
            let width = input_range.1 - input_range.0;
            let rise = (input - input_range.0) * (output_range.1 - output_range.0);
            let steps = linear_value(input_range, output_range, input) - output_range.0;
            &&& steps * width <= rise < (steps + 1) * width
            &&& rise % width == 0 ==> steps * width == rise
        }),
{
    let width = input_range.1 - input_range.0;
    let rise = (input - input_range.0) * (output_range.1 - output_range.0);
    lemma_fundamental_div_mod(rise, width);
    lemma_mod_bound(rise, width);
    assert((rise / width) * width == width * (rise / width)) by (nonlinear_arith);
    assert((rise / width + 1) * width == width * (rise / width) + width) by (nonlinear_arith);
}

/// Rounding down keeps the order of fractions: if `a / p` is at most
/// `b / q`, then so are their whole parts.
proof fn lemma_floor_keeps_order(a: int, p: int, b: int, q: int)
    requires
        p > 0,
        q > 0,
        a * q <= b * p,
    ensures
        a / p <= b / q,
{
    let m = a / p;
    let n = b / q;
    lemma_fundamental_div_mod(a, p);
    lemma_mod_bound(a, p);
    lemma_fundamental_div_mod(b, q);
    lemma_mod_bound(b, q);
    if m > n {
        assert(p * m <= a);
        assert(b < q * (n + 1)) by (nonlinear_arith)
            requires
                b == q * n + (b % q),
                b % q < q,
        ;
        assert(q * (n + 1) <= q * m) by (nonlinear_arith)
            requires
                q > 0,
                n + 1 <= m,
        ;
        assert((p * m) * q <= a * q) by (nonlinear_arith)
            requires
                p * m <= a,
                q > 0,
        ;
        assert(b * p < (q * m) * p) by (nonlinear_arith)
            requires
                b < q * m,
                p > 0,
        ;
        assert((p * m) * q == (q * m) * p) by (nonlinear_arith);
    }
}

/// Scaling both sides of an order between fractions by a `reach` keeps the
/// order where the reach is not negative, and turns it where it is not
/// positive.
proof fn lemma_scaled_order(low: Fraction, high: Fraction, reach: int)
    requires
        low.wf(),
        high.wf(),
        low.at_most(high),
    ensures
        reach >= 0 ==> (low.num * reach) / (low.den as int) <= (high.num * reach) / (
        high.den as int),
        reach <= 0 ==> (low.num * reach) / (low.den as int) >= (high.num * reach) / (
        high.den as int),
{
    if reach >= 0 {
        assert((low.num * reach) * high.den <= (high.num * reach) * low.den) by (nonlinear_arith)
            requires
                low.num * high.den <= high.num * low.den,
                reach >= 0,
        ;
        lemma_floor_keeps_order(low.num * reach, low.den as int, high.num * reach, high.den as int);
    }
    if reach <= 0 {
        assert((high.num * reach) * low.den <= (low.num * reach) * high.den) by (nonlinear_arith)
            requires
                low.num * high.den <= high.num * low.den,
                reach <= 0,
        ;
        lemma_floor_keeps_order(high.num * reach, high.den as int, low.num * reach, low.den as int);
    }
}

/// Along the identity easing, an interpolation is the straight line between
/// the bounds of its ranges. If the easing curve can only return the place
/// of `input`, as that fraction or as another that stands for the same
/// number, then an `input` of the input range maps to `linear_value`,
/// wherever that is a value the interpolation can give.
pub proof fn law_identity_easing_is_linear<F: Fn(Fraction) -> Fraction>(
    interpolation: Interpolation<F>,
    input: i64,
    output: Option<i64>,
)
    requires
        interpolation.input_range.0 < interpolation.input_range.1,
        interpolation.input_range.0 <= input <= interpolation.input_range.1,
        forall|eased: Fraction| #[trigger]
            interpolation.easing.ensures((interpolation.progress(input),), eased) ==> eased.wf()
                && eased.same_value(interpolation.progress(input)),
        interpolation.maps(input, output),
    ensures
        output == (if interpolation.placeable(input) && fits_i64(
            linear_value(interpolation.input_range, interpolation.output_range, input),
        ) {
            Some(
                linear_value(interpolation.input_range, interpolation.output_range, input) as i64,
            )
        } else {
            None
        }),
{
    if interpolation.placeable(input) {
        let place = interpolation.progress(input);
        let eased = choose|e: Fraction| #[trigger]
            interpolation.easing.ensures((place,), e) && output == interpolation.outcome(e);
        let reach = interpolation.output_range.1 - interpolation.output_range.0;
        lemma_scaled_order(eased, place, reach);
        lemma_scaled_order(place, eased, reach);
    }
}

/// An interpolation over a rising input range is monotone where its easing
/// curve is. If the curve, wherever the place of one input is at most the
/// place of another, maps the first place at most as high as the second,
/// then of two inputs the larger gives no smaller output where the output
/// range rises, and no larger output where it falls.
pub proof fn law_monotone_easing_gives_monotone_map<F: Fn(Fraction) -> Fraction>(
    interpolation: Interpolation<F>,
    smaller: i64,
    larger: i64,
    output_of_smaller: i64,
    output_of_larger: i64,
)
    requires
        interpolation.input_range.0 < interpolation.input_range.1,
        smaller <= larger,
        interpolation.progress(smaller).at_most(interpolation.progress(larger)) ==> forall|
            low_eased: Fraction,
            high_eased: Fraction,
        |
            low_eased.wf() && high_eased.wf() && #[trigger] interpolation.easing.ensures(
                (interpolation.progress(smaller),),
                low_eased,
            ) && #[trigger] interpolation.easing.ensures(
                (interpolation.progress(larger),),
                high_eased,
            ) ==> low_eased.at_most(high_eased),
        interpolation.maps(smaller, Some(output_of_smaller)),
        interpolation.maps(larger, Some(output_of_larger)),
    ensures
        interpolation.output_range.0 <= interpolation.output_range.1 ==> output_of_smaller
            <= output_of_larger,
        interpolation.output_range.0 >= interpolation.output_range.1 ==> output_of_smaller
            >= output_of_larger,
{
    let low_place = interpolation.progress(smaller);
    let high_place = interpolation.progress(larger);
    let low_eased = choose|e: Fraction| #[trigger]
        interpolation.easing.ensures((low_place,), e) && Some(output_of_smaller)
            == interpolation.outcome(e);
    let high_eased = choose|e: Fraction| #[trigger]
        interpolation.easing.ensures((high_place,), e) && Some(output_of_larger)
            == interpolation.outcome(e);
    assert(low_place.at_most(high_place)) by (nonlinear_arith)
        requires
            low_place.num <= high_place.num,
            low_place.den == high_place.den,
            low_place.den > 0,
    ;
    assert(low_eased.at_most(high_eased));
    lemma_scaled_order(
        low_eased,
        high_eased,
        interpolation.output_range.1 - interpolation.output_range.0,
    );
}

/// An interpolation of a range onto itself returns every input on which the
/// easing curve returns the input's own place: an unclamped input, or one
/// that clamping leaves alone, whose place the curve can only map to a
/// fraction that stands for the same number as the place.
pub proof fn law_same_ranges_return_fixed_places<F: Fn(Fraction) -> Fraction>(
    interpolation: Interpolation<F>,
    input: i64,
    output: Option<i64>,
)
    requires
        interpolation.wf(),
        interpolation.output_range == interpolation.input_range,
        interpolation.clamped(input) == input,
        interpolation.placeable(input),
        forall|eased: Fraction| #[trigger]
            interpolation.easing.ensures((interpolation.progress(input),), eased) ==> eased.wf()
                && eased.same_value(interpolation.progress(input)),
        interpolation.maps(input, output),
    ensures
        output == Some(input),
{
    let place = interpolation.progress(input);
    let eased = choose|e: Fraction| #[trigger]
        interpolation.easing.ensures((place,), e) && output == interpolation.outcome(e);
    let first = interpolation.input_range.0 as int;
    let second = interpolation.input_range.1 as int;
    let reach = second - first;
    let offset = input - first;
    assert(eased.num * reach == eased.den * offset) by (nonlinear_arith)
        requires
            eased.num * place.den == place.num * eased.den,
            (place.den == reach && place.num == offset) || (place.den == -reach && place.num
                == -offset),
    ;
    lemma_div_multiples_vanish(offset, eased.den as int);
}

} // verus!
