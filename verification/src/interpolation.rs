//! Interpolation: an input range mapped onto an output range along an
//! easing curve.
//!
//! An input is first placed in the input range as a fraction between 0 (at
//! the range's first bound) and 1 (at its second). The easing curve bends
//! that fraction. The bent fraction is then laid onto the output range, and
//! rounded down to a whole number.

use vstd::prelude::*;
use crate::easing::Fraction;

verus! {

/// An interpolation that is ready to map inputs.
pub struct Interpolation<F> {
    /// The easing curve.
    pub easing: F,
    /// The input range: the input that maps to the start of the curve, and
    /// the one that maps to its end.
    pub input_range: (i64, i64),
    /// The output range: the output at 0 on the eased curve, and the one at 1.
    pub output_range: (i64, i64),
    /// Whether inputs are brought into the input range before they are
    /// mapped.
    pub clamp: bool,
}

/// The whole number is one that an `i64` holds.
pub open spec fn fits_i64(v: int) -> bool {
    i64::MIN <= v <= i64::MAX
}

impl<F: Fn(Fraction) -> Fraction> Interpolation<F> {
    /// The bounds of the input range differ.
    pub open spec fn wf(self) -> bool {
        self.input_range.0 != self.input_range.1
    }

    /// The input that is mapped in place of `input`: `input` raised to the
    /// first bound of the input range and then lowered to the second, when
    /// the interpolation clamps, and `input` itself when it does not.
    pub open spec fn clamped(self, input: i64) -> i64 {
        if self.clamp {
            let raised = if input < self.input_range.0 {
                self.input_range.0
            } else {
                input
            };
            if raised > self.input_range.1 {
                self.input_range.1
            } else {
                raised
            }
        } else {
            input
        }
    }

    /// The numerator of the place of `input` in the input range, over the
    /// denominator `progress_den`.
    pub open spec fn progress_num(self, input: i64) -> int {
        let offset = self.clamped(input) - self.input_range.0;
        if self.input_range.1 < self.input_range.0 {
            -offset
        } else {
            offset
        }
    }

    /// The width of the input range.
    pub open spec fn progress_den(self) -> int {
        if self.input_range.1 < self.input_range.0 {
            self.input_range.0 - self.input_range.1
        } else {
            self.input_range.1 - self.input_range.0
        }
    }

    /// The place of `input` in the input range can be held in a `Fraction`.
    pub open spec fn placeable(self, input: i64) -> bool {
        fits_i64(self.progress_num(input)) && fits_i64(self.progress_den())
    }

    /// The place of `input` in the input range: 0 at the first bound, 1 at
    /// the second.
    pub open spec fn progress(self, input: i64) -> Fraction {
        Fraction { num: self.progress_num(input) as i64, den: self.progress_den() as i64 }
    }

    /// The eased fraction laid onto the output range, rounded down.
    pub open spec fn laid_out(self, eased: Fraction) -> int {
        self.output_range.0 + (eased.num * (self.output_range.1 - self.output_range.0))
            / (eased.den as int)
    }

    /// The output for an eased fraction: there is one when the fraction
    /// stands for a number and the output is one that an `i64` holds.
    pub open spec fn outcome(self, eased: Fraction) -> Option<i64> {
        if eased.wf() && fits_i64(self.laid_out(eased)) {
            Some(self.laid_out(eased) as i64)
        } else {
            None
        }
    }

    /// `output` is what the interpolation gives for `input`: the outcome of
    /// a fraction that the easing curve gives for the place of `input`, or
    /// nothing when that place cannot be held in a `Fraction`.
    pub open spec fn maps(self, input: i64, output: Option<i64>) -> bool {
        if self.placeable(input) {
            exists|eased: Fraction| #[trigger]
                self.easing.ensures((self.progress(input),), eased) && output == self.outcome(
                    eased,
                )
        } else {
            output is None
        }
    }

    /// The easing curve can be asked about the place of `input`.
    pub open spec fn accepts(self, input: i64) -> bool {
        self.placeable(input) ==> self.easing.requires((self.progress(input),))
    }

    /// Maps `input`.
    pub fn apply(&self, input: i64) -> (output: Option<i64>)
        requires
            self.wf(),
            self.accepts(input),
        ensures
            self.maps(input, output),
    {
        let (min_in, max_in) = self.input_range;
        let (min_out, max_out) = self.output_range;
        let clamped = if self.clamp {
            let raised = if input < min_in {
                min_in
            } else {
                input
            };
            if raised > max_in {
                max_in
            } else {
                raised
            }
        } else {
            input
        };
        let span: i128 = max_in as i128 - min_in as i128;
        let offset: i128 = clamped as i128 - min_in as i128;
        let num: i128 = if span < 0 {
            -offset
        } else {
            offset
        };
        let den: i128 = if span < 0 {
            -span
        } else {
            span
        };
        if num < i64::MIN as i128 || num > i64::MAX as i128 || den > i64::MAX as i128 {
            return None;
        }
        let place = Fraction { num: num as i64, den: den as i64 };
        let eased = (self.easing)(place);
        if eased.den <= 0 {
            return None;
        }
        let reach: i128 = max_out as i128 - min_out as i128;
        assert(-170141183460469231722463931679029329920 <= eased.num * reach
            <= 170141183460469231722463931679029329920) by (nonlinear_arith)
            requires
                -9223372036854775808 <= eased.num <= 9223372036854775807,
                -18446744073709551615 <= reach <= 18446744073709551615,
        ;
        let scaled: i128 = eased.num as i128 * reach;
        let quotient = match scaled.checked_div_euclid(eased.den as i128) {
            Some(q) => q,
            None => {
                return None;
            },
        };
        let landed = match (min_out as i128).checked_add(quotient) {
            Some(v) => v,
            None => {
                return None;
            },
        };
        if landed < i64::MIN as i128 || landed > i64::MAX as i128 {
            None
        } else {
            Some(landed as i64)
        }
    }
}

/// The map from `input_range` onto `output_range` along `easing`: a function
/// that takes an input and gives what `Interpolation::apply` gives for it.
/// The two bounds of the input range must differ.
pub fn interpolate<F: Fn(Fraction) -> Fraction>(
    easing: F,
    input_range: (i64, i64),
    output_range: (i64, i64),
    clamp: bool,
) -> (map: impl Fn(i64) -> Option<i64>)
    requires
        input_range.0 != input_range.1,
    ensures
        forall|input: i64|
            (Interpolation {
                easing: easing,
                input_range: input_range,
                output_range: output_range,
                clamp: clamp,
            }).accepts(input) ==> #[trigger] map.requires((input,)),
        forall|input: i64, output: Option<i64>| #[trigger]
            map.ensures((input,), output) ==> (Interpolation {
                easing: easing,
                input_range: input_range,
                output_range: output_range,
                clamp: clamp,
            }).maps(input, output),
{
    let interpolation = Interpolation { easing, input_range, output_range, clamp };
    move |input: i64| -> (output: Option<i64>)
        requires
            interpolation.accepts(input),
        ensures
            interpolation.maps(input, output),
    {
        interpolation.apply(input)
    }
}

} // verus!
