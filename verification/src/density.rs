//! Body density regression and the Siri density-to-percentage conversion.
//!
//! The Jackson & Pollock seven-site regressions are
//!
//! ```text
//! male:   1.112 - 0.00043499*t + 0.00000055*t^2 - 0.00028826*age
//! female: 1.097 - 0.00046971*t + 0.00000056*t^2 - 0.00012828*age
//! ```
//!
//! with `t` the sum of the seven skinfolds in millimetres.  Here `t` is
//! carried in hundredths of a millimetre and the density is scaled by
//! `10^12`, which turns both regressions into exact integer polynomials.
//! The Siri conversion `495 / density - 450` is then a single integer
//! division, and the percentage comes out in hundredths of a percent,
//! rounded towards minus infinity.

use vstd::prelude::*;

use crate::measurements::TOTAL_LIMIT;

verus! {

/// Body density times `10^12`, as a function of the skinfold sum `total`
/// (hundredths of a millimetre) and the age in years.
pub open spec fn spec_density_scaled(total: int, age: int, is_male: bool) -> int {
    if is_male {
        1_112_000_000_000 + 55 * total * total - 4_349_900 * total - 288_260_000 * age
    } else {
        1_097_000_000_000 + 56 * total * total - 4_697_100 * total - 128_280_000 * age
    }
}

/// Body-fat percentage in hundredths of a percent: the Siri conversion
/// `495 / density - 450`, times one hundred, rounded towards minus
/// infinity.
pub open spec fn spec_body_fat(total: int, age: int, is_male: bool) -> int {
    49_500_000_000_000_000int / spec_density_scaled(total, age, is_male) - 45_000
}

/// For every skinfold sum and every age between 1 and 119 the scaled
/// density stays above `9 * 10^11` (a density of 0.9): both regressions
/// are upward parabolas in `total` whose discriminant is negative, so the
/// Siri division never meets a zero.
pub proof fn lemma_density_positive(total: int, age: int, is_male: bool)
    requires
        1 <= age <= 119,
    ensures
        spec_density_scaled(total, age, is_male) >= 900_000_000_000,
{
    let d = spec_density_scaled(total, age, is_male);
    if is_male {
        assert(220 * d == (110 * total - 4_349_900) * (110 * total - 4_349_900)
            + 225_718_369_990_000 - 63_417_200_000 * age) by (nonlinear_arith)
            requires
                d == 1_112_000_000_000 + 55 * total * total - 4_349_900 * total
                    - 288_260_000 * age,
        ;
        assert((110 * total - 4_349_900) * (110 * total - 4_349_900) >= 0) by (nonlinear_arith);
        assert(220 * d >= 218_171_723_190_000);
    } else {
        assert(224 * d == (112 * total - 4_697_100) * (112 * total - 4_697_100)
            + 223_665_251_590_000 - 28_734_720_000 * age) by (nonlinear_arith)
            requires
                d == 1_097_000_000_000 + 56 * total * total - 4_697_100 * total
                    - 128_280_000 * age,
        ;
        assert((112 * total - 4_697_100) * (112 * total - 4_697_100) >= 0) by (nonlinear_arith);
        assert(224 * d >= 220_245_819_910_000);
    }
}

/// Computes the body-fat percentage, in hundredths of a percent, from the
/// skinfold sum (hundredths of a millimetre), the age and the sex.
///
/// No clamping and no range rejection: an implausible sum still yields
/// the mathematically defined percentage.
pub fn calculate_body_fat(total: i64, age: u32, is_male: bool) -> (r: i64)
    requires
        -TOTAL_LIMIT <= total <= TOTAL_LIMIT,
        1 <= age <= 119,
    ensures
        r == spec_body_fat(total as int, age as int, is_male),
{
    let t: i64 = total;
    proof {
        assert(t * t <= 4_900_000_000_000_000) by (nonlinear_arith)
            requires
                -70_000_000 <= t <= 70_000_000,
        ;
        assert(t * t >= 0) by (nonlinear_arith);
        lemma_density_positive(t as int, age as int, is_male);
    }
    let squared: i64 = t * t;
    proof {
        assert(55 * (t as int) * (t as int) == 55 * (squared as int)
            && 56 * (t as int) * (t as int) == 56 * (squared as int)) by (nonlinear_arith)
            requires
                squared == t * t,
        ;
    }
    let density: i64 = if is_male {
        1_112_000_000_000 + 55 * squared - 4_349_900 * t - 288_260_000 * (age as i64)
    } else {
        1_097_000_000_000 + 56 * squared - 4_697_100 * t - 128_280_000 * (age as i64)
    };
    let scaled: u64 = density as u64;
    let quotient: u64 = 49_500_000_000_000_000 / scaled;
    proof {
        vstd::arithmetic::div_mod::lemma_div_is_ordered_by_denominator(
            49_500_000_000_000_000,
            900_000_000_000,
            scaled as int,
        );
    }
    (quotient as i64) - 45_000
}

} // verus!
