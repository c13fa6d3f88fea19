//! Fixed-point temperature arithmetic: rounding division and the conversion
//! between Celsius and Fahrenheit, both in thousandths of a degree.

use vstd::prelude::*;
use vstd::arithmetic::div_mod::{lemma_fundamental_div_mod, lemma_fundamental_div_mod_converse};

verus! {

/// The integer nearest to `n / d`; a tie goes to the larger one.
pub open spec fn round_div(n: int, d: int) -> int
    recommends
        d > 0,
{
    (2 * n + d) / (2 * d)
}

/// Fahrenheit from Celsius, `F = C * 9/5 + 32`, in thousandths of a degree.
pub open spec fn fahrenheit_of(celsius: int) -> int {
    round_div(9 * celsius, 5) + 32_000
}

/// Celsius from Fahrenheit, `C = (F - 32) * 5/9`, in thousandths of a degree.
pub open spec fn celsius_of(fahrenheit: int) -> int {
    round_div(5 * (fahrenheit - 32_000), 9)
}

/// The largest magnitude that `round_div_exec` takes as its numerator.
pub(crate) const ROUND_LIMIT: i128 = 0x1_0000_0000_0000_0000_0000;

/// Computes `round_div(n, d)` for a small positive `d`.
pub(crate) fn round_div_exec(n: i128, d: i128) -> (q: i128)
    requires
        0 < d <= 1000,
        -ROUND_LIMIT <= n <= ROUND_LIMIT,
    ensures
        q == round_div(n as int, d as int),
        n >= 0 ==> 0 <= q <= n,
        n < 0 ==> n <= q <= 0,
{
    let numerator: i128 = 2 * n + d;
    let divisor: i128 = 2 * d;
    if numerator >= 0 {
        let q: i128 = numerator / divisor;
        proof {
            lemma_fundamental_div_mod(numerator as int, divisor as int);
            let rem = (numerator as int) % (divisor as int);
            assert(n >= 0 ==> 0 <= q <= n) by (nonlinear_arith)
                requires
                    numerator == divisor * q + rem,
                    0 <= rem < divisor,
                    numerator == 2 * n + d,
                    divisor == 2 * d,
                    d > 0,
                    q >= 0,
            ;
            assert(n < 0 ==> q == 0) by (nonlinear_arith)
                requires
                    numerator == divisor * q + rem,
                    0 <= rem < divisor,
                    numerator == 2 * n + d,
                    divisor == 2 * d,
                    d > 0,
                    q >= 0,
            ;
        }
        q
    } else {
        let up: i128 = (divisor - 1 - numerator) / divisor;
        proof {
            let shifted = (divisor - 1 - numerator) as int;
            lemma_fundamental_div_mod(shifted, divisor as int);
            let rem = shifted % (divisor as int);
            assert(numerator as int == (divisor as int) * (-(up as int)) + (divisor - 1 - rem))
                by (nonlinear_arith)
                requires
                    shifted == (divisor as int) * (up as int) + rem,
                    shifted == divisor - 1 - numerator,
            ;
            lemma_fundamental_div_mod_converse(
                numerator as int,
                divisor as int,
                -(up as int),
                divisor - 1 - rem,
            );
            assert(n <= -(up as int) <= 0) by (nonlinear_arith)
                requires
                    shifted == divisor * up + rem,
                    shifted == divisor - 1 - numerator,
                    0 <= rem < divisor,
                    numerator == 2 * n + d,
                    divisor == 2 * d,
                    d > 0,
                    up >= 0,
                    numerator < 0,
            ;
        }
        -up
    }
}

} // verus!
