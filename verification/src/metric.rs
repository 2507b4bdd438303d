//! Fixed-point metrics, rounding and sanitization.
//!
//! Scoring engines report a performance metric and a star difficulty as
//! floating-point numbers. This crate holds no floats: a raw engine result
//! enters the library as a [`RawMetric`], a fixed-point value counted in
//! units of one ten-thousandth (so `1234567` stands for `123.4567`), or the
//! mark that the engine produced a non-finite number. Reported values are
//! counted in hundredths (`12346` stands for `123.46`).
//!
//! The pipeline rounds a raw value to hundredths with half-away-from-zero
//! ties, and only then clamps a non-finite result to zero; rounding keeps a
//! non-finite value non-finite, so the two steps commute with the order the
//! pipeline fixes (round first, then check).

use vstd::prelude::*;

verus! {

/// A raw numeric result handed back by a scoring engine: either a finite
/// fixed-point value in ten-thousandths, or the mark that the engine
/// returned an infinity or a not-a-number.
#[derive(Clone, Copy, PartialEq, Eq, Structural, Debug)]
pub enum RawMetric {
    Finite(i64),
    NonFinite,
}

/// Round `x / 100` to the nearest integer, ties away from zero: the value of
/// a raw metric `x` in hundredths.
pub open spec fn spec_round_cents(x: int) -> int {
    if x >= 0 {
        (x + 50) / 100
    } else {
        -((-x + 50) / 100)
    }
}

/// A rounded-then-sanitized metric in hundredths: a finite raw value is
/// rounded half-away-from-zero; a non-finite one is clamped to zero.
pub open spec fn spec_final_cents(m: RawMetric) -> int {
    match m {
        RawMetric::Finite(v) => spec_round_cents(v as int),
        RawMetric::NonFinite => 0,
    }
}

/// The rounded value of any raw metric fits comfortably in `i64`: its
/// magnitude is at most `i64::MAX / 100 + 1`.
pub proof fn lemma_round_cents_bounds(x: int)
    requires
        i64::MIN <= x <= i64::MAX,
    ensures
        -(i64::MAX as int / 100 + 1) <= spec_round_cents(x) <= i64::MAX as int / 100 + 1,
{
    if x >= 0 {
        assert((x + 50) / 100 <= (i64::MAX as int + 50) / 100) by (nonlinear_arith)
            requires 0 <= x <= i64::MAX as int;
        assert((x + 50) / 100 >= 0) by (nonlinear_arith)
            requires x >= 0;
    } else {
        assert((-x + 50) / 100 <= (-(i64::MIN as int) + 50) / 100) by (nonlinear_arith)
            requires i64::MIN as int <= x < 0;
        assert((-x + 50) / 100 >= 0) by (nonlinear_arith)
            requires x < 0;
    }
}

/// Half-away-from-zero, characterized: the rounded value differs from the
/// exact quotient by at most half a hundredth, and an exact half goes to the
/// value of larger magnitude.
pub proof fn lemma_round_cents_half_away(x: int)
    ensures
        100 * spec_round_cents(x) - 50 <= x <= 100 * spec_round_cents(x) + 50,
        x % 100 == 50 && x >= 0 ==> spec_round_cents(x) == x / 100 + 1,
        x % 100 == 50 && x < 0 ==> spec_round_cents(x) == x / 100,
        x >= 0 ==> spec_round_cents(x) >= 0,
        x <= 0 ==> spec_round_cents(x) <= 0,
{
    if x >= 0 {
        let r = (x + 50) / 100;
        assert(100 * r <= x + 50 < 100 * (r + 1)) by (nonlinear_arith)
            requires x >= 0, r == (x + 50) / 100;
        if x % 100 == 50 {
            assert((x + 50) / 100 == x / 100 + 1) by (nonlinear_arith)
                requires x >= 0, x % 100 == 50;
        }
    } else {
        let y = -x;
        let r = (y + 50) / 100;
        assert(100 * r <= y + 50 < 100 * (r + 1)) by (nonlinear_arith)
            requires y > 0, r == (y + 50) / 100;
        if x % 100 == 50 {
            assert(-((-x + 50) / 100) == x / 100) by (nonlinear_arith)
                requires x < 0, x % 100 == 50;
        }
    }
}

/// Round a raw metric value to hundredths, half away from zero.
pub fn round_cents(x: i64) -> (r: i64)
    ensures
        r as int == spec_round_cents(x as int),
        -(i64::MAX as int / 100 + 1) <= r as int <= i64::MAX as int / 100 + 1,
{
    proof {
        lemma_round_cents_bounds(x as int);
    }
    let w = x as i128;
    if w >= 0 {
        ((w + 50) / 100) as i64
    } else {
        (-((-w + 50) / 100)) as i64
    }
}

/// Round a raw engine result to hundredths, then clamp a non-finite result
/// to zero. Rounding maps a non-finite value to a non-finite value, so
/// rounding first and checking second — the order the pipeline fixes —
/// yields exactly this.
pub fn round_and_sanitize(m: RawMetric) -> (c: i64)
    ensures
        c as int == spec_final_cents(m),
        -(i64::MAX as int / 100 + 1) <= c as int <= i64::MAX as int / 100 + 1,
{
    match m {
        RawMetric::Finite(v) => round_cents(v),
        RawMetric::NonFinite => 0,
    }
}

/// Sanitization law: a non-finite engine result always reports as zero, and
/// a finite one always reports its rounded value — the clamp can never mask
/// a finite result.
pub proof fn lemma_sanitize(m: RawMetric)
    ensures
        m is NonFinite ==> spec_final_cents(m) == 0,
        m is Finite ==> spec_final_cents(m) == spec_round_cents(m->0 as int),
{
}

} // verus!
