use pp_recalc::metric::{round_and_sanitize, round_cents, RawMetric};

#[test]
fn rounds_to_two_decimals() {
    // 123.4567 rounds to 123.46
    assert_eq!(round_cents(1234567), 12346);
    // 123.4449 rounds to 123.44
    assert_eq!(round_cents(1234449), 12344);
    assert_eq!(round_cents(0), 0);
    // exact hundredths stay as they are
    assert_eq!(round_cents(1234500), 12345);
}

#[test]
fn rounds_half_away_from_zero() {
    // 123.455 rounds up to 123.46, not to even
    assert_eq!(round_cents(1234550), 12346);
    // -123.455 rounds away from zero to -123.46
    assert_eq!(round_cents(-1234550), -12346);
    // 0.005 -> 0.01, -0.005 -> -0.01
    assert_eq!(round_cents(50), 1);
    assert_eq!(round_cents(-50), -1);
}

#[test]
fn rounds_extremes_without_overflow() {
    // i64::MAX ends in 07 and i64::MIN in 08: no rounding up at either end
    assert_eq!(round_cents(i64::MAX), i64::MAX / 100);
    assert_eq!(round_cents(i64::MIN), i64::MIN / 100);
}

#[test]
fn sanitizes_non_finite_to_zero() {
    assert_eq!(round_and_sanitize(RawMetric::NonFinite), 0);
    assert_eq!(round_and_sanitize(RawMetric::Finite(1234567)), 12346);
    assert_eq!(round_and_sanitize(RawMetric::Finite(-1234550)), -12346);
}
