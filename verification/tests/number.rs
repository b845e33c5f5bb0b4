use rusted_battalions::number::{fraction, gap, larger, minus, over, plus, scale, times, UNIT};

#[test]
fn sum_and_difference() {
    assert_eq!(plus(UNIT, UNIT / 2), 1_500_000);
    assert_eq!(minus(UNIT, UNIT / 4), 750_000);
    assert_eq!(gap(UNIT / 4, UNIT), 0);
    assert_eq!(gap(UNIT, UNIT / 4), 750_000);
    assert_eq!(larger(-3, 2), 2);
}

#[test]
fn sums_saturate() {
    assert_eq!(plus(i64::MAX, 1), i64::MAX);
    assert_eq!(minus(i64::MIN, 1), i64::MIN);
    assert_eq!(times(i64::MAX, i64::MAX), i64::MAX);
    assert_eq!(times(i64::MAX, i64::MIN), i64::MIN);
}

#[test]
fn products_round_down() {
    assert_eq!(times(UNIT / 2, UNIT / 2), 250_000);
    assert_eq!(times(1, 1), 0);
    assert_eq!(times(-1, 1), -1);
    assert_eq!(times(3, 500_000), 1);
    assert_eq!(times(-3, 500_000), -2);
}

#[test]
fn quotients_round_down() {
    assert_eq!(over(UNIT, 3 * UNIT), 333_333);
    assert_eq!(over(-UNIT, 3 * UNIT), -333_334);
    assert_eq!(over(UNIT, -3 * UNIT), -333_334);
    assert_eq!(over(UNIT, 0), 0);
    assert_eq!(scale(500, 2, 3), 333);
    assert_eq!(scale(-500, 2, 3), -334);
    assert_eq!(fraction(100, 500), 200_000);
}
