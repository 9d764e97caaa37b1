use oracle_aggregator::decimals::{checked_rescale, rescale};

#[test]
fn test_rescale_nine_to_seven_decimals() {
    // 0.11 at nine decimals is 0.1100000 at seven
    assert_eq!(rescale(0_110000000, 9, 7), 0_1100000);
}

#[test]
fn test_rescale_six_to_seven_decimals() {
    // 1010.000000 at six decimals is 1010.0000000 at seven
    assert_eq!(rescale(1010_000000, 6, 7), 1010_0000000);
}

#[test]
fn test_rescale_same_decimals_is_identity() {
    assert_eq!(rescale(123456789, 7, 7), 123456789);
    assert_eq!(rescale(-5, 0, 0), -5);
    assert_eq!(rescale(0, 3, 3), 0);
}

#[test]
fn test_rescale_down_truncates_toward_zero() {
    assert_eq!(rescale(199, 2, 0), 1);
    assert_eq!(rescale(-199, 2, 0), -1);
    assert_eq!(rescale(99, 2, 0), 0);
    assert_eq!(rescale(-99, 2, 0), 0);
    assert_eq!(rescale(1_234_567, 6, 3), 1_234);
}

#[test]
fn test_rescale_down_then_up_round_trips_without_truncation() {
    let value: i128 = 1_230_000;
    let down = rescale(value, 6, 2);
    assert_eq!(down, 123);
    assert_eq!(rescale(down, 2, 6), value);
}

#[test]
fn test_rescale_down_then_up_loses_truncated_digits() {
    let value: i128 = 1_234_567;
    let down = rescale(value, 6, 2);
    assert_eq!(down, 123);
    assert_eq!(rescale(down, 2, 6), 1_230_000);
    assert_ne!(rescale(down, 2, 6), value);
}

#[test]
fn test_rescale_up_then_down_round_trips() {
    let value: i128 = 987_654_321;
    let up = rescale(value, 7, 18);
    assert_eq!(up, 987_654_321_00000000000);
    assert_eq!(rescale(up, 18, 7), value);
}

#[test]
fn test_rescale_large_price() {
    // a price of 10^12 at nine decimals, brought to eighteen
    let value: i128 = 1_000_000_000_000 * 1_000_000_000;
    assert_eq!(rescale(value, 9, 18), value * 1_000_000_000);
}

#[test]
fn test_checked_rescale_overflow() {
    assert_eq!(checked_rescale(i128::MAX, 0, 1), None);
    assert_eq!(checked_rescale(i128::MIN, 0, 1), None);
    assert_eq!(checked_rescale(1, 0, 39), None);
    assert_eq!(checked_rescale(-1, 0, 39), None);
    assert_eq!(checked_rescale(2, 0, 38), None);
    assert_eq!(checked_rescale(1, 0, u32::MAX), None);
}

#[test]
fn test_checked_rescale_extremes() {
    assert_eq!(checked_rescale(1, 0, 38), Some(100000000000000000000000000000000000000));
    assert_eq!(checked_rescale(-1, 0, 38), Some(-100000000000000000000000000000000000000));
    assert_eq!(checked_rescale(0, 0, u32::MAX), Some(0));
    assert_eq!(checked_rescale(i128::MAX, u32::MAX, 0), Some(0));
    assert_eq!(checked_rescale(i128::MIN, 1, 0), Some(-17014118346046923173168730371588410572));
    assert_eq!(checked_rescale(i128::MIN, 0, 0), Some(i128::MIN));
    assert_eq!(checked_rescale(i128::MAX, 38, 0), Some(1));
    assert_eq!(checked_rescale(i128::MAX, 39, 0), Some(0));
}
