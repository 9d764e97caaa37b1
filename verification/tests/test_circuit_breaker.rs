use oracle_aggregator::circuit_breaker::{deviates, evaluate, BreakerSettings, BreakerState, Decision};
use oracle_aggregator::types::PriceData;

const ENABLED: BreakerSettings = BreakerSettings { enabled: true, threshold: 100_000, timeout: 7200 };
const NORMAL: BreakerState = BreakerState { tripped: false, until: 0 };

fn at(price: i128, timestamp: u64) -> PriceData {
    PriceData { price, timestamp }
}

#[test]
fn test_deviation_at_threshold_passes() {
    // |110 - 100| * 1_000_000 / 100 = 100_000, which does not exceed 100_000
    assert!(!deviates(110, 100, 100_000));
    assert!(!deviates(90, 100, 100_000));
}

#[test]
fn test_deviation_above_threshold_trips() {
    // |111 - 100| * 1_000_000 / 100 = 110_000
    assert!(deviates(111, 100, 100_000));
    assert!(deviates(89, 100, 100_000));
}

#[test]
fn test_deviation_rounds_down() {
    // 1 * 1_000_000 / 3 = 333_333 (and a third)
    assert!(!deviates(4, 3, 333_333));
    assert!(deviates(4, 3, 333_332));
}

#[test]
fn test_deviation_is_measured_against_reference() {
    // from 100 to 200 is 1_000_000 ppm of 100; from 200 to 100 is 500_000 ppm of 200
    assert!(deviates(200, 100, 999_999));
    assert!(!deviates(200, 100, 1_000_000));
    assert!(deviates(100, 200, 499_999));
    assert!(!deviates(100, 200, 500_000));
}

#[test]
fn test_zero_reference_trips() {
    assert!(deviates(0, 0, u32::MAX));
    assert!(deviates(100, 0, u32::MAX));
    assert!(deviates(100, -1, u32::MAX));
}

#[test]
fn test_deviation_of_wide_prices() {
    assert!(deviates(i128::MAX, 1, u32::MAX));
    // (2^128 - 1) * 1_000_000 / (2^127 - 1) = 2_000_000
    assert!(deviates(i128::MIN, i128::MAX, 1_999_999));
    assert!(!deviates(i128::MIN, i128::MAX, 2_000_000));
    assert!(!deviates(i128::MAX, i128::MAX, 0));
    assert!(!deviates(i128::MAX - 1, i128::MAX, 0));
    assert!(deviates(0, i128::MAX, 999_999));
    assert!(!deviates(0, i128::MAX, 1_000_000));
}

#[test]
fn test_equal_prices_pass() {
    assert_eq!(
        evaluate(&ENABLED, NORMAL, 1000, &at(100, 1000), &Some(at(100, 700))),
        (Decision::Pass, NORMAL)
    );
}

#[test]
fn test_disabled_breaker_always_passes() {
    let disabled = BreakerSettings { enabled: false, threshold: 0, timeout: 7200 };
    let tripped = BreakerState { tripped: true, until: u64::MAX };
    assert_eq!(
        evaluate(&disabled, tripped, 1000, &at(1_000_000, 1000), &Some(at(1, 700))),
        (Decision::Pass, tripped)
    );
    assert_eq!(
        evaluate(&disabled, NORMAL, 1000, &at(5, 1000), &Some(at(0, 700))),
        (Decision::Pass, NORMAL)
    );
}

#[test]
fn test_deviation_trips_until_timeout() {
    assert_eq!(
        evaluate(&ENABLED, NORMAL, 1000, &at(120, 1000), &Some(at(100, 700))),
        (Decision::Trip, BreakerState { tripped: true, until: 8200 })
    );
}

#[test]
fn test_trip_end_saturates() {
    assert_eq!(
        evaluate(&ENABLED, NORMAL, u64::MAX - 1, &at(120, 1000), &Some(at(100, 700))),
        (Decision::Trip, BreakerState { tripped: true, until: u64::MAX })
    );
}

#[test]
fn test_tripped_breaker_rejects_until_cooldown_passed() {
    let tripped = BreakerState { tripped: true, until: 8200 };
    assert_eq!(
        evaluate(&ENABLED, tripped, 8199, &at(100, 8199), &Some(at(100, 7899))),
        (Decision::Trip, tripped)
    );
    assert_eq!(
        evaluate(&ENABLED, tripped, 8200, &at(100, 8200), &Some(at(100, 7900))),
        (Decision::Pass, BreakerState { tripped: false, until: 8200 })
    );
}

#[test]
fn test_deviation_while_tripped_restarts_cooldown() {
    let tripped = BreakerState { tripped: true, until: 8200 };
    assert_eq!(
        evaluate(&ENABLED, tripped, 9000, &at(200, 9000), &Some(at(100, 8700))),
        (Decision::Trip, BreakerState { tripped: true, until: 16200 })
    );
}

#[test]
fn test_missing_reference_does_not_deviate() {
    assert_eq!(evaluate(&ENABLED, NORMAL, 1000, &at(120, 1000), &None), (Decision::Pass, NORMAL));
    let tripped = BreakerState { tripped: true, until: 8200 };
    assert_eq!(evaluate(&ENABLED, tripped, 1000, &at(120, 1000), &None), (Decision::Trip, tripped));
}
