//! Arithmetic and named-unit short-hands of `u64`-backed spans.

use fugit::{Duration, ExtU64};

#[test]
fn large_duration_converstion() {

    let sum = Duration::<u64, 1, 80_000_000>::from_ticks(0) + 15.minutes();

    assert_eq!(
        sum,
        Duration::<u64, 1, 80_000_000>::from_ticks(80_000_000 * 60 * 15)
    );
}

#[test]
fn duration_duration_math_u64() {

    // Same base
    let sum: Duration<u64, 1, 1_000> =
        Duration::<u64, 1, 1_000>::from_ticks(10) + Duration::<u64, 1, 1_000>::from_ticks(1);
    assert_eq!(sum, Duration::<u64, 1, 1_000>::from_ticks(11));

    let mut sum = Duration::<u64, 1, 1_000>::from_ticks(10);
    sum = sum + (Duration::<u64, 1, 1_000>::from_ticks(1));
    assert_eq!(sum, Duration::<u64, 1, 1_000>::from_ticks(11));

    let diff: Duration<u64, 1, 1_000> =
        Duration::<u64, 1, 1_000>::from_ticks(10) - Duration::<u64, 1, 1_000>::from_ticks(1);
    assert_eq!(diff, Duration::<u64, 1, 1_000>::from_ticks(9));

    let mut diff = Duration::<u64, 1, 1_000>::from_ticks(10);
    diff = diff - (Duration::<u64, 1, 1_000>::from_ticks(1));
    assert_eq!(diff, Duration::<u64, 1, 1_000>::from_ticks(9));

    // Different base
    let sum: Duration<u64, 1, 10_000> = Duration::<u64, 1, 10_000>::from_ticks(10)
        + Duration::<u64, 1, 1_000>::from_ticks(1).convert();
    assert_eq!(sum, Duration::<u64, 1, 1_000>::from_ticks(2));

    let mut sum = Duration::<u64, 1, 1_000>::from_ticks(1);
    sum = sum + (Duration::<u64, 1, 10_000>::from_ticks(10).convert());
    assert_eq!(sum, Duration::<u64, 1, 1_000>::from_ticks(2));

    let diff: Duration<u64, 1, 10_000> = Duration::<u64, 1, 10_000>::from_ticks(10)
        - Duration::<u64, 1, 1_000>::from_ticks(1).convert();
    assert_eq!(diff, Duration::<u64, 1, 1_000>::from_ticks(0));

    let mut diff = Duration::<u64, 1, 1_000>::from_ticks(1);
    diff = diff - (Duration::<u64, 1, 10_000>::from_ticks(10).convert());
    assert_eq!(diff, Duration::<u64, 1, 1_000>::from_ticks(0));

    // Short hand vs u64 (should not need `.into()`)
    let sum = Duration::<u64, 1, 10_000>::from_ticks(10) + 1.millis();
    assert_eq!(sum, Duration::<u64, 1, 10_000>::from_ticks(20));

    let mut sum = Duration::<u64, 1, 10_000>::from_ticks(10);
    sum = sum + (1.millis());
    assert_eq!(sum, Duration::<u64, 1, 10_000>::from_ticks(20));

    // Division and multiplication by integers
    let mul: Duration<u64, 1, 1_000> = Duration::<u64, 1, 1_000>::from_ticks(10) * 2;
    assert_eq!(mul, Duration::<u64, 1, 1_000>::from_ticks(20));

    let mut mul = Duration::<u64, 1, 1_000>::from_ticks(10);
    mul = mul * (2);
    assert_eq!(mul, Duration::<u64, 1, 1_000>::from_ticks(20));

    let div: Duration<u64, 1, 1_000> = Duration::<u64, 1, 1_000>::from_ticks(10) / 2;
    assert_eq!(div, Duration::<u64, 1, 1_000>::from_ticks(5));

    let mut div = Duration::<u64, 1, 1_000>::from_ticks(10);
    div = div / (2);
    assert_eq!(div, Duration::<u64, 1, 1_000>::from_ticks(5));

    assert_eq!(
        Duration::<u64, 1, 1_00>::from_ticks(5) / Duration::<u64, 1, 1_000>::from_ticks(2),
        25
    );

    assert_eq!(
        Duration::<u64, 1, 1_000>::from_ticks(2) / Duration::<u64, 1, 1_00>::from_ticks(5),
        0
    );

    assert_eq!(
        Duration::<u64, 1, 1_000>::from_ticks(500) / Duration::<u64, 1, 1_00>::from_ticks(5),
        10
    );
}

#[test]
fn duration_shorthands_u64() {

    let d: Duration<u64, 1, 10_000> = 100_000_000.nanos();
    assert_eq!(d.ticks(), 1_000);

    let d: Duration<u64, 1, 10_000> = 100_000.micros();
    assert_eq!(d.ticks(), 1_000);

    let d: Duration<u64, 1, 10_000> = 1.millis();
    assert_eq!(d.ticks(), 10);

    let d: Duration<u64, 1, 10_000> = 1.secs();
    assert_eq!(d.ticks(), 10_000);

    let d: Duration<u64, 1, 10_000> = 1.minutes();
    assert_eq!(d.ticks(), 600_000);

    let d: Duration<u64, 1, 10_000> = 1.hours();
    assert_eq!(d.ticks(), 36_000_000);

    let d = Duration::<u32, 1, 1>::from_ticks(2);
    assert_eq!(d.to_secs(), 2);
    assert_eq!(d.to_nanos(), 2_000_000_000);

    let d = Duration::<u32, 1, 1_000_000_000>::from_ticks(2_000_000_000);
    assert_eq!(d.to_secs(), 2);
    assert_eq!(d.to_nanos(), 2_000_000_000);

    let d = Duration::<u64, 1, 10_000>::from_ticks(100);
    assert_eq!(d.to_nanos(), 10_000_000);

    let d = Duration::<u64, 1, 10_000>::from_ticks(100);
    assert_eq!(d.to_micros(), 10_000);

    let d = Duration::<u64, 1, 10_000>::from_ticks(100);
    assert_eq!(d.to_millis(), 10);

    let d = Duration::<u64, 1, 10_000>::from_ticks(100_000);
    assert_eq!(d.to_secs(), 10);

    let d = Duration::<u64, 1, 10_000>::from_ticks(1_800_000);
    assert_eq!(d.to_minutes(), 3);

    let d = Duration::<u64, 1, 10_000>::from_ticks(180_000_000);
    assert_eq!(d.to_hours(), 5);
}
