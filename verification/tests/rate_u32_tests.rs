//! Arithmetic and short-hands of `u32`-backed rates.

#![allow(non_snake_case)]
use fugit::{Rate, RateExtU32};

#[test]
fn rate_rate_math_u32() {

    // Same base
    let sum: Rate<u32, 1_000, 1> =
        Rate::<u32, 1_000, 1>::from_raw(10) + Rate::<u32, 1_000, 1>::from_raw(1);
    assert_eq!(sum, Rate::<u32, 1_000, 1>::from_raw(11));

    let diff: Rate<u32, 1_000, 1> =
        Rate::<u32, 1_000, 1>::from_raw(10) - Rate::<u32, 1_000, 1>::from_raw(1);
    assert_eq!(diff, Rate::<u32, 1_000, 1>::from_raw(9));

    // Different base
    let sum: Rate<u32, 10_000, 1> =
        Rate::<u32, 10_000, 1>::from_raw(10) + Rate::<u32, 1_000, 1>::from_raw(10).convert();
    assert_eq!(sum, Rate::<u32, 10_000, 1>::from_raw(11));

    let diff: Rate<u32, 10_000, 1> =
        Rate::<u32, 10_000, 1>::from_raw(10) - Rate::<u32, 1_000, 1>::from_raw(10).convert();
    assert_eq!(diff, Rate::<u32, 10_000, 1>::from_raw(9));

    // Short hand vs u32 (should not need `.into()`)
    let sum = Rate::<u32, 1_000, 1>::from_raw(1) + 1.MHz();
    assert_eq!(sum, Rate::<u32, 1_000, 1>::from_raw(1001));

    assert_eq!(
        Rate::<u32, 1_000, 1>::from_raw(5) / Rate::<u32, 100, 1>::from_raw(2),
        25
    );

    assert_eq!(
        Rate::<u32, 100, 1>::from_raw(2) / Rate::<u32, 1_000, 1>::from_raw(5),
        0
    );

    assert_eq!(
        Rate::<u32, 100, 1>::from_raw(500) / Rate::<u32, 1_000, 1>::from_raw(5),
        10
    );
}

#[test]
fn rate_shorthands_u32() {

    let r: Rate<u32, 1, 1> = 1.Hz();
    assert_eq!(r.raw(), 1);

    let r: Rate<u32, 1, 1> = 1.kHz();
    assert_eq!(r.raw(), 1_000);

    let r: Rate<u32, 1, 1> = 1.MHz();
    assert_eq!(r.raw(), 1_000_000);
}
