//! Arithmetic between `u32`-backed instants and spans.

use fugit::{Duration, ExtU32, Instant};

#[test]
fn instant_duration_math_u32() {

    // Instant - Instant, Same base
    let diff: Duration<u32, 1, 1_000> =
        Instant::<u32, 1, 1_000>::from_ticks(10) - Instant::<u32, 1, 1_000>::from_ticks(1);
    assert_eq!(diff, Duration::<u32, 1, 1_000>::from_ticks(9));

    // Instant +- Duration, Same base
    let sum: Instant<u32, 1, 1_000> =
        Instant::<u32, 1, 1_000>::from_ticks(10) + Duration::<u32, 1, 1_000>::from_ticks(1);
    assert_eq!(sum, Instant::<u32, 1, 1_000>::from_ticks(11));

    let mut sum = Instant::<u32, 1, 1_000>::from_ticks(10);
    sum = sum + (Duration::<u32, 1, 1_000>::from_ticks(1));
    assert_eq!(sum, Instant::<u32, 1, 1_000>::from_ticks(11));

    let diff: Instant<u32, 1, 1_000> =
        Instant::<u32, 1, 1_000>::from_ticks(10) - Duration::<u32, 1, 1_000>::from_ticks(1);
    assert_eq!(diff, Instant::<u32, 1, 1_000>::from_ticks(9));

    let mut diff = Instant::<u32, 1, 1_000>::from_ticks(10);
    diff = diff - (Duration::<u32, 1, 1_000>::from_ticks(1));
    assert_eq!(diff, Instant::<u32, 1, 1_000>::from_ticks(9));

    // Instant +- Duration, Different base
    let sum: Instant<u32, 1, 10_000> = Instant::<u32, 1, 10_000>::from_ticks(10)
        + Duration::<u32, 1, 1_000>::from_ticks(1).convert();
    assert_eq!(sum, Instant::<u32, 1, 10_000>::from_ticks(20));

    let mut sum = Instant::<u32, 1, 10_000>::from_ticks(10);
    sum = sum + (Duration::<u32, 1, 1_000>::from_ticks(1).convert());
    assert_eq!(sum, Instant::<u32, 1, 10_000>::from_ticks(20));

    let diff: Instant<u32, 1, 10_000> = Instant::<u32, 1, 10_000>::from_ticks(10)
        - Duration::<u32, 1, 1_000>::from_ticks(1).convert();
    assert_eq!(diff, Instant::<u32, 1, 10_000>::from_ticks(0));

    let mut diff = Instant::<u32, 1, 10_000>::from_ticks(10);
    diff = diff - (Duration::<u32, 1, 1_000>::from_ticks(1).convert());
    assert_eq!(diff, Instant::<u32, 1, 10_000>::from_ticks(0));

    // Instant + Extension trait
    let sum: Instant<u32, 1, 10_000> = Instant::<u32, 1, 10_000>::from_ticks(10) + 1.millis();
    assert_eq!(sum, Instant::<u32, 1, 10_000>::from_ticks(20));

    // Instant - Extension trait
    let diff: Instant<u32, 1, 10_000> = Instant::<u32, 1, 10_000>::from_ticks(10) - 1.millis();
    assert_eq!(diff, Instant::<u32, 1, 10_000>::from_ticks(0));
}
