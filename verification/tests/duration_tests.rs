//! Comparisons, cross-width comparisons and mixed-width arithmetic of spans.

use fugit::{Duration, Instant};

fn take_ms(d: Duration<u32, 1, 1_000>) -> Duration<u32, 1, 1_000> {
    d
}

#[test]
fn duration_functions() {
    assert_eq!(
        take_ms(Duration::<u32, 1, 100>::from_ticks(1).convert()),
        Duration::<u32, 1, 1_000>::from_ticks(10)
    );
}

#[test]
fn duration_compare_u32() {
    // Same fraction
    assert!(
        Duration::<u32, 1, 1_000>::from_ticks(2) > Duration::<u32, 1, 1_000>::from_ticks(1)
    );
    assert!(
        Duration::<u32, 1, 1_000>::from_ticks(2) >= Duration::<u32, 1, 1_000>::from_ticks(1)
    );
    assert!(
        Duration::<u32, 1, 1_000>::from_ticks(1) >= Duration::<u32, 1, 1_000>::from_ticks(1)
    );
    assert!(
        Duration::<u32, 1, 1_000>::from_ticks(1) < Duration::<u32, 1, 1_000>::from_ticks(2)
    );
    assert!(
        Duration::<u32, 1, 1_000>::from_ticks(1) <= Duration::<u32, 1, 1_000>::from_ticks(1)
    );
    assert!(
        Duration::<u32, 1, 1_000>::from_ticks(1) <= Duration::<u32, 1, 1_000>::from_ticks(2)
    );
    assert!(
        Duration::<u32, 1, 1_000>::from_ticks(1) == Duration::<u32, 1, 1_000>::from_ticks(1)
    );
    assert!(
        Duration::<u32, 1, 1_000>::from_ticks(1) != Duration::<u32, 1, 1_000>::from_ticks(2)
    );

    // Different fraction
    assert!(
        Duration::<u32, 1, 10_000>::from_ticks(11) > Duration::<u32, 1, 1_000>::from_ticks(1)
    );
    assert!(
        Duration::<u32, 1, 10_000>::from_ticks(11) >= Duration::<u32, 1, 1_000>::from_ticks(1)
    );
    assert!(
        Duration::<u32, 1, 10_000>::from_ticks(10) >= Duration::<u32, 1, 1_000>::from_ticks(1)
    );
    assert!(
        Duration::<u32, 1, 10_000>::from_ticks(11) < Duration::<u32, 1, 1_000>::from_ticks(2)
    );
    assert!(
        Duration::<u32, 1, 10_000>::from_ticks(1) <= Duration::<u32, 1, 1_000>::from_ticks(1)
    );
    assert!(
        Duration::<u32, 1, 10_000>::from_ticks(10) <= Duration::<u32, 1, 1_000>::from_ticks(1)
    );
    assert!(
        Duration::<u32, 1, 10_000>::from_ticks(10) == Duration::<u32, 1, 1_000>::from_ticks(1)
    );
    assert!(
        Duration::<u32, 1, 10_000>::from_ticks(9) != Duration::<u32, 1, 1_000>::from_ticks(2)
    );

    // From instants
    assert!(
        Instant::<u32, 1, 1_000>::from_ticks(10) - Instant::<u32, 1, 1_000>::from_ticks(5)
            > Duration::<u32, 1, 1_000>::from_ticks(4)
    );
    assert!(
        Instant::<u32, 1, 1_000>::from_ticks(10) - Instant::<u32, 1, 1_000>::from_ticks(5)
            >= Duration::<u32, 1, 1_000>::from_ticks(4)
    );
    assert!(
        Instant::<u32, 1, 1_000>::from_ticks(10) - Instant::<u32, 1, 1_000>::from_ticks(5)
            >= Duration::<u32, 1, 1_000>::from_ticks(5)
    );
    assert!(
        Instant::<u32, 1, 1_000>::from_ticks(10) - Instant::<u32, 1, 1_000>::from_ticks(5)
            < Duration::<u32, 1, 1_000>::from_ticks(6)
    );
    assert!(
        Instant::<u32, 1, 1_000>::from_ticks(10) - Instant::<u32, 1, 1_000>::from_ticks(5)
            <= Duration::<u32, 1, 1_000>::from_ticks(6)
    );
    assert!(
        Instant::<u32, 1, 1_000>::from_ticks(10) - Instant::<u32, 1, 1_000>::from_ticks(5)
            <= Duration::<u32, 1, 1_000>::from_ticks(5)
    );
    assert!(
        Instant::<u32, 1, 1_000>::from_ticks(10) - Instant::<u32, 1, 1_000>::from_ticks(5)
            == Duration::<u32, 1, 1_000>::from_ticks(5)
    );
    assert!(
        Instant::<u32, 1, 1_000>::from_ticks(10) - Instant::<u32, 1, 1_000>::from_ticks(5)
            != Duration::<u32, 1, 1_000>::from_ticks(4)
    );
}

#[test]
fn duration_compare_u64() {
    // Same fraction
    assert!(
        Duration::<u64, 1, 1_000>::from_ticks(2) > Duration::<u64, 1, 1_000>::from_ticks(1)
    );
    assert!(
        Duration::<u64, 1, 1_000>::from_ticks(2) >= Duration::<u64, 1, 1_000>::from_ticks(1)
    );
    assert!(
        Duration::<u64, 1, 1_000>::from_ticks(1) >= Duration::<u64, 1, 1_000>::from_ticks(1)
    );
    assert!(
        Duration::<u64, 1, 1_000>::from_ticks(1) < Duration::<u64, 1, 1_000>::from_ticks(2)
    );
    assert!(
        Duration::<u64, 1, 1_000>::from_ticks(1) <= Duration::<u64, 1, 1_000>::from_ticks(1)
    );
    assert!(
        Duration::<u64, 1, 1_000>::from_ticks(1) <= Duration::<u64, 1, 1_000>::from_ticks(2)
    );
    assert!(
        Duration::<u64, 1, 1_000>::from_ticks(1) == Duration::<u64, 1, 1_000>::from_ticks(1)
    );
    assert!(
        Duration::<u64, 1, 1_000>::from_ticks(1) != Duration::<u64, 1, 1_000>::from_ticks(2)
    );

    // Different fraction
    assert!(
        Duration::<u64, 1, 10_000>::from_ticks(11) > Duration::<u64, 1, 1_000>::from_ticks(1)
    );
    assert!(
        Duration::<u64, 1, 10_000>::from_ticks(11) >= Duration::<u64, 1, 1_000>::from_ticks(1)
    );
    assert!(
        Duration::<u64, 1, 10_000>::from_ticks(10) >= Duration::<u64, 1, 1_000>::from_ticks(1)
    );
    assert!(
        Duration::<u64, 1, 10_000>::from_ticks(11) < Duration::<u64, 1, 1_000>::from_ticks(2)
    );
    assert!(
        Duration::<u64, 1, 10_000>::from_ticks(1) <= Duration::<u64, 1, 1_000>::from_ticks(1)
    );
    assert!(
        Duration::<u64, 1, 10_000>::from_ticks(10) <= Duration::<u64, 1, 1_000>::from_ticks(1)
    );
    assert!(
        Duration::<u64, 1, 10_000>::from_ticks(10) == Duration::<u64, 1, 1_000>::from_ticks(1)
    );
    assert!(
        Duration::<u64, 1, 10_000>::from_ticks(9) != Duration::<u64, 1, 1_000>::from_ticks(2)
    );

    // From instants
    assert!(
        Instant::<u64, 1, 1_000>::from_ticks(10) - Instant::<u64, 1, 1_000>::from_ticks(5)
            > Duration::<u64, 1, 1_000>::from_ticks(4)
    );
    assert!(
        Instant::<u64, 1, 1_000>::from_ticks(10) - Instant::<u64, 1, 1_000>::from_ticks(5)
            >= Duration::<u64, 1, 1_000>::from_ticks(4)
    );
    assert!(
        Instant::<u64, 1, 1_000>::from_ticks(10) - Instant::<u64, 1, 1_000>::from_ticks(5)
            >= Duration::<u64, 1, 1_000>::from_ticks(5)
    );
    assert!(
        Instant::<u64, 1, 1_000>::from_ticks(10) - Instant::<u64, 1, 1_000>::from_ticks(5)
            < Duration::<u64, 1, 1_000>::from_ticks(6)
    );
    assert!(
        Instant::<u64, 1, 1_000>::from_ticks(10) - Instant::<u64, 1, 1_000>::from_ticks(5)
            <= Duration::<u64, 1, 1_000>::from_ticks(6)
    );
    assert!(
        Instant::<u64, 1, 1_000>::from_ticks(10) - Instant::<u64, 1, 1_000>::from_ticks(5)
            <= Duration::<u64, 1, 1_000>::from_ticks(5)
    );
    assert!(
        Instant::<u64, 1, 1_000>::from_ticks(10) - Instant::<u64, 1, 1_000>::from_ticks(5)
            == Duration::<u64, 1, 1_000>::from_ticks(5)
    );
    assert!(
        Instant::<u64, 1, 1_000>::from_ticks(10) - Instant::<u64, 1, 1_000>::from_ticks(5)
            != Duration::<u64, 1, 1_000>::from_ticks(4)
    );
}

#[test]
fn duration_compare_u64_u32() {
    // Same fraction
    assert!(
        Duration::<u64, 1, 1_000>::from_ticks(2) > Duration::<u32, 1, 1_000>::from_ticks(1)
    );
    assert!(
        Duration::<u64, 1, 1_000>::from_ticks(2) >= Duration::<u32, 1, 1_000>::from_ticks(1)
    );
    assert!(
        Duration::<u64, 1, 1_000>::from_ticks(1) >= Duration::<u32, 1, 1_000>::from_ticks(1)
    );
    assert!(
        Duration::<u64, 1, 1_000>::from_ticks(1) < Duration::<u32, 1, 1_000>::from_ticks(2)
    );
    assert!(
        Duration::<u64, 1, 1_000>::from_ticks(1) <= Duration::<u32, 1, 1_000>::from_ticks(1)
    );
    assert!(
        Duration::<u64, 1, 1_000>::from_ticks(1) <= Duration::<u32, 1, 1_000>::from_ticks(2)
    );
    assert!(
        Duration::<u64, 1, 1_000>::from_ticks(1) == Duration::<u32, 1, 1_000>::from_ticks(1)
    );
    assert!(
        Duration::<u64, 1, 1_000>::from_ticks(1) != Duration::<u32, 1, 1_000>::from_ticks(2)
    );

    // Different fraction
    assert!(
        Duration::<u64, 1, 10_000>::from_ticks(11) > Duration::<u32, 1, 1_000>::from_ticks(1)
    );
    assert!(
        Duration::<u64, 1, 10_000>::from_ticks(11) >= Duration::<u32, 1, 1_000>::from_ticks(1)
    );
    assert!(
        Duration::<u64, 1, 10_000>::from_ticks(10) >= Duration::<u32, 1, 1_000>::from_ticks(1)
    );
    assert!(
        Duration::<u64, 1, 10_000>::from_ticks(11) < Duration::<u32, 1, 1_000>::from_ticks(2)
    );
    assert!(
        Duration::<u64, 1, 10_000>::from_ticks(1) <= Duration::<u32, 1, 1_000>::from_ticks(1)
    );
    assert!(
        Duration::<u64, 1, 10_000>::from_ticks(10) <= Duration::<u32, 1, 1_000>::from_ticks(1)
    );
    assert!(
        Duration::<u64, 1, 10_000>::from_ticks(10) == Duration::<u32, 1, 1_000>::from_ticks(1)
    );
    assert!(
        Duration::<u64, 1, 10_000>::from_ticks(9) != Duration::<u32, 1, 1_000>::from_ticks(2)
    );

    // From instants
    assert!(
        Instant::<u64, 1, 1_000>::from_ticks(10) - Instant::<u64, 1, 1_000>::from_ticks(5)
            > Duration::<u32, 1, 1_000>::from_ticks(4)
    );
    assert!(
        Instant::<u64, 1, 1_000>::from_ticks(10) - Instant::<u64, 1, 1_000>::from_ticks(5)
            >= Duration::<u32, 1, 1_000>::from_ticks(4)
    );
    assert!(
        Instant::<u64, 1, 1_000>::from_ticks(10) - Instant::<u64, 1, 1_000>::from_ticks(5)
            >= Duration::<u32, 1, 1_000>::from_ticks(5)
    );
    assert!(
        Instant::<u64, 1, 1_000>::from_ticks(10) - Instant::<u64, 1, 1_000>::from_ticks(5)
            < Duration::<u32, 1, 1_000>::from_ticks(6)
    );
    assert!(
        Instant::<u64, 1, 1_000>::from_ticks(10) - Instant::<u64, 1, 1_000>::from_ticks(5)
            <= Duration::<u32, 1, 1_000>::from_ticks(6)
    );
    assert!(
        Instant::<u64, 1, 1_000>::from_ticks(10) - Instant::<u64, 1, 1_000>::from_ticks(5)
            <= Duration::<u32, 1, 1_000>::from_ticks(5)
    );
    assert!(
        Instant::<u64, 1, 1_000>::from_ticks(10) - Instant::<u64, 1, 1_000>::from_ticks(5)
            == Duration::<u32, 1, 1_000>::from_ticks(5)
    );
    assert!(
        Instant::<u64, 1, 1_000>::from_ticks(10) - Instant::<u64, 1, 1_000>::from_ticks(5)
            != Duration::<u32, 1, 1_000>::from_ticks(4)
    );
}

#[test]
fn duration_compare_u32_u64() {
    // Same fraction
    assert!(
        Duration::<u32, 1, 1_000>::from_ticks(2) > Duration::<u64, 1, 1_000>::from_ticks(1)
    );
    assert!(
        Duration::<u32, 1, 1_000>::from_ticks(2) >= Duration::<u64, 1, 1_000>::from_ticks(1)
    );
    assert!(
        Duration::<u32, 1, 1_000>::from_ticks(1) >= Duration::<u64, 1, 1_000>::from_ticks(1)
    );
    assert!(
        Duration::<u32, 1, 1_000>::from_ticks(1) < Duration::<u64, 1, 1_000>::from_ticks(2)
    );
    assert!(
        Duration::<u32, 1, 1_000>::from_ticks(1) <= Duration::<u64, 1, 1_000>::from_ticks(1)
    );
    assert!(
        Duration::<u32, 1, 1_000>::from_ticks(1) <= Duration::<u64, 1, 1_000>::from_ticks(2)
    );
    assert!(
        Duration::<u32, 1, 1_000>::from_ticks(1) == Duration::<u64, 1, 1_000>::from_ticks(1)
    );
    assert!(
        Duration::<u32, 1, 1_000>::from_ticks(1) != Duration::<u64, 1, 1_000>::from_ticks(2)
    );

    // Different fraction
    assert!(
        Duration::<u32, 1, 10_000>::from_ticks(11) > Duration::<u64, 1, 1_000>::from_ticks(1)
    );
    assert!(
        Duration::<u32, 1, 10_000>::from_ticks(11) >= Duration::<u64, 1, 1_000>::from_ticks(1)
    );
    assert!(
        Duration::<u32, 1, 10_000>::from_ticks(10) >= Duration::<u64, 1, 1_000>::from_ticks(1)
    );
    assert!(
        Duration::<u32, 1, 10_000>::from_ticks(11) < Duration::<u64, 1, 1_000>::from_ticks(2)
    );
    assert!(
        Duration::<u32, 1, 10_000>::from_ticks(1) <= Duration::<u64, 1, 1_000>::from_ticks(1)
    );
    assert!(
        Duration::<u32, 1, 10_000>::from_ticks(10) <= Duration::<u64, 1, 1_000>::from_ticks(1)
    );
    assert!(
        Duration::<u32, 1, 10_000>::from_ticks(10) == Duration::<u64, 1, 1_000>::from_ticks(1)
    );
    assert!(
        Duration::<u32, 1, 10_000>::from_ticks(9) != Duration::<u64, 1, 1_000>::from_ticks(2)
    );

    // From instants
    assert!(
        Instant::<u32, 1, 1_000>::from_ticks(10) - Instant::<u32, 1, 1_000>::from_ticks(5)
            > Duration::<u64, 1, 1_000>::from_ticks(4)
    );
    assert!(
        Instant::<u32, 1, 1_000>::from_ticks(10) - Instant::<u32, 1, 1_000>::from_ticks(5)
            >= Duration::<u64, 1, 1_000>::from_ticks(4)
    );
    assert!(
        Instant::<u32, 1, 1_000>::from_ticks(10) - Instant::<u32, 1, 1_000>::from_ticks(5)
            >= Duration::<u64, 1, 1_000>::from_ticks(5)
    );
    assert!(
        Instant::<u32, 1, 1_000>::from_ticks(10) - Instant::<u32, 1, 1_000>::from_ticks(5)
            < Duration::<u64, 1, 1_000>::from_ticks(6)
    );
    assert!(
        Instant::<u32, 1, 1_000>::from_ticks(10) - Instant::<u32, 1, 1_000>::from_ticks(5)
            <= Duration::<u64, 1, 1_000>::from_ticks(6)
    );
    assert!(
        Instant::<u32, 1, 1_000>::from_ticks(10) - Instant::<u32, 1, 1_000>::from_ticks(5)
            <= Duration::<u64, 1, 1_000>::from_ticks(5)
    );
    assert!(
        Instant::<u32, 1, 1_000>::from_ticks(10) - Instant::<u32, 1, 1_000>::from_ticks(5)
            == Duration::<u64, 1, 1_000>::from_ticks(5)
    );
    assert!(
        Instant::<u32, 1, 1_000>::from_ticks(10) - Instant::<u32, 1, 1_000>::from_ticks(5)
            != Duration::<u64, 1, 1_000>::from_ticks(4)
    );
}

#[test]
fn duration_duration_math_u64_u32() {
    // Same base
    let sum: Duration<u64, 1, 1_000> =
        Duration::<u64, 1, 1_000>::from_ticks(10) + Duration::<u32, 1, 1_000>::from_ticks(1);
    assert_eq!(sum, Duration::<u64, 1, 1_000>::from_ticks(11));

    let mut sum = Duration::<u64, 1, 1_000>::from_ticks(10);
    sum = sum + (Duration::<u32, 1, 1_000>::from_ticks(1));
    assert_eq!(sum, Duration::<u64, 1, 1_000>::from_ticks(11));

    let diff: Duration<u64, 1, 1_000> =
        Duration::<u64, 1, 1_000>::from_ticks(10) - Duration::<u32, 1, 1_000>::from_ticks(1);
    assert_eq!(diff, Duration::<u64, 1, 1_000>::from_ticks(9));

    let mut diff = Duration::<u64, 1, 1_000>::from_ticks(10);
    diff = diff - (Duration::<u32, 1, 1_000>::from_ticks(1));
    assert_eq!(diff, Duration::<u64, 1, 1_000>::from_ticks(9));

    // Different base
    let sum: Duration<u64, 1, 10_000> = Duration::<u64, 1, 10_000>::from_ticks(10)
        + Duration::<u32, 1, 1_000>::from_ticks(1).convert();
    assert_eq!(sum, Duration::<u64, 1, 1_000>::from_ticks(2));

    let mut sum = Duration::<u64, 1, 1_000>::from_ticks(1);
    sum = sum + (Duration::<u32, 1, 10_000>::from_ticks(10).convert());
    assert_eq!(sum, Duration::<u64, 1, 1_000>::from_ticks(2));

    let diff: Duration<u64, 1, 10_000> = Duration::<u64, 1, 10_000>::from_ticks(10)
        - Duration::<u32, 1, 1_000>::from_ticks(1).convert();
    assert_eq!(diff, Duration::<u64, 1, 1_000>::from_ticks(0));

    let mut diff = Duration::<u64, 1, 1_000>::from_ticks(1);
    diff = diff - (Duration::<u32, 1, 10_000>::from_ticks(10).convert());
    assert_eq!(diff, Duration::<u64, 1, 1_000>::from_ticks(0));
}
