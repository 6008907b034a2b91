//! Behaviour at the edges: round trips, inverses, wraparound, reciprocals,
//! rounding, overflow, and the reduced cross factors themselves.

use fugit::{Duration, ExtU32, Helpers, Instant, Rate};

#[test]
fn convert_round_trip() {
    // A conversion that divides evenly comes back unchanged.
    let a = Duration::<u32, 1, 100>::from_ticks(3);
    let b: Duration<u32, 1, 1_000> = a.convert();
    assert_eq!(b.ticks(), 30);
    let c: Duration<u32, 1, 100> = b.convert();
    assert_eq!(c, a);

    let a = Duration::<u64, 60, 1>::from_ticks(2);
    let b: Duration<u64, 1, 1> = a.convert();
    assert_eq!(b.ticks(), 120);
    let c: Duration<u64, 60, 1> = b.convert();
    assert_eq!(c.ticks(), 2);
}

#[test]
fn add_then_sub_returns_original() {
    // Same base.
    let a = Duration::<u32, 1, 1_000>::from_ticks(7);
    let b = Duration::<u32, 1, 1_000>::from_ticks(5);
    let s = a.checked_add(b).unwrap();
    assert_eq!(s.checked_sub(b), Some(a));

    // Different base: the added span is rescaled, and subtracting the same
    // span undoes the addition exactly.
    let a = Duration::<u32, 1, 1_000>::from_ticks(7);
    let b = Duration::<u32, 1, 100>::from_ticks(3);
    let s = a.checked_add(b).unwrap();
    assert_eq!(s.ticks(), 37);
    assert_eq!(s.checked_sub(b), Some(a));

    let a = Duration::<u64, 1, 10_000>::from_ticks(123_456);
    let b = Duration::<u64, 1, 1_000>::from_ticks(89);
    let s = a.checked_add(b).unwrap();
    assert_eq!(s.checked_sub(b), Some(a));
}

#[test]
fn cross_base_equality() {
    // 10 ticks of 1/10000 s and 1 tick of 1/1000 s are both one millisecond.
    assert!(Duration::<u32, 1, 10_000>::from_ticks(10) == Duration::<u32, 1, 1_000>::from_ticks(1));
    // Syntactically different but numerically identical scales are same-base.
    assert!(Duration::<u32, 2, 2_000>::from_ticks(5) == Duration::<u32, 1, 1_000>::from_ticks(5));
}

#[test]
fn instant_wraparound_order() {
    // Tick 1 is after tick MAX: the counter has wrapped.
    assert!(Instant::<u32, 1, 1_000>::from_ticks(1) > Instant::<u32, 1, 1_000>::from_ticks(u32::MAX));
    assert!(Instant::<u64, 1, 1_000>::from_ticks(1) > Instant::<u64, 1, 1_000>::from_ticks(u64::MAX));
}

#[test]
fn duration_since_across_wraparound() {
    assert_eq!(
        Instant::<u32, 1, 1_000>::from_ticks(2)
            .checked_duration_since(Instant::<u32, 1, 1_000>::from_ticks(u32::MAX)),
        Some(Duration::<u32, 1, 1_000>::from_ticks(3))
    );
    assert_eq!(
        Instant::<u64, 1, 1_000>::from_ticks(2)
            .checked_duration_since(Instant::<u64, 1, 1_000>::from_ticks(u64::MAX)),
        Some(Duration::<u64, 1, 1_000>::from_ticks(3))
    );
}

#[test]
fn reciprocal_rate_and_duration() {
    // A 1 kHz rate has a period of 1000 microseconds.
    let r = Rate::<u32, 1_000, 1>::from_raw(1);
    let d: Duration<u32, 1, 1_000_000> = r.into_duration();
    assert_eq!(d.ticks(), 1_000);

    // A 2 ms span is a 500 Hz rate.
    let d = Duration::<u32, 1, 1_000>::from_ticks(2);
    let r: Option<Rate<u32, 1, 1>> = d.try_into_rate();
    assert_eq!(r.unwrap().raw(), 500);
}

#[test]
fn zero_span_has_no_rate() {
    let d = Duration::<u32, 1, 1_000>::from_ticks(0);
    let r: Option<Rate<u32, 1, 1>> = d.try_into_rate();
    assert_eq!(r, None);

    let r = Rate::<u64, 1, 1>::from_raw(0);
    let d: Option<Duration<u64, 1, 1_000>> = r.try_into_duration();
    assert_eq!(d, None);
}

#[test]
fn micro_ticks_and_minutes_scenario() {
    let d: Duration<u32, 1, 10_000> = 100_000.micros();
    assert_eq!(d.ticks(), 1_000);

    let d: Duration<u32, 1, 10_000> = 1.minutes();
    assert_eq!(d.ticks(), 600_000);
}

#[test]
fn same_base_add_overflow_is_none() {
    assert_eq!(
        Duration::<u32, 1, 1_000>::from_ticks(u32::MAX)
            .checked_add(Duration::<u32, 1, 1_000>::from_ticks(1)),
        None
    );
    assert_eq!(
        Duration::<u64, 1, 1_000>::from_ticks(u64::MAX)
            .checked_add(Duration::<u64, 1, 1_000>::from_ticks(1)),
        None
    );
}

#[test]
fn sub_underflow_is_none() {
    assert_eq!(
        Duration::<u32, 1, 1_000>::from_ticks(1)
            .checked_sub(Duration::<u32, 1, 1_000>::from_ticks(2)),
        None
    );
}

#[test]
fn cross_base_rescale_overflow_is_none() {
    // Rescaling MAX ticks of 1/1000 s into 1/10000 s needs a tenfold
    // multiply, which leaves the tick range.
    assert_eq!(
        Duration::<u32, 1, 10_000>::from_ticks(1)
            .checked_add(Duration::<u32, 1, 1_000>::from_ticks(u32::MAX)),
        None
    );
    let d = Duration::<u32, 1, 1_000>::from_ticks(u32::MAX);
    let c: Option<Duration<u32, 1, 10_000>> = d.const_try_into();
    assert_eq!(c, None);
}

#[test]
fn ceil_rounding_covers_requested_time() {
    // One millisecond is a hundredth of a 1/10 s tick: truncation loses it,
    // ceiling rounding keeps a whole tick.
    assert_eq!(Duration::<u32, 1, 10>::millis(1).ticks(), 0);
    assert_eq!(Duration::<u32, 1, 10>::millis_at_least(1).ticks(), 1);
    // An exact amount is not rounded up further.
    assert_eq!(Duration::<u32, 1, 10>::millis_at_least(100).ticks(), 1);
    assert_eq!(Duration::<u64, 1, 10>::secs_at_least(3).ticks(), 30);
}

#[test]
fn half_range_instants_compare_equal() {
    // Two points exactly half the counter range apart are ambiguous: the
    // modular order treats them as equal, though they are distinct instants.
    let a = Instant::<u32, 1, 1_000>::from_ticks(u32::MAX / 2);
    let b = Instant::<u32, 1, 1_000>::from_ticks(0);
    assert!(a <= b);
    assert!(a >= b);
    assert!(a != b);
}

#[test]
fn incomparable_when_rescaling_overflows() {
    let d1 = Duration::<u32, 1, 3>::from_ticks(u32::MAX);
    let d2 = Duration::<u32, 1, 7>::from_ticks(u32::MAX);
    assert_eq!(d1.partial_cmp(&d2), None);
    assert!(!(d1 < d2));
    assert!(!(d1 > d2));
    assert!(d1 != d2);
}

#[test]
fn width_conversions() {
    let w: Duration<u64, 1, 1_000> = Duration::<u32, 1, 1_000>::from_ticks(7).into();
    assert_eq!(w.ticks(), 7);

    let n = Duration::<u32, 1, 1_000>::try_from(Duration::<u64, 1, 1_000>::from_ticks(7));
    assert_eq!(n.unwrap().ticks(), 7);
    let too_big = Duration::<u32, 1, 1_000>::try_from(
        Duration::<u64, 1, 1_000>::from_ticks(5_000_000_000),
    );
    assert!(too_big.is_err());

    let w: Rate<u64, 1, 1> = Rate::<u32, 1, 1>::from_raw(9).into();
    assert_eq!(w.raw(), 9);
    assert!(Rate::<u32, 1, 1>::try_from(Rate::<u64, 1, 1>::from_raw(u64::MAX)).is_err());
}

#[test]
fn instant_arithmetic_wraps() {
    assert_eq!(
        Instant::<u32, 1, 1_000>::from_ticks(u32::MAX)
            .checked_add_duration(Duration::<u32, 1, 1_000>::from_ticks(2)),
        Some(Instant::<u32, 1, 1_000>::from_ticks(1))
    );
    assert_eq!(
        Instant::<u32, 1, 1_000>::from_ticks(1)
            .checked_sub_duration(Duration::<u32, 1, 1_000>::from_ticks(2)),
        Some(Instant::<u32, 1, 1_000>::from_ticks(u32::MAX))
    );
    // A rescaling multiply that overflows still gives None, even though the
    // tick arithmetic itself wraps.
    assert_eq!(
        Instant::<u32, 1, 3>::from_ticks(0)
            .checked_add_duration(Duration::<u32, 1, 7>::from_ticks(u32::MAX)),
        None
    );
    assert_eq!(
        Instant::<u32, 1, 1_000>::from_ticks(11).duration_since_epoch().ticks(),
        11
    );
}

#[test]
fn reduced_factors() {
    // gcd(6 * 6, 4 * 4) = 4, smaller than either cross product.
    assert_eq!(Helpers::<4, 6, 6, 4>::divisor(), 4);
    assert_eq!(Helpers::<4, 6, 6, 4>::rd_times_ln(), 4);
    assert_eq!(Helpers::<4, 6, 6, 4>::ld_times_rn(), 9);
    assert!(!Helpers::<4, 6, 6, 4>::same_base());

    // 2/2000 and 1/1000 reduce to the same base.
    assert!(Helpers::<2, 2_000, 1, 1_000>::same_base());
    assert_eq!(Helpers::<2, 2_000, 1, 1_000>::rd_times_ln(), 1);
    assert_eq!(Helpers::<2, 2_000, 1, 1_000>::ld_times_rn(), 1);

    // The reciprocal numerator between a 1000/1 Hz rate scale and a
    // 1/1000000 s duration scale.
    assert_eq!(Helpers::<1_000, 1, 1, 1_000_000>::divisor_2(), 1_000);
    assert_eq!(Helpers::<1_000, 1, 1, 1_000_000>::ln_times_rn(), 1);
    assert_eq!(Helpers::<1_000, 1, 1, 1_000_000>::rd_times_ld(), 1_000);
    assert_eq!(Helpers::<1_000, 1, 1, 1_000_000>::rate_to_duration_numerator(), 1_000);
}

#[test]
fn rate_period_shorthands() {
    // A rate whose period is 2 ms is 500 Hz.
    assert_eq!(Rate::<u32, 1, 1>::millis(2).raw(), 500);
    assert_eq!(Rate::<u64, 1, 1>::micros(4).raw(), 250_000);
    assert_eq!(Rate::<u32, 1, 1>::nanos(500_000_000).raw(), 2);
    // A 1 kHz rate read back in whole hertz.
    assert_eq!(Rate::<u32, 1_000, 1>::from_raw(1).to_Hz(), 1_000);
}

#[test]
fn span_period_shorthands() {
    // The period of a 1 kHz rate at microsecond resolution is 1000 ticks.
    assert_eq!(Duration::<u32, 1, 1_000_000>::Hz(1_000).ticks(), 1_000);
    assert_eq!(Duration::<u64, 1, 1_000_000>::kHz(1_000).ticks(), 1);
    assert_eq!(Duration::<u32, 1, 1_000_000_000>::MHz(1).ticks(), 1_000);
}

#[test]
fn zero_span_and_getters() {
    assert!(Duration::<u32, 1, 1_000>::from_ticks(0).is_zero());
    assert!(!Duration::<u32, 1, 1_000>::from_ticks(1).is_zero());
    assert_eq!(Duration::<u64, 1, 1_000>::from_ticks(234).ticks(), 234);
    assert_eq!(Instant::<u32, 1, 1_000>::from_ticks(234).ticks(), 234);
    assert_eq!(Rate::<u32, 1, 1_000>::from_raw(234).raw(), 234);
}

#[test]
fn scaling_by_integers() {
    let d = Duration::<u32, 1, 1_000>::from_ticks(10);
    assert_eq!((2 * d).ticks(), 20);
    assert_eq!((d * 2).ticks(), 20);
    assert_eq!((d / 2).ticks(), 5);

    let r = Rate::<u64, 1, 1>::from_raw(10);
    assert_eq!((2 * r).raw(), 20);
    assert_eq!((r * 2).raw(), 20);
    assert_eq!((r / 2).raw(), 5);
}
