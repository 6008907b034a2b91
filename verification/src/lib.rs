//! Typed, overflow-aware durations, instants and rates for environments with
//! fixed-width hardware tick counters.
//!
//! Every value carries its time base — a rational number of seconds (or hertz)
//! per tick — as const generic parameters of its type, so mixing bases by
//! accident is a type error, and every fallible arithmetic step has a checked,
//! `Option`-returning form with a proved contract.

mod aliases;
mod clock;
mod duration;
mod helpers;
mod instant;
mod rate;

pub use aliases::{
    Hertz, HertzU32, HertzU64, HoursDuration, HoursDurationU32, HoursDurationU64, Kilohertz,
    KilohertzU32, KilohertzU64, Megahertz, MegahertzU32, MegahertzU64, MicrosDuration,
    MicrosDurationU32, MicrosDurationU64, MillisDuration, MillisDurationU32, MillisDurationU64,
    MinutesDuration, MinutesDurationU32, MinutesDurationU64, NanosDuration, NanosDurationU32,
    NanosDurationU64, SecsDuration, SecsDurationU32, SecsDurationU64, TimerDuration,
    TimerDurationU32, TimerDurationU64, TimerInstant, TimerInstantU32, TimerInstantU64, TimerRate,
    TimerRateU32, TimerRateU64,
};
pub use clock::{Clock, TimeInt};
pub use duration::{Duration, ExtU32, ExtU32Ceil, ExtU64, ExtU64Ceil};
pub use helpers::Helpers;
pub use instant::Instant;
pub use rate::{ExtU32 as RateExtU32, ExtU64 as RateExtU64, Rate};
