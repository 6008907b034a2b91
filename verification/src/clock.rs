//! The abstraction over hardware timer peripherals that produce instants.

use crate::instant::Instant;
use vstd::prelude::*;

verus! {

/// The unsigned integer types that can back a tick counter.
pub trait TimeInt {

}

impl TimeInt for u32 {

}

impl TimeInt for u64 {

}

/// A hardware-specific timer peripheral: a source of [`Instant`] values whose
/// counter advances every `NOM / DENOM` seconds.  How the tick count is read
/// is up to the implementor; this crate only interprets it afterwards.
pub trait Clock<const NOM: u32, const DENOM: u32>: Sized {
    /// The type that holds the tick count.
    type T: TimeInt;

    /// Read the current instant from the hardware.
    fn now(&self) -> Instant<Self::T, NOM, DENOM>;
}

} // verus!
