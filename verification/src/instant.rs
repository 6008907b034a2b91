//! Points on a wrapping time axis: a tick count under a rational scale,
//! interpreted as a position on a circular axis of period `T::MAX + 1`, with
//! a modular order that infers wraparound from which reading keeps the two
//! points within half the counter range of each other.

use crate::duration::Duration;
use crate::helpers;
use crate::helpers::spec_rescale_ticks;
use core::cmp::Ordering;
use vstd::prelude::*;

verus! {

/// The difference `a - b` on a circular axis of period `max + 1`.
pub open spec fn spec_wrap_sub(a: int, b: int, max: int) -> int {
    if a - b < 0 {
        a - b + max + 1
    } else {
        a - b
    }
}

/// The sum `a + b` on a circular axis of period `max + 1`.
pub open spec fn spec_wrap_add(a: int, b: int, max: int) -> int {
    if a + b > max {
        a + b - max - 1
    } else {
        a + b
    }
}

/// The modular order of two positions on a circular axis of period `max + 1`:
/// distinct points closer than half the range apart order by which must have
/// come first, and two points exactly half the range apart are ambiguous and
/// count as equal.  This relation is not transitive once more than half the
/// range separates the extremes; that is inherent to a circular axis.
pub open spec fn spec_instant_cmp(a: int, b: int, max: int) -> Ordering {
    if a == b {
        Ordering::Equal
    } else {
        let d = spec_wrap_sub(a, b, max);
        if d > max / 2 {
            Ordering::Less
        } else if d < max / 2 {
            Ordering::Greater
        } else {
            Ordering::Equal
        }
    }
}

/// An instant in time: tick `ticks` of a counter that advances every
/// `NOM / DENOM` seconds and wraps around past `T::MAX`.
#[derive(Debug)]
pub struct Instant<T, const NOM: u32, const DENOM: u32> {
    ticks: T,
}

impl<T, const NOM: u32, const DENOM: u32> Instant<T, NOM, DENOM> {
    /// An instant's scale is valid: numerator and denominator are nonzero.
    #[verifier::type_invariant]
    pub open spec fn scale_valid(self) -> bool {
        NOM > 0 && DENOM > 0
    }

    /// The raw tick count.
    pub closed spec fn spec_ticks(self) -> T {
        self.ticks
    }

    /// The instant with the given raw tick count.
    pub closed spec fn spec_new(ticks: T) -> Self {
        Instant { ticks }
    }

    /// An instant is exactly its tick count.
    pub broadcast proof fn lemma_new_ticks(ticks: T)
        ensures
            (#[trigger] Self::spec_new(ticks)).spec_ticks() == ticks,
    {
    }
}

impl<T: Copy, const NOM: u32, const DENOM: u32> Clone for Instant<T, NOM, DENOM> {
    fn clone(&self) -> (r: Self)
        ensures
            r == *self,
    {
        *self
    }
}

impl<T: Copy, const NOM: u32, const DENOM: u32> Copy for Instant<T, NOM, DENOM> {}

impl<const NOM: u32, const DENOM: u32> Instant<u32, NOM, DENOM> {
    /// Create an instant from a raw tick count.
    pub fn from_ticks(ticks: u32) -> (r: Self)
        requires
            0 < NOM,
            0 < DENOM,
        ensures
            r.spec_ticks() == ticks,
    {
        Instant { ticks }
    }

    /// The raw tick count.
    pub fn ticks(&self) -> (r: u32)
        ensures
            r == self.spec_ticks(),
    {
        self.ticks
    }

    /// The modular order of two instants, wraparound-aware: see
    /// [`spec_instant_cmp`].  Not transitive in general.
    pub fn const_cmp(self, other: Self) -> (r: Ordering)
        ensures
            r == spec_instant_cmp(
                self.spec_ticks() as int,
                other.spec_ticks() as int,
                u32::MAX as int,
            ),
    {
        if self.ticks == other.ticks {
            Ordering::Equal
        } else {
            let v = self.ticks.wrapping_sub(other.ticks);
            if v > u32::MAX / 2 {
                Ordering::Less
            } else if v < u32::MAX / 2 {
                Ordering::Greater
            } else {
                Ordering::Equal
            }
        }
    }

    /// The span since tick zero, assuming the counter has not wrapped yet:
    /// the tick count reinterpreted as a span.
    pub fn duration_since_epoch(self) -> (r: Duration<u32, NOM, DENOM>)
        ensures
            r.spec_ticks() == self.spec_ticks(),
    {
        proof {
            use_type_invariant(self);
        }
        Duration::<u32, NOM, DENOM>::from_ticks(self.ticks)
    }

    /// The span from `other` to `self`, wraparound-aware: defined exactly when
    /// `other` is not after `self` under the modular order, and then equal to
    /// the wrapping difference of the tick counts.
    pub fn checked_duration_since(self, other: Self) -> (r: Option<Duration<u32, NOM, DENOM>>)
        ensures
            r is Some <==> spec_instant_cmp(
                self.spec_ticks() as int,
                other.spec_ticks() as int,
                u32::MAX as int,
            ) != Ordering::Less,
            r matches Some(d) ==> d.spec_ticks() == spec_wrap_sub(
                self.spec_ticks() as int,
                other.spec_ticks() as int,
                u32::MAX as int,
            ),
    {
        proof {
            use_type_invariant(self);
        }
        match self.const_cmp(other) {
            Ordering::Greater | Ordering::Equal => {
                Some(Duration::<u32, NOM, DENOM>::from_ticks(self.ticks.wrapping_sub(other.ticks)))
            },
            Ordering::Less => None,
        }
    }

    /// Move this instant backward by a span of any base, rescaling the span
    /// into this base first; the tick count wraps around, as the hardware
    /// counter does, so only an overflowing rescaling multiply gives `None`.
    pub fn checked_sub_duration<const O_NOM: u32, const O_DENOM: u32>(
        self,
        other: Duration<u32, O_NOM, O_DENOM>,
    ) -> (r: Option<Self>)
        ensures
            ({
                let s = spec_rescale_ticks(
                    other.spec_ticks() as int,
                    NOM as int,
                    DENOM as int,
                    O_NOM as int,
                    O_DENOM as int,
                    u32::MAX as int,
                );
                match r {
                    Some(i) => s matches Some(q) && i.spec_ticks() == spec_wrap_sub(
                        self.spec_ticks() as int,
                        q,
                        u32::MAX as int,
                    ),
                    None => s is None,
                }
            }),
    {
        proof {
            use_type_invariant(self);
            use_type_invariant(other);
        }
        match helpers::rescale_ticks(
            other.ticks() as u64,
            NOM,
            DENOM,
            O_NOM,
            O_DENOM,
            u32::MAX as u64,
        ) {
            Some(q) => Some(Instant { ticks: self.ticks.wrapping_sub((q) as u32) }),
            None => None,
        }
    }

    /// Move this instant forward by a span of any base, rescaling the span
    /// into this base first; the tick count wraps around, as the hardware
    /// counter does, so only an overflowing rescaling multiply gives `None`.
    pub fn checked_add_duration<const O_NOM: u32, const O_DENOM: u32>(
        self,
        other: Duration<u32, O_NOM, O_DENOM>,
    ) -> (r: Option<Self>)
        ensures
            ({
                let s = spec_rescale_ticks(
                    other.spec_ticks() as int,
                    NOM as int,
                    DENOM as int,
                    O_NOM as int,
                    O_DENOM as int,
                    u32::MAX as int,
                );
                match r {
                    Some(i) => s matches Some(q) && i.spec_ticks() == spec_wrap_add(
                        self.spec_ticks() as int,
                        q,
                        u32::MAX as int,
                    ),
                    None => s is None,
                }
            }),
    {
        proof {
            use_type_invariant(self);
            use_type_invariant(other);
        }
        match helpers::rescale_ticks(
            other.ticks() as u64,
            NOM,
            DENOM,
            O_NOM,
            O_DENOM,
            u32::MAX as u64,
        ) {
            Some(q) => Some(Instant { ticks: self.ticks.wrapping_add((q) as u32) }),
            None => None,
        }
    }
}

impl<const NOM: u32, const DENOM: u32> PartialEq for Instant<u32, NOM, DENOM> {
    fn eq(&self, other: &Instant<u32, NOM, DENOM>) -> (r: bool) {
        self.ticks == other.ticks
    }
}

impl<const NOM: u32, const DENOM: u32> vstd::std_specs::cmp::PartialEqSpecImpl for Instant<u32, NOM, DENOM> {
    open spec fn obeys_eq_spec() -> bool {
        true
    }

    open spec fn eq_spec(&self, other: &Instant<u32, NOM, DENOM>) -> bool {
        self.spec_ticks() == other.spec_ticks()
    }
}

impl<const NOM: u32, const DENOM: u32> PartialOrd for Instant<u32, NOM, DENOM> {
    /// The modular, wraparound-aware order: see [`spec_instant_cmp`].  Unlike
    /// an ordinary `partial_cmp`, this relation is not transitive once more
    /// than half the counter range separates the extremes.
    fn partial_cmp(&self, other: &Instant<u32, NOM, DENOM>) -> (r: Option<Ordering>) {
        Some(self.const_cmp(*other))
    }
}

impl<const NOM: u32, const DENOM: u32> vstd::std_specs::cmp::PartialOrdSpecImpl for Instant<u32, NOM, DENOM> {
    open spec fn obeys_partial_cmp_spec() -> bool {
        true
    }

    open spec fn partial_cmp_spec(&self, other: &Instant<u32, NOM, DENOM>) -> Option<Ordering> {
        Some(
            spec_instant_cmp(self.spec_ticks() as int, other.spec_ticks() as int, u32::MAX as int),
        )
    }
}

impl<const NOM: u32, const DENOM: u32> core::ops::Sub<Instant<u32, NOM, DENOM>> for Instant<u32, NOM, DENOM> {
    type Output = Duration<u32, NOM, DENOM>;

    /// The span from `other` to `self`: the fail-fast counterpart of
    /// `checked_duration_since`, so `other` must not be after `self` under the
    /// modular order.
    fn sub(self, other: Instant<u32, NOM, DENOM>) -> (r: Duration<u32, NOM, DENOM>) {
        let d = self.checked_duration_since(other).unwrap();
        proof {
            let w = spec_wrap_sub(
                self.spec_ticks() as int,
                other.spec_ticks() as int,
                u32::MAX as int,
            ) as u32;
            Duration::<u32, NOM, DENOM>::lemma_new_ticks(w);
            Duration::<u32, NOM, DENOM>::lemma_ticks_ext(
                d,
                Duration::<u32, NOM, DENOM>::spec_new(w),
            );
        }
        d
    }
}

impl<const NOM: u32, const DENOM: u32> vstd::std_specs::ops::SubSpecImpl<Instant<u32, NOM, DENOM>> for Instant<u32, NOM, DENOM> {
    open spec fn obeys_sub_spec() -> bool {
        true
    }

    open spec fn sub_req(self, other: Instant<u32, NOM, DENOM>) -> bool {
        spec_instant_cmp(self.spec_ticks() as int, other.spec_ticks() as int, u32::MAX as int)
            != Ordering::Less
    }

    open spec fn sub_spec(self, other: Instant<u32, NOM, DENOM>) -> Duration<u32, NOM, DENOM> {
        Duration::<u32, NOM, DENOM>::spec_new(
            spec_wrap_sub(
                self.spec_ticks() as int,
                other.spec_ticks() as int,
                u32::MAX as int,
            ) as u32,
        )
    }
}

impl<const NOM: u32, const DENOM: u32> core::ops::Sub<Duration<u32, NOM, DENOM>> for Instant<u32, NOM, DENOM> {
    type Output = Instant<u32, NOM, DENOM>;

    /// Move backward by a same-base span; the tick count wraps around.
    fn sub(self, other: Duration<u32, NOM, DENOM>) -> (r: Instant<u32, NOM, DENOM>) {
        proof {
            use_type_invariant(self);
            crate::helpers::lemma_reduction(NOM as int, DENOM as int, NOM as int, DENOM as int);
        }
        self.checked_sub_duration(other).unwrap()
    }
}

impl<const NOM: u32, const DENOM: u32> vstd::std_specs::ops::SubSpecImpl<Duration<u32, NOM, DENOM>> for Instant<u32, NOM, DENOM> {
    open spec fn obeys_sub_spec() -> bool {
        true
    }

    open spec fn sub_req(self, other: Duration<u32, NOM, DENOM>) -> bool {
        true
    }

    open spec fn sub_spec(self, other: Duration<u32, NOM, DENOM>) -> Instant<u32, NOM, DENOM> {
        Instant::<u32, NOM, DENOM>::spec_new(
            spec_wrap_sub(
                self.spec_ticks() as int,
                other.spec_ticks() as int,
                u32::MAX as int,
            ) as u32,
        )
    }
}

impl<const NOM: u32, const DENOM: u32> core::ops::Add<Duration<u32, NOM, DENOM>> for Instant<u32, NOM, DENOM> {
    type Output = Instant<u32, NOM, DENOM>;

    /// Move forward by a same-base span; the tick count wraps around.
    fn add(self, other: Duration<u32, NOM, DENOM>) -> (r: Instant<u32, NOM, DENOM>) {
        proof {
            use_type_invariant(self);
            crate::helpers::lemma_reduction(NOM as int, DENOM as int, NOM as int, DENOM as int);
        }
        self.checked_add_duration(other).unwrap()
    }
}

impl<const NOM: u32, const DENOM: u32> vstd::std_specs::ops::AddSpecImpl<Duration<u32, NOM, DENOM>> for Instant<u32, NOM, DENOM> {
    open spec fn obeys_add_spec() -> bool {
        true
    }

    open spec fn add_req(self, other: Duration<u32, NOM, DENOM>) -> bool {
        true
    }

    open spec fn add_spec(self, other: Duration<u32, NOM, DENOM>) -> Instant<u32, NOM, DENOM> {
        Instant::<u32, NOM, DENOM>::spec_new(
            spec_wrap_add(
                self.spec_ticks() as int,
                other.spec_ticks() as int,
                u32::MAX as int,
            ) as u32,
        )
    }
}

impl<const NOM: u32, const DENOM: u32> Instant<u64, NOM, DENOM> {
    /// Create an instant from a raw tick count.
    pub fn from_ticks(ticks: u64) -> (r: Self)
        requires
            0 < NOM,
            0 < DENOM,
        ensures
            r.spec_ticks() == ticks,
    {
        Instant { ticks }
    }

    /// The raw tick count.
    pub fn ticks(&self) -> (r: u64)
        ensures
            r == self.spec_ticks(),
    {
        self.ticks
    }

    /// The modular order of two instants, wraparound-aware: see
    /// [`spec_instant_cmp`].  Not transitive in general.
    pub fn const_cmp(self, other: Self) -> (r: Ordering)
        ensures
            r == spec_instant_cmp(
                self.spec_ticks() as int,
                other.spec_ticks() as int,
                u64::MAX as int,
            ),
    {
        if self.ticks == other.ticks {
            Ordering::Equal
        } else {
            let v = self.ticks.wrapping_sub(other.ticks);
            if v > u64::MAX / 2 {
                Ordering::Less
            } else if v < u64::MAX / 2 {
                Ordering::Greater
            } else {
                Ordering::Equal
            }
        }
    }

    /// The span since tick zero, assuming the counter has not wrapped yet:
    /// the tick count reinterpreted as a span.
    pub fn duration_since_epoch(self) -> (r: Duration<u64, NOM, DENOM>)
        ensures
            r.spec_ticks() == self.spec_ticks(),
    {
        proof {
            use_type_invariant(self);
        }
        Duration::<u64, NOM, DENOM>::from_ticks(self.ticks)
    }

    /// The span from `other` to `self`, wraparound-aware: defined exactly when
    /// `other` is not after `self` under the modular order, and then equal to
    /// the wrapping difference of the tick counts.
    pub fn checked_duration_since(self, other: Self) -> (r: Option<Duration<u64, NOM, DENOM>>)
        ensures
            r is Some <==> spec_instant_cmp(
                self.spec_ticks() as int,
                other.spec_ticks() as int,
                u64::MAX as int,
            ) != Ordering::Less,
            r matches Some(d) ==> d.spec_ticks() == spec_wrap_sub(
                self.spec_ticks() as int,
                other.spec_ticks() as int,
                u64::MAX as int,
            ),
    {
        proof {
            use_type_invariant(self);
        }
        match self.const_cmp(other) {
            Ordering::Greater | Ordering::Equal => {
                Some(Duration::<u64, NOM, DENOM>::from_ticks(self.ticks.wrapping_sub(other.ticks)))
            },
            Ordering::Less => None,
        }
    }

    /// Move this instant backward by a span of any base, rescaling the span
    /// into this base first; the tick count wraps around, as the hardware
    /// counter does, so only an overflowing rescaling multiply gives `None`.
    pub fn checked_sub_duration<const O_NOM: u32, const O_DENOM: u32>(
        self,
        other: Duration<u64, O_NOM, O_DENOM>,
    ) -> (r: Option<Self>)
        ensures
            ({
                let s = spec_rescale_ticks(
                    other.spec_ticks() as int,
                    NOM as int,
                    DENOM as int,
                    O_NOM as int,
                    O_DENOM as int,
                    u64::MAX as int,
                );
                match r {
                    Some(i) => s matches Some(q) && i.spec_ticks() == spec_wrap_sub(
                        self.spec_ticks() as int,
                        q,
                        u64::MAX as int,
                    ),
                    None => s is None,
                }
            }),
    {
        proof {
            use_type_invariant(self);
            use_type_invariant(other);
        }
        match helpers::rescale_ticks(
            other.ticks(),
            NOM,
            DENOM,
            O_NOM,
            O_DENOM,
            u64::MAX,
        ) {
            Some(q) => Some(Instant { ticks: self.ticks.wrapping_sub(q) }),
            None => None,
        }
    }

    /// Move this instant forward by a span of any base, rescaling the span
    /// into this base first; the tick count wraps around, as the hardware
    /// counter does, so only an overflowing rescaling multiply gives `None`.
    pub fn checked_add_duration<const O_NOM: u32, const O_DENOM: u32>(
        self,
        other: Duration<u64, O_NOM, O_DENOM>,
    ) -> (r: Option<Self>)
        ensures
            ({
                let s = spec_rescale_ticks(
                    other.spec_ticks() as int,
                    NOM as int,
                    DENOM as int,
                    O_NOM as int,
                    O_DENOM as int,
                    u64::MAX as int,
                );
                match r {
                    Some(i) => s matches Some(q) && i.spec_ticks() == spec_wrap_add(
                        self.spec_ticks() as int,
                        q,
                        u64::MAX as int,
                    ),
                    None => s is None,
                }
            }),
    {
        proof {
            use_type_invariant(self);
            use_type_invariant(other);
        }
        match helpers::rescale_ticks(
            other.ticks(),
            NOM,
            DENOM,
            O_NOM,
            O_DENOM,
            u64::MAX,
        ) {
            Some(q) => Some(Instant { ticks: self.ticks.wrapping_add(q) }),
            None => None,
        }
    }
}

impl<const NOM: u32, const DENOM: u32> PartialEq for Instant<u64, NOM, DENOM> {
    fn eq(&self, other: &Instant<u64, NOM, DENOM>) -> (r: bool) {
        self.ticks == other.ticks
    }
}

impl<const NOM: u32, const DENOM: u32> vstd::std_specs::cmp::PartialEqSpecImpl for Instant<u64, NOM, DENOM> {
    open spec fn obeys_eq_spec() -> bool {
        true
    }

    open spec fn eq_spec(&self, other: &Instant<u64, NOM, DENOM>) -> bool {
        self.spec_ticks() == other.spec_ticks()
    }
}

impl<const NOM: u32, const DENOM: u32> PartialOrd for Instant<u64, NOM, DENOM> {
    /// The modular, wraparound-aware order: see [`spec_instant_cmp`].  Unlike
    /// an ordinary `partial_cmp`, this relation is not transitive once more
    /// than half the counter range separates the extremes.
    fn partial_cmp(&self, other: &Instant<u64, NOM, DENOM>) -> (r: Option<Ordering>) {
        Some(self.const_cmp(*other))
    }
}

impl<const NOM: u32, const DENOM: u32> vstd::std_specs::cmp::PartialOrdSpecImpl for Instant<u64, NOM, DENOM> {
    open spec fn obeys_partial_cmp_spec() -> bool {
        true
    }

    open spec fn partial_cmp_spec(&self, other: &Instant<u64, NOM, DENOM>) -> Option<Ordering> {
        Some(
            spec_instant_cmp(self.spec_ticks() as int, other.spec_ticks() as int, u64::MAX as int),
        )
    }
}

impl<const NOM: u32, const DENOM: u32> core::ops::Sub<Instant<u64, NOM, DENOM>> for Instant<u64, NOM, DENOM> {
    type Output = Duration<u64, NOM, DENOM>;

    /// The span from `other` to `self`: the fail-fast counterpart of
    /// `checked_duration_since`, so `other` must not be after `self` under the
    /// modular order.
    fn sub(self, other: Instant<u64, NOM, DENOM>) -> (r: Duration<u64, NOM, DENOM>) {
        let d = self.checked_duration_since(other).unwrap();
        proof {
            let w = spec_wrap_sub(
                self.spec_ticks() as int,
                other.spec_ticks() as int,
                u64::MAX as int,
            ) as u64;
            Duration::<u64, NOM, DENOM>::lemma_new_ticks(w);
            Duration::<u64, NOM, DENOM>::lemma_ticks_ext(
                d,
                Duration::<u64, NOM, DENOM>::spec_new(w),
            );
        }
        d
    }
}

impl<const NOM: u32, const DENOM: u32> vstd::std_specs::ops::SubSpecImpl<Instant<u64, NOM, DENOM>> for Instant<u64, NOM, DENOM> {
    open spec fn obeys_sub_spec() -> bool {
        true
    }

    open spec fn sub_req(self, other: Instant<u64, NOM, DENOM>) -> bool {
        spec_instant_cmp(self.spec_ticks() as int, other.spec_ticks() as int, u64::MAX as int)
            != Ordering::Less
    }

    open spec fn sub_spec(self, other: Instant<u64, NOM, DENOM>) -> Duration<u64, NOM, DENOM> {
        Duration::<u64, NOM, DENOM>::spec_new(
            spec_wrap_sub(
                self.spec_ticks() as int,
                other.spec_ticks() as int,
                u64::MAX as int,
            ) as u64,
        )
    }
}

impl<const NOM: u32, const DENOM: u32> core::ops::Sub<Duration<u64, NOM, DENOM>> for Instant<u64, NOM, DENOM> {
    type Output = Instant<u64, NOM, DENOM>;

    /// Move backward by a same-base span; the tick count wraps around.
    fn sub(self, other: Duration<u64, NOM, DENOM>) -> (r: Instant<u64, NOM, DENOM>) {
        proof {
            use_type_invariant(self);
            crate::helpers::lemma_reduction(NOM as int, DENOM as int, NOM as int, DENOM as int);
        }
        self.checked_sub_duration(other).unwrap()
    }
}

impl<const NOM: u32, const DENOM: u32> vstd::std_specs::ops::SubSpecImpl<Duration<u64, NOM, DENOM>> for Instant<u64, NOM, DENOM> {
    open spec fn obeys_sub_spec() -> bool {
        true
    }

    open spec fn sub_req(self, other: Duration<u64, NOM, DENOM>) -> bool {
        true
    }

    open spec fn sub_spec(self, other: Duration<u64, NOM, DENOM>) -> Instant<u64, NOM, DENOM> {
        Instant::<u64, NOM, DENOM>::spec_new(
            spec_wrap_sub(
                self.spec_ticks() as int,
                other.spec_ticks() as int,
                u64::MAX as int,
            ) as u64,
        )
    }
}

impl<const NOM: u32, const DENOM: u32> core::ops::Add<Duration<u64, NOM, DENOM>> for Instant<u64, NOM, DENOM> {
    type Output = Instant<u64, NOM, DENOM>;

    /// Move forward by a same-base span; the tick count wraps around.
    fn add(self, other: Duration<u64, NOM, DENOM>) -> (r: Instant<u64, NOM, DENOM>) {
        proof {
            use_type_invariant(self);
            crate::helpers::lemma_reduction(NOM as int, DENOM as int, NOM as int, DENOM as int);
        }
        self.checked_add_duration(other).unwrap()
    }
}

impl<const NOM: u32, const DENOM: u32> vstd::std_specs::ops::AddSpecImpl<Duration<u64, NOM, DENOM>> for Instant<u64, NOM, DENOM> {
    open spec fn obeys_add_spec() -> bool {
        true
    }

    open spec fn add_req(self, other: Duration<u64, NOM, DENOM>) -> bool {
        true
    }

    open spec fn add_spec(self, other: Duration<u64, NOM, DENOM>) -> Instant<u64, NOM, DENOM> {
        Instant::<u64, NOM, DENOM>::spec_new(
            spec_wrap_add(
                self.spec_ticks() as int,
                other.spec_ticks() as int,
                u64::MAX as int,
            ) as u64,
        )
    }
}

impl<const NOM: u32, const DENOM: u32> core::ops::Sub<Duration<u32, NOM, DENOM>> for Instant<u64, NOM, DENOM> {
    type Output = Instant<u64, NOM, DENOM>;

    /// Move backward by a narrower same-base span, widened losslessly first;
    /// the tick count wraps around.
    fn sub(self, other: Duration<u32, NOM, DENOM>) -> (r: Instant<u64, NOM, DENOM>) {
        proof {
            use_type_invariant(self);
            use_type_invariant(other);
            crate::helpers::lemma_reduction(NOM as int, DENOM as int, NOM as int, DENOM as int);
        }
        self.checked_sub_duration(Duration::<u64, NOM, DENOM>::from_ticks(other.ticks() as u64))
            .unwrap()
    }
}

impl<const NOM: u32, const DENOM: u32> vstd::std_specs::ops::SubSpecImpl<Duration<u32, NOM, DENOM>> for Instant<u64, NOM, DENOM> {
    open spec fn obeys_sub_spec() -> bool {
        true
    }

    open spec fn sub_req(self, other: Duration<u32, NOM, DENOM>) -> bool {
        true
    }

    open spec fn sub_spec(self, other: Duration<u32, NOM, DENOM>) -> Instant<u64, NOM, DENOM> {
        Instant::<u64, NOM, DENOM>::spec_new(
            spec_wrap_sub(
                self.spec_ticks() as int,
                other.spec_ticks() as int,
                u64::MAX as int,
            ) as u64,
        )
    }
}

impl<const NOM: u32, const DENOM: u32> core::ops::Add<Duration<u32, NOM, DENOM>> for Instant<u64, NOM, DENOM> {
    type Output = Instant<u64, NOM, DENOM>;

    /// Move forward by a narrower same-base span, widened losslessly first;
    /// the tick count wraps around.
    fn add(self, other: Duration<u32, NOM, DENOM>) -> (r: Instant<u64, NOM, DENOM>) {
        proof {
            use_type_invariant(self);
            use_type_invariant(other);
            crate::helpers::lemma_reduction(NOM as int, DENOM as int, NOM as int, DENOM as int);
        }
        self.checked_add_duration(Duration::<u64, NOM, DENOM>::from_ticks(other.ticks() as u64))
            .unwrap()
    }
}

impl<const NOM: u32, const DENOM: u32> vstd::std_specs::ops::AddSpecImpl<Duration<u32, NOM, DENOM>> for Instant<u64, NOM, DENOM> {
    open spec fn obeys_add_spec() -> bool {
        true
    }

    open spec fn add_req(self, other: Duration<u32, NOM, DENOM>) -> bool {
        true
    }

    open spec fn add_spec(self, other: Duration<u32, NOM, DENOM>) -> Instant<u64, NOM, DENOM> {
        Instant::<u64, NOM, DENOM>::spec_new(
            spec_wrap_add(
                self.spec_ticks() as int,
                other.spec_ticks() as int,
                u64::MAX as int,
            ) as u64,
        )
    }
}

} // verus!
