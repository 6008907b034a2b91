//! Elapsed time spans: a tick count under a rational scale of seconds per
//! tick, with checked cross-base arithmetic, exact cross-base comparison, and
//! named-unit constructors and accessors.

use crate::helpers::{
    lemma_convert_exact, lemma_div_ceil_scale, lemma_reduction, spec_add_ticks, spec_cmp_ticks,
    spec_convert_ticks, spec_div_ceil, spec_eq_ticks, spec_ord, spec_rate_to_duration_numerator,
    spec_rd_times_ln, spec_sub_ticks,
};
use crate::helpers;
use crate::rate::Rate;
use core::cmp::Ordering;
use vstd::prelude::*;

verus! {

/// An elapsed amount of time: `ticks * NOM / DENOM` seconds.
///
/// The backing type `T` is `u32` or `u64`; the scale is part of the type, so
/// only explicit conversions move a span between bases.
#[derive(Debug)]
pub struct Duration<T, const NOM: u32, const DENOM: u32> {
    ticks: T,
}

impl<T, const NOM: u32, const DENOM: u32> Duration<T, NOM, DENOM> {
    /// A span's scale is valid: numerator and denominator are nonzero.
    #[verifier::type_invariant]
    pub open spec fn scale_valid(self) -> bool {
        NOM > 0 && DENOM > 0
    }

    /// The raw tick count.
    pub closed spec fn spec_ticks(self) -> T {
        self.ticks
    }

    /// The span with the given raw tick count.
    pub closed spec fn spec_new(ticks: T) -> Self {
        Duration { ticks }
    }

    /// A span is exactly its tick count.
    pub broadcast proof fn lemma_new_ticks(ticks: T)
        ensures
            (#[trigger] Self::spec_new(ticks)).spec_ticks() == ticks,
    {
    }

    /// Two spans of one type with the same tick count are the same span.
    pub proof fn lemma_ticks_ext(a: Self, b: Self)
        requires
            a.spec_ticks() == b.spec_ticks(),
        ensures
            a == b,
    {
    }
}

impl<T: Copy, const NOM: u32, const DENOM: u32> Clone for Duration<T, NOM, DENOM> {
    fn clone(&self) -> (r: Self)
        ensures
            r == *self,
    {
        *self
    }
}

impl<T: Copy, const NOM: u32, const DENOM: u32> Copy for Duration<T, NOM, DENOM> {}

impl<const NOM: u32, const DENOM: u32> Duration<u32, NOM, DENOM> {
    /// Create a span from a raw tick count.
    pub fn from_ticks(ticks: u32) -> (r: Self)
        requires
            0 < NOM,
            0 < DENOM,
        ensures
            r.spec_ticks() == ticks,
    {
        Duration { ticks }
    }

    /// The raw tick count.
    pub fn ticks(&self) -> (r: u32)
        ensures
            r == self.spec_ticks(),
    {
        self.ticks
    }

    /// Whether this span covers no time at all.
    pub fn is_zero(&self) -> (r: bool)
        ensures
            r <==> self.spec_ticks() == 0,
    {
        self.ticks == 0
    }

    /// Add a span of any base to this one, rescaling it into this base first;
    /// `None` when the rescaling multiply or the sum leaves the tick range.
    pub fn checked_add<const O_NOM: u32, const O_DENOM: u32>(
        self,
        other: Duration<u32, O_NOM, O_DENOM>,
    ) -> (r: Option<Self>)
        ensures
            ({
                let s = spec_add_ticks(
                    self.spec_ticks() as int,
                    other.spec_ticks() as int,
                    NOM as int,
                    DENOM as int,
                    O_NOM as int,
                    O_DENOM as int,
                    u32::MAX as int,
                );
                match r {
                    Some(d) => s == Some(d.spec_ticks() as int),
                    None => s is None,
                }
            }),
    {
        proof {
            use_type_invariant(self);
            use_type_invariant(other);
        }
        match helpers::add_ticks(
            self.ticks as u64,
            other.ticks as u64,
            NOM,
            DENOM,
            O_NOM,
            O_DENOM,
            u32::MAX as u64,
        ) {
            Some(t) => Some(Duration { ticks: (t) as u32 }),
            None => None,
        }
    }

    /// Subtract a span of any base from this one, rescaling it into this base
    /// first; `None` on underflow or when the rescaling multiply overflows.
    pub fn checked_sub<const O_NOM: u32, const O_DENOM: u32>(
        self,
        other: Duration<u32, O_NOM, O_DENOM>,
    ) -> (r: Option<Self>)
        ensures
            ({
                let s = spec_sub_ticks(
                    self.spec_ticks() as int,
                    other.spec_ticks() as int,
                    NOM as int,
                    DENOM as int,
                    O_NOM as int,
                    O_DENOM as int,
                    u32::MAX as int,
                );
                match r {
                    Some(d) => s == Some(d.spec_ticks() as int),
                    None => s is None,
                }
            }),
    {
        proof {
            use_type_invariant(self);
            use_type_invariant(other);
        }
        match helpers::sub_ticks(
            self.ticks as u64,
            other.ticks as u64,
            NOM,
            DENOM,
            O_NOM,
            O_DENOM,
            u32::MAX as u64,
        ) {
            Some(t) => Some(Duration { ticks: (t) as u32 }),
            None => None,
        }
    }

    /// Compare with a span of any base; the answer agrees with the exact
    /// rational comparison of the two spans, and is `None` when a rescaling
    /// multiply overflows the tick range.
    pub fn const_partial_cmp<const R_NOM: u32, const R_DENOM: u32>(
        self,
        other: Duration<u32, R_NOM, R_DENOM>,
    ) -> (r: Option<Ordering>)
        ensures
            r == spec_cmp_ticks(
                self.spec_ticks() as int,
                other.spec_ticks() as int,
                NOM as int,
                DENOM as int,
                R_NOM as int,
                R_DENOM as int,
                u32::MAX as int,
            ),
            r matches Some(o) ==> o == spec_ord(
                self.spec_ticks() * NOM * R_DENOM,
                other.spec_ticks() * R_NOM * DENOM,
            ),
    {
        proof {
            use_type_invariant(self);
            use_type_invariant(other);
        }
        helpers::cmp_ticks(
            self.ticks as u64,
            other.ticks as u64,
            NOM,
            DENOM,
            R_NOM,
            R_DENOM,
            u32::MAX as u64,
        )
    }

    /// Equality with a span of any base: `true` exactly when the spans are
    /// numerically equal and the rescaling multiplies stay in the tick range.
    pub fn const_eq<const R_NOM: u32, const R_DENOM: u32>(
        self,
        other: Duration<u32, R_NOM, R_DENOM>,
    ) -> (r: bool)
        ensures
            r == spec_eq_ticks(
                self.spec_ticks() as int,
                other.spec_ticks() as int,
                NOM as int,
                DENOM as int,
                R_NOM as int,
                R_DENOM as int,
                u32::MAX as int,
            ),
            r ==> self.spec_ticks() * NOM * R_DENOM == other.spec_ticks() * R_NOM * DENOM,
    {
        proof {
            use_type_invariant(self);
            use_type_invariant(other);
        }
        helpers::eq_ticks(
            self.ticks as u64,
            other.ticks as u64,
            NOM,
            DENOM,
            R_NOM,
            R_DENOM,
            u32::MAX as u64,
        )
    }

    /// Rebase a span of base `I_NOM / I_DENOM` onto this base; `None` when the
    /// widening multiply leaves 64 bits or the result leaves the tick range.
    pub fn const_try_from<const I_NOM: u32, const I_DENOM: u32>(
        duration: Duration<u32, I_NOM, I_DENOM>,
    ) -> (r: Option<Self>)
        requires
            0 < NOM,
            0 < DENOM,
        ensures
            ({
                let s = spec_convert_ticks(
                    duration.spec_ticks() as int,
                    I_NOM as int,
                    I_DENOM as int,
                    NOM as int,
                    DENOM as int,
                    u32::MAX as int,
                );
                match r {
                    Some(d) => s == Some(d.spec_ticks() as int),
                    None => s is None,
                }
            }),
            r matches Some(d) ==> d.spec_ticks() == (duration.spec_ticks() * I_NOM * DENOM)
                / (I_DENOM * NOM),
    {
        proof {
            use_type_invariant(duration);
        }
        match helpers::convert_ticks(
            duration.ticks as u64,
            I_NOM,
            I_DENOM,
            NOM,
            DENOM,
            u32::MAX as u64,
        ) {
            Some(t) => Some(Duration { ticks: (t) as u32 }),
            None => None,
        }
    }

    /// Rebase this span onto the base `O_NOM / O_DENOM`; `None` when the
    /// widening multiply leaves 64 bits or the result leaves the tick range.
    pub fn const_try_into<const O_NOM: u32, const O_DENOM: u32>(self) -> (r: Option<
        Duration<u32, O_NOM, O_DENOM>,
    >)
        requires
            0 < O_NOM,
            0 < O_DENOM,
        ensures
            ({
                let s = spec_convert_ticks(
                    self.spec_ticks() as int,
                    NOM as int,
                    DENOM as int,
                    O_NOM as int,
                    O_DENOM as int,
                    u32::MAX as int,
                );
                match r {
                    Some(d) => s == Some(d.spec_ticks() as int),
                    None => s is None,
                }
            }),
            r matches Some(d) ==> d.spec_ticks() == (self.spec_ticks() * NOM * O_DENOM) / (DENOM
                * O_NOM),
    {
        Duration::<u32, O_NOM, O_DENOM>::const_try_from(self)
    }

    /// Rebase this span onto the base `O_NOM / O_DENOM`, which must be exact
    /// enough to succeed: the fail-fast counterpart of `const_try_into`.
    pub fn convert<const O_NOM: u32, const O_DENOM: u32>(self) -> (r: Duration<
        u32,
        O_NOM,
        O_DENOM,
    >)
        requires
            0 < O_NOM,
            0 < O_DENOM,
            spec_convert_ticks(
                self.spec_ticks() as int,
                NOM as int,
                DENOM as int,
                O_NOM as int,
                O_DENOM as int,
                u32::MAX as int,
            ) is Some,
        ensures
            Some(r.spec_ticks() as int) == spec_convert_ticks(
                self.spec_ticks() as int,
                NOM as int,
                DENOM as int,
                O_NOM as int,
                O_DENOM as int,
                u32::MAX as int,
            ),
            r.spec_ticks() == (self.spec_ticks() * NOM * O_DENOM) / (DENOM * O_NOM),
    {
        self.const_try_into().unwrap()
    }

    /// Turn this span into the rate whose period it is; `None` on a zero tick
    /// count, whose reciprocal does not exist.
    pub fn try_into_rate<const O_NOM: u32, const O_DENOM: u32>(self) -> (r: Option<
        Rate<u32, O_NOM, O_DENOM>,
    >)
        requires
            0 < O_NOM,
            0 < O_DENOM,
        ensures
            r is Some <==> self.spec_ticks() > 0,
            r matches Some(v) ==> v.spec_raw() == spec_rate_to_duration_numerator(
                NOM as int,
                DENOM as int,
                O_NOM as int,
                O_DENOM as int,
            ) as u64 as u32 / self.spec_ticks(),
    {
        Rate::<u32, O_NOM, O_DENOM>::try_from_duration(self)
    }

    /// Turn this span into the rate whose period it is: the fail-fast
    /// counterpart of `try_into_rate`, so the tick count must be nonzero.
    pub fn into_rate<const O_NOM: u32, const O_DENOM: u32>(self) -> (r: Rate<u32, O_NOM, O_DENOM>)
        requires
            0 < O_NOM,
            0 < O_DENOM,
            self.spec_ticks() > 0,
        ensures
            r.spec_raw() == spec_rate_to_duration_numerator(
                NOM as int,
                DENOM as int,
                O_NOM as int,
                O_DENOM as int,
            ) as u64 as u32 / self.spec_ticks(),
    {
        self.try_into_rate().unwrap()
    }

    /// The span that is the period of the given rate; `None` on a zero raw
    /// value, whose reciprocal does not exist.
    pub fn try_from_rate<const I_NOM: u32, const I_DENOM: u32>(
        rate: Rate<u32, I_NOM, I_DENOM>,
    ) -> (r: Option<Self>)
        requires
            0 < NOM,
            0 < DENOM,
        ensures
            r is Some <==> rate.spec_raw() > 0,
            r matches Some(d) ==> d.spec_ticks() == spec_rate_to_duration_numerator(
                I_NOM as int,
                I_DENOM as int,
                NOM as int,
                DENOM as int,
            ) as u64 as u32 / rate.spec_raw(),
    {
        proof {
            use_type_invariant(rate);
        }
        if rate.raw() > 0 {
            let v = helpers::rate_to_duration_num(I_NOM, I_DENOM, NOM, DENOM);
            let w = #[verifier::truncate] (v as u32);
            Some(Duration { ticks: w / rate.raw() })
        } else {
            None
        }
    }

    /// The span that is the period of the given rate: the fail-fast
    /// counterpart of `try_from_rate`, so the raw value must be nonzero.
    pub fn from_rate<const I_NOM: u32, const I_DENOM: u32>(rate: Rate<u32, I_NOM, I_DENOM>) -> (r:
        Self)
        requires
            0 < NOM,
            0 < DENOM,
            rate.spec_raw() > 0,
        ensures
            r.spec_ticks() == spec_rate_to_duration_numerator(
                I_NOM as int,
                I_DENOM as int,
                NOM as int,
                DENOM as int,
            ) as u64 as u32 / rate.spec_raw(),
    {
        Self::try_from_rate(rate).unwrap()
    }

    /// The whole number of `un / ud`-second units this span covers.
    fn to_unit(&self, un: u32, ud: u32) -> (r: u32)
        requires
            0 < un,
            0 < ud,
            spec_rd_times_ln(NOM as int, DENOM as int, un as int, ud as int) * self.spec_ticks()
                <= u32::MAX,
        ensures
            r == (self.spec_ticks() * NOM * ud) / (DENOM * un),
    {
        proof {
            use_type_invariant(self);
            lemma_convert_exact(
                self.spec_ticks() as int,
                NOM as int,
                DENOM as int,
                un as int,
                ud as int,
            );
        }
        let (x, y) = helpers::reduce(NOM, DENOM, un, ud);
        let m = x * (self.ticks as u64);
        proof {
            vstd::arithmetic::mul::lemma_mul_is_commutative(x as int, self.spec_ticks() as int);
        }
        (m / y) as u32
    }

    /// The span covering the given whole number of `un / ud`-second units,
    /// rounded down to this span's tick resolution.
    fn from_unit(val: u32, un: u32, ud: u32) -> (r: Self)
        requires
            0 < NOM,
            0 < DENOM,
            0 < un,
            0 < ud,
            spec_rd_times_ln(un as int, ud as int, NOM as int, DENOM as int) * val <= u32::MAX,
        ensures
            r.spec_ticks() == (val * un * DENOM) / (ud * NOM),
    {
        proof {
            lemma_convert_exact(val as int, un as int, ud as int, NOM as int, DENOM as int);
        }
        let (x, y) = helpers::reduce(un, ud, NOM, DENOM);
        let m = x * (val as u64);
        proof {
            vstd::arithmetic::mul::lemma_mul_is_commutative(x as int, val as int);
        }
        Duration { ticks: (m / y) as u32 }
    }

    /// The span covering the given whole number of `un / ud`-second units,
    /// rounded up, so that the span is never shorter than what was asked for.
    fn from_unit_ceil(val: u32, un: u32, ud: u32) -> (r: Self)
        requires
            0 < NOM,
            0 < DENOM,
            0 < un,
            0 < ud,
            spec_rd_times_ln(un as int, ud as int, NOM as int, DENOM as int) * val <= u32::MAX,
        ensures
            r.spec_ticks() == spec_div_ceil(val * un * DENOM, ud * NOM),
    {
        proof {
            lemma_reduction(un as int, ud as int, NOM as int, DENOM as int);
        }
        let (x, y) = helpers::reduce(un, ud, NOM, DENOM);
        let m = x * (val as u64);
        let q = m / y;
        proof {
            let g = crate::helpers::spec_divisor(un as int, ud as int, NOM as int, DENOM as int);
            lemma_div_ceil_scale(m as int, y as int, g);
            assert(g * m == val * un * DENOM && g * y == ud * NOM) by (nonlinear_arith)
                requires
                    m == x * val,
                    x * g == (DENOM as int) * un,
                    y * g == (ud as int) * NOM,
            ;
            vstd::arithmetic::div_mod::lemma_fundamental_div_mod(m as int, y as int);
            assert(q <= m) by (nonlinear_arith)
                requires
                    m == y * q + m % y,
                    y >= 1,
                    0 <= m % y,
                    0 <= q,
            ;
            if m % y != 0 {
                assert(y >= 2);
                assert(q + 1 <= u32::MAX) by (nonlinear_arith)
                    requires
                        m == y * q + m % y,
                        y >= 2,
                        0 <= m % y,
                        0 <= q,
                        m <= u32::MAX,
                ;
            }
        }
        let t = if m % y == 0 {
            q
        } else {
            q + 1
        };
        Duration { ticks: (t) as u32 }
    }

    /// The whole number of nanoseconds this span covers.
    pub fn to_nanos(&self) -> (r: u32)
        requires
            spec_rd_times_ln(NOM as int, DENOM as int, 1, 1_000_000_000) * self.spec_ticks() <= u32::MAX,
        ensures
            r == (self.spec_ticks() * NOM * 1_000_000_000) / (DENOM * 1),
    {
        self.to_unit(1, 1_000_000_000)
    }

    /// The span covering the given number of nanoseconds, rounded down to this
    /// span's tick resolution.
    pub fn nanos(val: u32) -> (r: Self)
        requires
            0 < NOM,
            0 < DENOM,
            spec_rd_times_ln(1, 1_000_000_000, NOM as int, DENOM as int) * val <= u32::MAX,
        ensures
            r.spec_ticks() == (val * 1 * DENOM) / (1_000_000_000 * NOM),
    {
        Self::from_unit(val, 1, 1_000_000_000)
    }

    /// The span covering the given number of nanoseconds, rounded up, so that it is
    /// never shorter than what was asked for.
    pub fn nanos_at_least(val: u32) -> (r: Self)
        requires
            0 < NOM,
            0 < DENOM,
            spec_rd_times_ln(1, 1_000_000_000, NOM as int, DENOM as int) * val <= u32::MAX,
        ensures
            r.spec_ticks() == spec_div_ceil(val * 1 * DENOM, 1_000_000_000 * NOM),
    {
        Self::from_unit_ceil(val, 1, 1_000_000_000)
    }

    /// The whole number of microseconds this span covers.
    pub fn to_micros(&self) -> (r: u32)
        requires
            spec_rd_times_ln(NOM as int, DENOM as int, 1, 1_000_000) * self.spec_ticks() <= u32::MAX,
        ensures
            r == (self.spec_ticks() * NOM * 1_000_000) / (DENOM * 1),
    {
        self.to_unit(1, 1_000_000)
    }

    /// The span covering the given number of microseconds, rounded down to this
    /// span's tick resolution.
    pub fn micros(val: u32) -> (r: Self)
        requires
            0 < NOM,
            0 < DENOM,
            spec_rd_times_ln(1, 1_000_000, NOM as int, DENOM as int) * val <= u32::MAX,
        ensures
            r.spec_ticks() == (val * 1 * DENOM) / (1_000_000 * NOM),
    {
        Self::from_unit(val, 1, 1_000_000)
    }

    /// The span covering the given number of microseconds, rounded up, so that it is
    /// never shorter than what was asked for.
    pub fn micros_at_least(val: u32) -> (r: Self)
        requires
            0 < NOM,
            0 < DENOM,
            spec_rd_times_ln(1, 1_000_000, NOM as int, DENOM as int) * val <= u32::MAX,
        ensures
            r.spec_ticks() == spec_div_ceil(val * 1 * DENOM, 1_000_000 * NOM),
    {
        Self::from_unit_ceil(val, 1, 1_000_000)
    }

    /// The whole number of milliseconds this span covers.
    pub fn to_millis(&self) -> (r: u32)
        requires
            spec_rd_times_ln(NOM as int, DENOM as int, 1, 1_000) * self.spec_ticks() <= u32::MAX,
        ensures
            r == (self.spec_ticks() * NOM * 1_000) / (DENOM * 1),
    {
        self.to_unit(1, 1_000)
    }

    /// The span covering the given number of milliseconds, rounded down to this
    /// span's tick resolution.
    pub fn millis(val: u32) -> (r: Self)
        requires
            0 < NOM,
            0 < DENOM,
            spec_rd_times_ln(1, 1_000, NOM as int, DENOM as int) * val <= u32::MAX,
        ensures
            r.spec_ticks() == (val * 1 * DENOM) / (1_000 * NOM),
    {
        Self::from_unit(val, 1, 1_000)
    }

    /// The span covering the given number of milliseconds, rounded up, so that it is
    /// never shorter than what was asked for.
    pub fn millis_at_least(val: u32) -> (r: Self)
        requires
            0 < NOM,
            0 < DENOM,
            spec_rd_times_ln(1, 1_000, NOM as int, DENOM as int) * val <= u32::MAX,
        ensures
            r.spec_ticks() == spec_div_ceil(val * 1 * DENOM, 1_000 * NOM),
    {
        Self::from_unit_ceil(val, 1, 1_000)
    }

    /// The whole number of seconds this span covers.
    pub fn to_secs(&self) -> (r: u32)
        requires
            spec_rd_times_ln(NOM as int, DENOM as int, 1, 1) * self.spec_ticks() <= u32::MAX,
        ensures
            r == (self.spec_ticks() * NOM * 1) / (DENOM * 1),
    {
        self.to_unit(1, 1)
    }

    /// The span covering the given number of seconds, rounded down to this
    /// span's tick resolution.
    pub fn secs(val: u32) -> (r: Self)
        requires
            0 < NOM,
            0 < DENOM,
            spec_rd_times_ln(1, 1, NOM as int, DENOM as int) * val <= u32::MAX,
        ensures
            r.spec_ticks() == (val * 1 * DENOM) / (1 * NOM),
    {
        Self::from_unit(val, 1, 1)
    }

    /// The span covering the given number of seconds, rounded up, so that it is
    /// never shorter than what was asked for.
    pub fn secs_at_least(val: u32) -> (r: Self)
        requires
            0 < NOM,
            0 < DENOM,
            spec_rd_times_ln(1, 1, NOM as int, DENOM as int) * val <= u32::MAX,
        ensures
            r.spec_ticks() == spec_div_ceil(val * 1 * DENOM, 1 * NOM),
    {
        Self::from_unit_ceil(val, 1, 1)
    }

    /// The whole number of minutes this span covers.
    pub fn to_minutes(&self) -> (r: u32)
        requires
            spec_rd_times_ln(NOM as int, DENOM as int, 60, 1) * self.spec_ticks() <= u32::MAX,
        ensures
            r == (self.spec_ticks() * NOM * 1) / (DENOM * 60),
    {
        self.to_unit(60, 1)
    }

    /// The span covering the given number of minutes, rounded down to this
    /// span's tick resolution.
    pub fn minutes(val: u32) -> (r: Self)
        requires
            0 < NOM,
            0 < DENOM,
            spec_rd_times_ln(60, 1, NOM as int, DENOM as int) * val <= u32::MAX,
        ensures
            r.spec_ticks() == (val * 60 * DENOM) / (1 * NOM),
    {
        Self::from_unit(val, 60, 1)
    }

    /// The span covering the given number of minutes, rounded up, so that it is
    /// never shorter than what was asked for.
    pub fn minutes_at_least(val: u32) -> (r: Self)
        requires
            0 < NOM,
            0 < DENOM,
            spec_rd_times_ln(60, 1, NOM as int, DENOM as int) * val <= u32::MAX,
        ensures
            r.spec_ticks() == spec_div_ceil(val * 60 * DENOM, 1 * NOM),
    {
        Self::from_unit_ceil(val, 60, 1)
    }

    /// The whole number of hours this span covers.
    pub fn to_hours(&self) -> (r: u32)
        requires
            spec_rd_times_ln(NOM as int, DENOM as int, 3_600, 1) * self.spec_ticks() <= u32::MAX,
        ensures
            r == (self.spec_ticks() * NOM * 1) / (DENOM * 3_600),
    {
        self.to_unit(3_600, 1)
    }

    /// The span covering the given number of hours, rounded down to this
    /// span's tick resolution.
    pub fn hours(val: u32) -> (r: Self)
        requires
            0 < NOM,
            0 < DENOM,
            spec_rd_times_ln(3_600, 1, NOM as int, DENOM as int) * val <= u32::MAX,
        ensures
            r.spec_ticks() == (val * 3_600 * DENOM) / (1 * NOM),
    {
        Self::from_unit(val, 3_600, 1)
    }

    /// The span covering the given number of hours, rounded up, so that it is
    /// never shorter than what was asked for.
    pub fn hours_at_least(val: u32) -> (r: Self)
        requires
            0 < NOM,
            0 < DENOM,
            spec_rd_times_ln(3_600, 1, NOM as int, DENOM as int) * val <= u32::MAX,
        ensures
            r.spec_ticks() == spec_div_ceil(val * 3_600 * DENOM, 1 * NOM),
    {
        Self::from_unit_ceil(val, 3_600, 1)
    }

    /// The period of a hertz rate with the given raw value, which must be
    /// nonzero.
    #[allow(non_snake_case)]
    pub fn Hz(val: u32) -> (r: Self)
        requires
            0 < NOM,
            0 < DENOM,
            val > 0,
        ensures
            r.spec_ticks() == spec_rate_to_duration_numerator(
                1,
                1,
                NOM as int,
                DENOM as int,
            ) as u64 as u32 / val,
    {
        Self::from_rate(Rate::<u32, 1, 1>::from_raw(val))
    }

    /// The period of a kilohertz rate with the given raw value, which must be
    /// nonzero.
    #[allow(non_snake_case)]
    pub fn kHz(val: u32) -> (r: Self)
        requires
            0 < NOM,
            0 < DENOM,
            val > 0,
        ensures
            r.spec_ticks() == spec_rate_to_duration_numerator(
                1_000,
                1,
                NOM as int,
                DENOM as int,
            ) as u64 as u32 / val,
    {
        Self::from_rate(Rate::<u32, 1_000, 1>::from_raw(val))
    }

    /// The period of a megahertz rate with the given raw value, which must be
    /// nonzero.
    #[allow(non_snake_case)]
    pub fn MHz(val: u32) -> (r: Self)
        requires
            0 < NOM,
            0 < DENOM,
            val > 0,
        ensures
            r.spec_ticks() == spec_rate_to_duration_numerator(
                1_000_000,
                1,
                NOM as int,
                DENOM as int,
            ) as u64 as u32 / val,
    {
        Self::from_rate(Rate::<u32, 1_000_000, 1>::from_raw(val))
    }
}

impl<const NOM: u32, const DENOM: u32> Duration<u64, NOM, DENOM> {
    /// Create a span from a raw tick count.
    pub fn from_ticks(ticks: u64) -> (r: Self)
        requires
            0 < NOM,
            0 < DENOM,
        ensures
            r.spec_ticks() == ticks,
    {
        Duration { ticks }
    }

    /// The raw tick count.
    pub fn ticks(&self) -> (r: u64)
        ensures
            r == self.spec_ticks(),
    {
        self.ticks
    }

    /// Whether this span covers no time at all.
    pub fn is_zero(&self) -> (r: bool)
        ensures
            r <==> self.spec_ticks() == 0,
    {
        self.ticks == 0
    }

    /// Add a span of any base to this one, rescaling it into this base first;
    /// `None` when the rescaling multiply or the sum leaves the tick range.
    pub fn checked_add<const O_NOM: u32, const O_DENOM: u32>(
        self,
        other: Duration<u64, O_NOM, O_DENOM>,
    ) -> (r: Option<Self>)
        ensures
            ({
                let s = spec_add_ticks(
                    self.spec_ticks() as int,
                    other.spec_ticks() as int,
                    NOM as int,
                    DENOM as int,
                    O_NOM as int,
                    O_DENOM as int,
                    u64::MAX as int,
                );
                match r {
                    Some(d) => s == Some(d.spec_ticks() as int),
                    None => s is None,
                }
            }),
    {
        proof {
            use_type_invariant(self);
            use_type_invariant(other);
        }
        match helpers::add_ticks(
            self.ticks,
            other.ticks,
            NOM,
            DENOM,
            O_NOM,
            O_DENOM,
            u64::MAX,
        ) {
            Some(t) => Some(Duration { ticks: t }),
            None => None,
        }
    }

    /// Subtract a span of any base from this one, rescaling it into this base
    /// first; `None` on underflow or when the rescaling multiply overflows.
    pub fn checked_sub<const O_NOM: u32, const O_DENOM: u32>(
        self,
        other: Duration<u64, O_NOM, O_DENOM>,
    ) -> (r: Option<Self>)
        ensures
            ({
                let s = spec_sub_ticks(
                    self.spec_ticks() as int,
                    other.spec_ticks() as int,
                    NOM as int,
                    DENOM as int,
                    O_NOM as int,
                    O_DENOM as int,
                    u64::MAX as int,
                );
                match r {
                    Some(d) => s == Some(d.spec_ticks() as int),
                    None => s is None,
                }
            }),
    {
        proof {
            use_type_invariant(self);
            use_type_invariant(other);
        }
        match helpers::sub_ticks(
            self.ticks,
            other.ticks,
            NOM,
            DENOM,
            O_NOM,
            O_DENOM,
            u64::MAX,
        ) {
            Some(t) => Some(Duration { ticks: t }),
            None => None,
        }
    }

    /// Compare with a span of any base; the answer agrees with the exact
    /// rational comparison of the two spans, and is `None` when a rescaling
    /// multiply overflows the tick range.
    pub fn const_partial_cmp<const R_NOM: u32, const R_DENOM: u32>(
        self,
        other: Duration<u64, R_NOM, R_DENOM>,
    ) -> (r: Option<Ordering>)
        ensures
            r == spec_cmp_ticks(
                self.spec_ticks() as int,
                other.spec_ticks() as int,
                NOM as int,
                DENOM as int,
                R_NOM as int,
                R_DENOM as int,
                u64::MAX as int,
            ),
            r matches Some(o) ==> o == spec_ord(
                self.spec_ticks() * NOM * R_DENOM,
                other.spec_ticks() * R_NOM * DENOM,
            ),
    {
        proof {
            use_type_invariant(self);
            use_type_invariant(other);
        }
        helpers::cmp_ticks(
            self.ticks,
            other.ticks,
            NOM,
            DENOM,
            R_NOM,
            R_DENOM,
            u64::MAX,
        )
    }

    /// Equality with a span of any base: `true` exactly when the spans are
    /// numerically equal and the rescaling multiplies stay in the tick range.
    pub fn const_eq<const R_NOM: u32, const R_DENOM: u32>(
        self,
        other: Duration<u64, R_NOM, R_DENOM>,
    ) -> (r: bool)
        ensures
            r == spec_eq_ticks(
                self.spec_ticks() as int,
                other.spec_ticks() as int,
                NOM as int,
                DENOM as int,
                R_NOM as int,
                R_DENOM as int,
                u64::MAX as int,
            ),
            r ==> self.spec_ticks() * NOM * R_DENOM == other.spec_ticks() * R_NOM * DENOM,
    {
        proof {
            use_type_invariant(self);
            use_type_invariant(other);
        }
        helpers::eq_ticks(
            self.ticks,
            other.ticks,
            NOM,
            DENOM,
            R_NOM,
            R_DENOM,
            u64::MAX,
        )
    }

    /// Rebase a span of base `I_NOM / I_DENOM` onto this base; `None` when the
    /// widening multiply leaves 64 bits or the result leaves the tick range.
    pub fn const_try_from<const I_NOM: u32, const I_DENOM: u32>(
        duration: Duration<u64, I_NOM, I_DENOM>,
    ) -> (r: Option<Self>)
        requires
            0 < NOM,
            0 < DENOM,
        ensures
            ({
                let s = spec_convert_ticks(
                    duration.spec_ticks() as int,
                    I_NOM as int,
                    I_DENOM as int,
                    NOM as int,
                    DENOM as int,
                    u64::MAX as int,
                );
                match r {
                    Some(d) => s == Some(d.spec_ticks() as int),
                    None => s is None,
                }
            }),
            r matches Some(d) ==> d.spec_ticks() == (duration.spec_ticks() * I_NOM * DENOM)
                / (I_DENOM * NOM),
    {
        proof {
            use_type_invariant(duration);
        }
        match helpers::convert_ticks(
            duration.ticks,
            I_NOM,
            I_DENOM,
            NOM,
            DENOM,
            u64::MAX,
        ) {
            Some(t) => Some(Duration { ticks: t }),
            None => None,
        }
    }

    /// Rebase this span onto the base `O_NOM / O_DENOM`; `None` when the
    /// widening multiply leaves 64 bits or the result leaves the tick range.
    pub fn const_try_into<const O_NOM: u32, const O_DENOM: u32>(self) -> (r: Option<
        Duration<u64, O_NOM, O_DENOM>,
    >)
        requires
            0 < O_NOM,
            0 < O_DENOM,
        ensures
            ({
                let s = spec_convert_ticks(
                    self.spec_ticks() as int,
                    NOM as int,
                    DENOM as int,
                    O_NOM as int,
                    O_DENOM as int,
                    u64::MAX as int,
                );
                match r {
                    Some(d) => s == Some(d.spec_ticks() as int),
                    None => s is None,
                }
            }),
            r matches Some(d) ==> d.spec_ticks() == (self.spec_ticks() * NOM * O_DENOM) / (DENOM
                * O_NOM),
    {
        Duration::<u64, O_NOM, O_DENOM>::const_try_from(self)
    }

    /// Rebase this span onto the base `O_NOM / O_DENOM`, which must be exact
    /// enough to succeed: the fail-fast counterpart of `const_try_into`.
    pub fn convert<const O_NOM: u32, const O_DENOM: u32>(self) -> (r: Duration<
        u64,
        O_NOM,
        O_DENOM,
    >)
        requires
            0 < O_NOM,
            0 < O_DENOM,
            spec_convert_ticks(
                self.spec_ticks() as int,
                NOM as int,
                DENOM as int,
                O_NOM as int,
                O_DENOM as int,
                u64::MAX as int,
            ) is Some,
        ensures
            Some(r.spec_ticks() as int) == spec_convert_ticks(
                self.spec_ticks() as int,
                NOM as int,
                DENOM as int,
                O_NOM as int,
                O_DENOM as int,
                u64::MAX as int,
            ),
            r.spec_ticks() == (self.spec_ticks() * NOM * O_DENOM) / (DENOM * O_NOM),
    {
        self.const_try_into().unwrap()
    }

    /// Turn this span into the rate whose period it is; `None` on a zero tick
    /// count, whose reciprocal does not exist.
    pub fn try_into_rate<const O_NOM: u32, const O_DENOM: u32>(self) -> (r: Option<
        Rate<u64, O_NOM, O_DENOM>,
    >)
        requires
            0 < O_NOM,
            0 < O_DENOM,
        ensures
            r is Some <==> self.spec_ticks() > 0,
            r matches Some(v) ==> v.spec_raw() == spec_rate_to_duration_numerator(
                NOM as int,
                DENOM as int,
                O_NOM as int,
                O_DENOM as int,
            ) as u64 / self.spec_ticks(),
    {
        Rate::<u64, O_NOM, O_DENOM>::try_from_duration(self)
    }

    /// Turn this span into the rate whose period it is: the fail-fast
    /// counterpart of `try_into_rate`, so the tick count must be nonzero.
    pub fn into_rate<const O_NOM: u32, const O_DENOM: u32>(self) -> (r: Rate<u64, O_NOM, O_DENOM>)
        requires
            0 < O_NOM,
            0 < O_DENOM,
            self.spec_ticks() > 0,
        ensures
            r.spec_raw() == spec_rate_to_duration_numerator(
                NOM as int,
                DENOM as int,
                O_NOM as int,
                O_DENOM as int,
            ) as u64 / self.spec_ticks(),
    {
        self.try_into_rate().unwrap()
    }

    /// The span that is the period of the given rate; `None` on a zero raw
    /// value, whose reciprocal does not exist.
    pub fn try_from_rate<const I_NOM: u32, const I_DENOM: u32>(
        rate: Rate<u64, I_NOM, I_DENOM>,
    ) -> (r: Option<Self>)
        requires
            0 < NOM,
            0 < DENOM,
        ensures
            r is Some <==> rate.spec_raw() > 0,
            r matches Some(d) ==> d.spec_ticks() == spec_rate_to_duration_numerator(
                I_NOM as int,
                I_DENOM as int,
                NOM as int,
                DENOM as int,
            ) as u64 / rate.spec_raw(),
    {
        proof {
            use_type_invariant(rate);
        }
        if rate.raw() > 0 {
            let v = helpers::rate_to_duration_num(I_NOM, I_DENOM, NOM, DENOM);
            Some(Duration { ticks: v / rate.raw() })
        } else {
            None
        }
    }

    /// The span that is the period of the given rate: the fail-fast
    /// counterpart of `try_from_rate`, so the raw value must be nonzero.
    pub fn from_rate<const I_NOM: u32, const I_DENOM: u32>(rate: Rate<u64, I_NOM, I_DENOM>) -> (r:
        Self)
        requires
            0 < NOM,
            0 < DENOM,
            rate.spec_raw() > 0,
        ensures
            r.spec_ticks() == spec_rate_to_duration_numerator(
                I_NOM as int,
                I_DENOM as int,
                NOM as int,
                DENOM as int,
            ) as u64 / rate.spec_raw(),
    {
        Self::try_from_rate(rate).unwrap()
    }

    /// The whole number of `un / ud`-second units this span covers.
    fn to_unit(&self, un: u32, ud: u32) -> (r: u64)
        requires
            0 < un,
            0 < ud,
            spec_rd_times_ln(NOM as int, DENOM as int, un as int, ud as int) * self.spec_ticks()
                <= u64::MAX,
        ensures
            r == (self.spec_ticks() * NOM * ud) / (DENOM * un),
    {
        proof {
            use_type_invariant(self);
            lemma_convert_exact(
                self.spec_ticks() as int,
                NOM as int,
                DENOM as int,
                un as int,
                ud as int,
            );
        }
        let (x, y) = helpers::reduce(NOM, DENOM, un, ud);
        let m = x * self.ticks;
        proof {
            vstd::arithmetic::mul::lemma_mul_is_commutative(x as int, self.spec_ticks() as int);
        }
        m / y
    }

    /// The span covering the given whole number of `un / ud`-second units,
    /// rounded down to this span's tick resolution.
    fn from_unit(val: u64, un: u32, ud: u32) -> (r: Self)
        requires
            0 < NOM,
            0 < DENOM,
            0 < un,
            0 < ud,
            spec_rd_times_ln(un as int, ud as int, NOM as int, DENOM as int) * val <= u64::MAX,
        ensures
            r.spec_ticks() == (val * un * DENOM) / (ud * NOM),
    {
        proof {
            lemma_convert_exact(val as int, un as int, ud as int, NOM as int, DENOM as int);
        }
        let (x, y) = helpers::reduce(un, ud, NOM, DENOM);
        let m = x * val;
        proof {
            vstd::arithmetic::mul::lemma_mul_is_commutative(x as int, val as int);
        }
        Duration { ticks: m / y }
    }

    /// The span covering the given whole number of `un / ud`-second units,
    /// rounded up, so that the span is never shorter than what was asked for.
    fn from_unit_ceil(val: u64, un: u32, ud: u32) -> (r: Self)
        requires
            0 < NOM,
            0 < DENOM,
            0 < un,
            0 < ud,
            spec_rd_times_ln(un as int, ud as int, NOM as int, DENOM as int) * val <= u64::MAX,
        ensures
            r.spec_ticks() == spec_div_ceil(val * un * DENOM, ud * NOM),
    {
        proof {
            lemma_reduction(un as int, ud as int, NOM as int, DENOM as int);
        }
        let (x, y) = helpers::reduce(un, ud, NOM, DENOM);
        let m = x * val;
        let q = m / y;
        proof {
            let g = crate::helpers::spec_divisor(un as int, ud as int, NOM as int, DENOM as int);
            lemma_div_ceil_scale(m as int, y as int, g);
            assert(g * m == val * un * DENOM && g * y == ud * NOM) by (nonlinear_arith)
                requires
                    m == x * val,
                    x * g == (DENOM as int) * un,
                    y * g == (ud as int) * NOM,
            ;
            vstd::arithmetic::div_mod::lemma_fundamental_div_mod(m as int, y as int);
            assert(q <= m) by (nonlinear_arith)
                requires
                    m == y * q + m % y,
                    y >= 1,
                    0 <= m % y,
                    0 <= q,
            ;
            if m % y != 0 {
                assert(y >= 2);
                assert(q + 1 <= u64::MAX) by (nonlinear_arith)
                    requires
                        m == y * q + m % y,
                        y >= 2,
                        0 <= m % y,
                        0 <= q,
                        m <= u64::MAX,
                ;
            }
        }
        let t = if m % y == 0 {
            q
        } else {
            q + 1
        };
        Duration { ticks: t }
    }

    /// The whole number of nanoseconds this span covers.
    pub fn to_nanos(&self) -> (r: u64)
        requires
            spec_rd_times_ln(NOM as int, DENOM as int, 1, 1_000_000_000) * self.spec_ticks() <= u64::MAX,
        ensures
            r == (self.spec_ticks() * NOM * 1_000_000_000) / (DENOM * 1),
    {
        self.to_unit(1, 1_000_000_000)
    }

    /// The span covering the given number of nanoseconds, rounded down to this
    /// span's tick resolution.
    pub fn nanos(val: u64) -> (r: Self)
        requires
            0 < NOM,
            0 < DENOM,
            spec_rd_times_ln(1, 1_000_000_000, NOM as int, DENOM as int) * val <= u64::MAX,
        ensures
            r.spec_ticks() == (val * 1 * DENOM) / (1_000_000_000 * NOM),
    {
        Self::from_unit(val, 1, 1_000_000_000)
    }

    /// The span covering the given number of nanoseconds, rounded up, so that it is
    /// never shorter than what was asked for.
    pub fn nanos_at_least(val: u64) -> (r: Self)
        requires
            0 < NOM,
            0 < DENOM,
            spec_rd_times_ln(1, 1_000_000_000, NOM as int, DENOM as int) * val <= u64::MAX,
        ensures
            r.spec_ticks() == spec_div_ceil(val * 1 * DENOM, 1_000_000_000 * NOM),
    {
        Self::from_unit_ceil(val, 1, 1_000_000_000)
    }

    /// The whole number of microseconds this span covers.
    pub fn to_micros(&self) -> (r: u64)
        requires
            spec_rd_times_ln(NOM as int, DENOM as int, 1, 1_000_000) * self.spec_ticks() <= u64::MAX,
        ensures
            r == (self.spec_ticks() * NOM * 1_000_000) / (DENOM * 1),
    {
        self.to_unit(1, 1_000_000)
    }

    /// The span covering the given number of microseconds, rounded down to this
    /// span's tick resolution.
    pub fn micros(val: u64) -> (r: Self)
        requires
            0 < NOM,
            0 < DENOM,
            spec_rd_times_ln(1, 1_000_000, NOM as int, DENOM as int) * val <= u64::MAX,
        ensures
            r.spec_ticks() == (val * 1 * DENOM) / (1_000_000 * NOM),
    {
        Self::from_unit(val, 1, 1_000_000)
    }

    /// The span covering the given number of microseconds, rounded up, so that it is
    /// never shorter than what was asked for.
    pub fn micros_at_least(val: u64) -> (r: Self)
        requires
            0 < NOM,
            0 < DENOM,
            spec_rd_times_ln(1, 1_000_000, NOM as int, DENOM as int) * val <= u64::MAX,
        ensures
            r.spec_ticks() == spec_div_ceil(val * 1 * DENOM, 1_000_000 * NOM),
    {
        Self::from_unit_ceil(val, 1, 1_000_000)
    }

    /// The whole number of milliseconds this span covers.
    pub fn to_millis(&self) -> (r: u64)
        requires
            spec_rd_times_ln(NOM as int, DENOM as int, 1, 1_000) * self.spec_ticks() <= u64::MAX,
        ensures
            r == (self.spec_ticks() * NOM * 1_000) / (DENOM * 1),
    {
        self.to_unit(1, 1_000)
    }

    /// The span covering the given number of milliseconds, rounded down to this
    /// span's tick resolution.
    pub fn millis(val: u64) -> (r: Self)
        requires
            0 < NOM,
            0 < DENOM,
            spec_rd_times_ln(1, 1_000, NOM as int, DENOM as int) * val <= u64::MAX,
        ensures
            r.spec_ticks() == (val * 1 * DENOM) / (1_000 * NOM),
    {
        Self::from_unit(val, 1, 1_000)
    }

    /// The span covering the given number of milliseconds, rounded up, so that it is
    /// never shorter than what was asked for.
    pub fn millis_at_least(val: u64) -> (r: Self)
        requires
            0 < NOM,
            0 < DENOM,
            spec_rd_times_ln(1, 1_000, NOM as int, DENOM as int) * val <= u64::MAX,
        ensures
            r.spec_ticks() == spec_div_ceil(val * 1 * DENOM, 1_000 * NOM),
    {
        Self::from_unit_ceil(val, 1, 1_000)
    }

    /// The whole number of seconds this span covers.
    pub fn to_secs(&self) -> (r: u64)
        requires
            spec_rd_times_ln(NOM as int, DENOM as int, 1, 1) * self.spec_ticks() <= u64::MAX,
        ensures
            r == (self.spec_ticks() * NOM * 1) / (DENOM * 1),
    {
        self.to_unit(1, 1)
    }

    /// The span covering the given number of seconds, rounded down to this
    /// span's tick resolution.
    pub fn secs(val: u64) -> (r: Self)
        requires
            0 < NOM,
            0 < DENOM,
            spec_rd_times_ln(1, 1, NOM as int, DENOM as int) * val <= u64::MAX,
        ensures
            r.spec_ticks() == (val * 1 * DENOM) / (1 * NOM),
    {
        Self::from_unit(val, 1, 1)
    }

    /// The span covering the given number of seconds, rounded up, so that it is
    /// never shorter than what was asked for.
    pub fn secs_at_least(val: u64) -> (r: Self)
        requires
            0 < NOM,
            0 < DENOM,
            spec_rd_times_ln(1, 1, NOM as int, DENOM as int) * val <= u64::MAX,
        ensures
            r.spec_ticks() == spec_div_ceil(val * 1 * DENOM, 1 * NOM),
    {
        Self::from_unit_ceil(val, 1, 1)
    }

    /// The whole number of minutes this span covers.
    pub fn to_minutes(&self) -> (r: u64)
        requires
            spec_rd_times_ln(NOM as int, DENOM as int, 60, 1) * self.spec_ticks() <= u64::MAX,
        ensures
            r == (self.spec_ticks() * NOM * 1) / (DENOM * 60),
    {
        self.to_unit(60, 1)
    }

    /// The span covering the given number of minutes, rounded down to this
    /// span's tick resolution.
    pub fn minutes(val: u64) -> (r: Self)
        requires
            0 < NOM,
            0 < DENOM,
            spec_rd_times_ln(60, 1, NOM as int, DENOM as int) * val <= u64::MAX,
        ensures
            r.spec_ticks() == (val * 60 * DENOM) / (1 * NOM),
    {
        Self::from_unit(val, 60, 1)
    }

    /// The span covering the given number of minutes, rounded up, so that it is
    /// never shorter than what was asked for.
    pub fn minutes_at_least(val: u64) -> (r: Self)
        requires
            0 < NOM,
            0 < DENOM,
            spec_rd_times_ln(60, 1, NOM as int, DENOM as int) * val <= u64::MAX,
        ensures
            r.spec_ticks() == spec_div_ceil(val * 60 * DENOM, 1 * NOM),
    {
        Self::from_unit_ceil(val, 60, 1)
    }

    /// The whole number of hours this span covers.
    pub fn to_hours(&self) -> (r: u64)
        requires
            spec_rd_times_ln(NOM as int, DENOM as int, 3_600, 1) * self.spec_ticks() <= u64::MAX,
        ensures
            r == (self.spec_ticks() * NOM * 1) / (DENOM * 3_600),
    {
        self.to_unit(3_600, 1)
    }

    /// The span covering the given number of hours, rounded down to this
    /// span's tick resolution.
    pub fn hours(val: u64) -> (r: Self)
        requires
            0 < NOM,
            0 < DENOM,
            spec_rd_times_ln(3_600, 1, NOM as int, DENOM as int) * val <= u64::MAX,
        ensures
            r.spec_ticks() == (val * 3_600 * DENOM) / (1 * NOM),
    {
        Self::from_unit(val, 3_600, 1)
    }

    /// The span covering the given number of hours, rounded up, so that it is
    /// never shorter than what was asked for.
    pub fn hours_at_least(val: u64) -> (r: Self)
        requires
            0 < NOM,
            0 < DENOM,
            spec_rd_times_ln(3_600, 1, NOM as int, DENOM as int) * val <= u64::MAX,
        ensures
            r.spec_ticks() == spec_div_ceil(val * 3_600 * DENOM, 1 * NOM),
    {
        Self::from_unit_ceil(val, 3_600, 1)
    }

    /// The period of a hertz rate with the given raw value, which must be
    /// nonzero.
    #[allow(non_snake_case)]
    pub fn Hz(val: u64) -> (r: Self)
        requires
            0 < NOM,
            0 < DENOM,
            val > 0,
        ensures
            r.spec_ticks() == spec_rate_to_duration_numerator(
                1,
                1,
                NOM as int,
                DENOM as int,
            ) as u64 / val,
    {
        Self::from_rate(Rate::<u64, 1, 1>::from_raw(val))
    }

    /// The period of a kilohertz rate with the given raw value, which must be
    /// nonzero.
    #[allow(non_snake_case)]
    pub fn kHz(val: u64) -> (r: Self)
        requires
            0 < NOM,
            0 < DENOM,
            val > 0,
        ensures
            r.spec_ticks() == spec_rate_to_duration_numerator(
                1_000,
                1,
                NOM as int,
                DENOM as int,
            ) as u64 / val,
    {
        Self::from_rate(Rate::<u64, 1_000, 1>::from_raw(val))
    }

    /// The period of a megahertz rate with the given raw value, which must be
    /// nonzero.
    #[allow(non_snake_case)]
    pub fn MHz(val: u64) -> (r: Self)
        requires
            0 < NOM,
            0 < DENOM,
            val > 0,
        ensures
            r.spec_ticks() == spec_rate_to_duration_numerator(
                1_000_000,
                1,
                NOM as int,
                DENOM as int,
            ) as u64 / val,
    {
        Self::from_rate(Rate::<u64, 1_000_000, 1>::from_raw(val))
    }
}

impl<const L_NOM: u32, const L_DENOM: u32, const R_NOM: u32, const R_DENOM: u32> PartialEq<Duration<u32, R_NOM, R_DENOM>> for Duration<u32, L_NOM, L_DENOM> {
    fn eq(&self, other: &Duration<u32, R_NOM, R_DENOM>) -> (r: bool) {
        self.const_eq(*other)
    }
}

impl<const L_NOM: u32, const L_DENOM: u32, const R_NOM: u32, const R_DENOM: u32> vstd::std_specs::cmp::PartialEqSpecImpl<Duration<u32, R_NOM, R_DENOM>> for Duration<u32, L_NOM, L_DENOM> {
    open spec fn obeys_eq_spec() -> bool {
        true
    }

    open spec fn eq_spec(&self, other: &Duration<u32, R_NOM, R_DENOM>) -> bool {
        spec_eq_ticks(
            self.spec_ticks() as int,
            other.spec_ticks() as int,
            L_NOM as int,
            L_DENOM as int,
            R_NOM as int,
            R_DENOM as int,
            u32::MAX as int,
        )
    }
}

impl<const L_NOM: u32, const L_DENOM: u32, const R_NOM: u32, const R_DENOM: u32> PartialOrd<Duration<u32, R_NOM, R_DENOM>> for Duration<u32, L_NOM, L_DENOM> {
    fn partial_cmp(&self, other: &Duration<u32, R_NOM, R_DENOM>) -> (r: Option<Ordering>) {
        self.const_partial_cmp(*other)
    }
}

impl<const L_NOM: u32, const L_DENOM: u32, const R_NOM: u32, const R_DENOM: u32> vstd::std_specs::cmp::PartialOrdSpecImpl<Duration<u32, R_NOM, R_DENOM>> for Duration<u32, L_NOM, L_DENOM> {
    open spec fn obeys_partial_cmp_spec() -> bool {
        true
    }

    open spec fn partial_cmp_spec(&self, other: &Duration<u32, R_NOM, R_DENOM>) -> Option<Ordering> {
        spec_cmp_ticks(
            self.spec_ticks() as int,
            other.spec_ticks() as int,
            L_NOM as int,
            L_DENOM as int,
            R_NOM as int,
            R_DENOM as int,
            u32::MAX as int,
        )
    }
}

impl<const NOM: u32, const DENOM: u32> core::ops::Add for Duration<u32, NOM, DENOM> {
    type Output = Self;

    /// Same-base addition; the fail-fast counterpart of `checked_add`.
    fn add(self, other: Self) -> (r: Self) {
        proof {
            use_type_invariant(self);
            lemma_reduction(NOM as int, DENOM as int, NOM as int, DENOM as int);
        }
        self.checked_add(other).unwrap()
    }
}

impl<const NOM: u32, const DENOM: u32> vstd::std_specs::ops::AddSpecImpl for Duration<u32, NOM, DENOM> {
    open spec fn obeys_add_spec() -> bool {
        true
    }

    open spec fn add_req(self, other: Self) -> bool {
        self.spec_ticks() + other.spec_ticks() <= u32::MAX
    }

    open spec fn add_spec(self, other: Self) -> Self {
        Self::spec_new((self.spec_ticks() + other.spec_ticks()) as u32)
    }
}

impl<const NOM: u32, const DENOM: u32> core::ops::Sub for Duration<u32, NOM, DENOM> {
    type Output = Self;

    /// Same-base subtraction; the fail-fast counterpart of `checked_sub`.
    fn sub(self, other: Self) -> (r: Self) {
        proof {
            use_type_invariant(self);
            lemma_reduction(NOM as int, DENOM as int, NOM as int, DENOM as int);
        }
        self.checked_sub(other).unwrap()
    }
}

impl<const NOM: u32, const DENOM: u32> vstd::std_specs::ops::SubSpecImpl for Duration<u32, NOM, DENOM> {
    open spec fn obeys_sub_spec() -> bool {
        true
    }

    open spec fn sub_req(self, other: Self) -> bool {
        other.spec_ticks() <= self.spec_ticks()
    }

    open spec fn sub_spec(self, other: Self) -> Self {
        Self::spec_new((self.spec_ticks() - other.spec_ticks()) as u32)
    }
}

impl<const NOM: u32, const DENOM: u32> core::ops::Mul<u32> for Duration<u32, NOM, DENOM> {
    type Output = Self;

    /// Scale the tick count; overflow is a caller error.
    fn mul(self, other: u32) -> (r: Self) {
        proof {
            use_type_invariant(self);
        }
        Duration { ticks: self.ticks * other }
    }
}

impl<const NOM: u32, const DENOM: u32> vstd::std_specs::ops::MulSpecImpl<u32> for Duration<u32, NOM, DENOM> {
    open spec fn obeys_mul_spec() -> bool {
        true
    }

    open spec fn mul_req(self, other: u32) -> bool {
        self.spec_ticks() * other <= u32::MAX
    }

    open spec fn mul_spec(self, other: u32) -> Self {
        Self::spec_new((self.spec_ticks() * other) as u32)
    }
}

impl<const NOM: u32, const DENOM: u32> core::ops::Div<u32> for Duration<u32, NOM, DENOM> {
    type Output = Self;

    /// Divide the tick count, truncating; a zero divisor is a caller error.
    fn div(self, other: u32) -> (r: Self) {
        proof {
            use_type_invariant(self);
        }
        Duration { ticks: self.ticks / other }
    }
}

impl<const NOM: u32, const DENOM: u32> vstd::std_specs::ops::DivSpecImpl<u32> for Duration<u32, NOM, DENOM> {
    open spec fn obeys_div_spec() -> bool {
        true
    }

    open spec fn div_req(self, other: u32) -> bool {
        other > 0
    }

    open spec fn div_spec(self, other: u32) -> Self {
        Self::spec_new((self.spec_ticks() / other) as u32)
    }
}

impl<const L_NOM: u32, const L_DENOM: u32, const R_NOM: u32, const R_DENOM: u32> core::ops::Div<Duration<u32, R_NOM, R_DENOM>> for Duration<u32, L_NOM, L_DENOM> {
    type Output = u32;

    /// The truncated ratio of two spans: this span is rebased onto the
    /// divisor's base first, so the rebasing must succeed and the divisor must
    /// be nonzero.
    fn div(self, other: Duration<u32, R_NOM, R_DENOM>) -> (r: u32) {
        proof {
            use_type_invariant(other);
        }
        let conv: Duration<u32, R_NOM, R_DENOM> = self.convert();
        conv.ticks / other.ticks
    }
}

impl<const L_NOM: u32, const L_DENOM: u32, const R_NOM: u32, const R_DENOM: u32> vstd::std_specs::ops::DivSpecImpl<Duration<u32, R_NOM, R_DENOM>> for Duration<u32, L_NOM, L_DENOM> {
    open spec fn obeys_div_spec() -> bool {
        true
    }

    open spec fn div_req(self, other: Duration<u32, R_NOM, R_DENOM>) -> bool {
        &&& other.spec_ticks() > 0
        &&& spec_convert_ticks(
            self.spec_ticks() as int,
            L_NOM as int,
            L_DENOM as int,
            R_NOM as int,
            R_DENOM as int,
            u32::MAX as int,
        ) is Some
    }

    open spec fn div_spec(self, other: Duration<u32, R_NOM, R_DENOM>) -> u32 {
        (((self.spec_ticks() * L_NOM * R_DENOM) / (L_DENOM * R_NOM)) / (other.spec_ticks() as int)) as u32
    }
}

impl<const L_NOM: u32, const L_DENOM: u32, const R_NOM: u32, const R_DENOM: u32> PartialEq<Duration<u64, R_NOM, R_DENOM>> for Duration<u64, L_NOM, L_DENOM> {
    fn eq(&self, other: &Duration<u64, R_NOM, R_DENOM>) -> (r: bool) {
        self.const_eq(*other)
    }
}

impl<const L_NOM: u32, const L_DENOM: u32, const R_NOM: u32, const R_DENOM: u32> vstd::std_specs::cmp::PartialEqSpecImpl<Duration<u64, R_NOM, R_DENOM>> for Duration<u64, L_NOM, L_DENOM> {
    open spec fn obeys_eq_spec() -> bool {
        true
    }

    open spec fn eq_spec(&self, other: &Duration<u64, R_NOM, R_DENOM>) -> bool {
        spec_eq_ticks(
            self.spec_ticks() as int,
            other.spec_ticks() as int,
            L_NOM as int,
            L_DENOM as int,
            R_NOM as int,
            R_DENOM as int,
            u64::MAX as int,
        )
    }
}

impl<const L_NOM: u32, const L_DENOM: u32, const R_NOM: u32, const R_DENOM: u32> PartialOrd<Duration<u64, R_NOM, R_DENOM>> for Duration<u64, L_NOM, L_DENOM> {
    fn partial_cmp(&self, other: &Duration<u64, R_NOM, R_DENOM>) -> (r: Option<Ordering>) {
        self.const_partial_cmp(*other)
    }
}

impl<const L_NOM: u32, const L_DENOM: u32, const R_NOM: u32, const R_DENOM: u32> vstd::std_specs::cmp::PartialOrdSpecImpl<Duration<u64, R_NOM, R_DENOM>> for Duration<u64, L_NOM, L_DENOM> {
    open spec fn obeys_partial_cmp_spec() -> bool {
        true
    }

    open spec fn partial_cmp_spec(&self, other: &Duration<u64, R_NOM, R_DENOM>) -> Option<Ordering> {
        spec_cmp_ticks(
            self.spec_ticks() as int,
            other.spec_ticks() as int,
            L_NOM as int,
            L_DENOM as int,
            R_NOM as int,
            R_DENOM as int,
            u64::MAX as int,
        )
    }
}

impl<const NOM: u32, const DENOM: u32> core::ops::Add for Duration<u64, NOM, DENOM> {
    type Output = Self;

    /// Same-base addition; the fail-fast counterpart of `checked_add`.
    fn add(self, other: Self) -> (r: Self) {
        proof {
            use_type_invariant(self);
            lemma_reduction(NOM as int, DENOM as int, NOM as int, DENOM as int);
        }
        self.checked_add(other).unwrap()
    }
}

impl<const NOM: u32, const DENOM: u32> vstd::std_specs::ops::AddSpecImpl for Duration<u64, NOM, DENOM> {
    open spec fn obeys_add_spec() -> bool {
        true
    }

    open spec fn add_req(self, other: Self) -> bool {
        self.spec_ticks() + other.spec_ticks() <= u64::MAX
    }

    open spec fn add_spec(self, other: Self) -> Self {
        Self::spec_new((self.spec_ticks() + other.spec_ticks()) as u64)
    }
}

impl<const NOM: u32, const DENOM: u32> core::ops::Sub for Duration<u64, NOM, DENOM> {
    type Output = Self;

    /// Same-base subtraction; the fail-fast counterpart of `checked_sub`.
    fn sub(self, other: Self) -> (r: Self) {
        proof {
            use_type_invariant(self);
            lemma_reduction(NOM as int, DENOM as int, NOM as int, DENOM as int);
        }
        self.checked_sub(other).unwrap()
    }
}

impl<const NOM: u32, const DENOM: u32> vstd::std_specs::ops::SubSpecImpl for Duration<u64, NOM, DENOM> {
    open spec fn obeys_sub_spec() -> bool {
        true
    }

    open spec fn sub_req(self, other: Self) -> bool {
        other.spec_ticks() <= self.spec_ticks()
    }

    open spec fn sub_spec(self, other: Self) -> Self {
        Self::spec_new((self.spec_ticks() - other.spec_ticks()) as u64)
    }
}

impl<const NOM: u32, const DENOM: u32> core::ops::Mul<u32> for Duration<u64, NOM, DENOM> {
    type Output = Self;

    /// Scale the tick count; overflow is a caller error.
    fn mul(self, other: u32) -> (r: Self) {
        proof {
            use_type_invariant(self);
        }
        Duration { ticks: self.ticks * other as u64 }
    }
}

impl<const NOM: u32, const DENOM: u32> vstd::std_specs::ops::MulSpecImpl<u32> for Duration<u64, NOM, DENOM> {
    open spec fn obeys_mul_spec() -> bool {
        true
    }

    open spec fn mul_req(self, other: u32) -> bool {
        self.spec_ticks() * other <= u64::MAX
    }

    open spec fn mul_spec(self, other: u32) -> Self {
        Self::spec_new((self.spec_ticks() * other) as u64)
    }
}

impl<const NOM: u32, const DENOM: u32> core::ops::Div<u32> for Duration<u64, NOM, DENOM> {
    type Output = Self;

    /// Divide the tick count, truncating; a zero divisor is a caller error.
    fn div(self, other: u32) -> (r: Self) {
        proof {
            use_type_invariant(self);
        }
        Duration { ticks: self.ticks / other as u64 }
    }
}

impl<const NOM: u32, const DENOM: u32> vstd::std_specs::ops::DivSpecImpl<u32> for Duration<u64, NOM, DENOM> {
    open spec fn obeys_div_spec() -> bool {
        true
    }

    open spec fn div_req(self, other: u32) -> bool {
        other > 0
    }

    open spec fn div_spec(self, other: u32) -> Self {
        Self::spec_new((self.spec_ticks() / other as u64) as u64)
    }
}

impl<const L_NOM: u32, const L_DENOM: u32, const R_NOM: u32, const R_DENOM: u32> core::ops::Div<Duration<u64, R_NOM, R_DENOM>> for Duration<u64, L_NOM, L_DENOM> {
    type Output = u64;

    /// The truncated ratio of two spans: this span is rebased onto the
    /// divisor's base first, so the rebasing must succeed and the divisor must
    /// be nonzero.
    fn div(self, other: Duration<u64, R_NOM, R_DENOM>) -> (r: u64) {
        proof {
            use_type_invariant(other);
        }
        let conv: Duration<u64, R_NOM, R_DENOM> = self.convert();
        conv.ticks / other.ticks
    }
}

impl<const L_NOM: u32, const L_DENOM: u32, const R_NOM: u32, const R_DENOM: u32> vstd::std_specs::ops::DivSpecImpl<Duration<u64, R_NOM, R_DENOM>> for Duration<u64, L_NOM, L_DENOM> {
    open spec fn obeys_div_spec() -> bool {
        true
    }

    open spec fn div_req(self, other: Duration<u64, R_NOM, R_DENOM>) -> bool {
        &&& other.spec_ticks() > 0
        &&& spec_convert_ticks(
            self.spec_ticks() as int,
            L_NOM as int,
            L_DENOM as int,
            R_NOM as int,
            R_DENOM as int,
            u64::MAX as int,
        ) is Some
    }

    open spec fn div_spec(self, other: Duration<u64, R_NOM, R_DENOM>) -> u64 {
        (((self.spec_ticks() * L_NOM * R_DENOM) / (L_DENOM * R_NOM)) / (other.spec_ticks() as int)) as u64
    }
}

impl<const NOM: u32, const DENOM: u32> From<Duration<u32, NOM, DENOM>> for Duration<u64, NOM, DENOM> {
    /// Widen the backing type; lossless.
    fn from(val: Duration<u32, NOM, DENOM>) -> (r: Duration<u64, NOM, DENOM>) {
        proof {
            use_type_invariant(val);
        }
        Duration { ticks: val.ticks as u64 }
    }
}

impl<const NOM: u32, const DENOM: u32> vstd::std_specs::convert::FromSpecImpl<Duration<u32, NOM, DENOM>> for Duration<u64, NOM, DENOM> {
    open spec fn obeys_from_spec() -> bool {
        true
    }

    open spec fn from_spec(val: Duration<u32, NOM, DENOM>) -> Self {
        Self::spec_new(val.spec_ticks() as u64)
    }
}

impl<const NOM: u32, const DENOM: u32> TryFrom<Duration<u64, NOM, DENOM>> for Duration<u32, NOM, DENOM> {
    type Error = ();

    /// Narrow the backing type; fails when the tick count does not fit.
    fn try_from(val: Duration<u64, NOM, DENOM>) -> (r: Result<Self, ()>) {
        proof {
            use_type_invariant(val);
        }
        if val.ticks <= u32::MAX as u64 {
            Ok(Duration { ticks: val.ticks as u32 })
        } else {
            Err(())
        }
    }
}

impl<const NOM: u32, const DENOM: u32> vstd::std_specs::convert::TryFromSpecImpl<Duration<u64, NOM, DENOM>> for Duration<u32, NOM, DENOM> {
    open spec fn obeys_try_from_spec() -> bool {
        true
    }

    open spec fn try_from_spec(val: Duration<u64, NOM, DENOM>) -> Result<Self, ()> {
        if val.spec_ticks() <= u32::MAX {
            Ok(Self::spec_new(val.spec_ticks() as u32))
        } else {
            Err(())
        }
    }
}

impl<const NOM: u32, const DENOM: u32> core::ops::Add<Duration<u32, NOM, DENOM>> for Duration<u64, NOM, DENOM> {
    type Output = Self;

    /// Same-base addition of a narrower span, widened losslessly first.
    fn add(self, other: Duration<u32, NOM, DENOM>) -> (r: Self) {
        proof {
            use_type_invariant(self);
            use_type_invariant(other);
            lemma_reduction(NOM as int, DENOM as int, NOM as int, DENOM as int);
        }
        self.checked_add(Duration::<u64, NOM, DENOM>::from_ticks(other.ticks() as u64)).unwrap()
    }
}

impl<const NOM: u32, const DENOM: u32> vstd::std_specs::ops::AddSpecImpl<Duration<u32, NOM, DENOM>> for Duration<u64, NOM, DENOM> {
    open spec fn obeys_add_spec() -> bool {
        true
    }

    open spec fn add_req(self, other: Duration<u32, NOM, DENOM>) -> bool {
        self.spec_ticks() + other.spec_ticks() <= u64::MAX
    }

    open spec fn add_spec(self, other: Duration<u32, NOM, DENOM>) -> Self {
        Self::spec_new((self.spec_ticks() + other.spec_ticks()) as u64)
    }
}

impl<const NOM: u32, const DENOM: u32> core::ops::Sub<Duration<u32, NOM, DENOM>> for Duration<u64, NOM, DENOM> {
    type Output = Self;

    /// Same-base subtraction of a narrower span, widened losslessly first.
    fn sub(self, other: Duration<u32, NOM, DENOM>) -> (r: Self) {
        proof {
            use_type_invariant(self);
            use_type_invariant(other);
            lemma_reduction(NOM as int, DENOM as int, NOM as int, DENOM as int);
        }
        self.checked_sub(Duration::<u64, NOM, DENOM>::from_ticks(other.ticks() as u64)).unwrap()
    }
}

impl<const NOM: u32, const DENOM: u32> vstd::std_specs::ops::SubSpecImpl<Duration<u32, NOM, DENOM>> for Duration<u64, NOM, DENOM> {
    open spec fn obeys_sub_spec() -> bool {
        true
    }

    open spec fn sub_req(self, other: Duration<u32, NOM, DENOM>) -> bool {
        other.spec_ticks() <= self.spec_ticks()
    }

    open spec fn sub_spec(self, other: Duration<u32, NOM, DENOM>) -> Self {
        Self::spec_new((self.spec_ticks() - other.spec_ticks()) as u64)
    }
}

impl<const L_NOM: u32, const L_DENOM: u32, const R_NOM: u32, const R_DENOM: u32> PartialEq<Duration<u32, R_NOM, R_DENOM>> for Duration<u64, L_NOM, L_DENOM> {
    fn eq(&self, other: &Duration<u32, R_NOM, R_DENOM>) -> (r: bool) {
        proof {
            use_type_invariant(self);
            use_type_invariant(other);
        }
        helpers::eq_ticks(self.ticks, other.ticks as u64, L_NOM, L_DENOM, R_NOM, R_DENOM, u64::MAX)
    }
}

impl<const L_NOM: u32, const L_DENOM: u32, const R_NOM: u32, const R_DENOM: u32> vstd::std_specs::cmp::PartialEqSpecImpl<Duration<u32, R_NOM, R_DENOM>> for Duration<u64, L_NOM, L_DENOM> {
    open spec fn obeys_eq_spec() -> bool {
        true
    }

    open spec fn eq_spec(&self, other: &Duration<u32, R_NOM, R_DENOM>) -> bool {
        spec_eq_ticks(
            self.spec_ticks() as int,
            other.spec_ticks() as int,
            L_NOM as int,
            L_DENOM as int,
            R_NOM as int,
            R_DENOM as int,
            u64::MAX as int,
        )
    }
}

impl<const L_NOM: u32, const L_DENOM: u32, const R_NOM: u32, const R_DENOM: u32> PartialOrd<Duration<u32, R_NOM, R_DENOM>> for Duration<u64, L_NOM, L_DENOM> {
    fn partial_cmp(&self, other: &Duration<u32, R_NOM, R_DENOM>) -> (r: Option<Ordering>) {
        proof {
            use_type_invariant(self);
            use_type_invariant(other);
        }
        helpers::cmp_ticks(self.ticks, other.ticks as u64, L_NOM, L_DENOM, R_NOM, R_DENOM, u64::MAX)
    }
}

impl<const L_NOM: u32, const L_DENOM: u32, const R_NOM: u32, const R_DENOM: u32> vstd::std_specs::cmp::PartialOrdSpecImpl<Duration<u32, R_NOM, R_DENOM>> for Duration<u64, L_NOM, L_DENOM> {
    open spec fn obeys_partial_cmp_spec() -> bool {
        true
    }

    open spec fn partial_cmp_spec(&self, other: &Duration<u32, R_NOM, R_DENOM>) -> Option<Ordering> {
        spec_cmp_ticks(
            self.spec_ticks() as int,
            other.spec_ticks() as int,
            L_NOM as int,
            L_DENOM as int,
            R_NOM as int,
            R_DENOM as int,
            u64::MAX as int,
        )
    }
}

impl<const L_NOM: u32, const L_DENOM: u32, const R_NOM: u32, const R_DENOM: u32> PartialEq<Duration<u64, R_NOM, R_DENOM>> for Duration<u32, L_NOM, L_DENOM> {
    fn eq(&self, other: &Duration<u64, R_NOM, R_DENOM>) -> (r: bool) {
        proof {
            use_type_invariant(self);
            use_type_invariant(other);
        }
        helpers::eq_ticks(self.ticks as u64, other.ticks, L_NOM, L_DENOM, R_NOM, R_DENOM, u64::MAX)
    }
}

impl<const L_NOM: u32, const L_DENOM: u32, const R_NOM: u32, const R_DENOM: u32> vstd::std_specs::cmp::PartialEqSpecImpl<Duration<u64, R_NOM, R_DENOM>> for Duration<u32, L_NOM, L_DENOM> {
    open spec fn obeys_eq_spec() -> bool {
        true
    }

    open spec fn eq_spec(&self, other: &Duration<u64, R_NOM, R_DENOM>) -> bool {
        spec_eq_ticks(
            self.spec_ticks() as int,
            other.spec_ticks() as int,
            L_NOM as int,
            L_DENOM as int,
            R_NOM as int,
            R_DENOM as int,
            u64::MAX as int,
        )
    }
}

impl<const L_NOM: u32, const L_DENOM: u32, const R_NOM: u32, const R_DENOM: u32> PartialOrd<Duration<u64, R_NOM, R_DENOM>> for Duration<u32, L_NOM, L_DENOM> {
    fn partial_cmp(&self, other: &Duration<u64, R_NOM, R_DENOM>) -> (r: Option<Ordering>) {
        proof {
            use_type_invariant(self);
            use_type_invariant(other);
        }
        helpers::cmp_ticks(self.ticks as u64, other.ticks, L_NOM, L_DENOM, R_NOM, R_DENOM, u64::MAX)
    }
}

impl<const L_NOM: u32, const L_DENOM: u32, const R_NOM: u32, const R_DENOM: u32> vstd::std_specs::cmp::PartialOrdSpecImpl<Duration<u64, R_NOM, R_DENOM>> for Duration<u32, L_NOM, L_DENOM> {
    open spec fn obeys_partial_cmp_spec() -> bool {
        true
    }

    open spec fn partial_cmp_spec(&self, other: &Duration<u64, R_NOM, R_DENOM>) -> Option<Ordering> {
        spec_cmp_ticks(
            self.spec_ticks() as int,
            other.spec_ticks() as int,
            L_NOM as int,
            L_DENOM as int,
            R_NOM as int,
            R_DENOM as int,
            u64::MAX as int,
        )
    }
}

/// Short-hands that turn a plain `u32` into a span of a named unit, rounded
/// down to the target base's tick resolution.
pub trait ExtU32 {
    /// The numeric value of this quantity.
    spec fn spec_val(self) -> int;

    /// A span of the given number of nanoseconds, rounded down.
    fn nanos<const NOM: u32, const DENOM: u32>(self) -> (r: Duration<u32, NOM, DENOM>)
        requires
            0 < NOM,
            0 < DENOM,
            spec_rd_times_ln(1, 1_000_000_000, NOM as int, DENOM as int) * self.spec_val() <= u32::MAX,
        ensures
            r.spec_ticks() == (self.spec_val() * 1 * DENOM) / (1_000_000_000 * NOM),
    ;

    /// A span of the given number of microseconds, rounded down.
    fn micros<const NOM: u32, const DENOM: u32>(self) -> (r: Duration<u32, NOM, DENOM>)
        requires
            0 < NOM,
            0 < DENOM,
            spec_rd_times_ln(1, 1_000_000, NOM as int, DENOM as int) * self.spec_val() <= u32::MAX,
        ensures
            r.spec_ticks() == (self.spec_val() * 1 * DENOM) / (1_000_000 * NOM),
    ;

    /// A span of the given number of milliseconds, rounded down.
    fn millis<const NOM: u32, const DENOM: u32>(self) -> (r: Duration<u32, NOM, DENOM>)
        requires
            0 < NOM,
            0 < DENOM,
            spec_rd_times_ln(1, 1_000, NOM as int, DENOM as int) * self.spec_val() <= u32::MAX,
        ensures
            r.spec_ticks() == (self.spec_val() * 1 * DENOM) / (1_000 * NOM),
    ;

    /// A span of the given number of seconds, rounded down.
    fn secs<const NOM: u32, const DENOM: u32>(self) -> (r: Duration<u32, NOM, DENOM>)
        requires
            0 < NOM,
            0 < DENOM,
            spec_rd_times_ln(1, 1, NOM as int, DENOM as int) * self.spec_val() <= u32::MAX,
        ensures
            r.spec_ticks() == (self.spec_val() * 1 * DENOM) / (1 * NOM),
    ;

    /// A span of the given number of minutes, rounded down.
    fn minutes<const NOM: u32, const DENOM: u32>(self) -> (r: Duration<u32, NOM, DENOM>)
        requires
            0 < NOM,
            0 < DENOM,
            spec_rd_times_ln(60, 1, NOM as int, DENOM as int) * self.spec_val() <= u32::MAX,
        ensures
            r.spec_ticks() == (self.spec_val() * 60 * DENOM) / (1 * NOM),
    ;

    /// A span of the given number of hours, rounded down.
    fn hours<const NOM: u32, const DENOM: u32>(self) -> (r: Duration<u32, NOM, DENOM>)
        requires
            0 < NOM,
            0 < DENOM,
            spec_rd_times_ln(3_600, 1, NOM as int, DENOM as int) * self.spec_val() <= u32::MAX,
        ensures
            r.spec_ticks() == (self.spec_val() * 3_600 * DENOM) / (1 * NOM),
    ;
}

impl ExtU32 for u32 {
    open spec fn spec_val(self) -> int {
        self as int
    }

    fn nanos<const NOM: u32, const DENOM: u32>(self) -> (r: Duration<u32, NOM, DENOM>) {
        Duration::<u32, NOM, DENOM>::nanos(self)
    }

    fn micros<const NOM: u32, const DENOM: u32>(self) -> (r: Duration<u32, NOM, DENOM>) {
        Duration::<u32, NOM, DENOM>::micros(self)
    }

    fn millis<const NOM: u32, const DENOM: u32>(self) -> (r: Duration<u32, NOM, DENOM>) {
        Duration::<u32, NOM, DENOM>::millis(self)
    }

    fn secs<const NOM: u32, const DENOM: u32>(self) -> (r: Duration<u32, NOM, DENOM>) {
        Duration::<u32, NOM, DENOM>::secs(self)
    }

    fn minutes<const NOM: u32, const DENOM: u32>(self) -> (r: Duration<u32, NOM, DENOM>) {
        Duration::<u32, NOM, DENOM>::minutes(self)
    }

    fn hours<const NOM: u32, const DENOM: u32>(self) -> (r: Duration<u32, NOM, DENOM>) {
        Duration::<u32, NOM, DENOM>::hours(self)
    }
}

/// Short-hands that turn a plain `u32` into a span of a named unit, rounded
/// up, so the span is never shorter than what was asked for.
pub trait ExtU32Ceil {
    /// The numeric value of this quantity.
    spec fn spec_val(self) -> int;

    /// A span of the given number of nanoseconds, rounded up.
    fn nanos_at_least<const NOM: u32, const DENOM: u32>(self) -> (r: Duration<u32, NOM, DENOM>)
        requires
            0 < NOM,
            0 < DENOM,
            spec_rd_times_ln(1, 1_000_000_000, NOM as int, DENOM as int) * self.spec_val() <= u32::MAX,
        ensures
            r.spec_ticks() == spec_div_ceil(self.spec_val() * 1 * DENOM, 1_000_000_000 * NOM),
    ;

    /// A span of the given number of microseconds, rounded up.
    fn micros_at_least<const NOM: u32, const DENOM: u32>(self) -> (r: Duration<u32, NOM, DENOM>)
        requires
            0 < NOM,
            0 < DENOM,
            spec_rd_times_ln(1, 1_000_000, NOM as int, DENOM as int) * self.spec_val() <= u32::MAX,
        ensures
            r.spec_ticks() == spec_div_ceil(self.spec_val() * 1 * DENOM, 1_000_000 * NOM),
    ;

    /// A span of the given number of milliseconds, rounded up.
    fn millis_at_least<const NOM: u32, const DENOM: u32>(self) -> (r: Duration<u32, NOM, DENOM>)
        requires
            0 < NOM,
            0 < DENOM,
            spec_rd_times_ln(1, 1_000, NOM as int, DENOM as int) * self.spec_val() <= u32::MAX,
        ensures
            r.spec_ticks() == spec_div_ceil(self.spec_val() * 1 * DENOM, 1_000 * NOM),
    ;

    /// A span of the given number of seconds, rounded up.
    fn secs_at_least<const NOM: u32, const DENOM: u32>(self) -> (r: Duration<u32, NOM, DENOM>)
        requires
            0 < NOM,
            0 < DENOM,
            spec_rd_times_ln(1, 1, NOM as int, DENOM as int) * self.spec_val() <= u32::MAX,
        ensures
            r.spec_ticks() == spec_div_ceil(self.spec_val() * 1 * DENOM, 1 * NOM),
    ;

    /// A span of the given number of minutes, rounded up.
    fn minutes_at_least<const NOM: u32, const DENOM: u32>(self) -> (r: Duration<u32, NOM, DENOM>)
        requires
            0 < NOM,
            0 < DENOM,
            spec_rd_times_ln(60, 1, NOM as int, DENOM as int) * self.spec_val() <= u32::MAX,
        ensures
            r.spec_ticks() == spec_div_ceil(self.spec_val() * 60 * DENOM, 1 * NOM),
    ;

    /// A span of the given number of hours, rounded up.
    fn hours_at_least<const NOM: u32, const DENOM: u32>(self) -> (r: Duration<u32, NOM, DENOM>)
        requires
            0 < NOM,
            0 < DENOM,
            spec_rd_times_ln(3_600, 1, NOM as int, DENOM as int) * self.spec_val() <= u32::MAX,
        ensures
            r.spec_ticks() == spec_div_ceil(self.spec_val() * 3_600 * DENOM, 1 * NOM),
    ;
}

impl ExtU32Ceil for u32 {
    open spec fn spec_val(self) -> int {
        self as int
    }

    fn nanos_at_least<const NOM: u32, const DENOM: u32>(self) -> (r: Duration<u32, NOM, DENOM>) {
        Duration::<u32, NOM, DENOM>::nanos_at_least(self)
    }

    fn micros_at_least<const NOM: u32, const DENOM: u32>(self) -> (r: Duration<u32, NOM, DENOM>) {
        Duration::<u32, NOM, DENOM>::micros_at_least(self)
    }

    fn millis_at_least<const NOM: u32, const DENOM: u32>(self) -> (r: Duration<u32, NOM, DENOM>) {
        Duration::<u32, NOM, DENOM>::millis_at_least(self)
    }

    fn secs_at_least<const NOM: u32, const DENOM: u32>(self) -> (r: Duration<u32, NOM, DENOM>) {
        Duration::<u32, NOM, DENOM>::secs_at_least(self)
    }

    fn minutes_at_least<const NOM: u32, const DENOM: u32>(self) -> (r: Duration<u32, NOM, DENOM>) {
        Duration::<u32, NOM, DENOM>::minutes_at_least(self)
    }

    fn hours_at_least<const NOM: u32, const DENOM: u32>(self) -> (r: Duration<u32, NOM, DENOM>) {
        Duration::<u32, NOM, DENOM>::hours_at_least(self)
    }
}

/// Short-hands that turn a plain `u64` into a span of a named unit, rounded
/// down to the target base's tick resolution.
pub trait ExtU64 {
    /// The numeric value of this quantity.
    spec fn spec_val(self) -> int;

    /// A span of the given number of nanoseconds, rounded down.
    fn nanos<const NOM: u32, const DENOM: u32>(self) -> (r: Duration<u64, NOM, DENOM>)
        requires
            0 < NOM,
            0 < DENOM,
            spec_rd_times_ln(1, 1_000_000_000, NOM as int, DENOM as int) * self.spec_val() <= u64::MAX,
        ensures
            r.spec_ticks() == (self.spec_val() * 1 * DENOM) / (1_000_000_000 * NOM),
    ;

    /// A span of the given number of microseconds, rounded down.
    fn micros<const NOM: u32, const DENOM: u32>(self) -> (r: Duration<u64, NOM, DENOM>)
        requires
            0 < NOM,
            0 < DENOM,
            spec_rd_times_ln(1, 1_000_000, NOM as int, DENOM as int) * self.spec_val() <= u64::MAX,
        ensures
            r.spec_ticks() == (self.spec_val() * 1 * DENOM) / (1_000_000 * NOM),
    ;

    /// A span of the given number of milliseconds, rounded down.
    fn millis<const NOM: u32, const DENOM: u32>(self) -> (r: Duration<u64, NOM, DENOM>)
        requires
            0 < NOM,
            0 < DENOM,
            spec_rd_times_ln(1, 1_000, NOM as int, DENOM as int) * self.spec_val() <= u64::MAX,
        ensures
            r.spec_ticks() == (self.spec_val() * 1 * DENOM) / (1_000 * NOM),
    ;

    /// A span of the given number of seconds, rounded down.
    fn secs<const NOM: u32, const DENOM: u32>(self) -> (r: Duration<u64, NOM, DENOM>)
        requires
            0 < NOM,
            0 < DENOM,
            spec_rd_times_ln(1, 1, NOM as int, DENOM as int) * self.spec_val() <= u64::MAX,
        ensures
            r.spec_ticks() == (self.spec_val() * 1 * DENOM) / (1 * NOM),
    ;

    /// A span of the given number of minutes, rounded down.
    fn minutes<const NOM: u32, const DENOM: u32>(self) -> (r: Duration<u64, NOM, DENOM>)
        requires
            0 < NOM,
            0 < DENOM,
            spec_rd_times_ln(60, 1, NOM as int, DENOM as int) * self.spec_val() <= u64::MAX,
        ensures
            r.spec_ticks() == (self.spec_val() * 60 * DENOM) / (1 * NOM),
    ;

    /// A span of the given number of hours, rounded down.
    fn hours<const NOM: u32, const DENOM: u32>(self) -> (r: Duration<u64, NOM, DENOM>)
        requires
            0 < NOM,
            0 < DENOM,
            spec_rd_times_ln(3_600, 1, NOM as int, DENOM as int) * self.spec_val() <= u64::MAX,
        ensures
            r.spec_ticks() == (self.spec_val() * 3_600 * DENOM) / (1 * NOM),
    ;
}

impl ExtU64 for u64 {
    open spec fn spec_val(self) -> int {
        self as int
    }

    fn nanos<const NOM: u32, const DENOM: u32>(self) -> (r: Duration<u64, NOM, DENOM>) {
        Duration::<u64, NOM, DENOM>::nanos(self)
    }

    fn micros<const NOM: u32, const DENOM: u32>(self) -> (r: Duration<u64, NOM, DENOM>) {
        Duration::<u64, NOM, DENOM>::micros(self)
    }

    fn millis<const NOM: u32, const DENOM: u32>(self) -> (r: Duration<u64, NOM, DENOM>) {
        Duration::<u64, NOM, DENOM>::millis(self)
    }

    fn secs<const NOM: u32, const DENOM: u32>(self) -> (r: Duration<u64, NOM, DENOM>) {
        Duration::<u64, NOM, DENOM>::secs(self)
    }

    fn minutes<const NOM: u32, const DENOM: u32>(self) -> (r: Duration<u64, NOM, DENOM>) {
        Duration::<u64, NOM, DENOM>::minutes(self)
    }

    fn hours<const NOM: u32, const DENOM: u32>(self) -> (r: Duration<u64, NOM, DENOM>) {
        Duration::<u64, NOM, DENOM>::hours(self)
    }
}

/// Short-hands that turn a plain `u64` into a span of a named unit, rounded
/// up, so the span is never shorter than what was asked for.
pub trait ExtU64Ceil {
    /// The numeric value of this quantity.
    spec fn spec_val(self) -> int;

    /// A span of the given number of nanoseconds, rounded up.
    fn nanos_at_least<const NOM: u32, const DENOM: u32>(self) -> (r: Duration<u64, NOM, DENOM>)
        requires
            0 < NOM,
            0 < DENOM,
            spec_rd_times_ln(1, 1_000_000_000, NOM as int, DENOM as int) * self.spec_val() <= u64::MAX,
        ensures
            r.spec_ticks() == spec_div_ceil(self.spec_val() * 1 * DENOM, 1_000_000_000 * NOM),
    ;

    /// A span of the given number of microseconds, rounded up.
    fn micros_at_least<const NOM: u32, const DENOM: u32>(self) -> (r: Duration<u64, NOM, DENOM>)
        requires
            0 < NOM,
            0 < DENOM,
            spec_rd_times_ln(1, 1_000_000, NOM as int, DENOM as int) * self.spec_val() <= u64::MAX,
        ensures
            r.spec_ticks() == spec_div_ceil(self.spec_val() * 1 * DENOM, 1_000_000 * NOM),
    ;

    /// A span of the given number of milliseconds, rounded up.
    fn millis_at_least<const NOM: u32, const DENOM: u32>(self) -> (r: Duration<u64, NOM, DENOM>)
        requires
            0 < NOM,
            0 < DENOM,
            spec_rd_times_ln(1, 1_000, NOM as int, DENOM as int) * self.spec_val() <= u64::MAX,
        ensures
            r.spec_ticks() == spec_div_ceil(self.spec_val() * 1 * DENOM, 1_000 * NOM),
    ;

    /// A span of the given number of seconds, rounded up.
    fn secs_at_least<const NOM: u32, const DENOM: u32>(self) -> (r: Duration<u64, NOM, DENOM>)
        requires
            0 < NOM,
            0 < DENOM,
            spec_rd_times_ln(1, 1, NOM as int, DENOM as int) * self.spec_val() <= u64::MAX,
        ensures
            r.spec_ticks() == spec_div_ceil(self.spec_val() * 1 * DENOM, 1 * NOM),
    ;

    /// A span of the given number of minutes, rounded up.
    fn minutes_at_least<const NOM: u32, const DENOM: u32>(self) -> (r: Duration<u64, NOM, DENOM>)
        requires
            0 < NOM,
            0 < DENOM,
            spec_rd_times_ln(60, 1, NOM as int, DENOM as int) * self.spec_val() <= u64::MAX,
        ensures
            r.spec_ticks() == spec_div_ceil(self.spec_val() * 60 * DENOM, 1 * NOM),
    ;

    /// A span of the given number of hours, rounded up.
    fn hours_at_least<const NOM: u32, const DENOM: u32>(self) -> (r: Duration<u64, NOM, DENOM>)
        requires
            0 < NOM,
            0 < DENOM,
            spec_rd_times_ln(3_600, 1, NOM as int, DENOM as int) * self.spec_val() <= u64::MAX,
        ensures
            r.spec_ticks() == spec_div_ceil(self.spec_val() * 3_600 * DENOM, 1 * NOM),
    ;
}

impl ExtU64Ceil for u64 {
    open spec fn spec_val(self) -> int {
        self as int
    }

    fn nanos_at_least<const NOM: u32, const DENOM: u32>(self) -> (r: Duration<u64, NOM, DENOM>) {
        Duration::<u64, NOM, DENOM>::nanos_at_least(self)
    }

    fn micros_at_least<const NOM: u32, const DENOM: u32>(self) -> (r: Duration<u64, NOM, DENOM>) {
        Duration::<u64, NOM, DENOM>::micros_at_least(self)
    }

    fn millis_at_least<const NOM: u32, const DENOM: u32>(self) -> (r: Duration<u64, NOM, DENOM>) {
        Duration::<u64, NOM, DENOM>::millis_at_least(self)
    }

    fn secs_at_least<const NOM: u32, const DENOM: u32>(self) -> (r: Duration<u64, NOM, DENOM>) {
        Duration::<u64, NOM, DENOM>::secs_at_least(self)
    }

    fn minutes_at_least<const NOM: u32, const DENOM: u32>(self) -> (r: Duration<u64, NOM, DENOM>) {
        Duration::<u64, NOM, DENOM>::minutes_at_least(self)
    }

    fn hours_at_least<const NOM: u32, const DENOM: u32>(self) -> (r: Duration<u64, NOM, DENOM>) {
        Duration::<u64, NOM, DENOM>::hours_at_least(self)
    }
}

impl<const NOM: u32, const DENOM: u32> core::ops::Mul<Duration<u32, NOM, DENOM>> for u32 {
    type Output = Duration<u32, NOM, DENOM>;

    /// Scale a span's tick count by an integer on the left; overflow is a
    /// caller error.
    fn mul(self, other: Duration<u32, NOM, DENOM>) -> (r: Duration<u32, NOM, DENOM>) {
        proof {
            use_type_invariant(other);
        }
        Duration { ticks: (self) * other.ticks }
    }
}

impl<const NOM: u32, const DENOM: u32> vstd::std_specs::ops::MulSpecImpl<Duration<u32, NOM, DENOM>> for u32 {
    open spec fn obeys_mul_spec() -> bool {
        true
    }

    open spec fn mul_req(self, other: Duration<u32, NOM, DENOM>) -> bool {
        self * other.spec_ticks() <= u32::MAX
    }

    open spec fn mul_spec(self, other: Duration<u32, NOM, DENOM>) -> Duration<u32, NOM, DENOM> {
        Duration::<u32, NOM, DENOM>::spec_new((self * other.spec_ticks()) as u32)
    }
}

impl<const NOM: u32, const DENOM: u32> core::ops::Mul<Duration<u64, NOM, DENOM>> for u32 {
    type Output = Duration<u64, NOM, DENOM>;

    /// Scale a span's tick count by an integer on the left; overflow is a
    /// caller error.
    fn mul(self, other: Duration<u64, NOM, DENOM>) -> (r: Duration<u64, NOM, DENOM>) {
        proof {
            use_type_invariant(other);
        }
        Duration { ticks: (self as u64) * other.ticks }
    }
}

impl<const NOM: u32, const DENOM: u32> vstd::std_specs::ops::MulSpecImpl<Duration<u64, NOM, DENOM>> for u32 {
    open spec fn obeys_mul_spec() -> bool {
        true
    }

    open spec fn mul_req(self, other: Duration<u64, NOM, DENOM>) -> bool {
        self * other.spec_ticks() <= u64::MAX
    }

    open spec fn mul_spec(self, other: Duration<u64, NOM, DENOM>) -> Duration<u64, NOM, DENOM> {
        Duration::<u64, NOM, DENOM>::spec_new((self * other.spec_ticks()) as u64)
    }
}

} // verus!
