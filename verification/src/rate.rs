//! Frequencies: a raw count under a rational scale of hertz per unit, the
//! reciprocal of a span, with the same checked cross-base arithmetic and the
//! reciprocal conversion to and from spans.

use crate::duration::Duration;
use crate::helpers;
use crate::helpers::{
    lemma_convert_exact, lemma_reduction, spec_add_ticks, spec_cmp_ticks, spec_convert_ticks,
    spec_eq_ticks, spec_ord, spec_rate_to_duration_numerator, spec_rd_times_ln, spec_sub_ticks,
};
use core::cmp::Ordering;
use vstd::prelude::*;

verus! {

/// A frequency: `raw * NOM / DENOM` hertz.
///
/// The backing type `T` is `u32` or `u64`; the scale is part of the type, so
/// only explicit conversions move a rate between bases.
#[derive(Debug)]
pub struct Rate<T, const NOM: u32, const DENOM: u32> {
    raw: T,
}

impl<T, const NOM: u32, const DENOM: u32> Rate<T, NOM, DENOM> {
    /// A rate's scale is valid: numerator and denominator are nonzero.
    #[verifier::type_invariant]
    pub open spec fn scale_valid(self) -> bool {
        NOM > 0 && DENOM > 0
    }

    /// The raw count.
    pub closed spec fn spec_raw(self) -> T {
        self.raw
    }

    /// The rate with the given raw count.
    pub closed spec fn spec_new(raw: T) -> Self {
        Rate { raw }
    }

    /// A rate is exactly its raw count.
    pub broadcast proof fn lemma_new_raw(raw: T)
        ensures
            (#[trigger] Self::spec_new(raw)).spec_raw() == raw,
    {
    }
}

impl<T: Copy, const NOM: u32, const DENOM: u32> Clone for Rate<T, NOM, DENOM> {
    fn clone(&self) -> (r: Self)
        ensures
            r == *self,
    {
        *self
    }
}

impl<T: Copy, const NOM: u32, const DENOM: u32> Copy for Rate<T, NOM, DENOM> {}

impl<const NOM: u32, const DENOM: u32> Rate<u32, NOM, DENOM> {
    /// Create a rate from a raw count.
    pub fn from_raw(raw: u32) -> (r: Self)
        requires
            0 < NOM,
            0 < DENOM,
        ensures
            r.spec_raw() == raw,
    {
        Rate { raw }
    }

    /// The raw count.
    pub fn raw(&self) -> (r: u32)
        ensures
            r == self.spec_raw(),
    {
        self.raw
    }

    /// Add a rate of any base to this one, rescaling it into this base first;
    /// `None` when the rescaling multiply or the sum leaves the raw range.
    pub fn checked_add<const O_NOM: u32, const O_DENOM: u32>(
        self,
        other: Rate<u32, O_NOM, O_DENOM>,
    ) -> (r: Option<Self>)
        ensures
            ({
                let s = spec_add_ticks(
                    self.spec_raw() as int,
                    other.spec_raw() as int,
                    NOM as int,
                    DENOM as int,
                    O_NOM as int,
                    O_DENOM as int,
                    u32::MAX as int,
                );
                match r {
                    Some(v) => s == Some(v.spec_raw() as int),
                    None => s is None,
                }
            }),
    {
        proof {
            use_type_invariant(self);
            use_type_invariant(other);
        }
        match helpers::add_ticks(
            self.raw as u64,
            other.raw as u64,
            NOM,
            DENOM,
            O_NOM,
            O_DENOM,
            u32::MAX as u64,
        ) {
            Some(t) => Some(Rate { raw: (t) as u32 }),
            None => None,
        }
    }

    /// Subtract a rate of any base from this one, rescaling it into this base
    /// first; `None` on underflow or when the rescaling multiply overflows.
    pub fn checked_sub<const O_NOM: u32, const O_DENOM: u32>(
        self,
        other: Rate<u32, O_NOM, O_DENOM>,
    ) -> (r: Option<Self>)
        ensures
            ({
                let s = spec_sub_ticks(
                    self.spec_raw() as int,
                    other.spec_raw() as int,
                    NOM as int,
                    DENOM as int,
                    O_NOM as int,
                    O_DENOM as int,
                    u32::MAX as int,
                );
                match r {
                    Some(v) => s == Some(v.spec_raw() as int),
                    None => s is None,
                }
            }),
    {
        proof {
            use_type_invariant(self);
            use_type_invariant(other);
        }
        match helpers::sub_ticks(
            self.raw as u64,
            other.raw as u64,
            NOM,
            DENOM,
            O_NOM,
            O_DENOM,
            u32::MAX as u64,
        ) {
            Some(t) => Some(Rate { raw: (t) as u32 }),
            None => None,
        }
    }

    /// Compare with a rate of any base; the answer agrees with the exact
    /// rational comparison of the two rates, and is `None` when a rescaling
    /// multiply overflows the raw range.
    pub fn const_partial_cmp<const R_NOM: u32, const R_DENOM: u32>(
        self,
        other: Rate<u32, R_NOM, R_DENOM>,
    ) -> (r: Option<Ordering>)
        ensures
            r == spec_cmp_ticks(
                self.spec_raw() as int,
                other.spec_raw() as int,
                NOM as int,
                DENOM as int,
                R_NOM as int,
                R_DENOM as int,
                u32::MAX as int,
            ),
            r matches Some(o) ==> o == spec_ord(
                self.spec_raw() * NOM * R_DENOM,
                other.spec_raw() * R_NOM * DENOM,
            ),
    {
        proof {
            use_type_invariant(self);
            use_type_invariant(other);
        }
        helpers::cmp_ticks(
            self.raw as u64,
            other.raw as u64,
            NOM,
            DENOM,
            R_NOM,
            R_DENOM,
            u32::MAX as u64,
        )
    }

    /// Equality with a rate of any base: `true` exactly when the rates are
    /// numerically equal and the rescaling multiplies stay in the raw range.
    pub fn const_eq<const R_NOM: u32, const R_DENOM: u32>(
        self,
        other: Rate<u32, R_NOM, R_DENOM>,
    ) -> (r: bool)
        ensures
            r == spec_eq_ticks(
                self.spec_raw() as int,
                other.spec_raw() as int,
                NOM as int,
                DENOM as int,
                R_NOM as int,
                R_DENOM as int,
                u32::MAX as int,
            ),
            r ==> self.spec_raw() * NOM * R_DENOM == other.spec_raw() * R_NOM * DENOM,
    {
        proof {
            use_type_invariant(self);
            use_type_invariant(other);
        }
        helpers::eq_ticks(
            self.raw as u64,
            other.raw as u64,
            NOM,
            DENOM,
            R_NOM,
            R_DENOM,
            u32::MAX as u64,
        )
    }

    /// Rebase a rate of base `I_NOM / I_DENOM` onto this base; `None` when the
    /// widening multiply leaves 64 bits or the result leaves the raw range.
    pub fn const_try_from<const I_NOM: u32, const I_DENOM: u32>(
        rate: Rate<u32, I_NOM, I_DENOM>,
    ) -> (r: Option<Self>)
        requires
            0 < NOM,
            0 < DENOM,
        ensures
            ({
                let s = spec_convert_ticks(
                    rate.spec_raw() as int,
                    I_NOM as int,
                    I_DENOM as int,
                    NOM as int,
                    DENOM as int,
                    u32::MAX as int,
                );
                match r {
                    Some(v) => s == Some(v.spec_raw() as int),
                    None => s is None,
                }
            }),
            r matches Some(v) ==> v.spec_raw() == (rate.spec_raw() * I_NOM * DENOM) / (I_DENOM
                * NOM),
    {
        proof {
            use_type_invariant(rate);
        }
        match helpers::convert_ticks(
            rate.raw as u64,
            I_NOM,
            I_DENOM,
            NOM,
            DENOM,
            u32::MAX as u64,
        ) {
            Some(t) => Some(Rate { raw: (t) as u32 }),
            None => None,
        }
    }

    /// Rebase this rate onto the base `O_NOM / O_DENOM`; `None` when the
    /// widening multiply leaves 64 bits or the result leaves the raw range.
    pub fn const_try_into<const O_NOM: u32, const O_DENOM: u32>(self) -> (r: Option<
        Rate<u32, O_NOM, O_DENOM>,
    >)
        requires
            0 < O_NOM,
            0 < O_DENOM,
        ensures
            ({
                let s = spec_convert_ticks(
                    self.spec_raw() as int,
                    NOM as int,
                    DENOM as int,
                    O_NOM as int,
                    O_DENOM as int,
                    u32::MAX as int,
                );
                match r {
                    Some(v) => s == Some(v.spec_raw() as int),
                    None => s is None,
                }
            }),
            r matches Some(v) ==> v.spec_raw() == (self.spec_raw() * NOM * O_DENOM) / (DENOM
                * O_NOM),
    {
        Rate::<u32, O_NOM, O_DENOM>::const_try_from(self)
    }

    /// Rebase this rate onto the base `O_NOM / O_DENOM`, which must succeed:
    /// the fail-fast counterpart of `const_try_into`.
    pub fn convert<const O_NOM: u32, const O_DENOM: u32>(self) -> (r: Rate<u32, O_NOM, O_DENOM>)
        requires
            0 < O_NOM,
            0 < O_DENOM,
            spec_convert_ticks(
                self.spec_raw() as int,
                NOM as int,
                DENOM as int,
                O_NOM as int,
                O_DENOM as int,
                u32::MAX as int,
            ) is Some,
        ensures
            Some(r.spec_raw() as int) == spec_convert_ticks(
                self.spec_raw() as int,
                NOM as int,
                DENOM as int,
                O_NOM as int,
                O_DENOM as int,
                u32::MAX as int,
            ),
            r.spec_raw() == (self.spec_raw() * NOM * O_DENOM) / (DENOM * O_NOM),
    {
        self.const_try_into().unwrap()
    }

    /// The span that is this rate's period; `None` on a zero raw value, whose
    /// reciprocal does not exist.
    pub fn try_into_duration<const O_NOM: u32, const O_DENOM: u32>(self) -> (r: Option<
        Duration<u32, O_NOM, O_DENOM>,
    >)
        requires
            0 < O_NOM,
            0 < O_DENOM,
        ensures
            r is Some <==> self.spec_raw() > 0,
            r matches Some(d) ==> d.spec_ticks() == spec_rate_to_duration_numerator(
                NOM as int,
                DENOM as int,
                O_NOM as int,
                O_DENOM as int,
            ) as u64 as u32 / self.spec_raw(),
    {
        Duration::<u32, O_NOM, O_DENOM>::try_from_rate(self)
    }

    /// The span that is this rate's period: the fail-fast counterpart of
    /// `try_into_duration`, so the raw value must be nonzero.
    pub fn into_duration<const O_NOM: u32, const O_DENOM: u32>(self) -> (r: Duration<
        u32,
        O_NOM,
        O_DENOM,
    >)
        requires
            0 < O_NOM,
            0 < O_DENOM,
            self.spec_raw() > 0,
        ensures
            r.spec_ticks() == spec_rate_to_duration_numerator(
                NOM as int,
                DENOM as int,
                O_NOM as int,
                O_DENOM as int,
            ) as u64 as u32 / self.spec_raw(),
    {
        self.try_into_duration().unwrap()
    }

    /// The rate whose period is the given span; `None` on a zero tick count,
    /// whose reciprocal does not exist.
    pub fn try_from_duration<const I_NOM: u32, const I_DENOM: u32>(
        duration: Duration<u32, I_NOM, I_DENOM>,
    ) -> (r: Option<Self>)
        requires
            0 < NOM,
            0 < DENOM,
        ensures
            r is Some <==> duration.spec_ticks() > 0,
            r matches Some(v) ==> v.spec_raw() == spec_rate_to_duration_numerator(
                I_NOM as int,
                I_DENOM as int,
                NOM as int,
                DENOM as int,
            ) as u64 as u32 / duration.spec_ticks(),
    {
        proof {
            use_type_invariant(duration);
        }
        if duration.ticks() > 0 {
            let v = helpers::rate_to_duration_num(I_NOM, I_DENOM, NOM, DENOM);
            let w = #[verifier::truncate] (v as u32);
            Some(Rate { raw: w / duration.ticks() })
        } else {
            None
        }
    }

    /// The rate whose period is the given span: the fail-fast counterpart of
    /// `try_from_duration`, so the tick count must be nonzero.
    pub fn from_duration<const I_NOM: u32, const I_DENOM: u32>(
        duration: Duration<u32, I_NOM, I_DENOM>,
    ) -> (r: Self)
        requires
            0 < NOM,
            0 < DENOM,
            duration.spec_ticks() > 0,
        ensures
            r.spec_raw() == spec_rate_to_duration_numerator(
                I_NOM as int,
                I_DENOM as int,
                NOM as int,
                DENOM as int,
            ) as u64 as u32 / duration.spec_ticks(),
    {
        Self::try_from_duration(duration).unwrap()
    }

    /// The whole number of `un / ud`-hertz units this rate covers.
    fn to_unit(&self, un: u32, ud: u32) -> (r: u32)
        requires
            0 < un,
            0 < ud,
            spec_rd_times_ln(NOM as int, DENOM as int, un as int, ud as int) * self.spec_raw()
                <= u32::MAX,
        ensures
            r == (self.spec_raw() * NOM * ud) / (DENOM * un),
    {
        proof {
            use_type_invariant(self);
            lemma_convert_exact(
                self.spec_raw() as int,
                NOM as int,
                DENOM as int,
                un as int,
                ud as int,
            );
        }
        let (x, y) = helpers::reduce(NOM, DENOM, un, ud);
        let m = x * self.raw as u64;
        proof {
            vstd::arithmetic::mul::lemma_mul_is_commutative(x as int, self.spec_raw() as int);
        }
        (m / y) as u32
    }

    /// The rate covering the given whole number of `un / ud`-hertz units,
    /// rounded down to this rate's raw resolution.
    fn from_unit(val: u32, un: u32, ud: u32) -> (r: Self)
        requires
            0 < NOM,
            0 < DENOM,
            0 < un,
            0 < ud,
            spec_rd_times_ln(un as int, ud as int, NOM as int, DENOM as int) * val <= u32::MAX,
        ensures
            r.spec_raw() == (val * un * DENOM) / (ud * NOM),
    {
        proof {
            lemma_convert_exact(val as int, un as int, ud as int, NOM as int, DENOM as int);
        }
        let (x, y) = helpers::reduce(un, ud, NOM, DENOM);
        let m = x * val as u64;
        proof {
            vstd::arithmetic::mul::lemma_mul_is_commutative(x as int, val as int);
        }
        Rate { raw: (m / y) as u32 }
    }

    /// The whole number of hertz this rate covers.
    #[allow(non_snake_case)]
    pub fn to_Hz(&self) -> (r: u32)
        requires
            spec_rd_times_ln(NOM as int, DENOM as int, 1, 1) * self.spec_raw() <= u32::MAX,
        ensures
            r == (self.spec_raw() * NOM * 1) / (DENOM * 1),
    {
        self.to_unit(1, 1)
    }

    /// The rate of the given number of hertz, rounded down to this rate's raw
    /// resolution.
    #[allow(non_snake_case)]
    pub fn Hz(val: u32) -> (r: Self)
        requires
            0 < NOM,
            0 < DENOM,
            spec_rd_times_ln(1, 1, NOM as int, DENOM as int) * val <= u32::MAX,
        ensures
            r.spec_raw() == (val * 1 * DENOM) / (1 * NOM),
    {
        Self::from_unit(val, 1, 1)
    }

    /// The whole number of kilohertz this rate covers.
    #[allow(non_snake_case)]
    pub fn to_kHz(&self) -> (r: u32)
        requires
            spec_rd_times_ln(NOM as int, DENOM as int, 1_000, 1) * self.spec_raw() <= u32::MAX,
        ensures
            r == (self.spec_raw() * NOM * 1) / (DENOM * 1_000),
    {
        self.to_unit(1_000, 1)
    }

    /// The rate of the given number of kilohertz, rounded down to this rate's raw
    /// resolution.
    #[allow(non_snake_case)]
    pub fn kHz(val: u32) -> (r: Self)
        requires
            0 < NOM,
            0 < DENOM,
            spec_rd_times_ln(1_000, 1, NOM as int, DENOM as int) * val <= u32::MAX,
        ensures
            r.spec_raw() == (val * 1_000 * DENOM) / (1 * NOM),
    {
        Self::from_unit(val, 1_000, 1)
    }

    /// The whole number of megahertz this rate covers.
    #[allow(non_snake_case)]
    pub fn to_MHz(&self) -> (r: u32)
        requires
            spec_rd_times_ln(NOM as int, DENOM as int, 1_000_000, 1) * self.spec_raw() <= u32::MAX,
        ensures
            r == (self.spec_raw() * NOM * 1) / (DENOM * 1_000_000),
    {
        self.to_unit(1_000_000, 1)
    }

    /// The rate of the given number of megahertz, rounded down to this rate's raw
    /// resolution.
    #[allow(non_snake_case)]
    pub fn MHz(val: u32) -> (r: Self)
        requires
            0 < NOM,
            0 < DENOM,
            spec_rd_times_ln(1_000_000, 1, NOM as int, DENOM as int) * val <= u32::MAX,
        ensures
            r.spec_raw() == (val * 1_000_000 * DENOM) / (1 * NOM),
    {
        Self::from_unit(val, 1_000_000, 1)
    }

    /// The rate whose period is the given nonzero number of nanoseconds.
    pub fn nanos(val: u32) -> (r: Self)
        requires
            0 < NOM,
            0 < DENOM,
            val > 0,
        ensures
            r.spec_raw() == spec_rate_to_duration_numerator(
                1,
                1_000_000_000,
                NOM as int,
                DENOM as int,
            ) as u64 as u32 / val,
    {
        Self::from_duration(Duration::<u32, 1, 1_000_000_000>::from_ticks(val))
    }

    /// The rate whose period is the given nonzero number of microseconds.
    pub fn micros(val: u32) -> (r: Self)
        requires
            0 < NOM,
            0 < DENOM,
            val > 0,
        ensures
            r.spec_raw() == spec_rate_to_duration_numerator(
                1,
                1_000_000,
                NOM as int,
                DENOM as int,
            ) as u64 as u32 / val,
    {
        Self::from_duration(Duration::<u32, 1, 1_000_000>::from_ticks(val))
    }

    /// The rate whose period is the given nonzero number of milliseconds.
    pub fn millis(val: u32) -> (r: Self)
        requires
            0 < NOM,
            0 < DENOM,
            val > 0,
        ensures
            r.spec_raw() == spec_rate_to_duration_numerator(
                1,
                1_000,
                NOM as int,
                DENOM as int,
            ) as u64 as u32 / val,
    {
        Self::from_duration(Duration::<u32, 1, 1_000>::from_ticks(val))
    }
}

impl<const NOM: u32, const DENOM: u32> Rate<u64, NOM, DENOM> {
    /// Create a rate from a raw count.
    pub fn from_raw(raw: u64) -> (r: Self)
        requires
            0 < NOM,
            0 < DENOM,
        ensures
            r.spec_raw() == raw,
    {
        Rate { raw }
    }

    /// The raw count.
    pub fn raw(&self) -> (r: u64)
        ensures
            r == self.spec_raw(),
    {
        self.raw
    }

    /// Add a rate of any base to this one, rescaling it into this base first;
    /// `None` when the rescaling multiply or the sum leaves the raw range.
    pub fn checked_add<const O_NOM: u32, const O_DENOM: u32>(
        self,
        other: Rate<u64, O_NOM, O_DENOM>,
    ) -> (r: Option<Self>)
        ensures
            ({
                let s = spec_add_ticks(
                    self.spec_raw() as int,
                    other.spec_raw() as int,
                    NOM as int,
                    DENOM as int,
                    O_NOM as int,
                    O_DENOM as int,
                    u64::MAX as int,
                );
                match r {
                    Some(v) => s == Some(v.spec_raw() as int),
                    None => s is None,
                }
            }),
    {
        proof {
            use_type_invariant(self);
            use_type_invariant(other);
        }
        match helpers::add_ticks(
            self.raw,
            other.raw,
            NOM,
            DENOM,
            O_NOM,
            O_DENOM,
            u64::MAX,
        ) {
            Some(t) => Some(Rate { raw: t }),
            None => None,
        }
    }

    /// Subtract a rate of any base from this one, rescaling it into this base
    /// first; `None` on underflow or when the rescaling multiply overflows.
    pub fn checked_sub<const O_NOM: u32, const O_DENOM: u32>(
        self,
        other: Rate<u64, O_NOM, O_DENOM>,
    ) -> (r: Option<Self>)
        ensures
            ({
                let s = spec_sub_ticks(
                    self.spec_raw() as int,
                    other.spec_raw() as int,
                    NOM as int,
                    DENOM as int,
                    O_NOM as int,
                    O_DENOM as int,
                    u64::MAX as int,
                );
                match r {
                    Some(v) => s == Some(v.spec_raw() as int),
                    None => s is None,
                }
            }),
    {
        proof {
            use_type_invariant(self);
            use_type_invariant(other);
        }
        match helpers::sub_ticks(
            self.raw,
            other.raw,
            NOM,
            DENOM,
            O_NOM,
            O_DENOM,
            u64::MAX,
        ) {
            Some(t) => Some(Rate { raw: t }),
            None => None,
        }
    }

    /// Compare with a rate of any base; the answer agrees with the exact
    /// rational comparison of the two rates, and is `None` when a rescaling
    /// multiply overflows the raw range.
    pub fn const_partial_cmp<const R_NOM: u32, const R_DENOM: u32>(
        self,
        other: Rate<u64, R_NOM, R_DENOM>,
    ) -> (r: Option<Ordering>)
        ensures
            r == spec_cmp_ticks(
                self.spec_raw() as int,
                other.spec_raw() as int,
                NOM as int,
                DENOM as int,
                R_NOM as int,
                R_DENOM as int,
                u64::MAX as int,
            ),
            r matches Some(o) ==> o == spec_ord(
                self.spec_raw() * NOM * R_DENOM,
                other.spec_raw() * R_NOM * DENOM,
            ),
    {
        proof {
            use_type_invariant(self);
            use_type_invariant(other);
        }
        helpers::cmp_ticks(
            self.raw,
            other.raw,
            NOM,
            DENOM,
            R_NOM,
            R_DENOM,
            u64::MAX,
        )
    }

    /// Equality with a rate of any base: `true` exactly when the rates are
    /// numerically equal and the rescaling multiplies stay in the raw range.
    pub fn const_eq<const R_NOM: u32, const R_DENOM: u32>(
        self,
        other: Rate<u64, R_NOM, R_DENOM>,
    ) -> (r: bool)
        ensures
            r == spec_eq_ticks(
                self.spec_raw() as int,
                other.spec_raw() as int,
                NOM as int,
                DENOM as int,
                R_NOM as int,
                R_DENOM as int,
                u64::MAX as int,
            ),
            r ==> self.spec_raw() * NOM * R_DENOM == other.spec_raw() * R_NOM * DENOM,
    {
        proof {
            use_type_invariant(self);
            use_type_invariant(other);
        }
        helpers::eq_ticks(
            self.raw,
            other.raw,
            NOM,
            DENOM,
            R_NOM,
            R_DENOM,
            u64::MAX,
        )
    }

    /// Rebase a rate of base `I_NOM / I_DENOM` onto this base; `None` when the
    /// widening multiply leaves 64 bits or the result leaves the raw range.
    pub fn const_try_from<const I_NOM: u32, const I_DENOM: u32>(
        rate: Rate<u64, I_NOM, I_DENOM>,
    ) -> (r: Option<Self>)
        requires
            0 < NOM,
            0 < DENOM,
        ensures
            ({
                let s = spec_convert_ticks(
                    rate.spec_raw() as int,
                    I_NOM as int,
                    I_DENOM as int,
                    NOM as int,
                    DENOM as int,
                    u64::MAX as int,
                );
                match r {
                    Some(v) => s == Some(v.spec_raw() as int),
                    None => s is None,
                }
            }),
            r matches Some(v) ==> v.spec_raw() == (rate.spec_raw() * I_NOM * DENOM) / (I_DENOM
                * NOM),
    {
        proof {
            use_type_invariant(rate);
        }
        match helpers::convert_ticks(
            rate.raw,
            I_NOM,
            I_DENOM,
            NOM,
            DENOM,
            u64::MAX,
        ) {
            Some(t) => Some(Rate { raw: t }),
            None => None,
        }
    }

    /// Rebase this rate onto the base `O_NOM / O_DENOM`; `None` when the
    /// widening multiply leaves 64 bits or the result leaves the raw range.
    pub fn const_try_into<const O_NOM: u32, const O_DENOM: u32>(self) -> (r: Option<
        Rate<u64, O_NOM, O_DENOM>,
    >)
        requires
            0 < O_NOM,
            0 < O_DENOM,
        ensures
            ({
                let s = spec_convert_ticks(
                    self.spec_raw() as int,
                    NOM as int,
                    DENOM as int,
                    O_NOM as int,
                    O_DENOM as int,
                    u64::MAX as int,
                );
                match r {
                    Some(v) => s == Some(v.spec_raw() as int),
                    None => s is None,
                }
            }),
            r matches Some(v) ==> v.spec_raw() == (self.spec_raw() * NOM * O_DENOM) / (DENOM
                * O_NOM),
    {
        Rate::<u64, O_NOM, O_DENOM>::const_try_from(self)
    }

    /// Rebase this rate onto the base `O_NOM / O_DENOM`, which must succeed:
    /// the fail-fast counterpart of `const_try_into`.
    pub fn convert<const O_NOM: u32, const O_DENOM: u32>(self) -> (r: Rate<u64, O_NOM, O_DENOM>)
        requires
            0 < O_NOM,
            0 < O_DENOM,
            spec_convert_ticks(
                self.spec_raw() as int,
                NOM as int,
                DENOM as int,
                O_NOM as int,
                O_DENOM as int,
                u64::MAX as int,
            ) is Some,
        ensures
            Some(r.spec_raw() as int) == spec_convert_ticks(
                self.spec_raw() as int,
                NOM as int,
                DENOM as int,
                O_NOM as int,
                O_DENOM as int,
                u64::MAX as int,
            ),
            r.spec_raw() == (self.spec_raw() * NOM * O_DENOM) / (DENOM * O_NOM),
    {
        self.const_try_into().unwrap()
    }

    /// The span that is this rate's period; `None` on a zero raw value, whose
    /// reciprocal does not exist.
    pub fn try_into_duration<const O_NOM: u32, const O_DENOM: u32>(self) -> (r: Option<
        Duration<u64, O_NOM, O_DENOM>,
    >)
        requires
            0 < O_NOM,
            0 < O_DENOM,
        ensures
            r is Some <==> self.spec_raw() > 0,
            r matches Some(d) ==> d.spec_ticks() == spec_rate_to_duration_numerator(
                NOM as int,
                DENOM as int,
                O_NOM as int,
                O_DENOM as int,
            ) as u64 / self.spec_raw(),
    {
        Duration::<u64, O_NOM, O_DENOM>::try_from_rate(self)
    }

    /// The span that is this rate's period: the fail-fast counterpart of
    /// `try_into_duration`, so the raw value must be nonzero.
    pub fn into_duration<const O_NOM: u32, const O_DENOM: u32>(self) -> (r: Duration<
        u64,
        O_NOM,
        O_DENOM,
    >)
        requires
            0 < O_NOM,
            0 < O_DENOM,
            self.spec_raw() > 0,
        ensures
            r.spec_ticks() == spec_rate_to_duration_numerator(
                NOM as int,
                DENOM as int,
                O_NOM as int,
                O_DENOM as int,
            ) as u64 / self.spec_raw(),
    {
        self.try_into_duration().unwrap()
    }

    /// The rate whose period is the given span; `None` on a zero tick count,
    /// whose reciprocal does not exist.
    pub fn try_from_duration<const I_NOM: u32, const I_DENOM: u32>(
        duration: Duration<u64, I_NOM, I_DENOM>,
    ) -> (r: Option<Self>)
        requires
            0 < NOM,
            0 < DENOM,
        ensures
            r is Some <==> duration.spec_ticks() > 0,
            r matches Some(v) ==> v.spec_raw() == spec_rate_to_duration_numerator(
                I_NOM as int,
                I_DENOM as int,
                NOM as int,
                DENOM as int,
            ) as u64 / duration.spec_ticks(),
    {
        proof {
            use_type_invariant(duration);
        }
        if duration.ticks() > 0 {
            let v = helpers::rate_to_duration_num(I_NOM, I_DENOM, NOM, DENOM);
            Some(Rate { raw: v / duration.ticks() })
        } else {
            None
        }
    }

    /// The rate whose period is the given span: the fail-fast counterpart of
    /// `try_from_duration`, so the tick count must be nonzero.
    pub fn from_duration<const I_NOM: u32, const I_DENOM: u32>(
        duration: Duration<u64, I_NOM, I_DENOM>,
    ) -> (r: Self)
        requires
            0 < NOM,
            0 < DENOM,
            duration.spec_ticks() > 0,
        ensures
            r.spec_raw() == spec_rate_to_duration_numerator(
                I_NOM as int,
                I_DENOM as int,
                NOM as int,
                DENOM as int,
            ) as u64 / duration.spec_ticks(),
    {
        Self::try_from_duration(duration).unwrap()
    }

    /// The whole number of `un / ud`-hertz units this rate covers.
    fn to_unit(&self, un: u32, ud: u32) -> (r: u64)
        requires
            0 < un,
            0 < ud,
            spec_rd_times_ln(NOM as int, DENOM as int, un as int, ud as int) * self.spec_raw()
                <= u64::MAX,
        ensures
            r == (self.spec_raw() * NOM * ud) / (DENOM * un),
    {
        proof {
            use_type_invariant(self);
            lemma_convert_exact(
                self.spec_raw() as int,
                NOM as int,
                DENOM as int,
                un as int,
                ud as int,
            );
        }
        let (x, y) = helpers::reduce(NOM, DENOM, un, ud);
        let m = x * self.raw;
        proof {
            vstd::arithmetic::mul::lemma_mul_is_commutative(x as int, self.spec_raw() as int);
        }
        m / y
    }

    /// The rate covering the given whole number of `un / ud`-hertz units,
    /// rounded down to this rate's raw resolution.
    fn from_unit(val: u64, un: u32, ud: u32) -> (r: Self)
        requires
            0 < NOM,
            0 < DENOM,
            0 < un,
            0 < ud,
            spec_rd_times_ln(un as int, ud as int, NOM as int, DENOM as int) * val <= u64::MAX,
        ensures
            r.spec_raw() == (val * un * DENOM) / (ud * NOM),
    {
        proof {
            lemma_convert_exact(val as int, un as int, ud as int, NOM as int, DENOM as int);
        }
        let (x, y) = helpers::reduce(un, ud, NOM, DENOM);
        let m = x * val;
        proof {
            vstd::arithmetic::mul::lemma_mul_is_commutative(x as int, val as int);
        }
        Rate { raw: m / y }
    }

    /// The whole number of hertz this rate covers.
    #[allow(non_snake_case)]
    pub fn to_Hz(&self) -> (r: u64)
        requires
            spec_rd_times_ln(NOM as int, DENOM as int, 1, 1) * self.spec_raw() <= u64::MAX,
        ensures
            r == (self.spec_raw() * NOM * 1) / (DENOM * 1),
    {
        self.to_unit(1, 1)
    }

    /// The rate of the given number of hertz, rounded down to this rate's raw
    /// resolution.
    #[allow(non_snake_case)]
    pub fn Hz(val: u64) -> (r: Self)
        requires
            0 < NOM,
            0 < DENOM,
            spec_rd_times_ln(1, 1, NOM as int, DENOM as int) * val <= u64::MAX,
        ensures
            r.spec_raw() == (val * 1 * DENOM) / (1 * NOM),
    {
        Self::from_unit(val, 1, 1)
    }

    /// The whole number of kilohertz this rate covers.
    #[allow(non_snake_case)]
    pub fn to_kHz(&self) -> (r: u64)
        requires
            spec_rd_times_ln(NOM as int, DENOM as int, 1_000, 1) * self.spec_raw() <= u64::MAX,
        ensures
            r == (self.spec_raw() * NOM * 1) / (DENOM * 1_000),
    {
        self.to_unit(1_000, 1)
    }

    /// The rate of the given number of kilohertz, rounded down to this rate's raw
    /// resolution.
    #[allow(non_snake_case)]
    pub fn kHz(val: u64) -> (r: Self)
        requires
            0 < NOM,
            0 < DENOM,
            spec_rd_times_ln(1_000, 1, NOM as int, DENOM as int) * val <= u64::MAX,
        ensures
            r.spec_raw() == (val * 1_000 * DENOM) / (1 * NOM),
    {
        Self::from_unit(val, 1_000, 1)
    }

    /// The whole number of megahertz this rate covers.
    #[allow(non_snake_case)]
    pub fn to_MHz(&self) -> (r: u64)
        requires
            spec_rd_times_ln(NOM as int, DENOM as int, 1_000_000, 1) * self.spec_raw() <= u64::MAX,
        ensures
            r == (self.spec_raw() * NOM * 1) / (DENOM * 1_000_000),
    {
        self.to_unit(1_000_000, 1)
    }

    /// The rate of the given number of megahertz, rounded down to this rate's raw
    /// resolution.
    #[allow(non_snake_case)]
    pub fn MHz(val: u64) -> (r: Self)
        requires
            0 < NOM,
            0 < DENOM,
            spec_rd_times_ln(1_000_000, 1, NOM as int, DENOM as int) * val <= u64::MAX,
        ensures
            r.spec_raw() == (val * 1_000_000 * DENOM) / (1 * NOM),
    {
        Self::from_unit(val, 1_000_000, 1)
    }

    /// The rate whose period is the given nonzero number of nanoseconds.
    pub fn nanos(val: u64) -> (r: Self)
        requires
            0 < NOM,
            0 < DENOM,
            val > 0,
        ensures
            r.spec_raw() == spec_rate_to_duration_numerator(
                1,
                1_000_000_000,
                NOM as int,
                DENOM as int,
            ) as u64 / val,
    {
        Self::from_duration(Duration::<u64, 1, 1_000_000_000>::from_ticks(val))
    }

    /// The rate whose period is the given nonzero number of microseconds.
    pub fn micros(val: u64) -> (r: Self)
        requires
            0 < NOM,
            0 < DENOM,
            val > 0,
        ensures
            r.spec_raw() == spec_rate_to_duration_numerator(
                1,
                1_000_000,
                NOM as int,
                DENOM as int,
            ) as u64 / val,
    {
        Self::from_duration(Duration::<u64, 1, 1_000_000>::from_ticks(val))
    }

    /// The rate whose period is the given nonzero number of milliseconds.
    pub fn millis(val: u64) -> (r: Self)
        requires
            0 < NOM,
            0 < DENOM,
            val > 0,
        ensures
            r.spec_raw() == spec_rate_to_duration_numerator(
                1,
                1_000,
                NOM as int,
                DENOM as int,
            ) as u64 / val,
    {
        Self::from_duration(Duration::<u64, 1, 1_000>::from_ticks(val))
    }
}

impl<const L_NOM: u32, const L_DENOM: u32, const R_NOM: u32, const R_DENOM: u32> PartialEq<Rate<u32, R_NOM, R_DENOM>> for Rate<u32, L_NOM, L_DENOM> {
    fn eq(&self, other: &Rate<u32, R_NOM, R_DENOM>) -> (r: bool) {
        self.const_eq(*other)
    }
}

impl<const L_NOM: u32, const L_DENOM: u32, const R_NOM: u32, const R_DENOM: u32> vstd::std_specs::cmp::PartialEqSpecImpl<Rate<u32, R_NOM, R_DENOM>> for Rate<u32, L_NOM, L_DENOM> {
    open spec fn obeys_eq_spec() -> bool {
        true
    }

    open spec fn eq_spec(&self, other: &Rate<u32, R_NOM, R_DENOM>) -> bool {
        spec_eq_ticks(
            self.spec_raw() as int,
            other.spec_raw() as int,
            L_NOM as int,
            L_DENOM as int,
            R_NOM as int,
            R_DENOM as int,
            u32::MAX as int,
        )
    }
}

impl<const L_NOM: u32, const L_DENOM: u32, const R_NOM: u32, const R_DENOM: u32> PartialOrd<Rate<u32, R_NOM, R_DENOM>> for Rate<u32, L_NOM, L_DENOM> {
    fn partial_cmp(&self, other: &Rate<u32, R_NOM, R_DENOM>) -> (r: Option<Ordering>) {
        self.const_partial_cmp(*other)
    }
}

impl<const L_NOM: u32, const L_DENOM: u32, const R_NOM: u32, const R_DENOM: u32> vstd::std_specs::cmp::PartialOrdSpecImpl<Rate<u32, R_NOM, R_DENOM>> for Rate<u32, L_NOM, L_DENOM> {
    open spec fn obeys_partial_cmp_spec() -> bool {
        true
    }

    open spec fn partial_cmp_spec(&self, other: &Rate<u32, R_NOM, R_DENOM>) -> Option<Ordering> {
        spec_cmp_ticks(
            self.spec_raw() as int,
            other.spec_raw() as int,
            L_NOM as int,
            L_DENOM as int,
            R_NOM as int,
            R_DENOM as int,
            u32::MAX as int,
        )
    }
}

impl<const NOM: u32, const DENOM: u32> core::ops::Add for Rate<u32, NOM, DENOM> {
    type Output = Self;

    /// Same-base addition; the fail-fast counterpart of `checked_add`.
    fn add(self, other: Self) -> (r: Self) {
        proof {
            use_type_invariant(self);
            lemma_reduction(NOM as int, DENOM as int, NOM as int, DENOM as int);
        }
        self.checked_add(other).unwrap()
    }
}

impl<const NOM: u32, const DENOM: u32> vstd::std_specs::ops::AddSpecImpl for Rate<u32, NOM, DENOM> {
    open spec fn obeys_add_spec() -> bool {
        true
    }

    open spec fn add_req(self, other: Self) -> bool {
        self.spec_raw() + other.spec_raw() <= u32::MAX
    }

    open spec fn add_spec(self, other: Self) -> Self {
        Self::spec_new((self.spec_raw() + other.spec_raw()) as u32)
    }
}

impl<const NOM: u32, const DENOM: u32> core::ops::Sub for Rate<u32, NOM, DENOM> {
    type Output = Self;

    /// Same-base subtraction; the fail-fast counterpart of `checked_sub`.
    fn sub(self, other: Self) -> (r: Self) {
        proof {
            use_type_invariant(self);
            lemma_reduction(NOM as int, DENOM as int, NOM as int, DENOM as int);
        }
        self.checked_sub(other).unwrap()
    }
}

impl<const NOM: u32, const DENOM: u32> vstd::std_specs::ops::SubSpecImpl for Rate<u32, NOM, DENOM> {
    open spec fn obeys_sub_spec() -> bool {
        true
    }

    open spec fn sub_req(self, other: Self) -> bool {
        other.spec_raw() <= self.spec_raw()
    }

    open spec fn sub_spec(self, other: Self) -> Self {
        Self::spec_new((self.spec_raw() - other.spec_raw()) as u32)
    }
}

impl<const NOM: u32, const DENOM: u32> core::ops::Mul<u32> for Rate<u32, NOM, DENOM> {
    type Output = Self;

    /// Scale the raw count; overflow is a caller error.
    fn mul(self, other: u32) -> (r: Self) {
        proof {
            use_type_invariant(self);
        }
        Rate { raw: self.raw * other }
    }
}

impl<const NOM: u32, const DENOM: u32> vstd::std_specs::ops::MulSpecImpl<u32> for Rate<u32, NOM, DENOM> {
    open spec fn obeys_mul_spec() -> bool {
        true
    }

    open spec fn mul_req(self, other: u32) -> bool {
        self.spec_raw() * other <= u32::MAX
    }

    open spec fn mul_spec(self, other: u32) -> Self {
        Self::spec_new((self.spec_raw() * other) as u32)
    }
}

impl<const NOM: u32, const DENOM: u32> core::ops::Div<u32> for Rate<u32, NOM, DENOM> {
    type Output = Self;

    /// Divide the raw count, truncating; a zero divisor is a caller error.
    fn div(self, other: u32) -> (r: Self) {
        proof {
            use_type_invariant(self);
        }
        Rate { raw: self.raw / other }
    }
}

impl<const NOM: u32, const DENOM: u32> vstd::std_specs::ops::DivSpecImpl<u32> for Rate<u32, NOM, DENOM> {
    open spec fn obeys_div_spec() -> bool {
        true
    }

    open spec fn div_req(self, other: u32) -> bool {
        other > 0
    }

    open spec fn div_spec(self, other: u32) -> Self {
        Self::spec_new((self.spec_raw() / other) as u32)
    }
}

impl<const L_NOM: u32, const L_DENOM: u32, const R_NOM: u32, const R_DENOM: u32> core::ops::Div<Rate<u32, R_NOM, R_DENOM>> for Rate<u32, L_NOM, L_DENOM> {
    type Output = u32;

    /// The truncated ratio of two rates: this rate is rebased onto the
    /// divisor's base first, so the rebasing must succeed and the divisor must
    /// be nonzero.
    fn div(self, other: Rate<u32, R_NOM, R_DENOM>) -> (r: u32) {
        proof {
            use_type_invariant(other);
        }
        let conv: Rate<u32, R_NOM, R_DENOM> = self.convert();
        conv.raw / other.raw
    }
}

impl<const L_NOM: u32, const L_DENOM: u32, const R_NOM: u32, const R_DENOM: u32> vstd::std_specs::ops::DivSpecImpl<Rate<u32, R_NOM, R_DENOM>> for Rate<u32, L_NOM, L_DENOM> {
    open spec fn obeys_div_spec() -> bool {
        true
    }

    open spec fn div_req(self, other: Rate<u32, R_NOM, R_DENOM>) -> bool {
        &&& other.spec_raw() > 0
        &&& spec_convert_ticks(
            self.spec_raw() as int,
            L_NOM as int,
            L_DENOM as int,
            R_NOM as int,
            R_DENOM as int,
            u32::MAX as int,
        ) is Some
    }

    open spec fn div_spec(self, other: Rate<u32, R_NOM, R_DENOM>) -> u32 {
        (((self.spec_raw() * L_NOM * R_DENOM) / (L_DENOM * R_NOM)) / (other.spec_raw() as int)) as u32
    }
}

impl<const L_NOM: u32, const L_DENOM: u32, const R_NOM: u32, const R_DENOM: u32> PartialEq<Rate<u64, R_NOM, R_DENOM>> for Rate<u64, L_NOM, L_DENOM> {
    fn eq(&self, other: &Rate<u64, R_NOM, R_DENOM>) -> (r: bool) {
        self.const_eq(*other)
    }
}

impl<const L_NOM: u32, const L_DENOM: u32, const R_NOM: u32, const R_DENOM: u32> vstd::std_specs::cmp::PartialEqSpecImpl<Rate<u64, R_NOM, R_DENOM>> for Rate<u64, L_NOM, L_DENOM> {
    open spec fn obeys_eq_spec() -> bool {
        true
    }

    open spec fn eq_spec(&self, other: &Rate<u64, R_NOM, R_DENOM>) -> bool {
        spec_eq_ticks(
            self.spec_raw() as int,
            other.spec_raw() as int,
            L_NOM as int,
            L_DENOM as int,
            R_NOM as int,
            R_DENOM as int,
            u64::MAX as int,
        )
    }
}

impl<const L_NOM: u32, const L_DENOM: u32, const R_NOM: u32, const R_DENOM: u32> PartialOrd<Rate<u64, R_NOM, R_DENOM>> for Rate<u64, L_NOM, L_DENOM> {
    fn partial_cmp(&self, other: &Rate<u64, R_NOM, R_DENOM>) -> (r: Option<Ordering>) {
        self.const_partial_cmp(*other)
    }
}

impl<const L_NOM: u32, const L_DENOM: u32, const R_NOM: u32, const R_DENOM: u32> vstd::std_specs::cmp::PartialOrdSpecImpl<Rate<u64, R_NOM, R_DENOM>> for Rate<u64, L_NOM, L_DENOM> {
    open spec fn obeys_partial_cmp_spec() -> bool {
        true
    }

    open spec fn partial_cmp_spec(&self, other: &Rate<u64, R_NOM, R_DENOM>) -> Option<Ordering> {
        spec_cmp_ticks(
            self.spec_raw() as int,
            other.spec_raw() as int,
            L_NOM as int,
            L_DENOM as int,
            R_NOM as int,
            R_DENOM as int,
            u64::MAX as int,
        )
    }
}

impl<const NOM: u32, const DENOM: u32> core::ops::Add for Rate<u64, NOM, DENOM> {
    type Output = Self;

    /// Same-base addition; the fail-fast counterpart of `checked_add`.
    fn add(self, other: Self) -> (r: Self) {
        proof {
            use_type_invariant(self);
            lemma_reduction(NOM as int, DENOM as int, NOM as int, DENOM as int);
        }
        self.checked_add(other).unwrap()
    }
}

impl<const NOM: u32, const DENOM: u32> vstd::std_specs::ops::AddSpecImpl for Rate<u64, NOM, DENOM> {
    open spec fn obeys_add_spec() -> bool {
        true
    }

    open spec fn add_req(self, other: Self) -> bool {
        self.spec_raw() + other.spec_raw() <= u64::MAX
    }

    open spec fn add_spec(self, other: Self) -> Self {
        Self::spec_new((self.spec_raw() + other.spec_raw()) as u64)
    }
}

impl<const NOM: u32, const DENOM: u32> core::ops::Sub for Rate<u64, NOM, DENOM> {
    type Output = Self;

    /// Same-base subtraction; the fail-fast counterpart of `checked_sub`.
    fn sub(self, other: Self) -> (r: Self) {
        proof {
            use_type_invariant(self);
            lemma_reduction(NOM as int, DENOM as int, NOM as int, DENOM as int);
        }
        self.checked_sub(other).unwrap()
    }
}

impl<const NOM: u32, const DENOM: u32> vstd::std_specs::ops::SubSpecImpl for Rate<u64, NOM, DENOM> {
    open spec fn obeys_sub_spec() -> bool {
        true
    }

    open spec fn sub_req(self, other: Self) -> bool {
        other.spec_raw() <= self.spec_raw()
    }

    open spec fn sub_spec(self, other: Self) -> Self {
        Self::spec_new((self.spec_raw() - other.spec_raw()) as u64)
    }
}

impl<const NOM: u32, const DENOM: u32> core::ops::Mul<u32> for Rate<u64, NOM, DENOM> {
    type Output = Self;

    /// Scale the raw count; overflow is a caller error.
    fn mul(self, other: u32) -> (r: Self) {
        proof {
            use_type_invariant(self);
        }
        Rate { raw: self.raw * other as u64 }
    }
}

impl<const NOM: u32, const DENOM: u32> vstd::std_specs::ops::MulSpecImpl<u32> for Rate<u64, NOM, DENOM> {
    open spec fn obeys_mul_spec() -> bool {
        true
    }

    open spec fn mul_req(self, other: u32) -> bool {
        self.spec_raw() * other <= u64::MAX
    }

    open spec fn mul_spec(self, other: u32) -> Self {
        Self::spec_new((self.spec_raw() * other) as u64)
    }
}

impl<const NOM: u32, const DENOM: u32> core::ops::Div<u32> for Rate<u64, NOM, DENOM> {
    type Output = Self;

    /// Divide the raw count, truncating; a zero divisor is a caller error.
    fn div(self, other: u32) -> (r: Self) {
        proof {
            use_type_invariant(self);
        }
        Rate { raw: self.raw / other as u64 }
    }
}

impl<const NOM: u32, const DENOM: u32> vstd::std_specs::ops::DivSpecImpl<u32> for Rate<u64, NOM, DENOM> {
    open spec fn obeys_div_spec() -> bool {
        true
    }

    open spec fn div_req(self, other: u32) -> bool {
        other > 0
    }

    open spec fn div_spec(self, other: u32) -> Self {
        Self::spec_new((self.spec_raw() / other as u64) as u64)
    }
}

impl<const L_NOM: u32, const L_DENOM: u32, const R_NOM: u32, const R_DENOM: u32> core::ops::Div<Rate<u64, R_NOM, R_DENOM>> for Rate<u64, L_NOM, L_DENOM> {
    type Output = u64;

    /// The truncated ratio of two rates: this rate is rebased onto the
    /// divisor's base first, so the rebasing must succeed and the divisor must
    /// be nonzero.
    fn div(self, other: Rate<u64, R_NOM, R_DENOM>) -> (r: u64) {
        proof {
            use_type_invariant(other);
        }
        let conv: Rate<u64, R_NOM, R_DENOM> = self.convert();
        conv.raw / other.raw
    }
}

impl<const L_NOM: u32, const L_DENOM: u32, const R_NOM: u32, const R_DENOM: u32> vstd::std_specs::ops::DivSpecImpl<Rate<u64, R_NOM, R_DENOM>> for Rate<u64, L_NOM, L_DENOM> {
    open spec fn obeys_div_spec() -> bool {
        true
    }

    open spec fn div_req(self, other: Rate<u64, R_NOM, R_DENOM>) -> bool {
        &&& other.spec_raw() > 0
        &&& spec_convert_ticks(
            self.spec_raw() as int,
            L_NOM as int,
            L_DENOM as int,
            R_NOM as int,
            R_DENOM as int,
            u64::MAX as int,
        ) is Some
    }

    open spec fn div_spec(self, other: Rate<u64, R_NOM, R_DENOM>) -> u64 {
        (((self.spec_raw() * L_NOM * R_DENOM) / (L_DENOM * R_NOM)) / (other.spec_raw() as int)) as u64
    }
}

impl<const NOM: u32, const DENOM: u32> From<Rate<u32, NOM, DENOM>> for Rate<u64, NOM, DENOM> {
    /// Widen the backing type; lossless.
    fn from(val: Rate<u32, NOM, DENOM>) -> (r: Rate<u64, NOM, DENOM>) {
        proof {
            use_type_invariant(val);
        }
        Rate { raw: val.raw as u64 }
    }
}

impl<const NOM: u32, const DENOM: u32> vstd::std_specs::convert::FromSpecImpl<Rate<u32, NOM, DENOM>> for Rate<u64, NOM, DENOM> {
    open spec fn obeys_from_spec() -> bool {
        true
    }

    open spec fn from_spec(val: Rate<u32, NOM, DENOM>) -> Self {
        Self::spec_new(val.spec_raw() as u64)
    }
}

impl<const NOM: u32, const DENOM: u32> TryFrom<Rate<u64, NOM, DENOM>> for Rate<u32, NOM, DENOM> {
    type Error = ();

    /// Narrow the backing type; fails when the raw count does not fit.
    fn try_from(val: Rate<u64, NOM, DENOM>) -> (r: Result<Self, ()>) {
        proof {
            use_type_invariant(val);
        }
        if val.raw <= u32::MAX as u64 {
            Ok(Rate { raw: val.raw as u32 })
        } else {
            Err(())
        }
    }
}

impl<const NOM: u32, const DENOM: u32> vstd::std_specs::convert::TryFromSpecImpl<Rate<u64, NOM, DENOM>> for Rate<u32, NOM, DENOM> {
    open spec fn obeys_try_from_spec() -> bool {
        true
    }

    open spec fn try_from_spec(val: Rate<u64, NOM, DENOM>) -> Result<Self, ()> {
        if val.spec_raw() <= u32::MAX {
            Ok(Self::spec_new(val.spec_raw() as u32))
        } else {
            Err(())
        }
    }
}

impl<const NOM: u32, const DENOM: u32> core::ops::Add<Rate<u32, NOM, DENOM>> for Rate<u64, NOM, DENOM> {
    type Output = Self;

    /// Same-base addition of a narrower rate, widened losslessly first.
    fn add(self, other: Rate<u32, NOM, DENOM>) -> (r: Self) {
        proof {
            use_type_invariant(self);
            use_type_invariant(other);
            lemma_reduction(NOM as int, DENOM as int, NOM as int, DENOM as int);
        }
        self.checked_add(Rate::<u64, NOM, DENOM>::from_raw(other.raw() as u64)).unwrap()
    }
}

impl<const NOM: u32, const DENOM: u32> vstd::std_specs::ops::AddSpecImpl<Rate<u32, NOM, DENOM>> for Rate<u64, NOM, DENOM> {
    open spec fn obeys_add_spec() -> bool {
        true
    }

    open spec fn add_req(self, other: Rate<u32, NOM, DENOM>) -> bool {
        self.spec_raw() + other.spec_raw() <= u64::MAX
    }

    open spec fn add_spec(self, other: Rate<u32, NOM, DENOM>) -> Self {
        Self::spec_new((self.spec_raw() + other.spec_raw()) as u64)
    }
}

impl<const NOM: u32, const DENOM: u32> core::ops::Sub<Rate<u32, NOM, DENOM>> for Rate<u64, NOM, DENOM> {
    type Output = Self;

    /// Same-base subtraction of a narrower rate, widened losslessly first.
    fn sub(self, other: Rate<u32, NOM, DENOM>) -> (r: Self) {
        proof {
            use_type_invariant(self);
            use_type_invariant(other);
            lemma_reduction(NOM as int, DENOM as int, NOM as int, DENOM as int);
        }
        self.checked_sub(Rate::<u64, NOM, DENOM>::from_raw(other.raw() as u64)).unwrap()
    }
}

impl<const NOM: u32, const DENOM: u32> vstd::std_specs::ops::SubSpecImpl<Rate<u32, NOM, DENOM>> for Rate<u64, NOM, DENOM> {
    open spec fn obeys_sub_spec() -> bool {
        true
    }

    open spec fn sub_req(self, other: Rate<u32, NOM, DENOM>) -> bool {
        other.spec_raw() <= self.spec_raw()
    }

    open spec fn sub_spec(self, other: Rate<u32, NOM, DENOM>) -> Self {
        Self::spec_new((self.spec_raw() - other.spec_raw()) as u64)
    }
}

impl<const L_NOM: u32, const L_DENOM: u32, const R_NOM: u32, const R_DENOM: u32> PartialEq<Rate<u32, R_NOM, R_DENOM>> for Rate<u64, L_NOM, L_DENOM> {
    fn eq(&self, other: &Rate<u32, R_NOM, R_DENOM>) -> (r: bool) {
        proof {
            use_type_invariant(self);
            use_type_invariant(other);
        }
        helpers::eq_ticks(self.raw, other.raw as u64, L_NOM, L_DENOM, R_NOM, R_DENOM, u64::MAX)
    }
}

impl<const L_NOM: u32, const L_DENOM: u32, const R_NOM: u32, const R_DENOM: u32> vstd::std_specs::cmp::PartialEqSpecImpl<Rate<u32, R_NOM, R_DENOM>> for Rate<u64, L_NOM, L_DENOM> {
    open spec fn obeys_eq_spec() -> bool {
        true
    }

    open spec fn eq_spec(&self, other: &Rate<u32, R_NOM, R_DENOM>) -> bool {
        spec_eq_ticks(
            self.spec_raw() as int,
            other.spec_raw() as int,
            L_NOM as int,
            L_DENOM as int,
            R_NOM as int,
            R_DENOM as int,
            u64::MAX as int,
        )
    }
}

impl<const L_NOM: u32, const L_DENOM: u32, const R_NOM: u32, const R_DENOM: u32> PartialOrd<Rate<u32, R_NOM, R_DENOM>> for Rate<u64, L_NOM, L_DENOM> {
    fn partial_cmp(&self, other: &Rate<u32, R_NOM, R_DENOM>) -> (r: Option<Ordering>) {
        proof {
            use_type_invariant(self);
            use_type_invariant(other);
        }
        helpers::cmp_ticks(self.raw, other.raw as u64, L_NOM, L_DENOM, R_NOM, R_DENOM, u64::MAX)
    }
}

impl<const L_NOM: u32, const L_DENOM: u32, const R_NOM: u32, const R_DENOM: u32> vstd::std_specs::cmp::PartialOrdSpecImpl<Rate<u32, R_NOM, R_DENOM>> for Rate<u64, L_NOM, L_DENOM> {
    open spec fn obeys_partial_cmp_spec() -> bool {
        true
    }

    open spec fn partial_cmp_spec(&self, other: &Rate<u32, R_NOM, R_DENOM>) -> Option<Ordering> {
        spec_cmp_ticks(
            self.spec_raw() as int,
            other.spec_raw() as int,
            L_NOM as int,
            L_DENOM as int,
            R_NOM as int,
            R_DENOM as int,
            u64::MAX as int,
        )
    }
}

impl<const L_NOM: u32, const L_DENOM: u32, const R_NOM: u32, const R_DENOM: u32> PartialEq<Rate<u64, R_NOM, R_DENOM>> for Rate<u32, L_NOM, L_DENOM> {
    fn eq(&self, other: &Rate<u64, R_NOM, R_DENOM>) -> (r: bool) {
        proof {
            use_type_invariant(self);
            use_type_invariant(other);
        }
        helpers::eq_ticks(self.raw as u64, other.raw, L_NOM, L_DENOM, R_NOM, R_DENOM, u64::MAX)
    }
}

impl<const L_NOM: u32, const L_DENOM: u32, const R_NOM: u32, const R_DENOM: u32> vstd::std_specs::cmp::PartialEqSpecImpl<Rate<u64, R_NOM, R_DENOM>> for Rate<u32, L_NOM, L_DENOM> {
    open spec fn obeys_eq_spec() -> bool {
        true
    }

    open spec fn eq_spec(&self, other: &Rate<u64, R_NOM, R_DENOM>) -> bool {
        spec_eq_ticks(
            self.spec_raw() as int,
            other.spec_raw() as int,
            L_NOM as int,
            L_DENOM as int,
            R_NOM as int,
            R_DENOM as int,
            u64::MAX as int,
        )
    }
}

impl<const L_NOM: u32, const L_DENOM: u32, const R_NOM: u32, const R_DENOM: u32> PartialOrd<Rate<u64, R_NOM, R_DENOM>> for Rate<u32, L_NOM, L_DENOM> {
    fn partial_cmp(&self, other: &Rate<u64, R_NOM, R_DENOM>) -> (r: Option<Ordering>) {
        proof {
            use_type_invariant(self);
            use_type_invariant(other);
        }
        helpers::cmp_ticks(self.raw as u64, other.raw, L_NOM, L_DENOM, R_NOM, R_DENOM, u64::MAX)
    }
}

impl<const L_NOM: u32, const L_DENOM: u32, const R_NOM: u32, const R_DENOM: u32> vstd::std_specs::cmp::PartialOrdSpecImpl<Rate<u64, R_NOM, R_DENOM>> for Rate<u32, L_NOM, L_DENOM> {
    open spec fn obeys_partial_cmp_spec() -> bool {
        true
    }

    open spec fn partial_cmp_spec(&self, other: &Rate<u64, R_NOM, R_DENOM>) -> Option<Ordering> {
        spec_cmp_ticks(
            self.spec_raw() as int,
            other.spec_raw() as int,
            L_NOM as int,
            L_DENOM as int,
            R_NOM as int,
            R_DENOM as int,
            u64::MAX as int,
        )
    }
}

/// Short-hands that turn a plain `u32` into a rate of a named unit, rounded
/// down to the target base's raw resolution.
pub trait ExtU32 {
    /// The numeric value of this quantity.
    spec fn spec_val(self) -> int;

    /// A rate of the given number of hertz, rounded down.
    #[allow(non_snake_case)]
    fn Hz<const NOM: u32, const DENOM: u32>(self) -> (r: Rate<u32, NOM, DENOM>)
        requires
            0 < NOM,
            0 < DENOM,
            spec_rd_times_ln(1, 1, NOM as int, DENOM as int) * self.spec_val() <= u32::MAX,
        ensures
            r.spec_raw() == (self.spec_val() * 1 * DENOM) / (1 * NOM),
    ;

    /// A rate of the given number of kilohertz, rounded down.
    #[allow(non_snake_case)]
    fn kHz<const NOM: u32, const DENOM: u32>(self) -> (r: Rate<u32, NOM, DENOM>)
        requires
            0 < NOM,
            0 < DENOM,
            spec_rd_times_ln(1_000, 1, NOM as int, DENOM as int) * self.spec_val() <= u32::MAX,
        ensures
            r.spec_raw() == (self.spec_val() * 1_000 * DENOM) / (1 * NOM),
    ;

    /// A rate of the given number of megahertz, rounded down.
    #[allow(non_snake_case)]
    fn MHz<const NOM: u32, const DENOM: u32>(self) -> (r: Rate<u32, NOM, DENOM>)
        requires
            0 < NOM,
            0 < DENOM,
            spec_rd_times_ln(1_000_000, 1, NOM as int, DENOM as int) * self.spec_val() <= u32::MAX,
        ensures
            r.spec_raw() == (self.spec_val() * 1_000_000 * DENOM) / (1 * NOM),
    ;
}

impl ExtU32 for u32 {
    open spec fn spec_val(self) -> int {
        self as int
    }

    #[allow(non_snake_case)]
    fn Hz<const NOM: u32, const DENOM: u32>(self) -> (r: Rate<u32, NOM, DENOM>) {
        Rate::<u32, NOM, DENOM>::Hz(self)
    }

    #[allow(non_snake_case)]
    fn kHz<const NOM: u32, const DENOM: u32>(self) -> (r: Rate<u32, NOM, DENOM>) {
        Rate::<u32, NOM, DENOM>::kHz(self)
    }

    #[allow(non_snake_case)]
    fn MHz<const NOM: u32, const DENOM: u32>(self) -> (r: Rate<u32, NOM, DENOM>) {
        Rate::<u32, NOM, DENOM>::MHz(self)
    }
}

/// Short-hands that turn a plain `u64` into a rate of a named unit, rounded
/// down to the target base's raw resolution.
pub trait ExtU64 {
    /// The numeric value of this quantity.
    spec fn spec_val(self) -> int;

    /// A rate of the given number of hertz, rounded down.
    #[allow(non_snake_case)]
    fn Hz<const NOM: u32, const DENOM: u32>(self) -> (r: Rate<u64, NOM, DENOM>)
        requires
            0 < NOM,
            0 < DENOM,
            spec_rd_times_ln(1, 1, NOM as int, DENOM as int) * self.spec_val() <= u64::MAX,
        ensures
            r.spec_raw() == (self.spec_val() * 1 * DENOM) / (1 * NOM),
    ;

    /// A rate of the given number of kilohertz, rounded down.
    #[allow(non_snake_case)]
    fn kHz<const NOM: u32, const DENOM: u32>(self) -> (r: Rate<u64, NOM, DENOM>)
        requires
            0 < NOM,
            0 < DENOM,
            spec_rd_times_ln(1_000, 1, NOM as int, DENOM as int) * self.spec_val() <= u64::MAX,
        ensures
            r.spec_raw() == (self.spec_val() * 1_000 * DENOM) / (1 * NOM),
    ;

    /// A rate of the given number of megahertz, rounded down.
    #[allow(non_snake_case)]
    fn MHz<const NOM: u32, const DENOM: u32>(self) -> (r: Rate<u64, NOM, DENOM>)
        requires
            0 < NOM,
            0 < DENOM,
            spec_rd_times_ln(1_000_000, 1, NOM as int, DENOM as int) * self.spec_val() <= u64::MAX,
        ensures
            r.spec_raw() == (self.spec_val() * 1_000_000 * DENOM) / (1 * NOM),
    ;
}

impl ExtU64 for u64 {
    open spec fn spec_val(self) -> int {
        self as int
    }

    #[allow(non_snake_case)]
    fn Hz<const NOM: u32, const DENOM: u32>(self) -> (r: Rate<u64, NOM, DENOM>) {
        Rate::<u64, NOM, DENOM>::Hz(self)
    }

    #[allow(non_snake_case)]
    fn kHz<const NOM: u32, const DENOM: u32>(self) -> (r: Rate<u64, NOM, DENOM>) {
        Rate::<u64, NOM, DENOM>::kHz(self)
    }

    #[allow(non_snake_case)]
    fn MHz<const NOM: u32, const DENOM: u32>(self) -> (r: Rate<u64, NOM, DENOM>) {
        Rate::<u64, NOM, DENOM>::MHz(self)
    }
}

impl<const NOM: u32, const DENOM: u32> core::ops::Mul<Rate<u32, NOM, DENOM>> for u32 {
    type Output = Rate<u32, NOM, DENOM>;

    /// Scale a rate's raw count by an integer on the left; overflow is a
    /// caller error.
    fn mul(self, other: Rate<u32, NOM, DENOM>) -> (r: Rate<u32, NOM, DENOM>) {
        proof {
            use_type_invariant(other);
        }
        Rate { raw: (self) * other.raw }
    }
}

impl<const NOM: u32, const DENOM: u32> vstd::std_specs::ops::MulSpecImpl<Rate<u32, NOM, DENOM>> for u32 {
    open spec fn obeys_mul_spec() -> bool {
        true
    }

    open spec fn mul_req(self, other: Rate<u32, NOM, DENOM>) -> bool {
        self * other.spec_raw() <= u32::MAX
    }

    open spec fn mul_spec(self, other: Rate<u32, NOM, DENOM>) -> Rate<u32, NOM, DENOM> {
        Rate::<u32, NOM, DENOM>::spec_new((self * other.spec_raw()) as u32)
    }
}

impl<const NOM: u32, const DENOM: u32> core::ops::Mul<Rate<u64, NOM, DENOM>> for u32 {
    type Output = Rate<u64, NOM, DENOM>;

    /// Scale a rate's raw count by an integer on the left; overflow is a
    /// caller error.
    fn mul(self, other: Rate<u64, NOM, DENOM>) -> (r: Rate<u64, NOM, DENOM>) {
        proof {
            use_type_invariant(other);
        }
        Rate { raw: (self as u64) * other.raw }
    }
}

impl<const NOM: u32, const DENOM: u32> vstd::std_specs::ops::MulSpecImpl<Rate<u64, NOM, DENOM>> for u32 {
    open spec fn obeys_mul_spec() -> bool {
        true
    }

    open spec fn mul_req(self, other: Rate<u64, NOM, DENOM>) -> bool {
        self * other.spec_raw() <= u64::MAX
    }

    open spec fn mul_spec(self, other: Rate<u64, NOM, DENOM>) -> Rate<u64, NOM, DENOM> {
        Rate::<u64, NOM, DENOM>::spec_new((self * other.spec_raw()) as u64)
    }
}

} // verus!
