//! The scale-reduction engine.
//!
//! Every cross-base operation on durations, instants and rates rescales a tick
//! count from one rational scale (`numerator / denominator` seconds or hertz
//! per tick) into another.  Instead of forming the full, overflow-prone cross
//! product, the two scales are reduced by their greatest common divisor into a
//! pair of minimal factors; one multiply and one divide then move a tick count
//! between the bases.  This module computes those factors, proves what they
//! mean, and provides the shared checked tick arithmetic built on them.

use core::cmp::Ordering;
use vstd::arithmetic::div_mod::{
    lemma_div_multiples_vanish, lemma_div_multiples_vanish_quotient, lemma_fundamental_div_mod,
    lemma_mod_multiples_basic, lemma_small_mod,
};
use vstd::prelude::*;

verus! {

/// Greatest common divisor of two natural numbers, by Euclid's rule.
pub open spec fn spec_gcd(a: nat, b: nat) -> nat
    decreases b,
{
    if b == 0 {
        a
    } else {
        spec_gcd(b, a % b)
    }
}

/// The greatest common divisor is positive when either argument is, and it
/// divides both arguments.
pub proof fn lemma_gcd(a: nat, b: nat)
    requires
        a > 0 || b > 0,
    ensures
        spec_gcd(a, b) >= 1,
        a % spec_gcd(a, b) == 0,
        b % spec_gcd(a, b) == 0,
    decreases b,
{
    let g = spec_gcd(a, b);
    if b == 0 {
        assert(g == a);
        assert(a % a == 0) by (nonlinear_arith)
            requires
                a > 0,
        ;
        assert(b % a == 0) by (nonlinear_arith)
            requires
                a > 0 && b == 0,
        ;
    } else {
        lemma_gcd(b, a % b);
        assert(g == spec_gcd(b, a % b));
        lemma_fundamental_div_mod(a as int, b as int);
        lemma_fundamental_div_mod(b as int, g as int);
        lemma_fundamental_div_mod((a % b) as int, g as int);
        let k = (b as int / g as int) * (a as int / b as int) + ((a % b) as int / g as int);
        assert(a as int == k * g as int) by (nonlinear_arith)
            requires
                a as int == b as int * (a as int / b as int) + (a % b) as int,
                b as int == g as int * (b as int / g as int) + (b % g) as int,
                (a % b) as int == g as int * ((a % b) as int / g as int) + ((a % b) % g) as int,
                b % g == 0,
                (a % b) % g == 0,
                k == (b as int / g as int) * (a as int / b as int) + ((a % b) as int / g as int),
        ;
        lemma_mod_multiples_basic(k, g as int);
    }
}

/// The greatest common divisor does not depend on the order of its arguments.
pub proof fn lemma_gcd_comm(a: nat, b: nat)
    ensures
        spec_gcd(a, b) == spec_gcd(b, a),
{
    if a == 0 && b == 0 {
    } else if b == 0 {
        // spec_gcd(a, 0) == a; spec_gcd(0, a) unfolds to spec_gcd(a, 0 % a) == spec_gcd(a, 0)
        assert(0 as nat % a == 0) by (nonlinear_arith)
            requires
                a > 0,
        ;
    } else if a == 0 {
        assert(0 as nat % b == 0) by (nonlinear_arith)
            requires
                b > 0,
        ;
    } else if a == b {
        assert(a % b == 0) by (nonlinear_arith)
            requires
                a == b && b > 0,
        ;
    } else if a < b {
        // spec_gcd(a, b) unfolds to spec_gcd(b, a % b) == spec_gcd(b, a)
        lemma_small_mod(a, b);
    } else {
        lemma_small_mod(b, a);
    }
}

/// An exact division reconstructs its dividend, and a positive dividend gives
/// a positive quotient no larger than the dividend.
pub proof fn lemma_div_exact(x: nat, d: nat)
    requires
        d >= 1,
        x % d == 0,
    ensures
        (x / d) * d == x,
        x > 0 ==> 1 <= x / d <= x,
{
    lemma_fundamental_div_mod(x as int, d as int);
    assert((x / d) * d == x) by (nonlinear_arith)
        requires
            x as int == d as int * (x as int / d as int) + (x % d) as int,
            x % d == 0,
    ;
    if x > 0 {
        assert(1 <= x / d <= x) by (nonlinear_arith)
            requires
                (x / d) * d == x,
                x > 0,
                d >= 1,
        ;
    }
}

/// `gcd(ld * rn, rd * ln)`: the common divisor that reduces the cross products
/// of a left scale `ln / ld` and a right scale `rn / rd`.
pub open spec fn spec_divisor(ln: int, ld: int, rn: int, rd: int) -> int {
    spec_gcd((ld * rn) as nat, (rd * ln) as nat) as int
}

/// The reduced factor `(rd * ln) / divisor` that scales a left-hand tick count
/// into the common unit.
pub open spec fn spec_rd_times_ln(ln: int, ld: int, rn: int, rd: int) -> int {
    (rd * ln) / spec_divisor(ln, ld, rn, rd)
}

/// The reduced factor `(ld * rn) / divisor` that scales a right-hand tick
/// count into the common unit.
pub open spec fn spec_ld_times_rn(ln: int, ld: int, rn: int, rd: int) -> int {
    (ld * rn) / spec_divisor(ln, ld, rn, rd)
}

/// Two scales are same-base when their reduced cross factors coincide, i.e.
/// they are numerically equal even if written differently.
pub open spec fn spec_same_base(ln: int, ld: int, rn: int, rd: int) -> bool {
    spec_ld_times_rn(ln, ld, rn, rd) == spec_rd_times_ln(ln, ld, rn, rd)
}

/// `gcd(ln * rn, rd * ld)`: the divisor of the second reduction, which relates
/// a rate scale to a duration scale.
pub open spec fn spec_divisor_2(ln: int, ld: int, rn: int, rd: int) -> int {
    spec_gcd((ln * rn) as nat, (rd * ld) as nat) as int
}

/// The reduced factor `(ln * rn) / divisor_2`.
pub open spec fn spec_ln_times_rn(ln: int, ld: int, rn: int, rd: int) -> int {
    (ln * rn) / spec_divisor_2(ln, ld, rn, rd)
}

/// The reduced factor `(rd * ld) / divisor_2`.
pub open spec fn spec_rd_times_ld(ln: int, ld: int, rn: int, rd: int) -> int {
    (rd * ld) / spec_divisor_2(ln, ld, rn, rd)
}

/// The numerator of the reciprocal conversion between a rate of scale
/// `ln / ld` and a duration of scale `rn / rd`: dividing it by a raw rate
/// value yields a tick count, and conversely.
pub open spec fn spec_rate_to_duration_numerator(ln: int, ld: int, rn: int, rd: int) -> int {
    spec_rd_times_ld(ln, ld, rn, rd) / spec_ln_times_rn(ln, ld, rn, rd)
}

/// What the first reduction guarantees for valid scales: the divisor is
/// positive, both reduced factors are positive and reconstruct their cross
/// products exactly, and the factors coincide exactly when the cross products
/// do.
pub proof fn lemma_reduction(ln: int, ld: int, rn: int, rd: int)
    requires
        0 < ln,
        0 < ld,
        0 < rn,
        0 < rd,
    ensures
        1 <= spec_divisor(ln, ld, rn, rd),
        1 <= spec_rd_times_ln(ln, ld, rn, rd) <= rd * ln,
        1 <= spec_ld_times_rn(ln, ld, rn, rd) <= ld * rn,
        spec_rd_times_ln(ln, ld, rn, rd) * spec_divisor(ln, ld, rn, rd) == rd * ln,
        spec_ld_times_rn(ln, ld, rn, rd) * spec_divisor(ln, ld, rn, rd) == ld * rn,
        spec_same_base(ln, ld, rn, rd) <==> ld * rn == rd * ln,
{
    let a = (ld * rn) as nat;
    let b = (rd * ln) as nat;
    assert(ld * rn > 0 && rd * ln > 0) by (nonlinear_arith)
        requires
            0 < ln && 0 < ld && 0 < rn && 0 < rd,
    ;
    lemma_gcd(a, b);
    let g = spec_gcd(a, b);
    lemma_div_exact(a, g);
    lemma_div_exact(b, g);
    let x = spec_rd_times_ln(ln, ld, rn, rd);
    let y = spec_ld_times_rn(ln, ld, rn, rd);
    assert(x == b / g && y == a / g);
    assert(x * g == b && y * g == a);
    assert(ld * rn == rd * ln ==> y == x);
    assert(y == x ==> y * g == x * g);
}

/// The second reduction, for the rate/duration reciprocal: both reduced
/// factors are positive and reconstruct their products, and the reciprocal
/// numerator is bounded by `rd * ld`.
pub proof fn lemma_reduction_2(ln: int, ld: int, rn: int, rd: int)
    requires
        0 < ln,
        0 < ld,
        0 < rn,
        0 < rd,
    ensures
        1 <= spec_divisor_2(ln, ld, rn, rd),
        1 <= spec_ln_times_rn(ln, ld, rn, rd) <= ln * rn,
        1 <= spec_rd_times_ld(ln, ld, rn, rd) <= rd * ld,
        spec_ln_times_rn(ln, ld, rn, rd) * spec_divisor_2(ln, ld, rn, rd) == ln * rn,
        spec_rd_times_ld(ln, ld, rn, rd) * spec_divisor_2(ln, ld, rn, rd) == rd * ld,
        0 <= spec_rate_to_duration_numerator(ln, ld, rn, rd) <= rd * ld,
{
    let a = (ln * rn) as nat;
    let b = (rd * ld) as nat;
    assert(ln * rn > 0 && rd * ld > 0) by (nonlinear_arith)
        requires
            0 < ln && 0 < ld && 0 < rn && 0 < rd,
    ;
    lemma_gcd(a, b);
    let g = spec_gcd(a, b);
    lemma_div_exact(a, g);
    lemma_div_exact(b, g);
    let p = spec_ln_times_rn(ln, ld, rn, rd);
    let q = spec_rd_times_ld(ln, ld, rn, rd);
    assert(0 <= q / p <= q) by (nonlinear_arith)
        requires
            1 <= p && 1 <= q,
    ;
}

/// Scaling both sides of a comparison by the reduced factors agrees with the
/// exact rational comparison of the two tick counts: `lt` ticks of `ln / ld`
/// against `rt` ticks of `rn / rd` compare as `lt * ln * rd` against
/// `rt * rn * ld`.
pub proof fn lemma_scaled_cmp(lt: int, rt: int, ln: int, ld: int, rn: int, rd: int)
    requires
        0 < ln,
        0 < ld,
        0 < rn,
        0 < rd,
        0 <= lt,
        0 <= rt,
    ensures
        (lt * spec_rd_times_ln(ln, ld, rn, rd) < rt * spec_ld_times_rn(ln, ld, rn, rd)) <==> (lt
            * ln * rd < rt * rn * ld),
        (lt * spec_rd_times_ln(ln, ld, rn, rd) == rt * spec_ld_times_rn(ln, ld, rn, rd)) <==> (lt
            * ln * rd == rt * rn * ld),
        spec_same_base(ln, ld, rn, rd) ==> ((lt < rt) <==> (lt * ln * rd < rt * rn * ld)),
        spec_same_base(ln, ld, rn, rd) ==> ((lt == rt) <==> (lt * ln * rd == rt * rn * ld)),
{
    lemma_reduction(ln, ld, rn, rd);
    let g = spec_divisor(ln, ld, rn, rd);
    let x = spec_rd_times_ln(ln, ld, rn, rd);
    let y = spec_ld_times_rn(ln, ld, rn, rd);
    assert((lt * x) * g == lt * ln * rd && (rt * y) * g == rt * rn * ld) by (nonlinear_arith)
        requires
            x * g == rd * ln,
            y * g == ld * rn,
    ;
    assert(((lt * x < rt * y) <==> (lt * x) * g < (rt * y) * g) && ((lt * x == rt * y) <==> (lt * x)
        * g == (rt * y) * g)) by (nonlinear_arith)
        requires
            g >= 1,
    ;
    if spec_same_base(ln, ld, rn, rd) {
        assert(((lt < rt) <==> lt * x < rt * x) && ((lt == rt) <==> lt * x == rt * x))
            by (nonlinear_arith)
            requires
                x >= 1,
        ;
    }
}

/// Relies on gcd::binary_u64 (Stein's binary algorithm): it returns the
/// greatest common divisor of its two arguments, and in particular the other
/// argument when one of them is zero.
#[verifier::external_body]
fn gcd_u64(a: u64, b: u64) -> (r: u64)
    ensures
        r == spec_gcd(a as nat, b as nat),
{
    gcd::binary_u64(a, b)
}

/// Compute the two reduced cross factors of the scales `ln / ld` and
/// `rn / rd`: the multiplier of a left tick count and the multiplier of a
/// right tick count that bring both into a common unit.
pub(crate) fn reduce(ln: u32, ld: u32, rn: u32, rd: u32) -> (r: (u64, u64))
    requires
        0 < ln,
        0 < ld,
        0 < rn,
        0 < rd,
    ensures
        r.0 == spec_rd_times_ln(ln as int, ld as int, rn as int, rd as int),
        r.1 == spec_ld_times_rn(ln as int, ld as int, rn as int, rd as int),
        1 <= r.0,
        1 <= r.1,
{
    proof {
        lemma_reduction(ln as int, ld as int, rn as int, rd as int);
        assert(ld as int * rn as int <= u64::MAX && rd as int * ln as int <= u64::MAX)
            by (nonlinear_arith)
            requires
                ld <= u32::MAX && rn <= u32::MAX && rd <= u32::MAX && ln <= u32::MAX,
        ;
    }
    let a = (ld as u64) * (rn as u64);
    let b = (rd as u64) * (ln as u64);
    let g = gcd_u64(a, b);
    (b / g, a / g)
}

/// Whether an `Option` of machine words carries exactly the value of an
/// `Option` of unbounded integers.
pub open spec fn opt_matches(r: Option<u64>, s: Option<int>) -> bool {
    match (r, s) {
        (Some(a), Some(b)) => a == b,
        (None, None) => true,
        _ => false,
    }
}

/// A right-hand tick count of scale `rn / rd`, rescaled into the base
/// `ln / ld` by one multiply and one truncating divide; undefined when the
/// multiply exceeds `max`.
pub open spec fn spec_rescale_ticks(rt: int, ln: int, ld: int, rn: int, rd: int, max: int) -> Option<
    int,
> {
    let x = spec_rd_times_ln(ln, ld, rn, rd);
    let y = spec_ld_times_rn(ln, ld, rn, rd);
    if spec_same_base(ln, ld, rn, rd) {
        Some(rt)
    } else if rt * y > max {
        None
    } else {
        Some((rt * y) / x)
    }
}

pub(crate) fn rescale_ticks(rt: u64, ln: u32, ld: u32, rn: u32, rd: u32, max: u64) -> (r: Option<
    u64,
>)
    requires
        0 < ln,
        0 < ld,
        0 < rn,
        0 < rd,
        rt <= max,
    ensures
        opt_matches(
            r,
            spec_rescale_ticks(rt as int, ln as int, ld as int, rn as int, rd as int, max as int),
        ),
        r matches Some(q) ==> q <= max,
{
    let (x, y) = reduce(ln, ld, rn, rd);
    if x == y {
        Some(rt)
    } else {
        match rt.checked_mul(y) {
            Some(m) => if m <= max {
                proof {
                    assert(m as int / x as int <= m as int) by (nonlinear_arith)
                        requires
                            x >= 1,
                            m >= 0,
                    ;
                }
                Some(m / x)
            } else {
                None
            },
            None => None,
        }
    }
}

/// The checked sum of a tick count and a rescaled tick count, `None` on any
/// overflow past `max`.
pub open spec fn spec_add_ticks(
    lt: int,
    rt: int,
    ln: int,
    ld: int,
    rn: int,
    rd: int,
    max: int,
) -> Option<int> {
    match spec_rescale_ticks(rt, ln, ld, rn, rd, max) {
        Some(q) => if lt + q <= max {
            Some(lt + q)
        } else {
            None
        },
        None => None,
    }
}

pub(crate) fn add_ticks(lt: u64, rt: u64, ln: u32, ld: u32, rn: u32, rd: u32, max: u64) -> (r:
    Option<u64>)
    requires
        0 < ln,
        0 < ld,
        0 < rn,
        0 < rd,
        lt <= max,
        rt <= max,
    ensures
        opt_matches(
            r,
            spec_add_ticks(
                lt as int,
                rt as int,
                ln as int,
                ld as int,
                rn as int,
                rd as int,
                max as int,
            ),
        ),
        r matches Some(s) ==> s <= max,
{
    match rescale_ticks(rt, ln, ld, rn, rd, max) {
        Some(q) => match lt.checked_add(q) {
            Some(s) => if s <= max {
                Some(s)
            } else {
                None
            },
            None => None,
        },
        None => None,
    }
}

/// The checked difference of a tick count and a rescaled tick count, `None`
/// on underflow or on overflow of the rescaling multiply.
pub open spec fn spec_sub_ticks(
    lt: int,
    rt: int,
    ln: int,
    ld: int,
    rn: int,
    rd: int,
    max: int,
) -> Option<int> {
    match spec_rescale_ticks(rt, ln, ld, rn, rd, max) {
        Some(q) => if q <= lt {
            Some(lt - q)
        } else {
            None
        },
        None => None,
    }
}

pub(crate) fn sub_ticks(lt: u64, rt: u64, ln: u32, ld: u32, rn: u32, rd: u32, max: u64) -> (r:
    Option<u64>)
    requires
        0 < ln,
        0 < ld,
        0 < rn,
        0 < rd,
        lt <= max,
        rt <= max,
    ensures
        opt_matches(
            r,
            spec_sub_ticks(
                lt as int,
                rt as int,
                ln as int,
                ld as int,
                rn as int,
                rd as int,
                max as int,
            ),
        ),
        r matches Some(s) ==> s <= max,
{
    match rescale_ticks(rt, ln, ld, rn, rd, max) {
        Some(q) => lt.checked_sub(q),
        None => None,
    }
}

/// The order of two unbounded integers.
pub open spec fn spec_ord(a: int, b: int) -> Ordering {
    if a < b {
        Ordering::Less
    } else if a > b {
        Ordering::Greater
    } else {
        Ordering::Equal
    }
}

/// The cross-base comparison: same-base tick counts compare directly, other
/// pairs compare after scaling both sides into the common unit, and the
/// comparison is undefined when either scaling multiply exceeds `max`.
pub open spec fn spec_cmp_ticks(
    lt: int,
    rt: int,
    ln: int,
    ld: int,
    rn: int,
    rd: int,
    max: int,
) -> Option<Ordering> {
    let x = spec_rd_times_ln(ln, ld, rn, rd);
    let y = spec_ld_times_rn(ln, ld, rn, rd);
    if spec_same_base(ln, ld, rn, rd) {
        Some(spec_ord(lt, rt))
    } else if lt * x <= max && rt * y <= max {
        Some(spec_ord(lt * x, rt * y))
    } else {
        None
    }
}

fn order_of(a: u64, b: u64) -> (r: Ordering)
    ensures
        r == spec_ord(a as int, b as int),
{
    if a < b {
        Ordering::Less
    } else if a > b {
        Ordering::Greater
    } else {
        Ordering::Equal
    }
}

pub(crate) fn cmp_ticks(lt: u64, rt: u64, ln: u32, ld: u32, rn: u32, rd: u32, max: u64) -> (r:
    Option<Ordering>)
    requires
        0 < ln,
        0 < ld,
        0 < rn,
        0 < rd,
        lt <= max,
        rt <= max,
    ensures
        r == spec_cmp_ticks(
            lt as int,
            rt as int,
            ln as int,
            ld as int,
            rn as int,
            rd as int,
            max as int,
        ),
        r matches Some(o) ==> o == spec_ord(
            lt as int * ln as int * rd as int,
            rt as int * rn as int * ld as int,
        ),
{
    proof {
        lemma_scaled_cmp(lt as int, rt as int, ln as int, ld as int, rn as int, rd as int);
    }
    let (x, y) = reduce(ln, ld, rn, rd);
    if x == y {
        Some(order_of(lt, rt))
    } else {
        match (lt.checked_mul(x), rt.checked_mul(y)) {
            (Some(lh), Some(rh)) => if lh <= max && rh <= max {
                Some(order_of(lh, rh))
            } else {
                None
            },
            _ => None,
        }
    }
}

/// The cross-base equality test: it is `true` exactly when the two tick
/// counts are numerically equal and, for distinct bases, both scaling
/// multiplies stay within `max`.
pub open spec fn spec_eq_ticks(
    lt: int,
    rt: int,
    ln: int,
    ld: int,
    rn: int,
    rd: int,
    max: int,
) -> bool {
    let x = spec_rd_times_ln(ln, ld, rn, rd);
    let y = spec_ld_times_rn(ln, ld, rn, rd);
    if spec_same_base(ln, ld, rn, rd) {
        lt == rt
    } else {
        lt * x <= max && rt * y <= max && lt * x == rt * y
    }
}

pub(crate) fn eq_ticks(lt: u64, rt: u64, ln: u32, ld: u32, rn: u32, rd: u32, max: u64) -> (r: bool)
    requires
        0 < ln,
        0 < ld,
        0 < rn,
        0 < rd,
        lt <= max,
        rt <= max,
    ensures
        r == spec_eq_ticks(
            lt as int,
            rt as int,
            ln as int,
            ld as int,
            rn as int,
            rd as int,
            max as int,
        ),
        r ==> lt as int * ln as int * rd as int == rt as int * rn as int * ld as int,
{
    proof {
        lemma_scaled_cmp(lt as int, rt as int, ln as int, ld as int, rn as int, rd as int);
    }
    let (x, y) = reduce(ln, ld, rn, rd);
    if x == y {
        lt == rt
    } else {
        match (lt.checked_mul(x), rt.checked_mul(y)) {
            (Some(lh), Some(rh)) => lh <= max && rh <= max && lh == rh,
            _ => false,
        }
    }
}

/// A tick count of scale `ln / ld` rebased onto the scale `rn / rd`:
/// unchanged between same-base scales, otherwise one widening multiply and one
/// truncating divide, `None` when the multiply leaves 64 bits or the result
/// exceeds `max`.
pub open spec fn spec_convert_ticks(
    t: int,
    ln: int,
    ld: int,
    rn: int,
    rd: int,
    max: int,
) -> Option<int> {
    let x = spec_rd_times_ln(ln, ld, rn, rd);
    let y = spec_ld_times_rn(ln, ld, rn, rd);
    if spec_same_base(ln, ld, rn, rd) {
        Some(t)
    } else if t * x > u64::MAX {
        None
    } else if (t * x) / y <= max {
        Some((t * x) / y)
    } else {
        None
    }
}

pub(crate) fn convert_ticks(t: u64, ln: u32, ld: u32, rn: u32, rd: u32, max: u64) -> (r: Option<
    u64,
>)
    requires
        0 < ln,
        0 < ld,
        0 < rn,
        0 < rd,
        t <= max,
    ensures
        opt_matches(
            r,
            spec_convert_ticks(t as int, ln as int, ld as int, rn as int, rd as int, max as int),
        ),
        r matches Some(v) ==> v == (t as int * ln as int * rd as int) / (ld as int * rn as int),
        r matches Some(v) ==> v <= max,
{
    proof {
        lemma_convert_exact(t as int, ln as int, ld as int, rn as int, rd as int);
    }
    let (x, y) = reduce(ln, ld, rn, rd);
    if x == y {
        Some(t)
    } else {
        match t.checked_mul(x) {
            Some(m) => {
                let q = m / y;
                if q <= max {
                    Some(q)
                } else {
                    None
                }
            },
            None => None,
        }
    }
}

/// The reduced rescaling quotient equals the exact rational rescaling: a
/// multiply by one reduced factor and a truncating divide by the other gives
/// the floor of `t * (ln / ld) / (rn / rd)`.
pub proof fn lemma_convert_exact(t: int, ln: int, ld: int, rn: int, rd: int)
    requires
        0 < ln,
        0 < ld,
        0 < rn,
        0 < rd,
        0 <= t,
    ensures
        (t * spec_rd_times_ln(ln, ld, rn, rd)) / spec_ld_times_rn(ln, ld, rn, rd) == (t * ln * rd)
            / (ld * rn),
        spec_same_base(ln, ld, rn, rd) ==> t == (t * ln * rd) / (ld * rn),
{
    lemma_reduction(ln, ld, rn, rd);
    let g = spec_divisor(ln, ld, rn, rd);
    let x = spec_rd_times_ln(ln, ld, rn, rd);
    let y = spec_ld_times_rn(ln, ld, rn, rd);
    assert(0 <= t * x) by (nonlinear_arith)
        requires
            0 <= t && 0 <= x,
    ;
    lemma_div_multiples_vanish_quotient(g, t * x, y);
    // (t * x) / y == (g * (t * x)) / (g * y)
    assert(g * (t * x) == t * (ln * rd) && g * y == ld * rn) by (nonlinear_arith)
        requires
            x * g == rd * ln,
            y * g == ld * rn,
    ;
    assert(t * (ln * rd) == t * ln * rd) by (nonlinear_arith);
    if spec_same_base(ln, ld, rn, rd) {
        let c = ld * rn;
        assert(t * ln * rd == c * t) by (nonlinear_arith)
            requires
                ld * rn == rd * ln,
                c == ld * rn,
        ;
        lemma_div_multiples_vanish(t, c);
    }
}

/// The numerator of the reciprocal rate/duration conversion, computed through
/// the second reduction.
pub(crate) fn rate_to_duration_num(ln: u32, ld: u32, rn: u32, rd: u32) -> (r: u64)
    requires
        0 < ln,
        0 < ld,
        0 < rn,
        0 < rd,
    ensures
        r == spec_rate_to_duration_numerator(ln as int, ld as int, rn as int, rd as int),
{
    proof {
        lemma_reduction_2(ln as int, ld as int, rn as int, rd as int);
        assert(ln as int * rn as int <= u64::MAX && rd as int * ld as int <= u64::MAX)
            by (nonlinear_arith)
            requires
                ld <= u32::MAX && rn <= u32::MAX && rd <= u32::MAX && ln <= u32::MAX,
        ;
    }
    let a = (ln as u64) * (rn as u64);
    let b = (rd as u64) * (ld as u64);
    let g = gcd_u64(a, b);
    (b / g) / (a / g)
}

/// The ceiling of `a / b` for nonnegative `a` and positive `b`.
pub open spec fn spec_div_ceil(a: int, b: int) -> int {
    a / b + if a % b == 0 {
        0int
    } else {
        1int
    }
}

/// Multiplying numerator and denominator by a common positive factor does not
/// change a ceiling division.
pub proof fn lemma_div_ceil_scale(a: int, d: int, k: int)
    requires
        0 <= a,
        1 <= d,
        1 <= k,
    ensures
        spec_div_ceil(k * a, k * d) == spec_div_ceil(a, d),
{
    lemma_div_multiples_vanish_quotient(k, a, d);
    lemma_fundamental_div_mod(a, d);
    lemma_fundamental_div_mod(k * a, k * d);
    assert((k * a) % (k * d) == k * (a % d)) by (nonlinear_arith)
        requires
            k * a == (k * d) * ((k * a) / (k * d)) + (k * a) % (k * d),
            a == d * (a / d) + a % d,
            (k * a) / (k * d) == a / d,
    ;
    assert(k * (a % d) == 0 <==> a % d == 0) by (nonlinear_arith)
        requires
            k >= 1,
    ;
}

/// Adding a span and then subtracting the same span gives back the original
/// value: whenever the checked sum of `lt` and a rescaled `rt` is defined,
/// the checked difference of that sum and the same rescaled `rt` is defined
/// and equals `lt`.
pub proof fn lemma_add_sub_inverse(lt: int, rt: int, ln: int, ld: int, rn: int, rd: int, max: int)
    requires
        0 < ln,
        0 < ld,
        0 < rn,
        0 < rd,
        0 <= lt <= max,
        0 <= rt <= max,
    ensures
        spec_add_ticks(lt, rt, ln, ld, rn, rd, max) matches Some(s) ==> spec_sub_ticks(
            s,
            rt,
            ln,
            ld,
            rn,
            rd,
            max,
        ) == Some(lt),
{
}

/// A round trip between two bases is the identity: when converting a tick
/// count from base `an / ad` to base `bn / bd` succeeds and loses nothing to
/// truncation, converting the result back yields the original count.
pub proof fn lemma_convert_round_trip(t: int, an: int, ad: int, bn: int, bd: int, max: int)
    requires
        0 < an,
        0 < ad,
        0 < bn,
        0 < bd,
        0 <= t <= max,
        spec_convert_ticks(t, an, ad, bn, bd, max) is Some,
        (t * spec_rd_times_ln(an, ad, bn, bd)) % spec_ld_times_rn(an, ad, bn, bd) == 0,
    ensures
        spec_convert_ticks(t, an, ad, bn, bd, max) matches Some(u) ==> spec_convert_ticks(
            u,
            bn,
            bd,
            an,
            ad,
            max,
        ) == Some(t),
{
    lemma_reduction(an, ad, bn, bd);
    lemma_reduction(bn, bd, an, ad);
    lemma_gcd_comm((ad * bn) as nat, (bd * an) as nat);
    let x1 = spec_rd_times_ln(an, ad, bn, bd);
    let y1 = spec_ld_times_rn(an, ad, bn, bd);
    assert(spec_rd_times_ln(bn, bd, an, ad) == y1);
    assert(spec_ld_times_rn(bn, bd, an, ad) == x1);
    if spec_same_base(an, ad, bn, bd) {
        assert(spec_same_base(bn, bd, an, ad));
    } else {
        let u = (t * x1) / y1;
        lemma_fundamental_div_mod(t * x1, y1);
        assert(u * y1 == t * x1);
        assert(0 <= u) by (nonlinear_arith)
            requires
                u * y1 == t * x1,
                0 <= t,
                0 <= x1,
                1 <= y1,
        ;
        assert(u * y1 <= u64::MAX);
        lemma_div_multiples_vanish(t, x1);
        // (u * y1) / x1 == (t * x1) / x1 == (x1 * t) / x1 == t
        assert(t * x1 == x1 * t) by (nonlinear_arith);
    }
}

/// Run-time reduction of a pair of scales `L_NOM / L_DENOM` and
/// `R_NOM / R_DENOM` into the minimal cross-multiplication factors that every
/// cross-base operation uses.
pub struct Helpers<const L_NOM: u32, const L_DENOM: u32, const R_NOM: u32, const R_DENOM: u32>;

impl<const L_NOM: u32, const L_DENOM: u32, const R_NOM: u32, const R_DENOM: u32> Helpers<
    L_NOM,
    L_DENOM,
    R_NOM,
    R_DENOM,
> {
    /// The common divisor `gcd(L_DENOM * R_NOM, R_DENOM * L_NOM)`.
    pub fn divisor() -> (r: u64)
        requires
            0 < L_NOM,
            0 < L_DENOM,
            0 < R_NOM,
            0 < R_DENOM,
        ensures
            r == spec_divisor(L_NOM as int, L_DENOM as int, R_NOM as int, R_DENOM as int),
            r >= 1,
    {
        proof {
            lemma_reduction(L_NOM as int, L_DENOM as int, R_NOM as int, R_DENOM as int);
            assert(L_DENOM as int * R_NOM as int <= u64::MAX && R_DENOM as int * L_NOM as int
                <= u64::MAX) by (nonlinear_arith)
                requires
                    L_DENOM <= u32::MAX && R_NOM <= u32::MAX && R_DENOM <= u32::MAX && L_NOM
                        <= u32::MAX,
            ;
        }
        gcd_u64((L_DENOM as u64) * (R_NOM as u64), (R_DENOM as u64) * (L_NOM as u64))
    }

    /// The reduced factor `(R_DENOM * L_NOM) / divisor`.
    pub fn rd_times_ln() -> (r: u64)
        requires
            0 < L_NOM,
            0 < L_DENOM,
            0 < R_NOM,
            0 < R_DENOM,
        ensures
            r == spec_rd_times_ln(L_NOM as int, L_DENOM as int, R_NOM as int, R_DENOM as int),
            r >= 1,
    {
        let (x, _) = reduce(L_NOM, L_DENOM, R_NOM, R_DENOM);
        x
    }

    /// The reduced factor `(L_DENOM * R_NOM) / divisor`.
    pub fn ld_times_rn() -> (r: u64)
        requires
            0 < L_NOM,
            0 < L_DENOM,
            0 < R_NOM,
            0 < R_DENOM,
        ensures
            r == spec_ld_times_rn(L_NOM as int, L_DENOM as int, R_NOM as int, R_DENOM as int),
            r >= 1,
    {
        let (_, y) = reduce(L_NOM, L_DENOM, R_NOM, R_DENOM);
        y
    }

    /// Whether the two scales are numerically the same base.
    pub fn same_base() -> (r: bool)
        requires
            0 < L_NOM,
            0 < L_DENOM,
            0 < R_NOM,
            0 < R_DENOM,
        ensures
            r == spec_same_base(L_NOM as int, L_DENOM as int, R_NOM as int, R_DENOM as int),
    {
        let (x, y) = reduce(L_NOM, L_DENOM, R_NOM, R_DENOM);
        x == y
    }

    /// The divisor `gcd(L_NOM * R_NOM, R_DENOM * L_DENOM)` of the second
    /// reduction.
    pub fn divisor_2() -> (r: u64)
        requires
            0 < L_NOM,
            0 < L_DENOM,
            0 < R_NOM,
            0 < R_DENOM,
        ensures
            r == spec_divisor_2(L_NOM as int, L_DENOM as int, R_NOM as int, R_DENOM as int),
            r >= 1,
    {
        proof {
            lemma_reduction_2(L_NOM as int, L_DENOM as int, R_NOM as int, R_DENOM as int);
            assert(L_NOM as int * R_NOM as int <= u64::MAX && R_DENOM as int * L_DENOM as int
                <= u64::MAX) by (nonlinear_arith)
                requires
                    L_DENOM <= u32::MAX && R_NOM <= u32::MAX && R_DENOM <= u32::MAX && L_NOM
                        <= u32::MAX,
            ;
        }
        gcd_u64((L_NOM as u64) * (R_NOM as u64), (R_DENOM as u64) * (L_DENOM as u64))
    }

    /// The reduced factor `(L_NOM * R_NOM) / divisor_2`.
    pub fn ln_times_rn() -> (r: u64)
        requires
            0 < L_NOM,
            0 < L_DENOM,
            0 < R_NOM,
            0 < R_DENOM,
        ensures
            r == spec_ln_times_rn(L_NOM as int, L_DENOM as int, R_NOM as int, R_DENOM as int),
            r >= 1,
    {
        proof {
            lemma_reduction_2(L_NOM as int, L_DENOM as int, R_NOM as int, R_DENOM as int);
            assert(L_NOM as int * R_NOM as int <= u64::MAX && R_DENOM as int * L_DENOM as int
                <= u64::MAX) by (nonlinear_arith)
                requires
                    L_DENOM <= u32::MAX && R_NOM <= u32::MAX && R_DENOM <= u32::MAX && L_NOM
                        <= u32::MAX,
            ;
        }
        let a = (L_NOM as u64) * (R_NOM as u64);
        let b = (R_DENOM as u64) * (L_DENOM as u64);
        let g = gcd_u64(a, b);
        a / g
    }

    /// The reduced factor `(R_DENOM * L_DENOM) / divisor_2`.
    pub fn rd_times_ld() -> (r: u64)
        requires
            0 < L_NOM,
            0 < L_DENOM,
            0 < R_NOM,
            0 < R_DENOM,
        ensures
            r == spec_rd_times_ld(L_NOM as int, L_DENOM as int, R_NOM as int, R_DENOM as int),
            r >= 1,
    {
        proof {
            lemma_reduction_2(L_NOM as int, L_DENOM as int, R_NOM as int, R_DENOM as int);
            assert(L_NOM as int * R_NOM as int <= u64::MAX && R_DENOM as int * L_DENOM as int
                <= u64::MAX) by (nonlinear_arith)
                requires
                    L_DENOM <= u32::MAX && R_NOM <= u32::MAX && R_DENOM <= u32::MAX && L_NOM
                        <= u32::MAX,
        ;
        }
        let a = (L_NOM as u64) * (R_NOM as u64);
        let b = (R_DENOM as u64) * (L_DENOM as u64);
        let g = gcd_u64(a, b);
        b / g
    }

    /// `rd_times_ld / ln_times_rn`: dividing this by a raw rate value of scale
    /// `L` yields a tick count of duration scale `R`, and conversely.
    pub fn rate_to_duration_numerator() -> (r: u64)
        requires
            0 < L_NOM,
            0 < L_DENOM,
            0 < R_NOM,
            0 < R_DENOM,
        ensures
            r == spec_rate_to_duration_numerator(
                L_NOM as int,
                L_DENOM as int,
                R_NOM as int,
                R_DENOM as int,
            ),
    {
        rate_to_duration_num(L_NOM, L_DENOM, R_NOM, R_DENOM)
    }
}

} // verus!
