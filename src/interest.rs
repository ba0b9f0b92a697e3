//! Interest accrual: compounding of a per-second rate over an interval, and
//! the borrow rate that pool utilization sets.

use vstd::arithmetic::div_mod::lemma_div_is_ordered;
use vstd::arithmetic::mul::lemma_mul_upper_bound;
use vstd::prelude::*;

use crate::math::{
    is_nearest, lemma_round_div_is_nearest, opt_rate, opt_ray, rate_spec, ray_div_spec, ray_mul_spec, round_div, Rate, Ray, TokenAmount,
    UnixTimestamp, RAY, RAY_RATIO,
};

verus! {

/// Terms `i` to 4 of the truncated binomial series of `(1 + r)^n` (rate `r`
/// at ray scale), each derived from the previous term `el` and added to
/// `acc`. The series stops once `n - i` is no longer positive; `None` where
/// a value leaves `u128`.
pub open spec fn compound_tail(r: int, n: int, i: int, el: int, acc: int) -> Option<int>
    decreases 5 - i,
{
    if i >= 5 || n - i <= 0 {
        Some(acc)
    } else {
        let p = el * (n - i);
        if p > u128::MAX {
            None
        } else {
            match ray_mul_spec(r, p) {
                None => None,
                Some(m) => {
                    let next = m / (i + 1);
                    if acc + next > u128::MAX {
                        None
                    } else {
                        compound_tail(r, n, i + 1, next, acc + next)
                    }
                },
            }
        }
    }
}

/// The compounding multiplier (ray scale) of `rate` (rate scale) from
/// `last` to `now`: `1 + r*n + ...`, at most six terms. `None` for a
/// negative interval or on overflow.
pub open spec fn compounded_spec(rate: int, last: int, now: int) -> Option<int> {
    let r = rate / RAY_RATIO as int;
    let n = now - last;
    if n < 0 {
        None
    } else if n == 0 {
        Some(RAY as int)
    } else if r * n + RAY > u128::MAX {
        None
    } else {
        compound_tail(r, n, 1, r * n, RAY + r * n)
    }
}

/// Computes the compounding multiplier of `rate` between two timestamps
/// with a binomial approximation of `(1 + r)^n`.
pub fn calculate_compounded(rate: Rate, last_timestamp: UnixTimestamp, timestamp: UnixTimestamp) -> (r: Option<Ray>)
    ensures
        opt_ray(r) == compounded_spec(rate@, last_timestamp@, timestamp@),
{
    let rate_ray = rate.into_ray();
    let exp = match timestamp.checked_sub(last_timestamp) {
        Some(e) => e,
        None => return None,
    };
    if exp.is_zero() {
        return Some(Ray::one());
    }
    let ghost r = rate_ray@;
    let ghost n = exp@;
    let mut el = match rate_ray.checked_mul(Ray::from_u64(exp.into_inner())) {
        Some(v) => v,
        None => return None,
    };
    let mut result = match Ray::one().checked_add(el) {
        Some(v) => v,
        None => return None,
    };
    let mut i: u64 = 1;
    while i < 5 && i < exp.into_inner()
        invariant
            1 <= i <= 5,
            r == rate_ray@,
            n == exp@,
            n > 0,
            compounded_spec(rate@, last_timestamp@, timestamp@) == compound_tail(r, n, i as int, el@, result@),
        decreases 5 - i,
    {
        let multiplier = exp.into_inner() - i;
        el = match el.checked_mul(Ray::from_u64(multiplier)) {
            Some(v) => v,
            None => return None,
        };
        el = match rate_ray.ray_mul(el) {
            Some(v) => v,
            None => return None,
        };
        el = match el.checked_div(Ray::from_u64(i + 1)) {
            Some(v) => v,
            None => return None,
        };
        result = match result.checked_add(el) {
            Some(v) => v,
            None => return None,
        };
        i = i + 1;
    }
    Some(result)
}

/// The series only ever adds non-negative terms.
proof fn lemma_tail_at_least_acc(r: int, n: int, i: int, el: int, acc: int)
    requires
        r >= 0,
        i >= 1,
        el >= 0,
        compound_tail(r, n, i, el, acc) is Some,
    ensures
        compound_tail(r, n, i, el, acc).unwrap() >= acc,
    decreases 5 - i,
{
    if i >= 5 || n - i <= 0 {
    } else {
        let p = el * (n - i);
        assert(p >= 0) by (nonlinear_arith)
            requires
                el >= 0,
                n - i > 0,
                p == el * (n - i),
        ;
        assert(r * p >= 0) by (nonlinear_arith)
            requires
                r >= 0,
                p >= 0,
        ;
        let m = ray_mul_spec(r, p).unwrap();
        assert(m == (r * p + RAY / 2) / (RAY as int));
        assert(m >= 0);
        let next = m / (i + 1);
        assert(next >= 0);
        lemma_tail_at_least_acc(r, n, i + 1, next, acc + next);
    }
}

/// A longer interval, a larger term and a larger sum give a larger tail.
proof fn lemma_tail_monotone(r: int, n1: int, n2: int, i: int, el1: int, el2: int, acc1: int, acc2: int)
    requires
        r >= 0,
        i >= 1,
        n1 <= n2,
        0 <= el1 <= el2,
        acc1 <= acc2,
        compound_tail(r, n1, i, el1, acc1) is Some,
        compound_tail(r, n2, i, el2, acc2) is Some,
    ensures
        compound_tail(r, n1, i, el1, acc1).unwrap() <= compound_tail(r, n2, i, el2, acc2).unwrap(),
    decreases 5 - i,
{
    if i >= 5 {
    } else if n1 - i <= 0 {
        lemma_tail_at_least_acc(r, n2, i, el2, acc2);
    } else {
        let p1 = el1 * (n1 - i);
        let p2 = el2 * (n2 - i);
        lemma_mul_upper_bound(el1, el2, n1 - i, n2 - i);
        assert(r * p1 <= r * p2) by (nonlinear_arith)
            requires
                r >= 0,
                p1 <= p2,
        ;
        assert(p1 >= 0) by (nonlinear_arith)
            requires
                el1 >= 0,
                n1 - i > 0,
                p1 == el1 * (n1 - i),
        ;
        assert(r * p1 >= 0) by (nonlinear_arith)
            requires
                r >= 0,
                p1 >= 0,
        ;
        let m1 = ray_mul_spec(r, p1).unwrap();
        let m2 = ray_mul_spec(r, p2).unwrap();
        assert(m1 == (r * p1 + RAY / 2) / (RAY as int));
        assert(m2 == (r * p2 + RAY / 2) / (RAY as int));
        lemma_div_is_ordered(r * p1 + RAY / 2, r * p2 + RAY / 2, RAY as int);
        assert(m1 <= m2);
        assert(m1 >= 0);
        lemma_div_is_ordered(m1, m2, i + 1);
        let next1 = m1 / (i + 1);
        let next2 = m2 / (i + 1);
        assert(0 <= next1 <= next2);
        lemma_tail_monotone(r, n1, n2, i + 1, next1, next2, acc1 + next1, acc2 + next2);
    }
}

/// Compounding over no time is the identity, and a later end of the
/// interval never gives a smaller multiplier.
pub proof fn lemma_compounded_monotone(rate: int, t: int, t1: int, t2: int)
    requires
        rate >= 0,
        t <= t1 <= t2,
        compounded_spec(rate, t, t1) is Some,
        compounded_spec(rate, t, t2) is Some,
    ensures
        compounded_spec(rate, t, t) == Some(RAY as int),
        compounded_spec(rate, t, t1).unwrap() <= compounded_spec(rate, t, t2).unwrap(),
{
    let r = rate / RAY_RATIO as int;
    let n1 = t1 - t;
    let n2 = t2 - t;
    assert(r >= 0);
    if n1 == 0 {
        if n2 > 0 {
            assert(r * n2 >= 0) by (nonlinear_arith)
                requires
                    r >= 0,
                    n2 > 0,
            ;
            lemma_tail_at_least_acc(r, n2, 1, r * n2, RAY + r * n2);
        }
    } else {
        lemma_mul_upper_bound(r, r, n1, n2);
        assert(r * n1 >= 0) by (nonlinear_arith)
            requires
                r >= 0,
                n1 > 0,
        ;
        lemma_tail_monotone(r, n1, n2, 1, r * n1, r * n2, RAY + r * n1, RAY + r * n2);
    }
}

/// Utilization `debt / (liquidity + debt)` at ray scale, rounded half up;
/// `None` when both are zero.
pub open spec fn utilization_spec(debt: int, liquidity: int) -> Option<int> {
    ray_div_spec(debt, liquidity + debt)
}

/// The rate (ray scale) below or at the optimal utilization:
/// `base + optimal_slope * utilization / optimal`.
pub open spec fn rate_below_optimal(u: int, base: int, optimal_slope: int, optimal: int) -> Option<int> {
    match ray_div_spec(u, optimal) {
        None => None,
        Some(q) => match ray_mul_spec(optimal_slope, q) {
            None => None,
            Some(m) => if base + m <= u128::MAX {
                Some(base + m)
            } else {
                None
            },
        },
    }
}

/// The rate (ray scale) above the optimal utilization:
/// `base + optimal_slope + excess_slope * (u - optimal) / (1 - optimal)`.
pub open spec fn rate_above_optimal(
    u: int,
    base: int,
    excess_slope: int,
    optimal_slope: int,
    optimal: int,
) -> Option<int> {
    if optimal > RAY {
        None
    } else {
        match ray_div_spec(u - optimal, RAY - optimal) {
            None => None,
            Some(ratio) => match ray_mul_spec(excess_slope, ratio) {
                None => None,
                Some(extra) => if base + optimal_slope + extra <= u128::MAX {
                    Some(base + optimal_slope + extra)
                } else {
                    None
                },
            },
        }
    }
}

/// The borrow rate (rate scale) of a pool with `debt` lent out and
/// `liquidity` still available, on the two-slope curve.
pub open spec fn borrow_rate_spec(
    debt: int,
    liquidity: int,
    base_rate: int,
    excess_slope: int,
    optimal_slope: int,
    optimal: int,
) -> Option<int> {
    match utilization_spec(debt, liquidity) {
        None => None,
        Some(u) => {
            let base = base_rate / RAY_RATIO as int;
            let ray_rate = if u > optimal {
                rate_above_optimal(u, base, excess_slope, optimal_slope, optimal)
            } else {
                rate_below_optimal(u, base, optimal_slope, optimal)
            };
            match ray_rate {
                None => None,
                Some(v) => rate_spec(v),
            }
        },
    }
}

fn calculate_utilization(debt: TokenAmount, liquidity: TokenAmount) -> (r: Option<Ray>)
    ensures
        opt_ray(r) == utilization_spec(debt@, liquidity@),
{
    match liquidity.into_ray().checked_add(debt.into_ray()) {
        Some(total) => debt.into_ray().ray_div(total),
        None => None,
    }
}

/// The per-second borrow rate set by pool utilization: `base_borrow_rate`
/// plus a gentle slope up to `optimal_utilization` and a steep one above.
/// `None` on overflow or with neither debt nor liquidity.
pub fn borrow_rate(
    debt: TokenAmount,
    liquidity: TokenAmount,
    base_borrow_rate: Rate,
    excess_slope: Ray,
    optimal_slope: Ray,
    optimal_utilization: Ray,
) -> (r: Option<Rate>)
    ensures
        opt_rate(r) == borrow_rate_spec(
            debt@,
            liquidity@,
            base_borrow_rate@,
            excess_slope@,
            optimal_slope@,
            optimal_utilization@,
        ),
{
    let utilization = match calculate_utilization(debt, liquidity) {
        Some(u) => u,
        None => return None,
    };
    let base = base_borrow_rate.into_ray();
    let rate = match utilization.checked_sub(optimal_utilization) {
        Some(diff) if !diff.is_zero() => {
            let inverted = match optimal_utilization.invert() {
                Some(v) => v,
                None => return None,
            };
            let ratio = match diff.ray_div(inverted) {
                Some(v) => v,
                None => return None,
            };
            let extra = match excess_slope.ray_mul(ratio) {
                Some(v) => v,
                None => return None,
            };
            match base.checked_add(optimal_slope) {
                Some(v) => v.checked_add(extra),
                None => None,
            }
        },
        _ => {
            let share = match utilization.ray_div(optimal_utilization) {
                Some(v) => v,
                None => return None,
            };
            match optimal_slope.ray_mul(share) {
                Some(v) => base.checked_add(v),
                None => None,
            }
        },
    };
    match rate {
        Some(v) => v.as_rate(),
        None => None,
    }
}

/// The two pieces of the curve meet at the optimal utilization: each gives
/// `base + optimal_slope` there (ray scale), and so does `borrow_rate` for
/// any pool whose utilization is exactly optimal. Below the optimum the
/// rate stays at or under that value, above it at or over it.
pub proof fn lemma_borrow_rate_continuous_at_optimal(
    base_rate: int,
    excess_slope: int,
    optimal_slope: int,
    optimal: int,
)
    requires
        0 < optimal < RAY,
        0 <= base_rate,
        0 <= excess_slope,
        0 <= optimal_slope,
        base_rate / RAY_RATIO as int + optimal_slope <= u128::MAX,
        optimal_slope * RAY + RAY / 2 <= u128::MAX,
    ensures
        rate_below_optimal(optimal, base_rate / RAY_RATIO as int, optimal_slope, optimal) == Some(
            base_rate / RAY_RATIO as int + optimal_slope,
        ),
        rate_above_optimal(
            optimal,
            base_rate / RAY_RATIO as int,
            excess_slope,
            optimal_slope,
            optimal,
        ) == Some(base_rate / RAY_RATIO as int + optimal_slope),
        forall|debt: int, liquidity: int|
            #[trigger] utilization_spec(debt, liquidity) == Some(optimal) ==> borrow_rate_spec(
                debt,
                liquidity,
                base_rate,
                excess_slope,
                optimal_slope,
                optimal,
            ) == rate_spec(base_rate / RAY_RATIO as int + optimal_slope),
        forall|u: int|
            0 <= u < optimal ==> (#[trigger] rate_below_optimal(
                u,
                base_rate / RAY_RATIO as int,
                optimal_slope,
                optimal,
            ) matches Some(v) ==> v <= base_rate / RAY_RATIO as int + optimal_slope),
        forall|u: int|
            u > optimal ==> (#[trigger] rate_above_optimal(
                u,
                base_rate / RAY_RATIO as int,
                excess_slope,
                optimal_slope,
                optimal,
            ) matches Some(v) ==> v >= base_rate / RAY_RATIO as int + optimal_slope),
{
    let base = base_rate / RAY_RATIO as int;
    let d = RAY - optimal;
    assert(optimal * RAY + optimal / 2 <= u128::MAX) by (nonlinear_arith)
        requires
            0 < optimal < RAY,
    ;
    assert((optimal * RAY + optimal / 2) / optimal == RAY) by (nonlinear_arith)
        requires
            0 < optimal,
    ;
    assert((optimal_slope * RAY + RAY / 2) / (RAY as int) == optimal_slope) by (nonlinear_arith)
        requires
            0 <= optimal_slope,
    ;
    assert(round_div(0 * RAY, d) == 0) by (nonlinear_arith)
        requires
            d > 0,
    ;
    assert(excess_slope * 0 == 0);
    assert(rate_below_optimal(optimal, base, optimal_slope, optimal) == Some(base + optimal_slope));
    assert forall|u: int|
        0 <= u < optimal implies (#[trigger] rate_below_optimal(u, base, optimal_slope, optimal) matches Some(
        v) ==> v <= base + optimal_slope) by {
        let q = (u * RAY + optimal / 2) / optimal;
        assert(u * RAY + optimal / 2 < optimal * RAY) by (nonlinear_arith)
            requires
                0 <= u < optimal,
                optimal < RAY,
        ;
        assert(q < RAY) by (nonlinear_arith)
            requires
                q == (u * RAY + optimal / 2) / optimal,
                u * RAY + optimal / 2 < optimal * RAY,
                0 <= u,
                optimal > 0,
        ;
        assert(optimal_slope * q <= optimal_slope * RAY) by (nonlinear_arith)
            requires
                q < RAY,
                0 <= optimal_slope,
        ;
        lemma_div_is_ordered(
            optimal_slope * q + RAY / 2,
            optimal_slope * RAY + RAY / 2,
            RAY as int,
        );
    }
    assert forall|u: int|
        u > optimal implies (#[trigger] rate_above_optimal(
            u,
            base,
            excess_slope,
            optimal_slope,
            optimal,
        ) matches Some(v) ==> v >= base + optimal_slope) by {
        let ratio = ((u - optimal) * RAY + (RAY - optimal) / 2) / (RAY - optimal);
        assert(ratio >= 0) by (nonlinear_arith)
            requires
                ratio == ((u - optimal) * RAY + (RAY - optimal) / 2) / (RAY - optimal),
                u > optimal,
                optimal < RAY,
        ;
        assert(excess_slope * ratio >= 0) by (nonlinear_arith)
            requires
                ratio >= 0,
                excess_slope >= 0,
        ;
    }
}

/// Dividing `a` by `d` at ray scale and multiplying by `s <= 1.0`, each step
/// rounded half up, lands within one unit of the exact `s * a / d`.
proof fn lemma_two_step_rounding(a: int, d: int, s: int)
    requires
        a >= 0,
        d > 0,
        0 <= s <= RAY,
    ensures
        ({
            let m = round_div(s * round_div(a * RAY, d), RAY as int);
            (m - 1) * d <= s * a && s * a <= (m + 1) * d
        }),
{
    let ar = a * RAY;
    assert(ar >= 0) by (nonlinear_arith)
        requires
            a >= 0,
            ar == a * RAY,
    ;
    lemma_round_div_is_nearest(ar, d);
    let q = round_div(ar, d);
    assert(q >= 0) by (nonlinear_arith)
        requires
            q == (ar + d / 2) / d,
            ar >= 0,
            d > 0,
    ;
    let sq = s * q;
    assert(sq >= 0) by (nonlinear_arith)
        requires
            sq == s * q,
            s >= 0,
            q >= 0,
    ;
    lemma_round_div_is_nearest(sq, RAY as int);
    let m = round_div(sq, RAY as int);
    assert(is_nearest(ar, d, q) && is_nearest(sq, RAY as int, m));
    assert(2 * sq * d - s * d <= 2 * ar * s && 2 * ar * s <= 2 * sq * d + s * d) by (nonlinear_arith)
        requires
            (2 * q - 1) * d <= 2 * ar,
            2 * ar < (2 * q + 1) * d,
            sq == s * q,
            s >= 0,
    ;
    assert((2 * m - 1) * RAY * d <= 2 * sq * d && 2 * sq * d <= (2 * m + 1) * RAY * d) by (nonlinear_arith)
        requires
            (2 * m - 1) * RAY <= 2 * sq,
            2 * sq < (2 * m + 1) * RAY,
            d > 0,
    ;
    assert(s * d <= RAY * d) by (nonlinear_arith)
        requires
            s <= RAY,
            d > 0,
    ;
    assert((m - 1) * d <= s * a && s * a <= (m + 1) * d) by (nonlinear_arith)
        requires
            (2 * m - 1) * RAY * d - RAY * d <= 2 * ar * s,
            2 * ar * s <= (2 * m + 1) * RAY * d + RAY * d,
            ar == a * RAY,
    ;
}

/// Near the optimal utilization the curve follows its two straight lines
/// to within one unit at ray scale: `base + optimal_slope * u / optimal`
/// below it and `base + optimal_slope + excess_slope * (u - optimal) /
/// (1 - optimal)` above it. Both lines give `base + optimal_slope` at the
/// optimum, so the rate has the same limit from either side.
pub proof fn lemma_borrow_rate_near_optimal(
    base: int,
    excess_slope: int,
    optimal_slope: int,
    optimal: int,
)
    requires
        0 < optimal < RAY,
        0 <= base,
        0 <= excess_slope <= RAY,
        0 <= optimal_slope <= RAY,
    ensures
        forall|u: int|
            0 <= u <= optimal ==> (#[trigger] rate_below_optimal(u, base, optimal_slope, optimal) matches Some(v)
                ==> (v - base - 1) * optimal <= optimal_slope * u && optimal_slope * u <= (v - base + 1)
                * optimal),
        forall|u: int|
            u >= optimal ==> (#[trigger] rate_above_optimal(
                u,
                base,
                excess_slope,
                optimal_slope,
                optimal,
            ) matches Some(v) ==> (v - base - optimal_slope - 1) * (RAY - optimal) <= excess_slope * (u
                - optimal) && excess_slope * (u - optimal) <= (v - base - optimal_slope + 1) * (RAY
                - optimal)),
{
    assert forall|u: int|
        0 <= u <= optimal implies (#[trigger] rate_below_optimal(u, base, optimal_slope, optimal) matches Some(v)
            ==> (v - base - 1) * optimal <= optimal_slope * u && optimal_slope * u <= (v - base + 1)
            * optimal) by {
        lemma_two_step_rounding(u, optimal, optimal_slope);
    }
    assert forall|u: int|
        u >= optimal implies (#[trigger] rate_above_optimal(
            u,
            base,
            excess_slope,
            optimal_slope,
            optimal,
        ) matches Some(v) ==> (v - base - optimal_slope - 1) * (RAY - optimal) <= excess_slope * (u
            - optimal) && excess_slope * (u - optimal) <= (v - base - optimal_slope + 1) * (RAY
            - optimal)) by {
        lemma_two_step_rounding(u - optimal, RAY - optimal, excess_slope);
    }
}

} // verus!
