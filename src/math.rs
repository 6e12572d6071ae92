use vstd::prelude::*;
use vstd::math::abs;
use vstd::arithmetic::div_mod::{lemma_div_is_ordered, lemma_div_multiples_vanish, lemma_div_pos_is_pos};
use crate::state::{BASIS_POINTS, CurveParams, Direction, Outcome, PoolState, RiskLimits};

verus! {

/// Integer division rounding toward zero, for a positive divisor.
pub open spec fn div_trunc(a: int, d: int) -> int {
    if a >= 0 {
        a / d
    } else {
        -((-a) / d)
    }
}

/// `x` raised to at least `lo`, then lowered to at most `hi`.
pub open spec fn clamp(x: int, lo: int, hi: int) -> int {
    let raised = if x < lo { lo } else { x };
    if raised > hi { hi } else { raised }
}

/// Net exposure as a fraction of the saturation exposure, in basis points,
/// clamped to `[-BASIS_POINTS, BASIS_POINTS]` (0 when no saturation exposure is set).
pub open spec fn exposure_ratio(pool: PoolState, curve: CurveParams) -> int {
    if curve.max_exposure > 0 {
        clamp(
            div_trunc(pool.net() * BASIS_POINTS, curve.max_exposure as int),
            -(BASIS_POINTS as int),
            BASIS_POINTS as int,
        )
    } else {
        0
    }
}

/// Forward price K: the reference price skewed by `alpha` against the heavier side,
/// kept inside the configured band.
pub open spec fn forward_price(p: int, pool: PoolState, curve: CurveParams) -> int {
    clamp(
        p + div_trunc(curve.alpha * exposure_ratio(pool, curve), BASIS_POINTS as int),
        curve.min_price as int,
        curve.max_price as int,
    )
}

/// Signed premium rate in basis points: positive for the side adding to the skew.
pub open spec fn premium_rate(pool: PoolState, curve: CurveParams, direction: Direction) -> int {
    let rate = div_trunc(curve.beta * exposure_ratio(pool, curve), BASIS_POINTS as int);
    match direction {
        Direction::Long => rate,
        Direction::Short => -rate,
    }
}

/// Premium owed for a position of `size` at `rate`.
pub open spec fn premium(rate: int, size: int) -> int {
    div_trunc(rate * size, BASIS_POINTS as int)
}

/// Collateral a side locks: `K * Q` for long, `(1 - K) * Q` for short, truncated.
pub open spec fn collateral(k: int, size: int, direction: Direction) -> int {
    match direction {
        Direction::Long => k * size / (BASIS_POINTS as int),
        Direction::Short => (BASIS_POINTS - k) * size / (BASIS_POINTS as int),
    }
}

/// Headroom left under the total limit and under the side's share limit.
pub open spec fn max_size(pool: PoolState, limits: RiskLimits, direction: Direction) -> int {
    let used = pool.total_long_exposure + pool.total_short_exposure;
    let by_total = if used >= limits.max_total_exposure { 0 } else { limits.max_total_exposure - used };
    let (share, current) = match direction {
        Direction::Long => (limits.max_long_share, pool.total_long_exposure),
        Direction::Short => (limits.max_short_share, pool.total_short_exposure),
    };
    let cap = limits.max_total_exposure * share / (BASIS_POINTS as int);
    let by_share = if current >= cap { 0 } else { cap - current };
    if by_total <= by_share { by_total } else { by_share }
}

/// What a position of `size` receives at resolution: everything if its side won.
pub open spec fn payout(size: int, direction: Direction, outcome: Outcome) -> int {
    match (direction, outcome) {
        (Direction::Long, Outcome::Yes) => size,
        (Direction::Short, Outcome::No) => size,
        _ => 0,
    }
}

/// Whether a premium fits the signed 64-bit range a position stores.
pub open spec fn fits_i64(x: int) -> bool {
    i64::MIN <= x <= i64::MAX
}

proof fn lemma_div_trunc_bound(a: int, d: int, m: int)
    requires
        d > 0,
        m >= 0,
        -(d * m) <= a <= d * m,
    ensures
        -m <= div_trunc(a, d) <= m,
        a >= 0 ==> div_trunc(a, d) >= 0,
        a <= 0 ==> div_trunc(a, d) <= 0,
{
    lemma_div_multiples_vanish(m, d);
    if a >= 0 {
        lemma_div_is_ordered(a, d * m, d);
        lemma_div_pos_is_pos(a, d);
    } else {
        lemma_div_is_ordered(-a, d * m, d);
        lemma_div_pos_is_pos(-a, d);
    }
}

proof fn lemma_div_trunc_shrinks(a: int, d: int)
    requires
        d > 0,
    ensures
        -abs(a) <= div_trunc(a, d) <= abs(a),
{
    assert(-(d * abs(a)) <= a <= d * abs(a)) by (nonlinear_arith)
        requires d > 0;
    lemma_div_trunc_bound(a, d, abs(a) as int);
}

fn div_toward_zero(a: i128, d: i128) -> (r: i128)
    requires
        d > 0,
        a > i128::MIN,
    ensures
        r == div_trunc(a as int, d as int),
{
    proof { lemma_div_trunc_shrinks(a as int, d as int); }
    if a >= 0 {
        a / d
    } else {
        -((-a) / d)
    }
}

fn clamp_exec(x: i128, lo: i128, hi: i128) -> (r: i128)
    ensures
        r == clamp(x as int, lo as int, hi as int),
{
    let raised = if x < lo { lo } else { x };
    if raised > hi { hi } else { raised }
}

fn exposure_ratio_exec(pool: &PoolState, curve: &CurveParams) -> (r: i128)
    ensures
        r == exposure_ratio(*pool, *curve),
        -(BASIS_POINTS as int) <= r <= BASIS_POINTS,
{
    let e = pool.net_exposure();
    if curve.max_exposure > 0 {
        let bps = BASIS_POINTS as i128;
        let ratio = div_toward_zero(e * bps, curve.max_exposure as i128);
        clamp_exec(ratio, -bps, bps)
    } else {
        0
    }
}

/// Forward price K for a trade at reference price `polymarket_price`.
/// The result lies in `[min_price, max_price]` whenever that band is non-empty.
pub fn calculate_forward_price(
    polymarket_price: u64,
    pool_state: &PoolState,
    curve_params: &CurveParams,
) -> (k: u64)
    ensures
        k == forward_price(polymarket_price as int, *pool_state, *curve_params),
        curve_params.min_price <= curve_params.max_price
            ==> curve_params.min_price <= k <= curve_params.max_price,
{
    let ratio = exposure_ratio_exec(pool_state, curve_params);
    let alpha = curve_params.alpha as i128;
    proof {
        assert(-(BASIS_POINTS * alpha) <= alpha * ratio <= BASIS_POINTS * alpha) by (nonlinear_arith)
            requires
                -(BASIS_POINTS as int) <= ratio <= BASIS_POINTS,
                alpha >= 0;
        lemma_div_trunc_bound(alpha * ratio, BASIS_POINTS as int, alpha as int);
    }
    let skew = div_toward_zero(alpha * ratio, BASIS_POINTS as i128);
    let k = clamp_exec(
        polymarket_price as i128 + skew,
        curve_params.min_price as i128,
        curve_params.max_price as i128,
    );
    k as u64
}


/// The premium rate, or `None` where it does not fit a signed 64-bit integer.
pub(crate) fn checked_premium_rate(pool_state: &PoolState, curve_params: &CurveParams, direction: Direction) -> (r: Option<i64>)
    ensures
        r == (if fits_i64(premium_rate(*pool_state, *curve_params, direction)) {
            Some(premium_rate(*pool_state, *curve_params, direction) as i64)
        } else {
            None::<i64>
        }),
{
    let ratio = exposure_ratio_exec(pool_state, curve_params);
    let beta = curve_params.beta as i128;
    proof {
        assert(-(BASIS_POINTS * beta) <= beta * ratio <= BASIS_POINTS * beta) by (nonlinear_arith)
            requires
                -(BASIS_POINTS as int) <= ratio <= BASIS_POINTS,
                beta >= 0;
        lemma_div_trunc_bound(beta * ratio, BASIS_POINTS as int, beta as int);
    }
    let rate = div_toward_zero(beta * ratio, BASIS_POINTS as i128);
    let signed = match direction {
        Direction::Long => rate,
        Direction::Short => -rate,
    };
    if signed < i64::MIN as i128 || signed > i64::MAX as i128 {
        None
    } else {
        Some(signed as i64)
    }
}

/// Premium rate in basis points for a trade on `direction`: `beta` times the
/// exposure ratio, negated for the short side.
pub fn calculate_premium_rate(
    pool_state: &PoolState,
    curve_params: &CurveParams,
    direction: Direction,
) -> (r: i64)
    requires
        fits_i64(premium_rate(*pool_state, *curve_params, direction)),
    ensures
        r == premium_rate(*pool_state, *curve_params, direction),
{
    match checked_premium_rate(pool_state, curve_params, direction) {
        Some(r) => r,
        None => 0,
    }
}

/// The premium of a position, or `None` where it does not fit a signed 64-bit integer.
pub(crate) fn checked_premium(premium_rate: i64, size: u64) -> (r: Option<i64>)
    ensures
        r == (if fits_i64(premium(premium_rate as int, size as int)) {
            Some(premium(premium_rate as int, size as int) as i64)
        } else {
            None::<i64>
        }),
{
    let rate = premium_rate as i128;
    let q = size as i128;
    proof {
        assert(-0x8000_0000_0000_0000_0000_0000_0000_0000 < rate * q < 0x8000_0000_0000_0000_0000_0000_0000_0000) by (nonlinear_arith)
            requires
                -0x8000_0000_0000_0000 <= rate < 0x8000_0000_0000_0000,
                0 <= q < 0x1_0000_0000_0000_0000;
    }
    let p = div_toward_zero(rate * q, BASIS_POINTS as i128);
    if p < i64::MIN as i128 || p > i64::MAX as i128 {
        None
    } else {
        Some(p as i64)
    }
}

/// Premium for a position: `premium_rate * size / BASIS_POINTS`, truncated toward zero.
pub fn calculate_premium(premium_rate: i64, size: u64) -> (r: i64)
    requires
        fits_i64(premium(premium_rate as int, size as int)),
    ensures
        r == premium(premium_rate as int, size as int),
{
    match checked_premium(premium_rate, size) {
        Some(r) => r,
        None => 0,
    }
}

proof fn lemma_collateral_at_most_size(k: int, size: int, direction: Direction)
    requires
        0 <= k <= BASIS_POINTS,
        size >= 0,
    ensures
        0 <= collateral(k, size, direction) <= size,
{
    let n = BASIS_POINTS as int;
    let f = match direction {
        Direction::Long => k,
        Direction::Short => n - k,
    };
    assert(0 <= f * size <= n * size) by (nonlinear_arith)
        requires 0 <= f <= n, size >= 0;
    lemma_div_is_ordered(f * size, n * size, n);
    lemma_div_multiples_vanish(size, n);
    lemma_div_pos_is_pos(f * size, n);
}

/// Collateral a side locks for a position of `size` at forward price `forward_price`.
pub fn calculate_collateral(forward_price: u64, size: u64, direction: Direction) -> (r: u64)
    requires
        forward_price <= BASIS_POINTS,
    ensures
        r == collateral(forward_price as int, size as int, direction),
        r <= size,
{
    proof { lemma_collateral_at_most_size(forward_price as int, size as int, direction); }
    let factor = match direction {
        Direction::Long => forward_price,
        Direction::Short => BASIS_POINTS - forward_price,
    };
    proof {
        assert(factor as int * size <= BASIS_POINTS * 0xffff_ffff_ffff_ffff) by (nonlinear_arith)
            requires factor <= BASIS_POINTS, size <= 0xffff_ffff_ffff_ffff;
    }
    (factor as u128 * size as u128 / BASIS_POINTS as u128) as u64
}

/// The long and short collateral of one trade never exceed its size together, and
/// fall short of it by at most one unit: the pool absorbs that remainder.
pub proof fn lemma_collateral_conservation(k: u64, size: u64)
    requires
        k <= BASIS_POINTS,
    ensures
        collateral(k as int, size as int, Direction::Long)
            + collateral(k as int, size as int, Direction::Short) <= size,
        collateral(k as int, size as int, Direction::Long)
            + collateral(k as int, size as int, Direction::Short) >= size - 1,
{
    let n = BASIS_POINTS as int;
    let a = k * size;
    let b = (n - k) * size;
    assert(a + b == n * size) by (nonlinear_arith)
        requires a == k * size, b == (n - k) * size;
    vstd::arithmetic::div_mod::lemma_fundamental_div_mod(a, n);
    vstd::arithmetic::div_mod::lemma_fundamental_div_mod(b, n);
    vstd::arithmetic::div_mod::lemma_mod_bound(a, n);
    vstd::arithmetic::div_mod::lemma_mod_bound(b, n);
    let qa = a / n;
    let qb = b / n;
    assert(qa + qb <= size && qa + qb >= size - 1) by (nonlinear_arith)
        requires
            n == 10000,
            a == n * qa + a % n,
            b == n * qb + b % n,
            0 <= a % n < n,
            0 <= b % n < n,
            a + b == n * size;
}

/// Largest size a new position on `direction` may have under the market's limits.
pub fn calculate_max_size(
    pool_state: &PoolState,
    _curve_params: &CurveParams,
    risk_limits: &RiskLimits,
    direction: Direction,
) -> (r: u64)
    requires
        risk_limits.shares_valid(),
    ensures
        r == max_size(*pool_state, *risk_limits, direction),
{
    let used = pool_state.total_long_exposure as u128 + pool_state.total_short_exposure as u128;
    let max_total = risk_limits.max_total_exposure;
    let by_total: u64 = if used >= max_total as u128 { 0 } else { (max_total as u128 - used) as u64 };
    let (share, current) = match direction {
        Direction::Long => (risk_limits.max_long_share, pool_state.total_long_exposure),
        Direction::Short => (risk_limits.max_short_share, pool_state.total_short_exposure),
    };
    proof {
        assert(max_total as int * share <= BASIS_POINTS * max_total) by (nonlinear_arith)
            requires share <= BASIS_POINTS, max_total >= 0;
        lemma_div_is_ordered(max_total as int * share, BASIS_POINTS * max_total, BASIS_POINTS as int);
        lemma_div_multiples_vanish(max_total as int, BASIS_POINTS as int);
        lemma_div_pos_is_pos(max_total as int * share, BASIS_POINTS as int);
    }
    let cap = (max_total as u128 * share as u128 / BASIS_POINTS as u128) as u64;
    let by_share: u64 = if current >= cap { 0 } else { cap - current };
    if by_total <= by_share { by_total } else { by_share }
}

/// Payout of a position at resolution: its whole size if its side won, else nothing.
pub fn calculate_settlement_payout(size: u64, direction: Direction, outcome: Outcome) -> (r: u64)
    ensures
        r == payout(size as int, direction, outcome),
{
    match (direction, outcome) {
        (Direction::Long, Outcome::Yes) => size,
        (Direction::Long, Outcome::No) => 0,
        (Direction::Short, Outcome::Yes) => 0,
        (Direction::Short, Outcome::No) => size,
    }
}

} // verus!
