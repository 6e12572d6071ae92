use vstd::prelude::*;
use crate::errors::ForwardError;
use crate::math::{
    calculate_collateral, calculate_forward_price, calculate_max_size,
    calculate_settlement_payout, checked_premium, checked_premium_rate, collateral,
    fits_i64, forward_price, max_size, payout, premium, premium_rate,
};
use crate::oracle::{check_price, price_is_usable, read_resolution, resolution_reading, PriceOracle, ResolutionOracle};
use crate::state::{
    same_key, BASIS_POINTS, Direction, GlobalConfig, Key, MarketConfig, MarketStatus, Position,
    PositionStatus, PoolState,
};

verus! {

/// A freshly opened position and the transfers that go with it.
#[derive(Debug, Clone, Copy, PartialEq, Eq)]
pub struct OpenedPosition {
    /// The position's identity within its market: the ledger's counter before the open.
    pub position_id: u64,
    pub position: Position,
    /// Amount the owner pays into the vault: collateral plus any positive premium.
    pub deposit: u64,
    /// Amount the vault pays back to the owner: the size of a negative premium.
    pub rebate: u64,
}

/// How far the forward price `k` lies from the reference price `p`, in basis points of `p`.
pub open spec fn slippage_bps(k: int, p: int) -> int {
    let diff = if k > p { k - p } else { p - k };
    diff * BASIS_POINTS / p
}

/// Whether the forward price `k` is acceptable to a caller with the given tolerance.
pub open spec fn slippage_ok(k: int, p: int, tolerance: Option<u64>) -> bool {
    match tolerance {
        Some(t) => slippage_bps(k, p) <= t,
        None => true,
    }
}

/// Exposure of the ledger on one side.
pub open spec fn side_exposure(pool: PoolState, direction: Direction) -> u64 {
    match direction {
        Direction::Long => pool.total_long_exposure,
        Direction::Short => pool.total_short_exposure,
    }
}

/// The ledger with the exposure on `direction` replaced by `value`.
pub open spec fn with_side_exposure(pool: PoolState, direction: Direction, value: u64) -> PoolState {
    match direction {
        Direction::Long => PoolState { total_long_exposure: value, ..pool },
        Direction::Short => PoolState { total_short_exposure: value, ..pool },
    }
}

/// The result of a trade request: the ledger after it and the opened position, or
/// the first check that refuses it. The checks, in order: the market is active, the
/// size is positive, the price reading is usable and positive, the slippage is
/// tolerated, the premium fits, the size is within the limits, the deposit fits and
/// is covered by `user_balance`, and the ledger's checked additions do not overflow.
pub open spec fn open_result(
    global: GlobalConfig,
    market: MarketConfig,
    market_key: Key,
    pool: PoolState,
    oracle: PriceOracle,
    now: i64,
    user: Key,
    user_balance: u64,
    direction: Direction,
    size: u64,
    slippage_tolerance: Option<u64>,
) -> Result<(PoolState, OpenedPosition), ForwardError> {
    let curve = global.curve_params;
    let p = oracle.price as int;
    let k = forward_price(p, pool, curve);
    let rate = premium_rate(pool, curve, direction);
    let prem = premium(rate, size as int);
    let coll = collateral(k, size as int, direction);
    let deposit = if prem > 0 { coll + prem } else { coll };
    let exposure = side_exposure(pool, direction) + size;
    let pool_share = size - coll;
    if market.status != MarketStatus::Active {
        Err(ForwardError::MarketNotActive)
    } else if size == 0 {
        Err(ForwardError::PositionSizeExceedsLimit)
    } else if !price_is_usable(oracle, now) || p == 0 {
        Err(ForwardError::InvalidOracleData)
    } else if !slippage_ok(k, p, slippage_tolerance) {
        Err(ForwardError::SlippageExceeded)
    } else if !fits_i64(rate) || !fits_i64(prem) {
        Err(ForwardError::MathOverflow)
    } else if size > max_size(pool, market.risk_limits, direction) {
        Err(ForwardError::PositionSizeExceedsLimit)
    } else if deposit > u64::MAX {
        Err(ForwardError::MathOverflow)
    } else if user_balance < deposit {
        Err(ForwardError::InsufficientCollateral)
    } else if exposure > u64::MAX || pool.pool_collateral + pool_share > u64::MAX
        || pool.position_counter + 1 > u64::MAX {
        Err(ForwardError::MathOverflow)
    } else {
        let new_pool = PoolState {
            pool_collateral: (pool.pool_collateral + pool_share) as u64,
            position_counter: (pool.position_counter + 1) as u64,
            ..with_side_exposure(pool, direction, exposure as u64)
        };
        let position = Position {
            owner: user,
            market: market_key,
            direction,
            size,
            forward_price: k as u64,
            collateral_locked: coll as u64,
            premium_paid: prem as i64,
            status: PositionStatus::Open,
        };
        Ok((new_pool, OpenedPosition {
            position_id: pool.position_counter,
            position,
            deposit: deposit as u64,
            rebate: if prem < 0 { (-prem) as u64 } else { 0 },
        }))
    }
}

/// Opens a position of `size` on `direction` for `user`, whose balance is `user_balance`,
/// at time `now`. On success the ledger takes the new exposure, the pool's share of the
/// collateral (`size` minus the owner's collateral, truncation remainder included) and
/// the next counter value; on failure it is left as it was.
pub fn open_position(
    global: &GlobalConfig,
    market: &MarketConfig,
    market_key: Key,
    pool_state: &mut PoolState,
    price_oracle: &PriceOracle,
    now: i64,
    user: Key,
    user_balance: u64,
    direction: Direction,
    size: u64,
    slippage_tolerance: Option<u64>,
) -> (r: Result<OpenedPosition, ForwardError>)
    requires
        global.curve_params.valid(),
        market.risk_limits.shares_valid(),
    ensures
        match r {
            Ok(opened) => open_result(*global, *market, market_key, *old(pool_state), *price_oracle,
                now, user, user_balance, direction, size, slippage_tolerance)
                == Ok::<(PoolState, OpenedPosition), ForwardError>((*final(pool_state), opened)),
            Err(e) => open_result(*global, *market, market_key, *old(pool_state), *price_oracle,
                now, user, user_balance, direction, size, slippage_tolerance)
                == Err::<(PoolState, OpenedPosition), ForwardError>(e)
                && *final(pool_state) == *old(pool_state),
        },
        r is Ok ==> final(pool_state).position_counter == old(pool_state).position_counter + 1,
        r matches Ok(opened) ==> {
            &&& opened.position.size == size
            &&& opened.position.direction == direction
            &&& opened.position.status == PositionStatus::Open
            &&& opened.position.collateral_locked <= size
            &&& final(pool_state).pool_collateral == old(pool_state).pool_collateral + size
                - opened.position.collateral_locked
            &&& side_exposure(*final(pool_state), direction) == side_exposure(*old(pool_state), direction) + size
            &&& side_exposure(*final(pool_state), direction.spec_opposite()) == side_exposure(
                *old(pool_state),
                direction.spec_opposite(),
            )
        },
{
    let curve = &global.curve_params;
    if market.status != MarketStatus::Active {
        return Err(ForwardError::MarketNotActive);
    }
    if size == 0 {
        return Err(ForwardError::PositionSizeExceedsLimit);
    }
    let p = match check_price(price_oracle, now) {
        Ok(p) => p,
        Err(e) => return Err(e),
    };
    if p == 0 {
        return Err(ForwardError::InvalidOracleData);
    }
    let k = calculate_forward_price(p, pool_state, curve);
    if let Some(tolerance) = slippage_tolerance {
        let diff = if k > p { k - p } else { p - k };
        if diff * BASIS_POINTS / p > tolerance {
            return Err(ForwardError::SlippageExceeded);
        }
    }
    let rate = match checked_premium_rate(pool_state, curve, direction) {
        Some(rate) => rate,
        None => return Err(ForwardError::MathOverflow),
    };
    let prem = match checked_premium(rate, size) {
        Some(prem) => prem,
        None => return Err(ForwardError::MathOverflow),
    };
    let coll = calculate_collateral(k, size, direction);
    let max = calculate_max_size(pool_state, curve, &market.risk_limits, direction);
    if size > max {
        return Err(ForwardError::PositionSizeExceedsLimit);
    }
    let deposit = if prem > 0 {
        match coll.checked_add(prem as u64) {
            Some(d) => d,
            None => return Err(ForwardError::MathOverflow),
        }
    } else {
        coll
    };
    if user_balance < deposit {
        return Err(ForwardError::InsufficientCollateral);
    }
    let current = match direction {
        Direction::Long => pool_state.total_long_exposure,
        Direction::Short => pool_state.total_short_exposure,
    };
    let exposure = match current.checked_add(size) {
        Some(e) => e,
        None => return Err(ForwardError::MathOverflow),
    };
    let pool_collateral = match pool_state.pool_collateral.checked_add(size - coll) {
        Some(c) => c,
        None => return Err(ForwardError::MathOverflow),
    };
    let counter = match pool_state.position_counter.checked_add(1) {
        Some(c) => c,
        None => return Err(ForwardError::MathOverflow),
    };
    let position_id = pool_state.position_counter;
    match direction {
        Direction::Long => pool_state.total_long_exposure = exposure,
        Direction::Short => pool_state.total_short_exposure = exposure,
    }
    pool_state.pool_collateral = pool_collateral;
    pool_state.position_counter = counter;
    let rebate: u64 = if prem < 0 { (-(prem as i128)) as u64 } else { 0 };
    Ok(OpenedPosition {
        position_id,
        position: Position {
            owner: user,
            market: market_key,
            direction,
            size,
            forward_price: k,
            collateral_locked: coll,
            premium_paid: prem,
            status: PositionStatus::Open,
        },
        deposit,
        rebate,
    })
}

/// What settling hands back: the payout the vault sends to the owner and the
/// pool-side collateral it releases.
#[derive(Debug, Clone, Copy, PartialEq, Eq, Structural)]
pub struct Settlement {
    pub payout: u64,
    pub released_pool_collateral: u64,
}

/// The result of settling `position` for `user` against a vault holding
/// `vault_balance`: the ledger and position after it and what is paid, or the first
/// check that refuses it. The checks, in order: `user` owns the position, it belongs
/// to this market, it is still open, the market is resolved, an outcome is recorded,
/// the position's collateral is within its size, the vault covers the payout, and the
/// ledger's checked subtractions do not underflow.
pub open spec fn settle_result(
    market: MarketConfig,
    market_key: Key,
    pool: PoolState,
    resolution: ResolutionOracle,
    position: Position,
    user: Key,
    vault_balance: u64,
) -> Result<(PoolState, Position, Settlement), ForwardError> {
    if position.owner != user {
        Err(ForwardError::Unauthorized)
    } else if position.market != market_key {
        Err(ForwardError::PositionMarketMismatch)
    } else if position.status != PositionStatus::Open {
        Err(ForwardError::PositionAlreadySettled)
    } else if market.status != MarketStatus::Resolved {
        Err(ForwardError::MarketNotResolved)
    } else {
        match resolution_reading(resolution) {
            Err(e) => Err(e),
            Ok(None) => Err(ForwardError::InvalidOracleData),
            Ok(Some(outcome)) => {
                let paid = payout(position.size as int, position.direction, outcome);
                let pool_share = position.size - position.collateral_locked;
                let exposure = side_exposure(pool, position.direction) - position.size;
                if pool_share < 0 {
                    Err(ForwardError::MathOverflow)
                } else if paid > 0 && vault_balance < paid {
                    Err(ForwardError::InsufficientCollateral)
                } else if exposure < 0 || pool.pool_collateral < pool_share {
                    Err(ForwardError::MathOverflow)
                } else {
                    let new_pool = PoolState {
                        pool_collateral: (pool.pool_collateral - pool_share) as u64,
                        ..with_side_exposure(pool, position.direction, exposure as u64)
                    };
                    Ok((
                        new_pool,
                        Position { status: PositionStatus::Settled, ..position },
                        Settlement { payout: paid as u64, released_pool_collateral: pool_share as u64 },
                    ))
                }
            },
        }
    }
}

/// Settles `position` for `user` once the market is resolved. On success the ledger
/// gives back the position's exposure and pool share, the position becomes settled,
/// and the payout (never more than `vault_balance`) is returned; on failure nothing
/// changes.
pub fn settle_position(
    market: &MarketConfig,
    market_key: Key,
    pool_state: &mut PoolState,
    resolution_oracle: &ResolutionOracle,
    position: &mut Position,
    user: Key,
    vault_balance: u64,
) -> (r: Result<Settlement, ForwardError>)
    ensures
        match r {
            Ok(s) => settle_result(*market, market_key, *old(pool_state), *resolution_oracle,
                *old(position), user, vault_balance)
                == Ok::<(PoolState, Position, Settlement), ForwardError>((*final(pool_state), *final(position), s)),
            Err(e) => settle_result(*market, market_key, *old(pool_state), *resolution_oracle,
                *old(position), user, vault_balance)
                == Err::<(PoolState, Position, Settlement), ForwardError>(e)
                && *final(pool_state) == *old(pool_state)
                && *final(position) == *old(position),
        },
        r matches Ok(s) ==> s.payout <= vault_balance,
        final(pool_state).position_counter == old(pool_state).position_counter,
{
    if !same_key(&position.owner, &user) {
        return Err(ForwardError::Unauthorized);
    }
    if !same_key(&position.market, &market_key) {
        return Err(ForwardError::PositionMarketMismatch);
    }
    if position.status != PositionStatus::Open {
        return Err(ForwardError::PositionAlreadySettled);
    }
    if market.status != MarketStatus::Resolved {
        return Err(ForwardError::MarketNotResolved);
    }
    let outcome = match read_resolution(resolution_oracle) {
        Ok(Some(outcome)) => outcome,
        Ok(None) => return Err(ForwardError::InvalidOracleData),
        Err(e) => return Err(e),
    };
    let paid = calculate_settlement_payout(position.size, position.direction, outcome);
    let pool_share = match position.size.checked_sub(position.collateral_locked) {
        Some(s) => s,
        None => return Err(ForwardError::MathOverflow),
    };
    if paid > 0 && vault_balance < paid {
        return Err(ForwardError::InsufficientCollateral);
    }
    let current = match position.direction {
        Direction::Long => pool_state.total_long_exposure,
        Direction::Short => pool_state.total_short_exposure,
    };
    let exposure = match current.checked_sub(position.size) {
        Some(e) => e,
        None => return Err(ForwardError::MathOverflow),
    };
    let pool_collateral = match pool_state.pool_collateral.checked_sub(pool_share) {
        Some(c) => c,
        None => return Err(ForwardError::MathOverflow),
    };
    match position.direction {
        Direction::Long => pool_state.total_long_exposure = exposure,
        Direction::Short => pool_state.total_short_exposure = exposure,
    }
    pool_state.pool_collateral = pool_collateral;
    position.status = PositionStatus::Settled;
    Ok(Settlement { payout: paid, released_pool_collateral: pool_share })
}

/// Settlement is exactly-once: once a settlement of a position has succeeded, settling
/// the resulting position again is refused as already settled, whatever the vault
/// holds, so the ledger is left as the first settlement made it.
pub proof fn lemma_settlement_idempotent(
    market: MarketConfig,
    market_key: Key,
    pool: PoolState,
    resolution: ResolutionOracle,
    position: Position,
    user: Key,
    vault_balance: u64,
    later_vault_balance: u64,
)
    requires
        settle_result(market, market_key, pool, resolution, position, user, vault_balance) is Ok,
    ensures
        ({
            let (pool_after, position_after, _) =
                settle_result(market, market_key, pool, resolution, position, user, vault_balance)->Ok_0;
            settle_result(market, market_key, pool_after, resolution, position_after, user, later_vault_balance)
                == Err::<(PoolState, Position, Settlement), ForwardError>(ForwardError::PositionAlreadySettled)
        }),
{
}

/// The position counter moves only on a successful open, and then by exactly one:
/// a refused open hands back no ledger, and settlement never touches the counter.
pub proof fn lemma_position_counter(
    global: GlobalConfig,
    market: MarketConfig,
    market_key: Key,
    pool: PoolState,
    oracle: PriceOracle,
    now: i64,
    user: Key,
    user_balance: u64,
    direction: Direction,
    size: u64,
    slippage_tolerance: Option<u64>,
    resolution: ResolutionOracle,
    position: Position,
    vault_balance: u64,
)
    ensures
        open_result(global, market, market_key, pool, oracle, now, user, user_balance, direction, size,
            slippage_tolerance) matches Ok((after, _))
            ==> after.position_counter == pool.position_counter + 1,
        settle_result(market, market_key, pool, resolution, position, user, vault_balance) matches Ok((after, _, _))
            ==> after.position_counter == pool.position_counter,
{
}

/// A request one unit above the size limit is refused; a request exactly at a positive
/// limit is never refused for its size (it may still fail another check, such as the
/// caller's balance).
pub proof fn lemma_max_size_enforced(
    global: GlobalConfig,
    market: MarketConfig,
    market_key: Key,
    pool: PoolState,
    oracle: PriceOracle,
    now: i64,
    user: Key,
    user_balance: u64,
    direction: Direction,
    size: u64,
    slippage_tolerance: Option<u64>,
)
    ensures
        size == max_size(pool, market.risk_limits, direction) + 1 ==> open_result(global, market,
            market_key, pool, oracle, now, user, user_balance, direction, size, slippage_tolerance) is Err,
        size == max_size(pool, market.risk_limits, direction) && size > 0 ==> open_result(global, market,
            market_key, pool, oracle, now, user, user_balance, direction, size, slippage_tolerance)
            != Err::<(PoolState, OpenedPosition), ForwardError>(ForwardError::PositionSizeExceedsLimit),
{
}

/// Conservation at open and settlement: the owner's collateral and the pool's recorded
/// share make up exactly the position's size, the counter-side's collateral never
/// exceeds that pool share, and a payout is never more than the vault holds nor more
/// than the size the position escrowed.
pub proof fn lemma_conservation(
    global: GlobalConfig,
    market: MarketConfig,
    market_key: Key,
    pool: PoolState,
    oracle: PriceOracle,
    now: i64,
    user: Key,
    user_balance: u64,
    direction: Direction,
    size: u64,
    slippage_tolerance: Option<u64>,
    resolution: ResolutionOracle,
    position: Position,
    vault_balance: u64,
)
    requires
        global.curve_params.valid(),
    ensures
        open_result(global, market, market_key, pool, oracle, now, user, user_balance, direction, size,
            slippage_tolerance) matches Ok((after, opened)) ==> {
            &&& opened.position.collateral_locked + (after.pool_collateral - pool.pool_collateral) == size
            &&& collateral(opened.position.forward_price as int, size as int, direction.spec_opposite())
                <= after.pool_collateral - pool.pool_collateral
        },
        settle_result(market, market_key, pool, resolution, position, user, vault_balance) matches Ok((_, _, s)) ==> {
            &&& s.payout <= vault_balance
            &&& s.payout <= position.collateral_locked + s.released_pool_collateral
        },
{
    let k = forward_price(oracle.price as int, pool, global.curve_params);
    if 0 <= k <= BASIS_POINTS {
        crate::math::lemma_collateral_conservation(k as u64, size);
    }
}

} // verus!
