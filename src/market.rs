use vstd::prelude::*;
use vstd::utf8::encode_utf8;
use crate::errors::ForwardError;
use crate::oracle::{PriceOracle, ResolutionOracle};
use crate::state::{
    same_key, BASIS_POINTS, CurveParams, GlobalConfig, Key, MarketConfig, MarketStatus, Outcome,
    PoolState, RiskLimits, MAX_MARKET_ID_LEN,
};

verus! {

/// Furthest a market's resolution may lie in the future: ten years, in seconds.
pub const MAX_RESOLUTION_HORIZON: i64 = 315360000;

/// The addresses of the records that make up one market.
#[derive(Debug, Clone, Copy, PartialEq, Eq)]
pub struct MarketKeys {
    pub market: Key,
    pub pool_state: Key,
    pub price_oracle: Key,
    pub resolution_oracle: Key,
    pub collateral_vault: Key,
}

/// Checks the curve invariant, reporting a violation as invalid data.
fn validate_curve(curve_params: &CurveParams) -> (r: Result<(), ForwardError>)
    ensures
        r is Ok <==> curve_params.valid(),
        r matches Err(e) ==> e == ForwardError::InvalidOracleData,
{
    if curve_params.min_price > curve_params.max_price || curve_params.max_price > BASIS_POINTS
        || curve_params.max_exposure == 0 {
        Err(ForwardError::InvalidOracleData)
    } else {
        Ok(())
    }
}

/// Creates the platform configuration; refused when the curve breaks its invariant.
pub fn init_global_config(admin: Key, collateral_mint: Key, curve_params: CurveParams) -> (r: Result<
    GlobalConfig,
    ForwardError,
>)
    ensures
        r == (if curve_params.valid() {
            Ok(GlobalConfig { admin, collateral_mint, curve_params })
        } else {
            Err(ForwardError::InvalidOracleData)
        }),
{
    match validate_curve(&curve_params) {
        Ok(()) => Ok(GlobalConfig { admin, collateral_mint, curve_params }),
        Err(e) => Err(e),
    }
}

/// Replaces the curve wholesale. Only the administrator may, and only with a valid curve.
pub fn update_curve_params(global_config: &mut GlobalConfig, admin: Key, curve_params: CurveParams) -> (r:
    Result<(), ForwardError>)
    ensures
        r == (if admin != old(global_config).admin {
            Err(ForwardError::Unauthorized)
        } else if !curve_params.valid() {
            Err(ForwardError::InvalidOracleData)
        } else {
            Ok(())
        }),
        *final(global_config) == (if r is Ok {
            GlobalConfig { curve_params, ..*old(global_config) }
        } else {
            *old(global_config)
        }),
{
    if !same_key(&admin, &global_config.admin) {
        return Err(ForwardError::Unauthorized);
    }
    match validate_curve(&curve_params) {
        Ok(()) => {
            global_config.curve_params = curve_params;
            Ok(())
        },
        Err(e) => Err(e),
    }
}

/// Whether a resolution time is strictly after `now` and at most ten years later.
pub open spec fn resolution_time_ok(resolution_timestamp: i64, now: i64) -> bool {
    &&& resolution_timestamp > now
    &&& resolution_timestamp <= now + MAX_RESOLUTION_HORIZON
}

/// The market a successful creation records: active, with the given limits and addresses.
pub open spec fn new_market(
    keys: MarketKeys,
    polymarket_market_id: String,
    resolution_timestamp: i64,
    risk_limits: RiskLimits,
) -> MarketConfig {
    MarketConfig {
        polymarket_market_id,
        resolution_timestamp,
        price_oracle: keys.price_oracle,
        resolution_oracle: keys.resolution_oracle,
        risk_limits,
        status: MarketStatus::Active,
        pool_state: keys.pool_state,
        collateral_vault: keys.collateral_vault,
    }
}

/// An empty exposure ledger for the market at `market`.
pub open spec fn new_pool(market: Key) -> PoolState {
    PoolState {
        market,
        total_long_exposure: 0,
        total_short_exposure: 0,
        pool_collateral: 0,
        position_counter: 0,
    }
}

/// Creates a market and its empty ledger. The checks, in order: `admin` is the
/// administrator, the identifier is at most `MAX_MARKET_ID_LEN` bytes, `mint` is the
/// configured collateral asset, the resolution time lies in `(now, now + ten years]`,
/// and the risk limits are valid.
pub fn create_market(
    global_config: &GlobalConfig,
    admin: Key,
    mint: Key,
    keys: MarketKeys,
    polymarket_market_id: String,
    resolution_timestamp: i64,
    risk_limits: RiskLimits,
    now: i64,
) -> (r: Result<(MarketConfig, PoolState), ForwardError>)
    ensures
        admin != global_config.admin ==> r == Err::<(MarketConfig, PoolState), ForwardError>(
            ForwardError::Unauthorized,
        ),
        admin == global_config.admin && encode_utf8(polymarket_market_id@).len() > MAX_MARKET_ID_LEN
            ==> r == Err::<(MarketConfig, PoolState), ForwardError>(ForwardError::InvalidOracleData),
        admin == global_config.admin && encode_utf8(polymarket_market_id@).len() <= MAX_MARKET_ID_LEN
            && mint != global_config.collateral_mint ==> r == Err::<(MarketConfig, PoolState), ForwardError>(
            ForwardError::InvalidMint,
        ),
        admin == global_config.admin && encode_utf8(polymarket_market_id@).len() <= MAX_MARKET_ID_LEN
            && mint == global_config.collateral_mint && !(resolution_time_ok(resolution_timestamp, now)
            && risk_limits.valid()) ==> r == Err::<(MarketConfig, PoolState), ForwardError>(
            ForwardError::InvalidOracleData,
        ),
        r is Ok <==> admin == global_config.admin && encode_utf8(polymarket_market_id@).len()
            <= MAX_MARKET_ID_LEN && mint == global_config.collateral_mint && resolution_time_ok(
            resolution_timestamp,
            now,
        ) && risk_limits.valid(),
        r matches Ok((m, p)) ==> m == new_market(keys, polymarket_market_id, resolution_timestamp, risk_limits)
            && p == new_pool(keys.market),
{
    if !same_key(&admin, &global_config.admin) {
        return Err(ForwardError::Unauthorized);
    }
    if polymarket_market_id.as_str().as_bytes().len() > MAX_MARKET_ID_LEN {
        return Err(ForwardError::InvalidOracleData);
    }
    if !same_key(&mint, &global_config.collateral_mint) {
        return Err(ForwardError::InvalidMint);
    }
    if resolution_timestamp <= now {
        return Err(ForwardError::InvalidOracleData);
    }
    if resolution_timestamp as i128 > now as i128 + MAX_RESOLUTION_HORIZON as i128 {
        return Err(ForwardError::InvalidOracleData);
    }
    if risk_limits.max_total_exposure == 0 || risk_limits.max_long_share > BASIS_POINTS
        || risk_limits.max_short_share > BASIS_POINTS {
        return Err(ForwardError::InvalidOracleData);
    }
    let market = MarketConfig {
        polymarket_market_id,
        resolution_timestamp,
        price_oracle: keys.price_oracle,
        resolution_oracle: keys.resolution_oracle,
        risk_limits,
        status: MarketStatus::Active,
        pool_state: keys.pool_state,
        collateral_vault: keys.collateral_vault,
    };
    let pool = PoolState {
        market: keys.market,
        total_long_exposure: 0,
        total_short_exposure: 0,
        pool_collateral: 0,
        position_counter: 0,
    };
    Ok((market, pool))
}

/// Stops trading on an active market. Only the administrator may, and only from `Active`.
pub fn close_market_for_trading(global_config: &GlobalConfig, admin: Key, market: &mut MarketConfig) -> (r:
    Result<(), ForwardError>)
    ensures
        r == (if admin != global_config.admin {
            Err(ForwardError::Unauthorized)
        } else if old(market).status != MarketStatus::Active {
            Err(ForwardError::InvalidMarketStatus)
        } else {
            Ok(())
        }),
        *final(market) == (if r is Ok {
            MarketConfig { status: MarketStatus::TradingClosed, ..*old(market) }
        } else {
            *old(market)
        }),
{
    if !same_key(&admin, &global_config.admin) {
        return Err(ForwardError::Unauthorized);
    }
    if market.status != MarketStatus::Active {
        return Err(ForwardError::InvalidMarketStatus);
    }
    market.status = MarketStatus::TradingClosed;
    Ok(())
}

/// Records the outcome at time `now` and resolves the market, in one step. Only the
/// administrator may, and only from `Active` or `TradingClosed`.
pub fn update_market_resolution(
    global_config: &GlobalConfig,
    admin: Key,
    market: &mut MarketConfig,
    resolution_oracle: &mut ResolutionOracle,
    outcome: Outcome,
    now: i64,
) -> (r: Result<(), ForwardError>)
    ensures
        r == (if admin != global_config.admin {
            Err(ForwardError::Unauthorized)
        } else if old(market).status == MarketStatus::Resolved {
            Err(ForwardError::InvalidMarketStatus)
        } else {
            Ok(())
        }),
        *final(market) == (if r is Ok {
            MarketConfig { status: MarketStatus::Resolved, ..*old(market) }
        } else {
            *old(market)
        }),
        *final(resolution_oracle) == (if r is Ok {
            ResolutionOracle { outcome: Some(outcome.tag()), resolved_at: Some(now) }
        } else {
            *old(resolution_oracle)
        }),
{
    if !same_key(&admin, &global_config.admin) {
        return Err(ForwardError::Unauthorized);
    }
    if market.status != MarketStatus::Active && market.status != MarketStatus::TradingClosed {
        return Err(ForwardError::InvalidMarketStatus);
    }
    resolution_oracle.outcome = Some(outcome.as_u8());
    resolution_oracle.resolved_at = Some(now);
    market.status = MarketStatus::Resolved;
    Ok(())
}

/// Stores a new price reading observed at `now`. Only the administrator may, and only
/// with a price in `[0, BASIS_POINTS]`.
pub fn update_price_oracle(
    global_config: &GlobalConfig,
    admin: Key,
    price_oracle: &mut PriceOracle,
    price: u64,
    exponent: i8,
    now: i64,
) -> (r: Result<(), ForwardError>)
    ensures
        r == (if admin != global_config.admin {
            Err(ForwardError::Unauthorized)
        } else if price > BASIS_POINTS {
            Err(ForwardError::InvalidOracleData)
        } else {
            Ok(())
        }),
        *final(price_oracle) == (if r is Ok {
            PriceOracle { price, timestamp: now, exponent }
        } else {
            *old(price_oracle)
        }),
{
    if !same_key(&admin, &global_config.admin) {
        return Err(ForwardError::Unauthorized);
    }
    if price > BASIS_POINTS {
        return Err(ForwardError::InvalidOracleData);
    }
    price_oracle.price = price;
    price_oracle.timestamp = now;
    price_oracle.exponent = exponent;
    Ok(())
}

} // verus!
