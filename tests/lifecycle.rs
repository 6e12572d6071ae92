use forward::errors::ForwardError;
use forward::market::{
    close_market_for_trading, create_market, init_global_config, update_curve_params,
    update_market_resolution, update_price_oracle, MarketKeys,
};
use forward::oracle::{check_price, current_timestamp, read_price, read_resolution, PriceOracle, ResolutionOracle};
use forward::position::{open_position, settle_position, OpenedPosition};
use forward::state::{
    CurveParams, Direction, GlobalConfig, Key, MarketConfig, MarketStatus, Outcome, PoolState,
    PositionStatus, RiskLimits,
};

const NOW: i64 = 1_700_000_000;

fn key(b: u8) -> Key {
    Key { bytes: [b; 32] }
}

fn curve() -> CurveParams {
    CurveParams { alpha: 1000, beta: 500, max_exposure: 100000, min_price: 500, max_price: 9500 }
}

fn limits() -> RiskLimits {
    RiskLimits { max_total_exposure: 1_000_000, max_long_share: 10000, max_short_share: 10000 }
}

fn keys() -> MarketKeys {
    MarketKeys {
        market: key(10),
        pool_state: key(11),
        price_oracle: key(12),
        resolution_oracle: key(13),
        collateral_vault: key(14),
    }
}

fn setup() -> (GlobalConfig, MarketConfig, PoolState) {
    let global = init_global_config(key(1), key(2), curve()).unwrap();
    let (market, pool) =
        create_market(&global, key(1), key(2), keys(), "will-x-happen".to_string(), NOW + 86400, limits(), NOW)
            .unwrap();
    (global, market, pool)
}

fn oracle(price: u64) -> PriceOracle {
    PriceOracle { price, timestamp: NOW - 10, exponent: -4 }
}

fn open(
    global: &GlobalConfig,
    market: &MarketConfig,
    pool: &mut PoolState,
    price: u64,
    direction: Direction,
    size: u64,
    slippage: Option<u64>,
) -> Result<OpenedPosition, ForwardError> {
    open_position(global, market, key(10), pool, &oracle(price), NOW, key(7), u64::MAX, direction, size, slippage)
}

#[test]
fn init_global_config_rejects_invalid_curve() {
    let bad = CurveParams { min_price: 9000, max_price: 8000, ..curve() };
    assert_eq!(init_global_config(key(1), key(2), bad), Err(ForwardError::InvalidOracleData));
    let bad = CurveParams { max_price: 10001, ..curve() };
    assert_eq!(init_global_config(key(1), key(2), bad), Err(ForwardError::InvalidOracleData));
    let bad = CurveParams { max_exposure: 0, ..curve() };
    assert_eq!(init_global_config(key(1), key(2), bad), Err(ForwardError::InvalidOracleData));
    let g = init_global_config(key(1), key(2), curve()).unwrap();
    assert_eq!(g.admin, key(1));
    assert_eq!(g.collateral_mint, key(2));
    assert_eq!(g.curve_params, curve());
}

#[test]
fn update_curve_params_checks_admin_and_curve() {
    let (mut global, _, _) = setup();
    let new = CurveParams { alpha: 2000, ..curve() };
    assert_eq!(update_curve_params(&mut global, key(3), new), Err(ForwardError::Unauthorized));
    assert_eq!(global.curve_params, curve());
    let bad = CurveParams { max_exposure: 0, ..curve() };
    assert_eq!(update_curve_params(&mut global, key(1), bad), Err(ForwardError::InvalidOracleData));
    assert_eq!(global.curve_params, curve());
    assert_eq!(update_curve_params(&mut global, key(1), new), Ok(()));
    assert_eq!(global.curve_params, new);
}

#[test]
fn create_market_validations() {
    let global = init_global_config(key(1), key(2), curve()).unwrap();
    let id = || "m".to_string();
    assert_eq!(
        create_market(&global, key(3), key(2), keys(), id(), NOW + 10, limits(), NOW).err(),
        Some(ForwardError::Unauthorized)
    );
    assert_eq!(
        create_market(&global, key(1), key(2), keys(), "x".repeat(257), NOW + 10, limits(), NOW).err(),
        Some(ForwardError::InvalidOracleData)
    );
    assert!(create_market(&global, key(1), key(2), keys(), "x".repeat(256), NOW + 10, limits(), NOW).is_ok());
    assert_eq!(
        create_market(&global, key(1), key(4), keys(), id(), NOW + 10, limits(), NOW).err(),
        Some(ForwardError::InvalidMint)
    );
    assert_eq!(
        create_market(&global, key(1), key(2), keys(), id(), NOW, limits(), NOW).err(),
        Some(ForwardError::InvalidOracleData)
    );
    assert!(create_market(&global, key(1), key(2), keys(), id(), NOW + 315360000, limits(), NOW).is_ok());
    assert_eq!(
        create_market(&global, key(1), key(2), keys(), id(), NOW + 315360001, limits(), NOW).err(),
        Some(ForwardError::InvalidOracleData)
    );
    let zero = RiskLimits { max_total_exposure: 0, ..limits() };
    assert_eq!(
        create_market(&global, key(1), key(2), keys(), id(), NOW + 10, zero, NOW).err(),
        Some(ForwardError::InvalidOracleData)
    );
    let share = RiskLimits { max_short_share: 10001, ..limits() };
    assert_eq!(
        create_market(&global, key(1), key(2), keys(), id(), NOW + 10, share, NOW).err(),
        Some(ForwardError::InvalidOracleData)
    );
    let (market, pool) = create_market(&global, key(1), key(2), keys(), id(), NOW + 10, limits(), NOW).unwrap();
    assert_eq!(market.status, MarketStatus::Active);
    assert_eq!(market.polymarket_market_id, "m");
    assert_eq!(market.pool_state, key(11));
    assert_eq!(pool.market, key(10));
    assert_eq!(pool.position_counter, 0);
}

#[test]
fn price_readings() {
    assert_eq!(check_price(&oracle(5000), NOW), Ok(5000));
    assert_eq!(check_price(&oracle(10001), NOW), Err(ForwardError::InvalidOracleData));
    let future = PriceOracle { timestamp: NOW + 1, ..oracle(5000) };
    assert_eq!(check_price(&future, NOW), Err(ForwardError::InvalidOracleData));
    let edge = PriceOracle { timestamp: NOW - 300, ..oracle(5000) };
    assert_eq!(check_price(&edge, NOW), Ok(5000));
    let stale = PriceOracle { timestamp: NOW - 301, ..oracle(5000) };
    assert_eq!(check_price(&stale, NOW), Err(ForwardError::InvalidOracleData));
    let ancient = PriceOracle { timestamp: i64::MIN, ..oracle(5000) };
    assert_eq!(check_price(&ancient, i64::MAX), Err(ForwardError::InvalidOracleData));
}

#[test]
fn read_price_outside_the_runtime_has_no_clock() {
    assert_eq!(read_price(&oracle(5000)), Err(ForwardError::ClockUnavailable));
    assert_eq!(current_timestamp(), Err(ForwardError::ClockUnavailable));
}

#[test]
fn resolution_readings() {
    let r = |outcome| ResolutionOracle { outcome, resolved_at: None };
    assert_eq!(read_resolution(&r(Some(1))), Ok(Some(Outcome::Yes)));
    assert_eq!(read_resolution(&r(Some(0))), Ok(Some(Outcome::No)));
    assert_eq!(read_resolution(&r(Some(2))), Err(ForwardError::InvalidOracleData));
    assert_eq!(read_resolution(&r(None)), Ok(None));
}

#[test]
fn update_price_oracle_checks() {
    let (global, _, _) = setup();
    let mut o = oracle(1);
    assert_eq!(update_price_oracle(&global, key(3), &mut o, 5000, -4, NOW), Err(ForwardError::Unauthorized));
    assert_eq!(update_price_oracle(&global, key(1), &mut o, 10001, -4, NOW), Err(ForwardError::InvalidOracleData));
    assert_eq!(o, oracle(1));
    assert_eq!(update_price_oracle(&global, key(1), &mut o, 10000, -2, NOW + 5), Ok(()));
    assert_eq!(o, PriceOracle { price: 10000, timestamp: NOW + 5, exponent: -2 });
}

#[test]
fn market_status_moves_forward_only() {
    let (global, mut market, _) = setup();
    let mut res = ResolutionOracle { outcome: None, resolved_at: None };
    assert_eq!(close_market_for_trading(&global, key(3), &mut market), Err(ForwardError::Unauthorized));
    assert_eq!(close_market_for_trading(&global, key(1), &mut market), Ok(()));
    assert_eq!(market.status, MarketStatus::TradingClosed);
    assert_eq!(close_market_for_trading(&global, key(1), &mut market), Err(ForwardError::InvalidMarketStatus));
    assert_eq!(
        update_market_resolution(&global, key(3), &mut market, &mut res, Outcome::Yes, NOW),
        Err(ForwardError::Unauthorized)
    );
    assert_eq!(update_market_resolution(&global, key(1), &mut market, &mut res, Outcome::Yes, NOW), Ok(()));
    assert_eq!(market.status, MarketStatus::Resolved);
    assert_eq!(res, ResolutionOracle { outcome: Some(1), resolved_at: Some(NOW) });
    assert_eq!(
        update_market_resolution(&global, key(1), &mut market, &mut res, Outcome::No, NOW + 1),
        Err(ForwardError::InvalidMarketStatus)
    );
    assert_eq!(res.outcome, Some(1));
    assert_eq!(close_market_for_trading(&global, key(1), &mut market), Err(ForwardError::InvalidMarketStatus));
}

#[test]
fn open_position_records_trade() {
    let (global, market, mut pool) = setup();
    pool.total_long_exposure = 60000;
    let opened = open(&global, &market, &mut pool, 5000, Direction::Long, 1000, None).unwrap();
    assert_eq!(opened.position_id, 0);
    assert_eq!(opened.position.forward_price, 5600);
    assert_eq!(opened.position.collateral_locked, 560);
    assert_eq!(opened.position.premium_paid, 30);
    assert_eq!(opened.position.status, PositionStatus::Open);
    assert_eq!(opened.position.owner, key(7));
    assert_eq!(opened.position.market, key(10));
    assert_eq!(opened.deposit, 590);
    assert_eq!(opened.rebate, 0);
    assert_eq!(pool.total_long_exposure, 61000);
    assert_eq!(pool.pool_collateral, 440);
    assert_eq!(pool.position_counter, 1);
}

#[test]
fn open_short_receives_rebate() {
    let (global, market, mut pool) = setup();
    pool.total_long_exposure = 60000;
    let opened = open(&global, &market, &mut pool, 5000, Direction::Short, 1000, None).unwrap();
    assert_eq!(opened.position.collateral_locked, 440);
    assert_eq!(opened.position.premium_paid, -30);
    assert_eq!(opened.deposit, 440);
    assert_eq!(opened.rebate, 30);
    assert_eq!(pool.total_short_exposure, 1000);
    assert_eq!(pool.pool_collateral, 560);
}

#[test]
fn pool_absorbs_truncation_remainder() {
    let (global, market, mut pool) = setup();
    let o = PriceOracle { price: 3333, ..oracle(0) };
    let opened =
        open_position(&global, &market, key(10), &mut pool, &o, NOW, key(7), u64::MAX, Direction::Long, 7, None)
            .unwrap();
    // long locks 2, the counter-side's collateral would be 4: the pool records 5
    assert_eq!(opened.position.collateral_locked, 2);
    assert_eq!(pool.pool_collateral, 5);
}

#[test]
fn slippage_rejection() {
    let (global, market, mut pool) = setup();
    pool.total_long_exposure = 60000;
    let before = pool;
    assert_eq!(
        open(&global, &market, &mut pool, 5000, Direction::Long, 1000, Some(500)),
        Err(ForwardError::SlippageExceeded)
    );
    assert_eq!(pool, before);
    assert!(open(&global, &market, &mut pool, 5000, Direction::Long, 1000, Some(1200)).is_ok());
}

#[test]
fn open_position_refusals() {
    let (global, mut market, mut pool) = setup();
    let before = pool;
    assert_eq!(
        open(&global, &market, &mut pool, 5000, Direction::Long, 0, None),
        Err(ForwardError::PositionSizeExceedsLimit)
    );
    assert_eq!(open(&global, &market, &mut pool, 0, Direction::Long, 10, None), Err(ForwardError::InvalidOracleData));
    assert_eq!(
        open(&global, &market, &mut pool, 10001, Direction::Long, 10, None),
        Err(ForwardError::InvalidOracleData)
    );
    let stale = PriceOracle { timestamp: NOW - 301, ..oracle(5000) };
    assert_eq!(
        open_position(&global, &market, key(10), &mut pool, &stale, NOW, key(7), u64::MAX, Direction::Long, 10, None),
        Err(ForwardError::InvalidOracleData)
    );
    assert_eq!(
        open_position(&global, &market, key(10), &mut pool, &oracle(5000), NOW, key(7), 499, Direction::Long, 1000, None),
        Err(ForwardError::InsufficientCollateral)
    );
    assert!(open_position(&global, &market, key(10), &mut pool, &oracle(5000), NOW, key(7), 500, Direction::Long, 1000, None)
        .is_ok());
    let after_one = pool;
    assert_eq!(after_one.position_counter, 1);
    market.status = MarketStatus::TradingClosed;
    assert_eq!(open(&global, &market, &mut pool, 5000, Direction::Long, 10, None), Err(ForwardError::MarketNotActive));
    assert_eq!(pool, after_one);
    assert_ne!(before, after_one);
}

#[test]
fn premium_overflow_is_refused() {
    let global = init_global_config(key(1), key(2), CurveParams { beta: u64::MAX, ..curve() }).unwrap();
    let (market, mut pool) =
        create_market(&global, key(1), key(2), keys(), "m".to_string(), NOW + 10, limits(), NOW).unwrap();
    pool.total_long_exposure = 100000;
    let before = pool;
    assert_eq!(open(&global, &market, &mut pool, 5000, Direction::Long, 10, None), Err(ForwardError::MathOverflow));
    assert_eq!(pool, before);
}

#[test]
fn max_size_enforcement() {
    let (global, mut market, mut pool) = setup();
    market.risk_limits = RiskLimits { max_total_exposure: 10000, max_long_share: 5000, max_short_share: 10000 };
    pool.total_long_exposure = 1000;
    let before = pool;
    // long cap 5000 - 1000 = 4000
    assert_eq!(
        open(&global, &market, &mut pool, 5000, Direction::Long, 4001, None),
        Err(ForwardError::PositionSizeExceedsLimit)
    );
    assert_eq!(pool, before);
    assert!(open(&global, &market, &mut pool, 5000, Direction::Long, 4000, None).is_ok());
    assert_eq!(pool.total_long_exposure, 5000);
}

#[test]
fn position_counter_increments_per_open_only() {
    let (global, market, mut pool) = setup();
    for i in 0..5u64 {
        let opened = open(&global, &market, &mut pool, 5000, Direction::Long, 100, None).unwrap();
        assert_eq!(opened.position_id, i);
        assert_eq!(pool.position_counter, i + 1);
        assert!(open(&global, &market, &mut pool, 5000, Direction::Long, 0, None).is_err());
        assert_eq!(pool.position_counter, i + 1);
    }
    pool.position_counter = u64::MAX;
    let before = pool;
    assert_eq!(open(&global, &market, &mut pool, 5000, Direction::Long, 100, None), Err(ForwardError::MathOverflow));
    assert_eq!(pool, before);
}

#[test]
fn settle_pays_winner_and_is_idempotent() {
    let (global, mut market, mut pool) = setup();
    let mut long = open(&global, &market, &mut pool, 5000, Direction::Long, 1000, None).unwrap().position;
    let mut short = open(&global, &market, &mut pool, 5000, Direction::Short, 400, None).unwrap().position;
    let mut res = ResolutionOracle { outcome: None, resolved_at: None };
    assert_eq!(
        settle_position(&market, key(10), &mut pool, &res, &mut long, key(7), 10000),
        Err(ForwardError::MarketNotResolved)
    );
    update_market_resolution(&global, key(1), &mut market, &mut res, Outcome::Yes, NOW).unwrap();
    assert_eq!(
        settle_position(&market, key(10), &mut pool, &res, &mut long, key(8), 10000),
        Err(ForwardError::Unauthorized)
    );
    assert_eq!(
        settle_position(&market, key(99), &mut pool, &res, &mut long, key(7), 10000),
        Err(ForwardError::PositionMarketMismatch)
    );
    assert_eq!(
        settle_position(&market, key(10), &mut pool, &res, &mut long, key(7), 999),
        Err(ForwardError::InsufficientCollateral)
    );
    let s = settle_position(&market, key(10), &mut pool, &res, &mut long, key(7), 1000).unwrap();
    assert_eq!(s.payout, 1000);
    assert_eq!(s.released_pool_collateral, 1000 - long.collateral_locked);
    assert_eq!(long.status, PositionStatus::Settled);
    assert_eq!(pool.total_long_exposure, 0);
    let after_first = pool;
    assert_eq!(
        settle_position(&market, key(10), &mut pool, &res, &mut long, key(7), 10000),
        Err(ForwardError::PositionAlreadySettled)
    );
    assert_eq!(pool, after_first);
    // the losing side receives nothing, even from an empty vault
    let s = settle_position(&market, key(10), &mut pool, &res, &mut short, key(7), 0).unwrap();
    assert_eq!(s.payout, 0);
    assert_eq!(pool.total_short_exposure, 0);
    assert_eq!(pool.pool_collateral, 0);
    assert_eq!(pool.position_counter, 2);
}

#[test]
fn settle_needs_recorded_outcome() {
    let (global, mut market, mut pool) = setup();
    let mut pos = open(&global, &market, &mut pool, 5000, Direction::Short, 100, None).unwrap().position;
    market.status = MarketStatus::Resolved;
    let before = pool;
    let none = ResolutionOracle { outcome: None, resolved_at: None };
    assert_eq!(
        settle_position(&market, key(10), &mut pool, &none, &mut pos, key(7), 1000),
        Err(ForwardError::InvalidOracleData)
    );
    let bad = ResolutionOracle { outcome: Some(7), resolved_at: Some(NOW) };
    assert_eq!(
        settle_position(&market, key(10), &mut pool, &bad, &mut pos, key(7), 1000),
        Err(ForwardError::InvalidOracleData)
    );
    assert_eq!(pool, before);
    assert_eq!(pos.status, PositionStatus::Open);
    let no = ResolutionOracle { outcome: Some(0), resolved_at: Some(NOW) };
    assert_eq!(settle_position(&market, key(10), &mut pool, &no, &mut pos, key(7), 1000).unwrap().payout, 100);
}

#[test]
fn settle_refuses_inconsistent_ledger() {
    let (global, mut market, mut pool) = setup();
    let mut pos = open(&global, &market, &mut pool, 5000, Direction::Long, 100, None).unwrap().position;
    market.status = MarketStatus::Resolved;
    let res = ResolutionOracle { outcome: Some(0), resolved_at: Some(NOW) };
    pool.total_long_exposure = 99;
    assert_eq!(settle_position(&market, key(10), &mut pool, &res, &mut pos, key(7), 0), Err(ForwardError::MathOverflow));
    pool.total_long_exposure = 100;
    pos.collateral_locked = 101;
    assert_eq!(settle_position(&market, key(10), &mut pool, &res, &mut pos, key(7), 0), Err(ForwardError::MathOverflow));
    assert_eq!(pos.status, PositionStatus::Open);
}
