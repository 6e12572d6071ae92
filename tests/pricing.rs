use forward::math::{
    calculate_collateral, calculate_forward_price, calculate_max_size, calculate_premium,
    calculate_premium_rate, calculate_settlement_payout,
};
use forward::state::{CurveParams, Direction, Key, Outcome, PoolState, RiskLimits};

fn pool(long: u64, short: u64) -> PoolState {
    PoolState {
        market: Key { bytes: [9; 32] },
        total_long_exposure: long,
        total_short_exposure: short,
        pool_collateral: 0,
        position_counter: 0,
    }
}

fn curve() -> CurveParams {
    CurveParams { alpha: 1000, beta: 500, max_exposure: 100000, min_price: 500, max_price: 9500 }
}

#[test]
fn forward_price_example() {
    assert_eq!(calculate_forward_price(5000, &pool(60000, 0), &curve()), 5600);
}

#[test]
fn forward_price_balanced_pool_is_reference_price() {
    assert_eq!(calculate_forward_price(4321, &pool(700, 700), &curve()), 4321);
}

#[test]
fn forward_price_short_skew_truncates_toward_zero() {
    // ratio = -33333 * 10000 / 100000 = -3333 (toward zero); skew = -1000 * 3333 / 10000 = -333
    assert_eq!(calculate_forward_price(5000, &pool(0, 33333), &curve()), 4667);
}

#[test]
fn forward_price_ratio_saturates() {
    // net exposure is five times the saturation exposure: the ratio stops at 10000
    assert_eq!(calculate_forward_price(5000, &pool(500000, 0), &curve()), 6000);
}

#[test]
fn forward_price_is_clamped_to_band() {
    let c = curve();
    for p in [0u64, 1, 499, 500, 5000, 9500, 9999, 10000] {
        for (l, s) in [(0u64, 0u64), (1_000_000, 0), (0, 1_000_000), (12345, 678)] {
            let k = calculate_forward_price(p, &pool(l, s), &c);
            assert!(k >= c.min_price && k <= c.max_price, "p={} k={}", p, k);
        }
    }
    assert_eq!(calculate_forward_price(100, &pool(0, 0), &c), 500);
    assert_eq!(calculate_forward_price(9900, &pool(0, 0), &c), 9500);
}

#[test]
fn forward_price_without_saturation_exposure_has_no_skew() {
    let c = CurveParams { max_exposure: 0, ..curve() };
    assert_eq!(calculate_forward_price(5000, &pool(60000, 0), &c), 5000);
}

#[test]
fn premium_rate_by_side() {
    assert_eq!(calculate_premium_rate(&pool(60000, 0), &curve(), Direction::Long), 300);
    assert_eq!(calculate_premium_rate(&pool(60000, 0), &curve(), Direction::Short), -300);
    assert_eq!(calculate_premium_rate(&pool(0, 60000), &curve(), Direction::Long), -300);
}

#[test]
fn premium_truncates_toward_zero() {
    assert_eq!(calculate_premium(300, 1000), 30);
    assert_eq!(calculate_premium(-300, 1000), -30);
    assert_eq!(calculate_premium(-3, 1000), 0);
    assert_eq!(calculate_premium(7, 9999), 6);
    assert_eq!(calculate_premium(-7, 9999), -6);
}

#[test]
fn collateral_by_side() {
    assert_eq!(calculate_collateral(5600, 1000, Direction::Long), 560);
    assert_eq!(calculate_collateral(5600, 1000, Direction::Short), 440);
    assert_eq!(calculate_collateral(3333, 7, Direction::Long), 2);
    assert_eq!(calculate_collateral(3333, 7, Direction::Short), 4);
    assert_eq!(calculate_collateral(10000, u64::MAX, Direction::Long), u64::MAX);
    assert_eq!(calculate_collateral(0, u64::MAX, Direction::Short), u64::MAX);
}

#[test]
fn collateral_conservation_on_values() {
    for k in [0u64, 1, 3333, 5000, 5600, 9999, 10000] {
        for size in [1u64, 7, 1000, 123457, u64::MAX] {
            let long = calculate_collateral(k, size, Direction::Long) as u128;
            let short = calculate_collateral(k, size, Direction::Short) as u128;
            assert!(long + short <= size as u128);
            assert!(long + short + 1 >= size as u128);
        }
    }
}

#[test]
fn max_size_takes_tighter_limit() {
    let limits = RiskLimits { max_total_exposure: 100000, max_long_share: 6000, max_short_share: 8000 };
    // total headroom 100000 - 30000 = 70000; long cap 60000 - 20000 = 40000
    assert_eq!(calculate_max_size(&pool(20000, 10000), &curve(), &limits, Direction::Long), 40000);
    // short cap 80000 - 10000 = 70000; total headroom 70000
    assert_eq!(calculate_max_size(&pool(20000, 10000), &curve(), &limits, Direction::Short), 70000);
    // side above its cap saturates at zero
    assert_eq!(calculate_max_size(&pool(70000, 0), &curve(), &limits, Direction::Long), 0);
    // total above the limit saturates at zero
    assert_eq!(calculate_max_size(&pool(60000, 50000), &curve(), &limits, Direction::Short), 0);
}

#[test]
fn settlement_payout_table() {
    assert_eq!(calculate_settlement_payout(1000, Direction::Long, Outcome::Yes), 1000);
    assert_eq!(calculate_settlement_payout(1000, Direction::Long, Outcome::No), 0);
    assert_eq!(calculate_settlement_payout(1000, Direction::Short, Outcome::Yes), 0);
    assert_eq!(calculate_settlement_payout(1000, Direction::Short, Outcome::No), 1000);
}

#[test]
fn net_exposure_and_outcome_tags() {
    assert_eq!(pool(5, 12).net_exposure(), -7);
    assert_eq!(pool(u64::MAX, 0).net_exposure(), u64::MAX as i128);
    assert_eq!(Outcome::Yes.as_u8(), 1);
    assert_eq!(Outcome::No.as_u8(), 0);
}
