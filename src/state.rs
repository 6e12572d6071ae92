use vstd::prelude::*;

verus! {

/// A 32-byte identity: an account owner, an administrator or a record address.
#[derive(Debug, Clone, Copy)]
pub struct Key {
    pub bytes: [u8; 32],
}

impl PartialEq for Key {
    fn eq(&self, other: &Key) -> (r: bool) {
        let mut i: usize = 0;
        while i < 32
            invariant
                0 <= i <= 32,
                forall|j: int| 0 <= j < i ==> self.bytes@[j] == other.bytes@[j],
            decreases 32 - i,
        {
            if self.bytes[i] != other.bytes[i] {
                return false;
            }
            i = i + 1;
        }
        assert(self.bytes@ =~= other.bytes@);
        true
    }
}

impl vstd::std_specs::cmp::PartialEqSpecImpl for Key {
    open spec fn obeys_eq_spec() -> bool {
        true
    }

    open spec fn eq_spec(&self, other: &Key) -> bool {
        self.bytes@ == other.bytes@
    }
}

impl Eq for Key {}

/// Tells whether two identities are the same.
pub(crate) fn same_key(a: &Key, b: &Key) -> (r: bool)
    ensures r == (a == b),
{
    let r = *a == *b;
    proof { if a.bytes@ == b.bytes@ { assert(a.bytes == b.bytes); } }
    r
}


/// Basis points: 10000 stands for 100%.
pub const BASIS_POINTS: u64 = 10000;

/// Pricing-curve configuration, replaced wholesale on update.
#[derive(Debug, Clone, Copy, PartialEq, Eq, Structural)]
pub struct CurveParams {
    /// Slope of the forward-price skew, in basis points.
    pub alpha: u64,
    /// Premium multiplier, in basis points.
    pub beta: u64,
    /// Net exposure at which the skew saturates.
    pub max_exposure: u64,
    /// Lowest forward price, in basis points.
    pub min_price: u64,
    /// Highest forward price, in basis points.
    pub max_price: u64,
}

impl CurveParams {
    /// The configuration invariant: a non-empty price band inside `[0, BASIS_POINTS]`
    /// and a positive saturation exposure.
    pub open spec fn valid(self) -> bool {
        &&& self.min_price <= self.max_price
        &&& self.max_price <= BASIS_POINTS
        &&& self.max_exposure > 0
    }
}

/// Per-market exposure limits, fixed when the market is created.
#[derive(Debug, Clone, Copy, PartialEq, Eq, Structural)]
pub struct RiskLimits {
    pub max_total_exposure: u64,
    /// Largest long exposure, as a share of `max_total_exposure` in basis points.
    pub max_long_share: u64,
    /// Largest short exposure, as a share of `max_total_exposure` in basis points.
    pub max_short_share: u64,
}

impl RiskLimits {
    /// The shares are fractions; the invariant of a created market also asks for
    /// a positive total, which the pricing functions do not need.
    pub open spec fn shares_valid(self) -> bool {
        &&& self.max_long_share <= BASIS_POINTS
        &&& self.max_short_share <= BASIS_POINTS
    }

    pub open spec fn valid(self) -> bool {
        &&& self.max_total_exposure > 0
        &&& self.shares_valid()
    }
}

/// Lifecycle of a market: only ever moves forward.
#[derive(Debug, Clone, Copy, PartialEq, Eq, Structural)]
pub enum MarketStatus {
    Active,
    TradingClosed,
    Resolved,
}

/// Side of a position.
#[derive(Debug, Clone, Copy, PartialEq, Eq, Structural)]
pub enum Direction {
    Long,
    Short,
}

impl Direction {
    /// The counter-side of a trade.
    pub open spec fn spec_opposite(self) -> Direction {
        match self {
            Direction::Long => Direction::Short,
            Direction::Short => Direction::Long,
        }
    }
}

/// Lifecycle of a position. No in-scope operation moves a position to `Cancelled`.
#[derive(Debug, Clone, Copy, PartialEq, Eq, Structural)]
pub enum PositionStatus {
    Open,
    Settled,
    Cancelled,
}

/// Binary resolution of the underlying event.
#[derive(Debug, Clone, Copy, PartialEq, Eq, Structural)]
pub enum Outcome {
    Yes,
    No,
}

impl Outcome {
    /// The tag under which a resolution record stores the outcome.
    pub open spec fn tag(self) -> u8 {
        match self {
            Outcome::Yes => 1,
            Outcome::No => 0,
        }
    }

    /// The stored tag: 1 for `Yes`, 0 for `No`.
    pub fn as_u8(&self) -> (r: u8)
        ensures r == self.tag(),
    {
        match self {
            Outcome::Yes => 1,
            Outcome::No => 0,
        }
    }
}

/// Platform configuration: who administers it, which asset is collateral, and the curve.
#[derive(Debug, Clone, Copy, PartialEq, Eq)]
pub struct GlobalConfig {
    pub admin: Key,
    pub collateral_mint: Key,
    pub curve_params: CurveParams,
}

/// One market on an external binary event.
#[derive(Debug, Clone)]
pub struct MarketConfig {
    /// The external market identifier (at most `MAX_MARKET_ID_LEN` bytes of UTF-8).
    pub polymarket_market_id: String,
    pub resolution_timestamp: i64,
    pub price_oracle: Key,
    pub resolution_oracle: Key,
    pub risk_limits: RiskLimits,
    pub status: MarketStatus,
    pub pool_state: Key,
    pub collateral_vault: Key,
}

/// Longest external market identifier, in bytes.
pub const MAX_MARKET_ID_LEN: usize = 256;

/// The exposure ledger of one market.
#[derive(Debug, Clone, Copy, PartialEq, Eq)]
pub struct PoolState {
    pub market: Key,
    /// Sum of the sizes of open long positions.
    pub total_long_exposure: u64,
    /// Sum of the sizes of open short positions.
    pub total_short_exposure: u64,
    /// Pool-side collateral reserved for open positions.
    pub pool_collateral: u64,
    /// Number of positions ever opened; the next position's identity.
    pub position_counter: u64,
}

impl PoolState {
    /// Long minus short exposure, as a mathematical integer.
    pub open spec fn net(self) -> int {
        self.total_long_exposure - self.total_short_exposure
    }

    /// Long minus short exposure. It always fits: both sides are below 2^64.
    pub fn net_exposure(&self) -> (r: i128)
        ensures r == self.net(),
    {
        self.total_long_exposure as i128 - self.total_short_exposure as i128
    }
}

/// One opened trade.
#[derive(Debug, Clone, Copy, PartialEq, Eq)]
pub struct Position {
    pub owner: Key,
    pub market: Key,
    pub direction: Direction,
    /// Notional size Q.
    pub size: u64,
    /// Forward price K, in basis points.
    pub forward_price: u64,
    /// Collateral the owner locked.
    pub collateral_locked: u64,
    /// Premium paid by the owner; negative when the owner received a rebate.
    pub premium_paid: i64,
    pub status: PositionStatus,
}

} // verus!
