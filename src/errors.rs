use vstd::prelude::*;

verus! {

/// Every way an operation of the engine can be refused. A refused operation
/// leaves every record it was given exactly as it found it.
#[derive(Debug, Clone, Copy, PartialEq, Eq, Structural)]
pub enum ForwardError {
    /// Positions can only be opened while the market is active.
    MarketNotActive,
    /// The market has already been resolved.
    MarketAlreadyResolved,
    /// The size is zero or exceeds the headroom left by the risk limits.
    PositionSizeExceedsLimit,
    /// The forward price moved further from the reference price than the caller accepts.
    SlippageExceeded,
    /// The payer's balance (or the vault's, at payout) does not cover the transfer.
    InsufficientCollateral,
    /// The position is no longer open.
    PositionAlreadySettled,
    /// Settlement needs a resolved market.
    MarketNotResolved,
    /// A price, timestamp, outcome tag or configuration value is out of range.
    InvalidOracleData,
    /// The caller is not the administrator (or not the position's owner).
    Unauthorized,
    /// The requested market transition is not legal from the current status.
    InvalidMarketStatus,
    /// A checked integer operation would overflow or underflow.
    MathOverflow,
    /// The direction does not fit the operation.
    InvalidDirection,
    /// The collateral asset does not match the configured one.
    InvalidMint,
    /// The position belongs to another market.
    PositionMarketMismatch,
    /// No position has the given identity in this market.
    UnknownPosition,
    /// The runtime did not provide the current time.
    ClockUnavailable,
}

} // verus!
