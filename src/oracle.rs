use vstd::prelude::*;
use anchor_lang::solana_program::program_error::ProgramError;
use crate::errors::ForwardError;
use crate::state::{BASIS_POINTS, Outcome};

verus! {

/// Oldest price reading still accepted, in seconds.
pub const MAX_PRICE_AGE: i64 = 300;

/// The latest reference-price reading pushed by the keeper.
#[derive(Debug, Clone, Copy, PartialEq, Eq, Structural)]
pub struct PriceOracle {
    /// Price in basis points.
    pub price: u64,
    /// When the price was observed, in Unix seconds.
    pub timestamp: i64,
    pub exponent: i8,
}

/// The resolution record of a market.
#[derive(Debug, Clone, Copy, PartialEq, Eq, Structural)]
pub struct ResolutionOracle {
    /// 1 for Yes, 0 for No, `None` while unresolved.
    pub outcome: Option<u8>,
    pub resolved_at: Option<i64>,
}

/// A price reading is usable at time `now` when it is a probability in basis points,
/// not from the future, and at most `MAX_PRICE_AGE` seconds old.
pub open spec fn price_is_usable(oracle: PriceOracle, now: i64) -> bool {
    &&& oracle.price <= BASIS_POINTS
    &&& oracle.timestamp <= now
    &&& now - oracle.timestamp <= MAX_PRICE_AGE
}

/// The outcome a resolution record holds; an unknown tag is invalid data.
pub open spec fn resolution_reading(oracle: ResolutionOracle) -> Result<Option<Outcome>, ForwardError> {
    match oracle.outcome {
        Some(tag) => if tag == 1 {
            Ok(Some(Outcome::Yes))
        } else if tag == 0 {
            Ok(Some(Outcome::No))
        } else {
            Err(ForwardError::InvalidOracleData)
        },
        None => Ok(None),
    }
}

/// The reference price at time `now`, if the reading is in range and fresh.
pub fn check_price(oracle: &PriceOracle, now: i64) -> (r: Result<u64, ForwardError>)
    ensures
        r == (if price_is_usable(*oracle, now) {
            Ok::<u64, ForwardError>(oracle.price)
        } else {
            Err(ForwardError::InvalidOracleData)
        }),
{
    if oracle.price > BASIS_POINTS {
        return Err(ForwardError::InvalidOracleData);
    }
    if oracle.timestamp > now {
        return Err(ForwardError::InvalidOracleData);
    }
    if now as i128 - oracle.timestamp as i128 > MAX_PRICE_AGE as i128 {
        return Err(ForwardError::InvalidOracleData);
    }
    Ok(oracle.price)
}

#[verifier::external_type_specification]
#[verifier::external_body]
pub struct ExProgramError(ProgramError);

/// Relies on `Clock::get` (anchor_lang's prelude; solana_program's clock sysvar): the
/// runtime's current Unix time, or the runtime's error where it provides no clock. The
/// time depends on when it is called, so nothing is stated of it.
#[verifier::external_body]
fn clock_unix_timestamp() -> (r: Result<i64, ProgramError>) {
    <anchor_lang::prelude::Clock as anchor_lang::solana_program::sysvar::Sysvar>::get().map(
        |clock| clock.unix_timestamp,
    )
}

/// The current time according to the runtime's clock.
pub fn current_timestamp() -> (r: Result<i64, ForwardError>)
    ensures
        r matches Err(e) ==> e == ForwardError::ClockUnavailable,
{
    match clock_unix_timestamp() {
        Ok(now) => Ok(now),
        Err(_) => Err(ForwardError::ClockUnavailable),
    }
}

/// The reference price, checked against the runtime's clock: whatever time the clock
/// gave, the result is what `check_price` gives at that time.
pub fn read_price(oracle: &PriceOracle) -> (r: Result<u64, ForwardError>)
    ensures
        r == Err::<u64, ForwardError>(ForwardError::ClockUnavailable) || exists|now: i64|
            r == (if price_is_usable(*oracle, now) {
                Ok::<u64, ForwardError>(oracle.price)
            } else {
                Err(ForwardError::InvalidOracleData)
            }),
{
    match current_timestamp() {
        Ok(now) => check_price(oracle, now),
        Err(e) => Err(e),
    }
}

/// The recorded outcome, if any.
pub fn read_resolution(oracle: &ResolutionOracle) -> (r: Result<Option<Outcome>, ForwardError>)
    ensures
        r == resolution_reading(*oracle),
{
    match oracle.outcome {
        Some(1) => Ok(Some(Outcome::Yes)),
        Some(0) => Ok(Some(Outcome::No)),
        Some(_) => Err(ForwardError::InvalidOracleData),
        None => Ok(None),
    }
}

} // verus!
