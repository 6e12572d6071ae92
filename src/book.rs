use vstd::prelude::*;
use crate::errors::ForwardError;
use crate::market::new_pool;
use crate::oracle::{PriceOracle, ResolutionOracle};
use crate::position::{open_position, open_result, settle_position, settle_result, OpenedPosition, Settlement};
use crate::state::{Direction, GlobalConfig, Key, MarketConfig, Position, PositionStatus, PoolState};

verus! {

/// What an open position on `direction` adds to that side's exposure.
pub open spec fn exposure_of(position: Position, direction: Direction) -> int {
    if position.status == PositionStatus::Open && position.direction == direction {
        position.size as int
    } else {
        0
    }
}

/// What an open position reserves of the pool's collateral: its size less its owner's collateral.
pub open spec fn pool_share_of(position: Position) -> int {
    if position.status == PositionStatus::Open {
        position.size - position.collateral_locked
    } else {
        0
    }
}

/// Sum of the sizes of the open positions on `direction`.
pub open spec fn open_exposure(positions: Seq<Position>, direction: Direction) -> int
    decreases positions.len(),
{
    if positions.len() == 0 {
        0
    } else {
        open_exposure(positions.drop_last(), direction) + exposure_of(positions.last(), direction)
    }
}

/// Sum of the pool shares of the open positions.
pub open spec fn open_pool_share(positions: Seq<Position>) -> int
    decreases positions.len(),
{
    if positions.len() == 0 {
        0
    } else {
        open_pool_share(positions.drop_last()) + pool_share_of(positions.last())
    }
}

proof fn lemma_sums_push(positions: Seq<Position>, p: Position)
    ensures
        open_exposure(positions.push(p), Direction::Long) == open_exposure(positions, Direction::Long)
            + exposure_of(p, Direction::Long),
        open_exposure(positions.push(p), Direction::Short) == open_exposure(positions, Direction::Short)
            + exposure_of(p, Direction::Short),
        open_pool_share(positions.push(p)) == open_pool_share(positions) + pool_share_of(p),
{
    assert(positions.push(p).drop_last() =~= positions);
}

proof fn lemma_sums_update(positions: Seq<Position>, i: int, p: Position)
    requires
        0 <= i < positions.len(),
    ensures
        open_exposure(positions.update(i, p), Direction::Long) == open_exposure(positions, Direction::Long)
            - exposure_of(positions[i], Direction::Long) + exposure_of(p, Direction::Long),
        open_exposure(positions.update(i, p), Direction::Short) == open_exposure(positions, Direction::Short)
            - exposure_of(positions[i], Direction::Short) + exposure_of(p, Direction::Short),
        open_pool_share(positions.update(i, p)) == open_pool_share(positions) - pool_share_of(positions[i])
            + pool_share_of(p),
    decreases positions.len(),
{
    let updated = positions.update(i, p);
    if i == positions.len() - 1 {
        assert(updated.drop_last() =~= positions.drop_last());
    } else {
        assert(updated.drop_last() =~= positions.drop_last().update(i, p));
        lemma_sums_update(positions.drop_last(), i, p);
    }
}

proof fn lemma_term_within_sums(positions: Seq<Position>, i: int)
    requires
        0 <= i < positions.len(),
        forall|j: int| 0 <= j < positions.len() ==> (#[trigger] positions[j]).collateral_locked <= positions[j].size,
    ensures
        exposure_of(positions[i], Direction::Long) <= open_exposure(positions, Direction::Long),
        exposure_of(positions[i], Direction::Short) <= open_exposure(positions, Direction::Short),
        pool_share_of(positions[i]) <= open_pool_share(positions),
    decreases positions.len(),
{
    let rest = positions.drop_last();
    if i < positions.len() - 1 {
        assert forall|j: int| 0 <= j < rest.len() implies (#[trigger] rest[j]).collateral_locked <= rest[j].size by {
            assert(rest[j] == positions[j]);
        }
        lemma_term_within_sums(rest, i);
        assert(rest[i] == positions[i]);
    }
    lemma_sums_nonnegative(rest);
}

proof fn lemma_sums_nonnegative(positions: Seq<Position>)
    requires
        forall|j: int| 0 <= j < positions.len() ==> (#[trigger] positions[j]).collateral_locked <= positions[j].size,
    ensures
        open_exposure(positions, Direction::Long) >= 0,
        open_exposure(positions, Direction::Short) >= 0,
        open_pool_share(positions) >= 0,
    decreases positions.len(),
{
    if positions.len() > 0 {
        let rest = positions.drop_last();
        assert forall|j: int| 0 <= j < rest.len() implies (#[trigger] rest[j]).collateral_locked <= rest[j].size by {
            assert(rest[j] == positions[j]);
        }
        lemma_sums_nonnegative(rest);
        assert(positions.last() == positions[positions.len() - 1]);
    }
}

/// The positions of one market, addressed by their identity (the ledger's counter at
/// open), together with the market's exposure ledger.
#[derive(Debug, Clone)]
pub struct MarketBook {
    pub pool_state: PoolState,
    pub positions: Vec<Position>,
}

impl MarketBook {
    /// The ledger invariant: each side's exposure is the sum of the sizes of its open
    /// positions, the pool collateral is the sum of their pool shares, and the counter
    /// is the number of positions ever opened (so identities are never reused); no
    /// position's collateral exceeds its size.
    pub open spec fn wf(self) -> bool {
        &&& forall|i: int| 0 <= i < self.positions@.len()
            ==> (#[trigger] self.positions@[i]).collateral_locked <= self.positions@[i].size
        &&& self.pool_state.total_long_exposure == open_exposure(self.positions@, Direction::Long)
        &&& self.pool_state.total_short_exposure == open_exposure(self.positions@, Direction::Short)
        &&& self.pool_state.pool_collateral == open_pool_share(self.positions@)
        &&& self.pool_state.position_counter == self.positions@.len()
    }

    /// An empty book for the market at `market`.
    pub fn new(market: Key) -> (r: MarketBook)
        ensures
            r.wf(),
            r.pool_state == new_pool(market),
            r.positions@.len() == 0,
    {
        MarketBook {
            pool_state: PoolState {
                market,
                total_long_exposure: 0,
                total_short_exposure: 0,
                pool_collateral: 0,
                position_counter: 0,
            },
            positions: Vec::new(),
        }
    }

    /// The position with identity `position_id`, if one was opened.
    pub fn position(&self, position_id: u64) -> (r: Option<Position>)
        ensures
            r == (if position_id < self.positions@.len() {
                Some(self.positions@[position_id as int])
            } else {
                None::<Position>
            }),
    {
        if position_id < self.positions.len() as u64 {
            Some(self.positions[position_id as usize])
        } else {
            None
        }
    }

    /// Opens a position as `open_position` does and files it under its identity.
    pub fn open(
        &mut self,
        global: &GlobalConfig,
        market: &MarketConfig,
        price_oracle: &PriceOracle,
        now: i64,
        user: Key,
        user_balance: u64,
        direction: Direction,
        size: u64,
        slippage_tolerance: Option<u64>,
    ) -> (r: Result<OpenedPosition, ForwardError>)
        requires
            old(self).wf(),
            global.curve_params.valid(),
            market.risk_limits.shares_valid(),
        ensures
            final(self).wf(),
            match r {
                Ok(opened) => open_result(*global, *market, old(self).pool_state.market, old(self).pool_state,
                    *price_oracle, now, user, user_balance, direction, size, slippage_tolerance)
                    == Ok::<(PoolState, OpenedPosition), ForwardError>((final(self).pool_state, opened))
                    && opened.position_id == old(self).positions@.len()
                    && final(self).positions@ == old(self).positions@.push(opened.position),
                Err(e) => open_result(*global, *market, old(self).pool_state.market, old(self).pool_state,
                    *price_oracle, now, user, user_balance, direction, size, slippage_tolerance)
                    == Err::<(PoolState, OpenedPosition), ForwardError>(e)
                    && final(self).pool_state == old(self).pool_state
                    && final(self).positions@ == old(self).positions@,
            },
    {
        let market_key = self.pool_state.market;
        let r = open_position(
            global,
            market,
            market_key,
            &mut self.pool_state,
            price_oracle,
            now,
            user,
            user_balance,
            direction,
            size,
            slippage_tolerance,
        );
        if let Ok(opened) = r {
            proof { lemma_sums_push(self.positions@, opened.position); }
            self.positions.push(opened.position);
            proof {
                assert forall|i: int| 0 <= i < self.positions@.len() implies
                    (#[trigger] self.positions@[i]).collateral_locked <= self.positions@[i].size by {
                    if i < old(self).positions@.len() {
                        assert(self.positions@[i] == old(self).positions@[i]);
                    }
                }
            }
        }
        r
    }

    /// Settles the position with identity `position_id` as `settle_position` does.
    /// On a refusal, the book is left as it was.
    pub fn settle(
        &mut self,
        market: &MarketConfig,
        resolution_oracle: &ResolutionOracle,
        position_id: u64,
        user: Key,
        vault_balance: u64,
    ) -> (r: Result<Settlement, ForwardError>)
        requires
            old(self).wf(),
        ensures
            final(self).wf(),
            position_id >= old(self).positions@.len() ==> r == Err::<Settlement, ForwardError>(
                ForwardError::UnknownPosition,
            ) && *final(self) == *old(self),
            position_id < old(self).positions@.len() ==> match settle_result(*market,
                old(self).pool_state.market, old(self).pool_state, *resolution_oracle,
                old(self).positions@[position_id as int], user, vault_balance) {
                Ok((pool_state, position, settlement)) => r == Ok::<Settlement, ForwardError>(settlement)
                    && final(self).pool_state == pool_state
                    && final(self).positions@ == old(self).positions@.update(position_id as int, position),
                Err(e) => r == Err::<Settlement, ForwardError>(e)
                    && final(self).pool_state == old(self).pool_state
                    && final(self).positions@ == old(self).positions@,
            },
    {
        if position_id >= self.positions.len() as u64 {
            return Err(ForwardError::UnknownPosition);
        }
        let i = position_id as usize;
        let mut position = self.positions[i];
        let market_key = self.pool_state.market;
        let r = settle_position(
            market,
            market_key,
            &mut self.pool_state,
            resolution_oracle,
            &mut position,
            user,
            vault_balance,
        );
        if r.is_ok() {
            proof { lemma_sums_update(self.positions@, i as int, position); }
            self.positions[i] = position;
            proof {
                assert forall|j: int| 0 <= j < self.positions@.len() implies
                    (#[trigger] self.positions@[j]).collateral_locked <= self.positions@[j].size by {
                    if j != i {
                        assert(self.positions@[j] == old(self).positions@[j]);
                    }
                }
            }
        }
        r
    }
}

/// In a well-formed book, settlement never runs out of ledger: settling an open position
/// for its owner, on a resolved market with a recorded outcome and a vault that covers
/// the payout, always succeeds, and gives back exactly the exposure and pool share the
/// position reserved.
pub proof fn lemma_settlement_succeeds(
    book: MarketBook,
    market: MarketConfig,
    resolution: ResolutionOracle,
    position_id: u64,
    user: Key,
    vault_balance: u64,
)
    requires
        book.wf(),
        position_id < book.positions@.len(),
        book.positions@[position_id as int].owner == user,
        book.positions@[position_id as int].market == book.pool_state.market,
        book.positions@[position_id as int].status == PositionStatus::Open,
        market.status == crate::state::MarketStatus::Resolved,
        crate::oracle::resolution_reading(resolution) matches Ok(Some(outcome))
            && vault_balance >= crate::math::payout(
            book.positions@[position_id as int].size as int,
            book.positions@[position_id as int].direction,
            outcome,
        ),
    ensures
        settle_result(market, book.pool_state.market, book.pool_state, resolution,
            book.positions@[position_id as int], user, vault_balance) matches Ok((pool_state, _, settlement))
            && settlement.released_pool_collateral == book.positions@[position_id as int].size
                - book.positions@[position_id as int].collateral_locked
            && pool_state.pool_collateral == book.pool_state.pool_collateral - settlement.released_pool_collateral,
{
    lemma_term_within_sums(book.positions@, position_id as int);
}

} // verus!
