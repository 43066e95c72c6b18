//! The oracle record and its rate-limited update.

use crate::quote::{
    clamp, clamp_observation, highest_accepted_ask, lemma_spot_price_bounds, lemma_spread_rule,
    spot_price, spot_price_of, spread_too_wide,
};
use vstd::prelude::*;

verus! {

/// How one attempt to observe the book ends.
#[derive(Clone, Copy, Debug, PartialEq, Eq, Structural)]
pub enum Outcome {
    /// The slot, or a later one, was observed before: nothing changes.
    Spent,
    /// A side of the book is empty: only the slot last observed moves.
    OneSided,
    /// The ask is too far above the bid: only the slot last observed moves.
    WideSpread,
    /// The spot price, clamped, is recorded and weighted into the aggregate.
    Applied,
}

/// The oracle as numbers without a width: what the contracts speak of.
pub struct OracleModel {
    pub expected_value: nat,
    pub initial_slot: nat,
    pub last_updated_slot: nat,
    pub last_observed_slot: nat,
    pub last_observation: nat,
    pub observation_aggregator: nat,
    pub max_observation_change_per_update_lots: nat,
}

impl OracleModel {
    /// What holds of every oracle from its creation on: the three slots are in
    /// order, the observation is a 64-bit price, and the aggregate is no more
    /// than the largest price held over the whole window.
    pub open spec fn inv(self) -> bool {
        &&& self.initial_slot <= self.last_updated_slot <= self.last_observed_slot
        &&& self.last_observation <= u64::MAX
        &&& self.observation_aggregator <= u64::MAX * (self.last_updated_slot - self.initial_slot)
    }

    /// The oracle as it is created at `slot`.
    pub open spec fn created(expected_value: nat, max_change: nat, slot: nat) -> OracleModel {
        OracleModel {
            expected_value,
            initial_slot: slot,
            last_updated_slot: slot,
            last_observed_slot: slot,
            last_observation: expected_value,
            observation_aggregator: 0,
            max_observation_change_per_update_lots: max_change,
        }
    }

    /// How an attempt at `slot` with this top of book ends.
    pub open spec fn outcome(
        self,
        slot: nat,
        best_bid: Option<i64>,
        best_ask: Option<i64>,
    ) -> Outcome {
        if slot <= self.last_observed_slot {
            Outcome::Spent
        } else if best_bid is None || best_ask is None {
            Outcome::OneSided
        } else if spread_too_wide(best_bid->0, best_ask->0) {
            Outcome::WideSpread
        } else {
            Outcome::Applied
        }
    }

    /// Whether an attempt at `slot` with this top of book records a price.
    pub open spec fn applies(
        self,
        slot: nat,
        best_bid: Option<i64>,
        best_ask: Option<i64>,
    ) -> bool {
        self.outcome(slot, best_bid, best_ask) == Outcome::Applied
    }

    /// The observation that an applied attempt with this quote records: the
    /// spot price, held within the configured step of the last observation.
    pub open spec fn next_observation(self, best_bid: i64, best_ask: i64) -> nat {
        clamp_observation(
            self.last_observation,
            spot_price(best_bid, best_ask),
            self.max_observation_change_per_update_lots,
        )
    }

    /// The oracle after one attempt at `slot` with the given top of book.
    pub open spec fn after_update(
        self,
        slot: nat,
        best_bid: Option<i64>,
        best_ask: Option<i64>,
    ) -> OracleModel {
        match self.outcome(slot, best_bid, best_ask) {
            Outcome::Spent => self,
            Outcome::OneSided | Outcome::WideSpread => OracleModel {
                last_observed_slot: slot,
                ..self
            },
            Outcome::Applied => {
                let observation = self.next_observation(best_bid->0, best_ask->0);
                OracleModel {
                    last_observed_slot: slot,
                    last_updated_slot: slot,
                    last_observation: observation,
                    observation_aggregator: self.observation_aggregator + observation * (slot
                        - self.last_updated_slot) as nat,
                    ..self
                }
            },
        }
    }

    /// The oracle after one attempt on what `snapshot` holds.
    pub open spec fn after_snapshot(self, snapshot: Snapshot) -> OracleModel {
        self.after_update(snapshot.slot as nat, snapshot.best_bid, snapshot.best_ask)
    }

    /// The running average: the aggregate over the length of the window, and
    /// nothing while the window is empty.
    pub open spec fn time_weighted_average(self) -> Option<nat> {
        if self.last_updated_slot == self.initial_slot {
            None
        } else {
            Some(self.observation_aggregator / (self.last_updated_slot - self.initial_slot) as nat)
        }
    }
}

/// What one trading operation finds when it looks at the ledger: the slot it
/// runs in, and the best bid and ask resting on the book.
#[derive(Clone, Copy, Debug, PartialEq, Eq, Structural)]
pub struct Snapshot {
    pub slot: u64,
    pub best_bid: Option<i64>,
    pub best_ask: Option<i64>,
}

/// Why a query of the oracle fails.
#[derive(Clone, Copy, Debug, PartialEq, Eq, Structural)]
pub enum OracleError {
    /// No update has been applied since creation, so the window has no length.
    DivisionByZero,
}

/// A time-weighted average price, one per market.
#[derive(Clone, Copy, Debug, PartialEq, Eq, Structural)]
pub struct TWAPOracle {
    pub expected_value: u64,
    pub initial_slot: u64,
    pub last_updated_slot: u64,
    pub last_observed_slot: u64,
    pub last_observation: u64,
    pub observation_aggregator: u128,
    pub max_observation_change_per_update_lots: u64,
}

impl View for TWAPOracle {
    type V = OracleModel;

    open spec fn view(&self) -> OracleModel {
        OracleModel {
            expected_value: self.expected_value as nat,
            initial_slot: self.initial_slot as nat,
            last_updated_slot: self.last_updated_slot as nat,
            last_observed_slot: self.last_observed_slot as nat,
            last_observation: self.last_observation as nat,
            observation_aggregator: self.observation_aggregator as nat,
            max_observation_change_per_update_lots: self.max_observation_change_per_update_lots
                as nat,
        }
    }
}

impl TWAPOracle {
    /// Validity of the record: [`OracleModel::inv`] of its view.
    pub open spec fn wf(&self) -> bool {
        self@.inv()
    }

    /// Tests [`TWAPOracle::wf`].
    pub fn is_valid(&self) -> (valid: bool)
        ensures
            valid == self.wf(),
    {
        if self.initial_slot <= self.last_updated_slot && self.last_updated_slot
            <= self.last_observed_slot {
            let window: u64 = self.last_updated_slot - self.initial_slot;
            proof {
                assert(u64::MAX * window <= u64::MAX * u64::MAX) by (nonlinear_arith)
                    requires
                        window <= u64::MAX,
                ;
            }
            self.observation_aggregator <= (u64::MAX as u128) * (window as u128)
        } else {
            false
        }
    }

    /// A fresh oracle at `current_slot`, with `expected_value` as its first
    /// observation and an empty aggregate.
    pub fn new(
        expected_value: u64,
        max_observation_change_per_update_lots: u64,
        current_slot: u64,
    ) -> (oracle: Self)
        ensures
            oracle.wf(),
            oracle@ == OracleModel::created(
                expected_value as nat,
                max_observation_change_per_update_lots as nat,
                current_slot as nat,
            ),
    {
        Self {
            expected_value,
            initial_slot: current_slot,
            last_updated_slot: current_slot,
            last_observed_slot: current_slot,
            last_observation: expected_value,
            observation_aggregator: 0,
            max_observation_change_per_update_lots,
        }
    }

    /// Whether an attempt at `current_slot` would be the first in its slot, so
    /// that the book is worth reading.
    pub fn is_due(&self, current_slot: u64) -> (due: bool)
        ensures
            due == (self.last_observed_slot < current_slot),
    {
        self.last_observed_slot < current_slot
    }

    /// One attempt to observe the book at `current_slot`, where `best_bid` and
    /// `best_ask` are the best prices resting on the two sides.
    ///
    /// In a slot that was observed before, nothing happens. Else the slot is
    /// used up, and if both sides have a price and the ask is no more than
    /// a fifth above the bid, the spot price is recorded: moved no further
    /// from the last observation than the configured step, and weighted into
    /// the aggregate with the slots since the last recorded one. The call
    /// never fails, and no sum or product in it can overflow.
    pub fn update_oracle(&mut self, current_slot: u64, best_bid: Option<i64>, best_ask: Option<i64>)
        requires
            old(self).wf(),
        ensures
            final(self).wf(),
            final(self)@ == old(self)@.after_update(current_slot as nat, best_bid, best_ask),
            current_slot <= old(self).last_observed_slot ==> *final(self) == *old(self),
            current_slot > old(self).last_observed_slot ==> final(self).last_observed_slot
                == current_slot,
            final(self).expected_value == old(self).expected_value,
            final(self).initial_slot == old(self).initial_slot,
            final(self).max_observation_change_per_update_lots == old(
                self,
            ).max_observation_change_per_update_lots,
            final(self).last_observation <= old(self).last_observation + old(
                self,
            ).max_observation_change_per_update_lots,
            old(self).last_observation <= final(self).last_observation + old(
                self,
            ).max_observation_change_per_update_lots,
            final(self).observation_aggregator >= old(self).observation_aggregator,
            final(self).observation_aggregator == old(self).observation_aggregator
                + final(self).last_observation * (final(self).last_updated_slot
                - old(self).last_updated_slot),
            old(self).last_updated_slot == old(self).initial_slot && old(self)@.applies(
                current_slot as nat,
                best_bid,
                best_ask,
            ) ==> final(self)@.time_weighted_average() == Some(final(self).last_observation as nat),
    {
        proof {
            if old(self).last_updated_slot == old(self).initial_slot && old(self)@.applies(
                current_slot as nat,
                best_bid,
                best_ask,
            ) {
                old(self)@.lemma_first_average_is_first_observation(
                    current_slot as nat,
                    best_bid->0,
                    best_ask->0,
                );
            }
        }
        if self.last_observed_slot < current_slot {
            self.last_observed_slot = current_slot;
            if let (Some(best_bid), Some(best_ask)) = (best_bid, best_ask) {
                if best_ask > highest_accepted_ask(best_bid) {
                    return ;
                }
                let spot_price: u64 = spot_price_of(best_bid, best_ask);
                let observation: u64 = clamp(
                    self.last_observation,
                    spot_price,
                    self.max_observation_change_per_update_lots,
                );
                let elapsed: u64 = current_slot - self.last_updated_slot;
                proof {
                    lemma_aggregate_stays_bounded(
                        self.observation_aggregator as nat,
                        observation as nat,
                        (self.last_updated_slot - self.initial_slot) as nat,
                        elapsed as nat,
                    );
                }
                let weighted_observation: u128 = observation as u128 * elapsed as u128;
                self.last_updated_slot = current_slot;
                self.last_observation = observation;
                self.observation_aggregator = self.observation_aggregator + weighted_observation;
            }
        }
    }

    /// The running average over the window since creation, rounded down; an
    /// error while no price has been recorded in a slot after the first.
    pub fn time_weighted_average(&self) -> (average: Result<u64, OracleError>)
        requires
            self.wf(),
        ensures
            match average {
                Ok(price) => self@.time_weighted_average() == Some(price as nat),
                Err(error) => error == OracleError::DivisionByZero
                    && self@.time_weighted_average() is None,
            },
            average is Err <==> self.last_updated_slot == self.initial_slot,
    {
        if self.last_updated_slot == self.initial_slot {
            return Err(OracleError::DivisionByZero);
        }
        let window: u64 = self.last_updated_slot - self.initial_slot;
        proof {
            lemma_average_is_a_price(self.observation_aggregator as nat, window as nat);
        }
        let average: u128 = self.observation_aggregator / (window as u128);
        Ok(average as u64)
    }
}

/// An aggregate that is within the largest price times a window of some
/// length has an average that is a 64-bit price.
pub proof fn lemma_average_is_a_price(aggregate: nat, window: nat)
    requires
        window > 0,
        aggregate <= u64::MAX * window,
    ensures
        aggregate / window <= u64::MAX,
{
    assert(aggregate / window <= u64::MAX) by (nonlinear_arith)
        requires
            window > 0,
            aggregate <= u64::MAX * window,
    ;
}

/// An aggregate that is within the largest price times the window stays so
/// when one more observation is weighted in, and with 64-bit slots it fits
/// 128 bits.
pub proof fn lemma_aggregate_stays_bounded(
    aggregate: nat,
    observation: nat,
    window: nat,
    elapsed: nat,
)
    requires
        aggregate <= u64::MAX * window,
        observation <= u64::MAX,
    ensures
        aggregate + observation * elapsed <= u64::MAX * (window + elapsed),
        window + elapsed <= u64::MAX ==> aggregate + observation * elapsed <= u128::MAX,
        elapsed <= u64::MAX ==> observation * elapsed <= u128::MAX,
{
    assert(observation * elapsed <= u64::MAX * elapsed) by (nonlinear_arith)
        requires
            observation <= u64::MAX,
    ;
    assert(u64::MAX * (window + elapsed) == u64::MAX * window + u64::MAX * elapsed) by (nonlinear_arith);
    if window + elapsed <= u64::MAX {
        assert(u64::MAX * (window + elapsed) <= u64::MAX * u64::MAX) by (nonlinear_arith)
            requires
                window + elapsed <= u64::MAX,
        ;
    }
    if elapsed <= u64::MAX {
        assert(u64::MAX * elapsed <= u64::MAX * u64::MAX) by (nonlinear_arith)
            requires
                elapsed <= u64::MAX,
        ;
    }
}

impl OracleModel {
    /// A valid oracle is valid after any attempt.
    pub proof fn lemma_update_keeps_inv(
        self,
        slot: nat,
        best_bid: Option<i64>,
        best_ask: Option<i64>,
    )
        requires
            self.inv(),
        ensures
            self.after_update(slot, best_bid, best_ask).inv(),
    {
        if self.applies(slot, best_bid, best_ask) {
            let observation = self.next_observation(best_bid->0, best_ask->0);
            lemma_spot_price_bounds(best_bid->0, best_ask->0);
            lemma_aggregate_stays_bounded(
                self.observation_aggregator,
                observation,
                (self.last_updated_slot - self.initial_slot) as nat,
                (slot - self.last_updated_slot) as nat,
            );
        }
    }

    /// No attempt moves the observation by more than the configured step, and
    /// none changes the step, the expected value or the start of the window.
    pub proof fn lemma_observation_moves_at_most_max_change(
        self,
        slot: nat,
        best_bid: Option<i64>,
        best_ask: Option<i64>,
    )
        ensures
            ({
                let next = self.after_update(slot, best_bid, best_ask);
                &&& next.last_observation <= self.last_observation
                    + self.max_observation_change_per_update_lots
                &&& self.last_observation <= next.last_observation
                    + self.max_observation_change_per_update_lots
                &&& next.max_observation_change_per_update_lots
                    == self.max_observation_change_per_update_lots
                &&& next.expected_value == self.expected_value
                &&& next.initial_slot == self.initial_slot
            }),
    {
    }

    /// An attempt whose ask is turned away by the spread rule leaves the
    /// observation, the aggregate and the slot of the last applied update as
    /// they were, and in a slot not yet observed it still uses the slot up.
    pub proof fn lemma_wide_spread_is_turned_away(self, slot: nat, best_bid: i64, best_ask: i64)
        requires
            spread_too_wide(best_bid, best_ask),
        ensures
            ({
                let next = self.after_update(slot, Some(best_bid), Some(best_ask));
                &&& next.last_observation == self.last_observation
                &&& next.observation_aggregator == self.observation_aggregator
                &&& next.last_updated_slot == self.last_updated_slot
                &&& slot > self.last_observed_slot ==> next.last_observed_slot == slot
                &&& slot <= self.last_observed_slot ==> next == self
            }),
    {
    }

    /// Beside a bid that is not negative, an ask of more than six fifths of the
    /// bid records no price.
    pub proof fn lemma_ask_above_six_fifths_is_turned_away(
        self,
        slot: nat,
        best_bid: i64,
        best_ask: i64,
    )
        requires
            best_bid >= 0,
            10 * best_ask > 12 * best_bid,
        ensures
            ({
                let next = self.after_update(slot, Some(best_bid), Some(best_ask));
                &&& next.last_observation == self.last_observation
                &&& next.observation_aggregator == self.observation_aggregator
                &&& next.last_updated_slot == self.last_updated_slot
                &&& slot > self.last_observed_slot ==> next.last_observed_slot == slot
            }),
    {
        lemma_spread_rule(best_bid, best_ask);
    }

    /// With a side of the book empty, an attempt changes nothing but the slot
    /// last observed.
    pub proof fn lemma_one_sided_book_records_no_price(
        self,
        slot: nat,
        best_bid: Option<i64>,
        best_ask: Option<i64>,
    )
        requires
            best_bid is None || best_ask is None,
        ensures
            slot > self.last_observed_slot ==> self.after_update(slot, best_bid, best_ask) == (
            OracleModel { last_observed_slot: slot, ..self }),
            slot <= self.last_observed_slot ==> self.after_update(slot, best_bid, best_ask) == self,
    {
    }

    /// An attempt in a slot already observed, or in an earlier one, changes
    /// nothing.
    pub proof fn lemma_observed_slot_is_spent(
        self,
        slot: nat,
        best_bid: Option<i64>,
        best_ask: Option<i64>,
    )
        requires
            slot <= self.last_observed_slot,
        ensures
            self.after_update(slot, best_bid, best_ask) == self,
    {
    }

    /// Of two attempts in one slot the second changes nothing, whatever the two
    /// quotes are.
    pub proof fn lemma_slot_is_observed_once(
        self,
        slot: nat,
        first_bid: Option<i64>,
        first_ask: Option<i64>,
        second_bid: Option<i64>,
        second_ask: Option<i64>,
    )
        ensures
            self.after_update(slot, first_bid, first_ask).after_update(slot, second_bid, second_ask)
                == self.after_update(slot, first_bid, first_ask),
    {
    }

    /// No attempt lowers the aggregate, and on a valid oracle none lowers any
    /// of the three slots.
    pub proof fn lemma_aggregate_never_decreases(
        self,
        slot: nat,
        best_bid: Option<i64>,
        best_ask: Option<i64>,
    )
        ensures
            ({
                let next = self.after_update(slot, best_bid, best_ask);
                &&& next.observation_aggregator >= self.observation_aggregator
                &&& next.last_observed_slot >= self.last_observed_slot
                &&& self.inv() ==> next.last_updated_slot >= self.last_updated_slot
            }),
    {
    }

    /// An oracle that was just created has no average.
    pub proof fn lemma_created_has_no_average(expected_value: nat, max_change: nat, slot: nat)
        ensures
            OracleModel::created(expected_value, max_change, slot).time_weighted_average() is None,
    {
    }

    /// After the first applied update the average is the observation that the
    /// update recorded.
    pub proof fn lemma_first_average_is_first_observation(
        self,
        slot: nat,
        best_bid: i64,
        best_ask: i64,
    )
        requires
            self.inv(),
            self.last_updated_slot == self.initial_slot,
            self.applies(slot, Some(best_bid), Some(best_ask)),
        ensures
            self.after_update(slot, Some(best_bid), Some(best_ask)).time_weighted_average() == Some(
                self.next_observation(best_bid, best_ask),
            ),
    {
        let observation = self.next_observation(best_bid, best_ask);
        let window = (slot - self.initial_slot) as nat;
        assert(self.observation_aggregator == 0) by (nonlinear_arith)
            requires
                self.observation_aggregator <= u64::MAX * (self.last_updated_slot
                    - self.initial_slot),
                self.last_updated_slot == self.initial_slot,
        ;
        assert((observation * window) / window == observation) by (nonlinear_arith)
            requires
                window > 0,
        ;
    }

    /// An oracle created with `expected_value`, then updated once, a positive
    /// number of slots later, with a quote that the spread rule accepts, has
    /// as its average the expected value moved toward the spot price by at
    /// most the configured step.
    pub proof fn lemma_round_trip(
        expected_value: nat,
        max_change: nat,
        slot: nat,
        elapsed: nat,
        best_bid: i64,
        best_ask: i64,
    )
        requires
            expected_value <= u64::MAX,
            elapsed > 0,
            !spread_too_wide(best_bid, best_ask),
        ensures
            OracleModel::created(expected_value, max_change, slot).after_update(
                slot + elapsed,
                Some(best_bid),
                Some(best_ask),
            ).time_weighted_average() == Some(
                clamp_observation(expected_value, spot_price(best_bid, best_ask), max_change),
            ),
    {
        let fresh = OracleModel::created(expected_value, max_change, slot);
        assert(u64::MAX * (fresh.last_updated_slot - fresh.initial_slot) == 0) by (nonlinear_arith)
            requires
                fresh.last_updated_slot == fresh.initial_slot,
        ;
        fresh.lemma_first_average_is_first_observation(slot + elapsed, best_bid, best_ask);
    }
}

} // verus!
