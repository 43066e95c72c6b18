//! The oracle over a whole history of attempts.

use crate::oracle::{OracleModel, Snapshot};
use vstd::prelude::*;

verus! {

impl OracleModel {
    /// The oracle after the attempts of `history`, first to last.
    pub open spec fn after_all(self, history: Seq<Snapshot>) -> OracleModel
        decreases history.len(),
    {
        if history.len() == 0 {
            self
        } else {
            self.after_all(history.drop_last()).after_snapshot(history.last())
        }
    }

    /// The sum, over the attempts of `history`, of the observation that an
    /// attempt leaves times the slots by which it moves the last applied
    /// update: nothing for an attempt that records no price.
    pub open spec fn weighted_observations(self, history: Seq<Snapshot>) -> int
        decreases history.len(),
    {
        if history.len() == 0 {
            0
        } else {
            let before = self.after_all(history.drop_last());
            let after = before.after_snapshot(history.last());
            self.weighted_observations(history.drop_last()) + after.last_observation * (
            after.last_updated_slot - before.last_updated_slot)
        }
    }

    /// The oracle after the first `n + 1` attempts is the oracle after the
    /// first `n`, with attempt `n` made on it.
    pub proof fn lemma_after_all_step(self, history: Seq<Snapshot>, n: int)
        requires
            0 <= n < history.len(),
        ensures
            self.after_all(history.take(n + 1)) == self.after_all(history.take(n)).after_snapshot(
                history[n],
            ),
    {
        assert(history.take(n + 1).drop_last() == history.take(n));
    }

    /// A valid oracle is valid after any history, and keeps its step, its
    /// expected value and the start of its window.
    pub proof fn lemma_history_keeps_inv(self, history: Seq<Snapshot>)
        requires
            self.inv(),
        ensures
            self.after_all(history).inv(),
            self.after_all(history).max_observation_change_per_update_lots
                == self.max_observation_change_per_update_lots,
            self.after_all(history).expected_value == self.expected_value,
            self.after_all(history).initial_slot == self.initial_slot,
        decreases history.len(),
    {
        if history.len() > 0 {
            self.lemma_history_keeps_inv(history.drop_last());
            let last = history.last();
            self.after_all(history.drop_last()).lemma_update_keeps_inv(
                last.slot as nat,
                last.best_bid,
                last.best_ask,
            );
        }
    }

    /// In every history, each attempt leaves the observation within the
    /// configured step of what it was before that attempt.
    pub proof fn lemma_every_step_is_bounded(self, history: Seq<Snapshot>, n: int)
        requires
            0 <= n < history.len(),
        ensures
            ({
                let before = self.after_all(history.take(n));
                let after = self.after_all(history.take(n + 1));
                &&& after.last_observation <= before.last_observation
                    + self.max_observation_change_per_update_lots
                &&& before.last_observation <= after.last_observation
                    + self.max_observation_change_per_update_lots
            }),
    {
        self.lemma_after_all_step(history, n);
        self.lemma_step_is_kept(history.take(n));
        let attempt = history[n];
        self.after_all(history.take(n)).lemma_observation_moves_at_most_max_change(
            attempt.slot as nat,
            attempt.best_bid,
            attempt.best_ask,
        );
    }

    /// No history changes the configured step.
    pub proof fn lemma_step_is_kept(self, history: Seq<Snapshot>)
        ensures
            self.after_all(history).max_observation_change_per_update_lots
                == self.max_observation_change_per_update_lots,
        decreases history.len(),
    {
        if history.len() > 0 {
            self.lemma_step_is_kept(history.drop_last());
        }
    }

    /// Over a history of `n` attempts the observation drifts by no more than
    /// `n` times the configured step.
    pub proof fn lemma_drift_is_bounded(self, history: Seq<Snapshot>)
        ensures
            self.after_all(history).last_observation <= self.last_observation + history.len()
                * self.max_observation_change_per_update_lots,
            self.last_observation <= self.after_all(history).last_observation + history.len()
                * self.max_observation_change_per_update_lots,
        decreases history.len(),
    {
        let step = self.max_observation_change_per_update_lots;
        if history.len() > 0 {
            let earlier = history.drop_last();
            let last = history.last();
            self.lemma_drift_is_bounded(earlier);
            self.lemma_step_is_kept(earlier);
            self.after_all(earlier).lemma_observation_moves_at_most_max_change(
                last.slot as nat,
                last.best_bid,
                last.best_ask,
            );
            assert(history.len() * step == earlier.len() * step + step) by (nonlinear_arith)
                requires
                    history.len() == earlier.len() + 1,
            ;
        } else {
            assert(history.len() * step == 0) by (nonlinear_arith)
                requires
                    history.len() == 0,
            ;
        }
    }

    /// Along every history the aggregate and the slot last observed never
    /// decrease: what they are after the first `m` attempts, they are at least
    /// after the first `n`, for `m` no more than `n`. For a valid oracle the
    /// same holds of the slot of the last applied update.
    pub proof fn lemma_aggregate_is_monotone(self, history: Seq<Snapshot>, m: int, n: int)
        requires
            0 <= m <= n <= history.len(),
        ensures
            self.after_all(history.take(m)).observation_aggregator <= self.after_all(
                history.take(n),
            ).observation_aggregator,
            self.after_all(history.take(m)).last_observed_slot <= self.after_all(
                history.take(n),
            ).last_observed_slot,
            self.inv() ==> self.after_all(history.take(m)).last_updated_slot <= self.after_all(
                history.take(n),
            ).last_updated_slot,
        decreases n - m,
    {
        if m < n {
            self.lemma_aggregate_is_monotone(history, m, n - 1);
            self.lemma_after_all_step(history, n - 1);
            if self.inv() {
                self.lemma_history_keeps_inv(history.take(n - 1));
            }
            let attempt = history[n - 1];
            self.after_all(history.take(n - 1)).lemma_aggregate_never_decreases(
                attempt.slot as nat,
                attempt.best_bid,
                attempt.best_ask,
            );
        }
    }

    /// After any history of a valid oracle, the aggregate is what it was
    /// before, plus each recorded observation times the slots it is weighted
    /// with: nothing is lost to rounding.
    pub proof fn lemma_aggregate_is_the_weighted_sum(self, history: Seq<Snapshot>)
        requires
            self.inv(),
        ensures
            self.after_all(history).observation_aggregator == self.observation_aggregator
                + self.weighted_observations(history),
        decreases history.len(),
    {
        if history.len() > 0 {
            let earlier = history.drop_last();
            let last = history.last();
            self.lemma_aggregate_is_the_weighted_sum(earlier);
            self.lemma_history_keeps_inv(earlier);
            let before = self.after_all(earlier);
            let after = before.after_snapshot(last);
            if !before.applies(last.slot as nat, last.best_bid, last.best_ask) {
                assert(after.last_observation * (after.last_updated_slot
                    - before.last_updated_slot) == 0) by (nonlinear_arith)
                    requires
                        after.last_updated_slot == before.last_updated_slot,
                ;
            }
        }
    }

    /// An oracle that was created and then went through any history has as
    /// its aggregate exactly the weighted sum of the observations recorded.
    pub proof fn lemma_aggregate_since_creation(
        expected_value: nat,
        max_change: nat,
        slot: nat,
        history: Seq<Snapshot>,
    )
        requires
            expected_value <= u64::MAX,
        ensures
            ({
                let fresh = OracleModel::created(expected_value, max_change, slot);
                fresh.after_all(history).observation_aggregator == fresh.weighted_observations(
                    history,
                )
            }),
    {
        let fresh = OracleModel::created(expected_value, max_change, slot);
        assert(u64::MAX * (fresh.last_updated_slot - fresh.initial_slot) == 0) by (nonlinear_arith)
            requires
                fresh.last_updated_slot == fresh.initial_slot,
        ;
        fresh.lemma_aggregate_is_the_weighted_sum(history);
    }
}

} // verus!
