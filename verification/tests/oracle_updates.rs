use openbook_twap::oracle::{OracleError, TWAPOracle};

fn fresh(expected_value: u64, max_change: u64, slot: u64) -> TWAPOracle {
    TWAPOracle::new(expected_value, max_change, slot)
}

#[test]
fn new_oracle_starts_at_expected_value() {
    let oracle = fresh(100, 5, 42);
    assert_eq!(oracle.expected_value, 100);
    assert_eq!(oracle.initial_slot, 42);
    assert_eq!(oracle.last_updated_slot, 42);
    assert_eq!(oracle.last_observed_slot, 42);
    assert_eq!(oracle.last_observation, 100);
    assert_eq!(oracle.observation_aggregator, 0);
    assert_eq!(oracle.max_observation_change_per_update_lots, 5);
    assert!(oracle.is_valid());
}

#[test]
fn scenario_clamped_then_rejected_then_clamped() {
    let mut oracle = fresh(100, 5, 0);
    oracle.update_oracle(1, Some(100), Some(102));
    assert_eq!(oracle.last_observation, 101);
    assert_eq!(oracle.last_updated_slot, 1);
    assert_eq!(oracle.last_observed_slot, 1);
    assert_eq!(oracle.observation_aggregator, 101);

    oracle.update_oracle(2, Some(50), Some(200));
    assert_eq!(oracle.last_observation, 101);
    assert_eq!(oracle.last_updated_slot, 1);
    assert_eq!(oracle.last_observed_slot, 2);
    assert_eq!(oracle.observation_aggregator, 101);

    oracle.update_oracle(3, Some(120), Some(121));
    assert_eq!(oracle.last_observation, 106);
    assert_eq!(oracle.last_updated_slot, 3);
    assert_eq!(oracle.last_observed_slot, 3);
    assert_eq!(oracle.observation_aggregator, 101 + 106 * 2);
    assert_eq!(oracle.time_weighted_average(), Ok(104));
    assert!(oracle.is_valid());
}

#[test]
fn one_sided_book_moves_only_the_observed_slot() {
    let mut oracle = fresh(100, 5, 10);
    oracle.update_oracle(11, None, Some(101));
    assert_eq!(oracle.last_observed_slot, 11);
    assert_eq!(oracle.last_updated_slot, 10);
    assert_eq!(oracle.last_observation, 100);
    assert_eq!(oracle.observation_aggregator, 0);
    assert_eq!(oracle.expected_value, 100);
    assert_eq!(oracle.initial_slot, 10);
    assert_eq!(oracle.max_observation_change_per_update_lots, 5);

    oracle.update_oracle(12, Some(99), None);
    assert_eq!(oracle.last_observed_slot, 12);
    assert_eq!(oracle.last_updated_slot, 10);
    assert_eq!(oracle.last_observation, 100);
    assert_eq!(oracle.observation_aggregator, 0);

    oracle.update_oracle(13, None, None);
    assert_eq!(oracle.last_observed_slot, 13);
    assert_eq!(oracle.last_updated_slot, 10);
    assert_eq!(oracle.last_observation, 100);
    assert_eq!(oracle.observation_aggregator, 0);
}

#[test]
fn second_update_in_a_slot_is_a_no_op() {
    let mut oracle = fresh(100, 5, 0);
    oracle.update_oracle(7, Some(100), Some(104));
    let after_first = oracle;
    oracle.update_oracle(7, Some(200), Some(201));
    assert_eq!(oracle.last_observed_slot, after_first.last_observed_slot);
    assert_eq!(oracle.last_updated_slot, after_first.last_updated_slot);
    assert_eq!(oracle.last_observation, after_first.last_observation);
    assert_eq!(oracle.observation_aggregator, after_first.observation_aggregator);
    assert_eq!(oracle.last_observation, 102);
    assert_eq!(oracle.observation_aggregator, 102 * 7);
}

#[test]
fn rejected_attempt_uses_the_slot_up() {
    let mut oracle = fresh(100, 5, 0);
    oracle.update_oracle(4, Some(100), Some(121));
    assert_eq!(oracle.last_observed_slot, 4);
    assert_eq!(oracle.last_updated_slot, 0);
    oracle.update_oracle(4, Some(100), Some(102));
    assert_eq!(oracle.last_observation, 100);
    assert_eq!(oracle.last_updated_slot, 0);
    assert_eq!(oracle.observation_aggregator, 0);
}

#[test]
fn update_in_an_earlier_slot_is_a_no_op() {
    let mut oracle = fresh(100, 5, 50);
    oracle.update_oracle(60, Some(100), Some(100));
    oracle.update_oracle(55, Some(110), Some(110));
    assert_eq!(oracle.last_observed_slot, 60);
    assert_eq!(oracle.last_updated_slot, 60);
    assert_eq!(oracle.last_observation, 100);
    assert_eq!(oracle.observation_aggregator, 1000);
}

#[test]
fn spread_of_exactly_a_fifth_is_accepted() {
    let mut oracle = fresh(100, 50, 0);
    oracle.update_oracle(1, Some(100), Some(120));
    assert_eq!(oracle.last_observation, 110);
    assert_eq!(oracle.last_updated_slot, 1);
}

#[test]
fn spread_just_over_a_fifth_is_rejected() {
    let mut oracle = fresh(100, 50, 0);
    oracle.update_oracle(1, Some(100), Some(121));
    assert_eq!(oracle.last_observation, 100);
    assert_eq!(oracle.last_updated_slot, 0);
    assert_eq!(oracle.last_observed_slot, 1);
    assert_eq!(oracle.observation_aggregator, 0);
}

#[test]
fn spread_limit_rounds_down() {
    // Twelve tenths of 7 is 8.4: an ask of 8 passes, an ask of 9 does not.
    let mut accepted = fresh(7, 50, 0);
    accepted.update_oracle(1, Some(7), Some(8));
    assert_eq!(accepted.last_observation, 8);
    let mut rejected = fresh(7, 50, 0);
    rejected.update_oracle(1, Some(7), Some(9));
    assert_eq!(rejected.last_observation, 7);
    assert_eq!(rejected.last_updated_slot, 0);
}

#[test]
fn observation_moves_up_by_at_most_the_step() {
    let mut oracle = fresh(100, 5, 0);
    let mut previous = oracle.last_observation;
    let mut slot = 0u64;
    for (bid, ask) in [(1000i64, 1001i64), (1000, 1001), (103, 104), (112, 113), (500, 510)] {
        slot += 1;
        oracle.update_oracle(slot, Some(bid), Some(ask));
        assert!(oracle.last_observation <= previous + 5);
        assert!(previous <= oracle.last_observation + 5);
        previous = oracle.last_observation;
    }
    assert_eq!(oracle.last_observation, 115);
}

#[test]
fn observation_moves_down_by_at_most_the_step() {
    let mut oracle = fresh(100, 5, 0);
    oracle.update_oracle(1, Some(10), Some(11));
    assert_eq!(oracle.last_observation, 95);
    oracle.update_oracle(2, Some(10), Some(11));
    assert_eq!(oracle.last_observation, 90);
    oracle.update_oracle(3, Some(87), Some(88));
    assert_eq!(oracle.last_observation, 88);
    assert_eq!(oracle.observation_aggregator, 95 + 90 + 88);
}

#[test]
fn clamp_saturates_at_zero_and_at_the_top() {
    let mut low = fresh(3, 10, 0);
    low.update_oracle(1, Some(0), Some(0));
    assert_eq!(low.last_observation, 0);

    let mut high = fresh(u64::MAX - 2, 10, 0);
    // A negative mean is taken as the unsigned number of the same bits.
    high.update_oracle(1, Some(-1), Some(-1));
    assert_eq!(high.last_observation, u64::MAX);
}

#[test]
fn zero_step_freezes_the_observation() {
    let mut oracle = fresh(100, 0, 0);
    oracle.update_oracle(1, Some(200), Some(201));
    assert_eq!(oracle.last_observation, 100);
    assert_eq!(oracle.last_updated_slot, 1);
    assert_eq!(oracle.observation_aggregator, 100);
}

#[test]
fn aggregator_never_decreases() {
    let mut oracle = fresh(1000, 100, 5);
    let mut previous = oracle.observation_aggregator;
    let attempts: [(u64, Option<i64>, Option<i64>); 8] = [
        (6, Some(1000), Some(1010)),
        (6, Some(2000), Some(2010)),
        (9, None, Some(5)),
        (10, Some(1), Some(1)),
        (3, Some(1), Some(1)),
        (20, Some(1), Some(100)),
        (21, Some(0), Some(0)),
        (1000, Some(900), Some(901)),
    ];
    for (slot, bid, ask) in attempts {
        oracle.update_oracle(slot, bid, ask);
        assert!(oracle.observation_aggregator >= previous);
        assert!(oracle.is_valid());
        previous = oracle.observation_aggregator;
    }
}

#[test]
fn aggregator_weights_each_observation_by_elapsed_slots() {
    let mut oracle = fresh(100, 10, 100);
    oracle.update_oracle(104, Some(105), Some(105));
    assert_eq!(oracle.observation_aggregator, 105 * 4);
    oracle.update_oracle(105, Some(50), Some(500));
    oracle.update_oracle(110, Some(105), Some(106));
    assert_eq!(oracle.last_observation, 106);
    assert_eq!(oracle.observation_aggregator, 105 * 4 + 106 * 6);
    assert_eq!(oracle.time_weighted_average(), Ok((105 * 4 + 106 * 6) / 10));
}

#[test]
fn average_of_a_fresh_oracle_is_a_division_by_zero() {
    let oracle = fresh(100, 5, 77);
    assert_eq!(oracle.time_weighted_average(), Err(OracleError::DivisionByZero));
}

#[test]
fn average_stays_undefined_while_every_attempt_is_rejected() {
    let mut oracle = fresh(100, 5, 0);
    oracle.update_oracle(1, None, None);
    oracle.update_oracle(2, Some(10), Some(100));
    assert_eq!(oracle.time_weighted_average(), Err(OracleError::DivisionByZero));
}

#[test]
fn average_after_one_update_is_the_first_observation() {
    for elapsed in [1u64, 2, 1000, 1 << 40] {
        let mut oracle = fresh(1_000_000, 250, 9);
        oracle.update_oracle(9 + elapsed, Some(1_000_900), Some(1_000_901));
        assert_eq!(oracle.last_observation, 1_000_250);
        assert_eq!(oracle.time_weighted_average(), Ok(1_000_250));
    }
}

#[test]
fn average_rounds_down() {
    let mut oracle = fresh(10, 1, 0);
    oracle.update_oracle(1, Some(11), Some(11));
    oracle.update_oracle(3, Some(10), Some(10));
    // 11 for one slot and 10 for two.
    assert_eq!(oracle.observation_aggregator, 31);
    assert_eq!(oracle.time_weighted_average(), Ok(10));
}

#[test]
fn largest_prices_over_the_longest_window_fit() {
    let mut oracle = fresh(u64::MAX, 0, 0);
    oracle.update_oracle(u64::MAX, Some(100), Some(100));
    assert_eq!(oracle.last_observation, u64::MAX);
    assert_eq!(oracle.observation_aggregator, (u64::MAX as u128) * (u64::MAX as u128));
    assert_eq!(oracle.time_weighted_average(), Ok(u64::MAX));
    assert!(oracle.is_valid());
}

#[test]
fn is_due_only_in_a_later_slot() {
    let oracle = fresh(1, 1, 10);
    assert!(!oracle.is_due(9));
    assert!(!oracle.is_due(10));
    assert!(oracle.is_due(11));
}

#[test]
fn is_valid_tells_slots_out_of_order() {
    let mut oracle = fresh(1, 1, 10);
    assert!(oracle.is_valid());
    oracle.last_updated_slot = 9;
    assert!(!oracle.is_valid());
    oracle.last_updated_slot = 11;
    assert!(!oracle.is_valid());
    oracle.last_observed_slot = 11;
    assert!(oracle.is_valid());
    oracle.observation_aggregator = u64::MAX as u128;
    assert!(oracle.is_valid());
    oracle.observation_aggregator = u64::MAX as u128 + 1;
    assert!(!oracle.is_valid());
}

#[test]
fn drift_over_many_attempts_is_bounded_by_their_number() {
    let mut oracle = fresh(1_000, 7, 0);
    let quotes: [(i64, i64); 6] =
        [(5_000, 5_001), (5_000, 5_001), (1, 1), (5_000, 5_001), (900, 2_000), (5_000, 5_001)];
    for (n, (bid, ask)) in quotes.iter().enumerate() {
        oracle.update_oracle(n as u64 + 1, Some(*bid), Some(*ask));
        let attempts = n as u64 + 1;
        assert!(oracle.last_observation <= 1_000 + attempts * 7);
        assert!(1_000 <= oracle.last_observation + attempts * 7);
        assert_eq!(oracle.max_observation_change_per_update_lots, 7);
        assert_eq!(oracle.expected_value, 1_000);
        assert_eq!(oracle.initial_slot, 0);
    }
    // Up twice, down once, up once, turned away once, up once.
    assert_eq!(oracle.last_observation, 1_000 + 7 + 7 - 7 + 7 + 7);
    assert_eq!(
        oracle.observation_aggregator,
        1_007 + 1_014 + 1_007 + 1_014 + 1_021 * 2
    );
}

#[test]
fn oracles_compare_by_their_fields() {
    let mut first = fresh(100, 5, 3);
    let mut second = fresh(100, 5, 3);
    assert_eq!(first, second);
    first.update_oracle(4, Some(100), Some(100));
    assert!(first != second);
    second.update_oracle(4, Some(100), Some(100));
    assert_eq!(first, second);
}
