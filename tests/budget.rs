use flight_data_generator::budget::{rows_claimed, take_one, Budget};

#[test]
fn take_one_decrements_positive_counts() {
    assert_eq!(take_one(5), Some(4));
    assert_eq!(take_one(1), Some(0));
    assert_eq!(take_one(0), None);
}

#[test]
fn claims_grant_min_of_calls_and_budget() {
    for (initial, calls) in [(3u64, 5u64), (5, 3), (0, 4), (4, 4)] {
        let budget = Budget::new(initial);
        let mut granted = 0u64;
        for _ in 0..calls {
            if budget.claim() {
                granted += 1;
            }
        }
        assert_eq!(granted, initial.min(calls));
        assert_eq!(budget.remaining(), initial - initial.min(calls));
    }
}

#[test]
fn exhausted_budget_stays_at_zero() {
    let budget = Budget::new(1);
    assert!(budget.claim());
    assert!(!budget.claim());
    assert!(!budget.claim());
    assert_eq!(budget.remaining(), 0);
}

#[test]
fn rows_claimed_is_initial_less_remaining() {
    assert_eq!(rows_claimed(10, 3), 7);
    assert_eq!(rows_claimed(0, 0), 0);
}
