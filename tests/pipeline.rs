use flight_data_generator::budget::{rows_claimed, Budget};
use flight_data_generator::identity::generate_plane_id;
use flight_data_generator::producer::{Phase, Producer, Step};

struct Outcome {
    claimed: Vec<u64>,
    delivered: Vec<u64>,
    flushes: Vec<Vec<usize>>,
    remaining: u64,
}

/// Drives the producers one tick each, in turn, against a sink that fails
/// the flush calls whose running numbers are in `failing`.
fn run(entity_count: u32, total_rows: u64, batch_size: usize, failing: &[usize]) -> Outcome {
    let budget = Budget::new(total_rows);
    let mut producers: Vec<Producer> = (0..entity_count)
        .map(|k| Producer::new(generate_plane_id("AA00", k).unwrap(), batch_size))
        .collect();
    let mut flushes = vec![Vec::new(); entity_count as usize];
    let mut calls = 0usize;
    while producers.iter().any(|p| p.phase() != Phase::Terminated) {
        for (i, p) in producers.iter_mut().enumerate() {
            if p.phase() != Phase::Running {
                continue;
            }
            if let Step::Flush(records) = p.tick(&budget) {
                assert!(!records.is_empty());
                let ok = !failing.contains(&calls);
                calls += 1;
                flushes[i].push(records.len());
                p.flush_done(ok);
            }
        }
    }
    Outcome {
        claimed: producers.iter().map(|p| p.rows_claimed()).collect(),
        delivered: producers.iter().map(|p| p.rows_delivered()).collect(),
        flushes,
        remaining: budget.remaining(),
    }
}

#[test]
fn three_entities_share_ten_rows_in_batches_of_four() {
    let out = run(3, 10, 4, &[]);
    assert_eq!(out.claimed.iter().sum::<u64>(), 10);
    assert_eq!(out.delivered.iter().sum::<u64>(), 10);
    assert!(out.flushes.iter().all(|f| !f.is_empty()));
    assert!(out.flushes.iter().all(|f| *f.last().unwrap() <= 4));
    assert!(out.flushes.iter().flatten().all(|&n| n <= 4));
    assert_eq!(out.remaining, 0);
    assert_eq!(rows_claimed(10, out.remaining), 10);
}

#[test]
fn empty_budget_produces_nothing() {
    let out = run(3, 0, 4, &[]);
    assert_eq!(out.claimed, vec![0, 0, 0]);
    assert_eq!(out.delivered, vec![0, 0, 0]);
    assert!(out.flushes.iter().all(|f| f.is_empty()));
    assert_eq!(rows_claimed(0, out.remaining), 0);
}

#[test]
fn one_failed_flush_loses_exactly_its_batch() {
    let clean = run(3, 10, 4, &[]);
    let failed = run(3, 10, 4, &[0]);
    let lost = failed.flushes.iter().flatten().next().copied().unwrap() as u64;
    assert_eq!(lost, 4);
    assert_eq!(failed.claimed.iter().sum::<u64>(), 10);
    assert_eq!(failed.remaining, clean.remaining);
    assert_eq!(
        failed.delivered.iter().sum::<u64>(),
        clean.delivered.iter().sum::<u64>() - lost
    );
}

#[test]
fn producer_drains_residual_once_and_terminates() {
    let budget = Budget::new(2);
    let mut p = Producer::new("AA00".to_string(), 5);
    assert!(matches!(p.tick(&budget), Step::Wait));
    assert!(matches!(p.tick(&budget), Step::Wait));
    match p.tick(&budget) {
        Step::Flush(records) => {
            assert_eq!(records.len(), 2);
            assert!(records[0].timestamp <= records[1].timestamp);
        }
        _ => panic!("expected the residual batch"),
    }
    assert_eq!(p.phase(), Phase::Draining);
    assert!(p.flush_done(true));
    assert_eq!(p.phase(), Phase::Terminated);
    assert_eq!(p.rows_claimed(), 2);
    assert_eq!(p.rows_delivered(), 2);
    assert_eq!(p.rows_dropped(), 0);
    assert_eq!(p.plane_id(), "AA00");
}

#[test]
fn first_refused_claim_terminates_without_error() {
    let budget = Budget::new(0);
    let mut p = Producer::new("AA00".to_string(), 3);
    assert!(matches!(p.tick(&budget), Step::Done));
    assert_eq!(p.phase(), Phase::Terminated);
    assert_eq!(p.rows_claimed(), 0);
}

#[test]
fn advance_hands_out_full_batch_in_order() {
    let mut p = Producer::new("AA00".to_string(), 2);
    assert!(matches!(p.advance(true), Step::Wait));
    match p.advance(true) {
        Step::Flush(records) => {
            assert_eq!(records.len(), 2);
            assert!(records[0].timestamp <= records[1].timestamp);
        }
        _ => panic!("expected a full batch"),
    }
    assert!(!p.flush_done(false));
    assert_eq!(p.rows_dropped(), 2);
    assert_eq!(p.rows_delivered(), 0);
    assert_eq!(p.phase(), Phase::Running);
    assert!(matches!(p.advance(false), Step::Done));
}

#[test]
fn producer_at_claim_limit_can_still_drain() {
    let mut p = Producer::new("AA00".to_string(), 4);
    assert!(matches!(p.advance(true), Step::Wait));
    match p.advance(false) {
        Step::Flush(records) => assert_eq!(records.len(), 1),
        _ => panic!("expected the residual batch"),
    }
    assert!(p.flush_done(true));
}
