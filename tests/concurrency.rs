use flight_data_generator::budget::Budget;
use flight_data_generator::config::validate;
use flight_data_generator::identity::generate_plane_id;
use flight_data_generator::producer::{Producer, Step};
use std::sync::atomic::{AtomicUsize, Ordering};
use std::sync::Arc;
use tokio::sync::{Mutex, Semaphore};

fn runtime() -> tokio::runtime::Runtime {
    tokio::runtime::Builder::new_multi_thread()
        .worker_threads(4)
        .enable_all()
        .build()
        .unwrap()
}

fn concurrent_claims(initial: u64, tasks: usize, per_task: usize) -> (u64, u64) {
    let rt = runtime();
    let budget = Arc::new(Budget::new(initial));
    let granted: u64 = rt.block_on(async {
        let handles: Vec<_> = (0..tasks)
            .map(|_| {
                let budget = budget.clone();
                tokio::spawn(async move {
                    let mut mine = 0u64;
                    for _ in 0..per_task {
                        if budget.claim() {
                            mine += 1;
                        }
                        tokio::task::yield_now().await;
                    }
                    mine
                })
            })
            .collect();
        let mut total = 0u64;
        for h in handles {
            total += h.await.unwrap();
        }
        total
    });
    (granted, budget.remaining())
}

#[test]
fn concurrent_claims_never_exceed_the_budget() {
    assert_eq!(concurrent_claims(1000, 64, 50), (1000, 0));
}

#[test]
fn concurrent_claims_below_the_budget_all_succeed() {
    assert_eq!(concurrent_claims(5000, 64, 50), (3200, 1800));
}

struct FakeSink {
    active: AtomicUsize,
    peak: AtomicUsize,
    written: std::sync::Mutex<Vec<(String, usize)>>,
}

#[test]
fn concurrent_producers_respect_the_flush_limit() {
    let config = validate(200, 1000, 8, 3).unwrap();
    let limit = 2usize;
    let rt = runtime();
    let budget = Arc::new(Budget::new(config.total_rows));
    let admission = Arc::new(Semaphore::new(limit));
    let sink = Arc::new(Mutex::new(()));
    let fake = Arc::new(FakeSink {
        active: AtomicUsize::new(0),
        peak: AtomicUsize::new(0),
        written: std::sync::Mutex::new(Vec::new()),
    });
    let delivered: u64 = rt.block_on(async {
        let handles: Vec<_> = (0..config.plane_count)
            .map(|k| {
                let (budget, admission, sink, fake) =
                    (budget.clone(), admission.clone(), sink.clone(), fake.clone());
                let id = generate_plane_id("AA00", k).unwrap();
                tokio::spawn(async move {
                    let mut p = Producer::new(id.clone(), config.batch_size);
                    loop {
                        tokio::task::yield_now().await;
                        match p.tick(&budget) {
                            Step::Wait => {}
                            Step::Flush(records) => {
                                let _permit = admission.acquire().await.unwrap();
                                let now = fake.active.fetch_add(1, Ordering::SeqCst) + 1;
                                fake.peak.fetch_max(now, Ordering::SeqCst);
                                {
                                    let _guard = sink.lock().await;
                                    fake.written.lock().unwrap().push((id.clone(), records.len()));
                                }
                                tokio::task::yield_now().await;
                                fake.active.fetch_sub(1, Ordering::SeqCst);
                                if p.flush_done(true) {
                                    break;
                                }
                            }
                            Step::Done => break,
                        }
                    }
                    p.rows_delivered()
                })
            })
            .collect();
        let mut total = 0u64;
        for h in handles {
            total += h.await.unwrap();
        }
        total
    });
    assert_eq!(delivered, 200);
    assert_eq!(budget.remaining(), 0);
    assert!(fake.peak.load(Ordering::SeqCst) <= limit);
    let written = fake.written.lock().unwrap();
    assert_eq!(written.iter().map(|(_, n)| *n).sum::<usize>(), 200);
    assert!(written.iter().all(|(_, n)| (1..=3).contains(n)));
}
