use rustbook::counter::{run_workers, Counter, WorkerCounter};

#[test]
fn ten_workers_count_to_ten() {
    assert_eq!(run_workers(10), 10);
}

#[test]
fn no_workers_leave_zero() {
    assert_eq!(run_workers(0), 0);
}

#[test]
fn each_worker_counts_once() {
    for n in [1usize, 2, 3, 57, 1000] {
        assert_eq!(run_workers(n), n as u64);
    }
}

#[test]
fn increment_adds_one() {
    let mut c = Counter::new();
    assert_eq!(c.read(), 0);
    c.increment();
    c.increment();
    assert_eq!(c.read(), 2);
}

#[test]
fn workers_in_any_order() {
    let mut c = WorkerCounter::new(3);
    for w in [2usize, 0, 1] {
        assert!(!c.has_worker_incremented(w));
        c.increment_for(w);
        assert!(c.has_worker_incremented(w));
    }
    assert_eq!(c.read(), 3);
}

#[test]
fn worker_counter_starts_at_zero() {
    let c = WorkerCounter::new(0);
    assert_eq!(c.read(), 0);
    let c = WorkerCounter::new(4);
    assert_eq!(c.read(), 0);
}
