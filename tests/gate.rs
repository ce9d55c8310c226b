use apalis_benches::{empty_job, is_final_completion, CompletionGate, TestJob};

#[test]
fn final_completion_is_the_one_before_the_target() {
    assert!(is_final_completion(4, 5));
    assert!(!is_final_completion(3, 5));
    assert!(!is_final_completion(5, 5));
    assert!(is_final_completion(0, 1));
    assert!(is_final_completion(usize::MAX - 1, usize::MAX));
}

#[test]
fn zero_target_is_never_reached_by_a_completion() {
    assert!(!is_final_completion(0, 0));
    assert!(!is_final_completion(usize::MAX, 0));
}

#[test]
fn zero_target_gate_is_stopped_at_once() {
    let mut gate = CompletionGate::new(0);
    assert!(gate.is_stopped());
    assert_eq!(gate.completed(), 0);
    assert!(!gate.record(true));
    assert!(gate.is_stopped());
    assert_eq!(gate.completed(), 1);
}

#[test]
fn gate_does_not_stop_before_the_last_success() {
    let mut gate = CompletionGate::new(4);
    for _ in 0..3 {
        assert!(!gate.record(true));
        assert!(!gate.is_stopped());
    }
    assert!(gate.record(true));
    assert!(gate.is_stopped());
}

#[test]
fn gate_fires_exactly_once_past_the_target() {
    let mut gate = CompletionGate::new(3);
    let mut fired: usize = 0;
    for _ in 0..10 {
        if gate.record(true) {
            fired += 1;
        }
    }
    assert_eq!(fired, 1);
    assert_eq!(gate.completed(), 10);
    assert!(gate.is_stopped());
}

#[test]
fn gate_fires_once_for_a_target_of_one() {
    let mut gate = CompletionGate::new(1);
    assert!(!gate.is_stopped());
    assert!(gate.record(true));
    assert!(!gate.record(true));
    assert!(gate.is_stopped());
}

#[test]
fn failures_neither_count_nor_stop() {
    let mut gate = CompletionGate::new(3);
    assert!(!gate.record(true));
    assert!(!gate.record(false));
    assert!(!gate.record(true));
    assert_eq!(gate.completed(), 2);
    assert!(!gate.is_stopped());
    assert!(gate.record(true));
    assert_eq!(gate.completed(), 3);
    assert!(gate.is_stopped());
}

#[test]
fn only_failures_never_stop() {
    let mut gate = CompletionGate::new(2);
    for _ in 0..5 {
        assert!(!gate.record(false));
    }
    assert_eq!(gate.completed(), 0);
    assert!(!gate.is_stopped());
}

#[test]
fn counter_follows_the_successes() {
    let outcomes = [true, false, true, true, false, false, true];
    let mut gate = CompletionGate::new(100);
    let mut expected: usize = 0;
    let mut last: usize = 0;
    for &ok in outcomes.iter() {
        gate.record(ok);
        if ok {
            expected += 1;
        }
        assert_eq!(gate.completed(), expected);
        assert!(gate.completed() >= last);
        last = gate.completed();
    }
    assert_eq!(gate.completed(), 4);
}

#[test]
fn five_successes_stop_a_run_of_five() {
    let mut gate = CompletionGate::new(5);
    assert_eq!(gate.target_count(), 5);
    let mut fired_at = Vec::new();
    for i in 0..5 {
        empty_job(TestJob);
        if gate.record(true) {
            fired_at.push(i);
        }
    }
    assert_eq!(fired_at, vec![4]);
    assert_eq!(gate.completed(), 5);
    assert!(gate.is_stopped());
}
