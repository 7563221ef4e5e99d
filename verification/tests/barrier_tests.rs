use created_swarm::barrier::{BarrierState, WaitDecision};

#[test]
fn zero_expectation_resolves_immediately_without_subscribing() {
    let b = BarrierState::init(vec![0, 0]);
    assert!(b.is_done());
    assert_eq!(b.subscribed, vec![false, false]);
    // The driver subscribes exactly where the barrier asks it to; a
    // zero-expectation node causes no subscription call at all.
    let mut subscribe_calls = 0usize;
    for i in 0..b.subscribed.len() {
        if b.subscribed[i] {
            subscribe_calls += 1;
        }
    }
    assert_eq!(subscribe_calls, 0);
}

#[test]
fn positive_expectation_subscribes_before_reading_counts() {
    let b = BarrierState::init(vec![0, 2, 1]);
    assert!(!b.is_done());
    assert_eq!(b.resolved, vec![true, false, false]);
    assert_eq!(b.subscribed, vec![false, true, true]);
}

#[test]
fn count_reaching_expectation_resolves() {
    let mut b = BarrierState::init(vec![2]);
    assert_eq!(b.observe_count(0, 0), WaitDecision::AwaitEvent);
    assert_eq!(b.observe_count(0, 1), WaitDecision::AwaitEvent);
    assert_eq!(b.observe_count(0, 2), WaitDecision::Resolve);
    assert!(b.is_done());
}

#[test]
fn level_triggered_wait_survives_missed_events() {
    // The count jumps straight past the expectation: the next re-read
    // still resolves, no per-event accounting is involved.
    let mut b = BarrierState::init(vec![3]);
    assert_eq!(b.observe_count(0, 7), WaitDecision::Resolve);
    assert!(b.is_done());
}

#[test]
fn resolution_is_monotone() {
    let mut b = BarrierState::init(vec![1]);
    assert_eq!(b.observe_count(0, 5), WaitDecision::Resolve);
    // A later, lower read (a disconnect) does not un-resolve the node.
    assert_eq!(b.observe_count(0, 0), WaitDecision::Resolve);
    assert!(b.is_done());
}

#[test]
fn three_node_full_mesh_converges() {
    // Three nodes, each expecting two connections, connecting in
    // arbitrary order at arbitrary rates.
    let mut b = BarrierState::init(vec![2, 2, 2]);
    let mut counts = vec![0usize, 0, 0];
    let schedule = [(0usize, 1usize), (2, 1), (1, 1), (2, 2), (0, 2), (1, 2)];
    for (node, count) in schedule {
        counts[node] = count;
        b.observe_all(&counts);
    }
    assert!(b.is_done());
    for c in counts {
        assert!(c >= 2);
    }
}

#[test]
fn barrier_not_done_while_one_node_lags() {
    let mut b = BarrierState::init(vec![1, 1]);
    b.observe_count(0, 1);
    assert!(!b.is_done());
    b.observe_count(1, 1);
    assert!(b.is_done());
}
