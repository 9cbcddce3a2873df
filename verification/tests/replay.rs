use presence_sync::record::{LivenessState, SinkCall};
use presence_sync::replay::{apply, replay, Operation};
use presence_sync::store::StateStore;

#[test]
fn apply_returns_a_call_only_for_a_pass_on_a_dirty_record() {
    let mut store = StateStore::new();
    assert_eq!(apply(&mut store, Operation::Reconcile, 10), None);
    assert_eq!(apply(&mut store, Operation::Heartbeat { now: 1 }, 10), None);
    assert_eq!(apply(&mut store, Operation::PlayerCount { count: 4 }, 10), None);
    assert_eq!(apply(&mut store, Operation::Reconcile, 10), Some(SinkCall::SetOnline(4)));
    assert_eq!(apply(&mut store, Operation::Reconcile, 10), None);
    assert_eq!(apply(&mut store, Operation::Tick { now: 11 }, 10), None);
    assert_eq!(store.peek().state, LivenessState::Offline);
    assert_eq!(apply(&mut store, Operation::Reconcile, 10), Some(SinkCall::SetOffline));
}

#[test]
fn apply_ignores_a_negative_count() {
    let mut store = StateStore::new();
    apply(&mut store, Operation::Heartbeat { now: 1 }, 10);
    apply(&mut store, Operation::PlayerCount { count: 6 }, 10);
    let before = store.peek();
    assert_eq!(apply(&mut store, Operation::PlayerCount { count: -6 }, 10), None);
    assert_eq!(store.peek(), before);
}

#[test]
fn replay_of_nothing_changes_nothing() {
    let mut store = StateStore::new();
    assert_eq!(replay(&mut store, &[], 10), Vec::<SinkCall>::new());
    assert_eq!(store.peek(), StateStore::new().peek());
}

#[test]
fn replay_of_a_silence_gives_one_offline_call() {
    let mut store = StateStore::new();
    let mut ops = vec![Operation::Heartbeat { now: 0 }, Operation::Reconcile];
    for t in 1..=30 {
        ops.push(Operation::Tick { now: t });
        ops.push(Operation::Reconcile);
    }
    let made = replay(&mut store, &ops, 10);
    assert_eq!(made, vec![SinkCall::SetOnline(0), SinkCall::SetOffline]);
    assert_eq!(store.peek().state, LivenessState::Offline);
    assert!(!store.peek().dirty);
}

#[test]
fn replay_of_a_burst_gives_the_last_count() {
    let mut store = StateStore::new();
    let mut ops = vec![Operation::Heartbeat { now: 0 }, Operation::Reconcile];
    for n in 0..100 {
        ops.push(Operation::PlayerCount { count: n });
    }
    ops.push(Operation::Reconcile);
    ops.push(Operation::Reconcile);
    let made = replay(&mut store, &ops, 10);
    assert_eq!(made, vec![SinkCall::SetOnline(0), SinkCall::SetOnline(99)]);
}

#[test]
fn replay_of_a_deferred_count() {
    let mut store = StateStore::new();
    let ops = [
        Operation::Heartbeat { now: 0 },
        Operation::Reconcile,
        Operation::Tick { now: 10 },
        Operation::Reconcile,
        Operation::PlayerCount { count: 42 },
        Operation::Reconcile,
        Operation::Tick { now: 20 },
        Operation::Reconcile,
        Operation::Heartbeat { now: 21 },
        Operation::Reconcile,
    ];
    let made = replay(&mut store, &ops, 10);
    assert_eq!(
        made,
        vec![SinkCall::SetOnline(0), SinkCall::SetOffline, SinkCall::SetOnline(42)]
    );
}

#[test]
fn replay_of_heartbeats_while_online_gives_no_call() {
    let mut store = StateStore::new();
    replay(&mut store, &[Operation::Heartbeat { now: 0 }, Operation::Reconcile], 10);
    let mut ops = Vec::new();
    for t in 1..100 {
        ops.push(Operation::Heartbeat { now: t });
        ops.push(Operation::Tick { now: t });
        ops.push(Operation::Reconcile);
    }
    assert_eq!(replay(&mut store, &ops, 10), Vec::<SinkCall>::new());
    assert_eq!(store.peek().state, LivenessState::Online);
    assert_eq!(store.peek().last_heartbeat_at, 99);
}

#[test]
fn replay_equals_applying_one_by_one() {
    let ops = [
        Operation::PlayerCount { count: 2 },
        Operation::Heartbeat { now: 5 },
        Operation::Reconcile,
        Operation::PlayerCount { count: -1 },
        Operation::Tick { now: 14 },
        Operation::PlayerCount { count: 3 },
        Operation::Tick { now: 15 },
        Operation::Reconcile,
        Operation::Reconcile,
    ];
    let mut whole = StateStore::new();
    let made = replay(&mut whole, &ops, 10);
    let mut single = StateStore::new();
    let mut one_by_one = Vec::new();
    for op in ops {
        if let Some(call) = apply(&mut single, op, 10) {
            one_by_one.push(call);
        }
    }
    assert_eq!(made, one_by_one);
    assert_eq!(made, vec![SinkCall::SetOnline(2), SinkCall::SetOffline]);
    assert_eq!(whole.peek(), single.peek());
    assert_eq!(whole.peek().player_count, 3);
}
