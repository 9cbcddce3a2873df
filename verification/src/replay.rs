//! Histories as values: operations that can be stored, and applied to a
//! store one by one or in a row.

use vstd::prelude::*;
use crate::history::{calls, run, step, step_call, lemma_run_push, Op};
use crate::reconciler::{call_view, reconcile};
use crate::record::{CallModel, SinkCall};
use crate::store::StateStore;

verus! {

/// One operation on the store.
#[derive(Clone, Copy, Debug, PartialEq, Eq, Structural)]
pub enum Operation {
    /// A heartbeat received at `now`.
    Heartbeat { now: i64 },
    /// A player count received; a negative one is refused.
    PlayerCount { count: i64 },
    /// A look of the monitor at `now`.
    Tick { now: i64 },
    /// A reconciliation pass.
    Reconcile,
}

impl View for Operation {
    type V = Op;

    open spec fn view(&self) -> Op {
        match *self {
            Operation::Heartbeat { now } => Op::Heartbeat { now: now as int },
            Operation::PlayerCount { count } => Op::PlayerCount { count: count as int },
            Operation::Tick { now } => Op::Tick { now: now as int },
            Operation::Reconcile => Op::Reconcile,
        }
    }
}

/// The history that a row of operations stands for.
pub open spec fn history_of(ops: Seq<Operation>) -> Seq<Op> {
    Seq::new(ops.len(), |i: int| ops[i]@)
}

/// The models of a row of calls.
pub open spec fn calls_of(made: Seq<SinkCall>) -> Seq<CallModel> {
    Seq::new(made.len(), |i: int| made[i]@)
}

/// Applies one operation to the store and returns the call on the sink
/// that it leads to, if any.
pub fn apply(store: &mut StateStore, op: Operation, timeout: u64) -> (call: Option<SinkCall>)
    ensures
        final(store)@ == step(old(store)@, op@, timeout as int),
        call_view(call) == step_call(old(store)@, op@),
{
    match op {
        Operation::Heartbeat { now } => {
            store.record_heartbeat(now);
            None
        },
        Operation::PlayerCount { count } => {
            let _ = store.record_player_count(count);
            None
        },
        Operation::Tick { now } => {
            store.evaluate_timeout(now, timeout);
            None
        },
        Operation::Reconcile => reconcile(store),
    }
}

/// Applies a row of operations to the store in order and returns the
/// calls on the sink that they lead to, in order.
pub fn replay(store: &mut StateStore, ops: &[Operation], timeout: u64) -> (made: Vec<SinkCall>)
    ensures
        final(store)@ == run(old(store)@, history_of(ops@), timeout as int),
        calls_of(made@) == calls(old(store)@, history_of(ops@), timeout as int),
{
    let ghost start = store@;
    let ghost history = history_of(ops@);
    let mut made: Vec<SinkCall> = Vec::new();
    let mut i: usize = 0;
    assert(history.take(0) =~= Seq::<Op>::empty());
    assert(calls_of(made@) =~= Seq::<CallModel>::empty());
    while i < ops.len()
        invariant
            0 <= i <= ops@.len(),
            history == history_of(ops@),
            store@ == run(start, history.take(i as int), timeout as int),
            calls_of(made@) == calls(start, history.take(i as int), timeout as int),
        decreases ops@.len() - i,
    {
        let ghost seen = history.take(i as int);
        let ghost earlier = made@;
        let op = ops[i];
        proof {
            assert(history.take(i + 1) =~= seen.push(op@));
            lemma_run_push(start, seen, op@, timeout as int);
        }
        match apply(store, op, timeout) {
            Some(call) => {
                made.push(call);
                assert(calls_of(made@) =~= calls_of(earlier).push(call@));
            },
            None => {},
        }
        i += 1;
    }
    assert(history.take(ops@.len() as int) =~= history);
    made
}

} // verus!
