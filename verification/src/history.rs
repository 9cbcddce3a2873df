//! Histories: the operations on a store in the order in which it serves
//! them, and the calls that reach the sink along the way.
//!
//! The store serves one operation at a time, so whatever several senders,
//! the monitor and the reconciler do at once, the record is what one such
//! history makes of it.

use vstd::prelude::*;
use crate::record::{
    cleared, evaluate_timeout, heartbeat, pending_call, player_count, CallModel, RecordModel,
};

verus! {

/// One operation on the store.
pub ghost enum Op {
    /// A heartbeat received at `now`.
    Heartbeat { now: int },
    /// A player count received; a negative one is refused.
    PlayerCount { count: int },
    /// A look of the monitor at `now`.
    Tick { now: int },
    /// A reconciliation pass.
    Reconcile,
}

/// The record after one operation.
pub open spec fn step(r: RecordModel, op: Op, timeout: int) -> RecordModel {
    match op {
        Op::Heartbeat { now } => heartbeat(r, now),
        Op::PlayerCount { count } => if count >= 0 {
            player_count(r, count as nat)
        } else {
            r
        },
        Op::Tick { now } => evaluate_timeout(r, now, timeout),
        Op::Reconcile => cleared(r),
    }
}

/// The call on the sink that one operation leads to: only a
/// reconciliation pass makes one, and only on a dirty record.
pub open spec fn step_call(r: RecordModel, op: Op) -> Option<CallModel> {
    match op {
        Op::Reconcile => pending_call(r),
        _ => None,
    }
}

/// The record after a history.
pub open spec fn run(r: RecordModel, ops: Seq<Op>, timeout: int) -> RecordModel
    decreases ops.len(),
{
    if ops.len() == 0 {
        r
    } else {
        step(run(r, ops.drop_last(), timeout), ops.last(), timeout)
    }
}

/// The calls that reach the sink during a history, in order.
pub open spec fn calls(r: RecordModel, ops: Seq<Op>, timeout: int) -> Seq<CallModel>
    decreases ops.len(),
{
    if ops.len() == 0 {
        Seq::empty()
    } else {
        let earlier = calls(r, ops.drop_last(), timeout);
        match step_call(run(r, ops.drop_last(), timeout), ops.last()) {
            Some(call) => earlier.push(call),
            None => earlier,
        }
    }
}

/// What the sink shows after it received `made`, if it showed `before`
/// when they began.
pub open spec fn shown(before: CallModel, made: Seq<CallModel>) -> CallModel {
    if made.len() == 0 {
        before
    } else {
        made.last()
    }
}

/// How many of the calls say that the server is offline.
pub open spec fn offline_calls(made: Seq<CallModel>) -> nat
    decreases made.len(),
{
    if made.len() == 0 {
        0
    } else if made.last() is SetOffline {
        offline_calls(made.drop_last()) + 1
    } else {
        offline_calls(made.drop_last())
    }
}

/// True if every operation of the history is a heartbeat or a
/// reconciliation pass.
pub open spec fn only_heartbeats_and_passes(ops: Seq<Op>) -> bool {
    forall|i: int| 0 <= i < ops.len() ==> (#[trigger] ops[i]) is Heartbeat || ops[i] is Reconcile
}

/// True if every operation of the history is a look of the monitor or a
/// reconciliation pass.
pub open spec fn only_ticks_and_passes(ops: Seq<Op>) -> bool {
    forall|i: int| 0 <= i < ops.len() ==> (#[trigger] ops[i]) is Tick || ops[i] is Reconcile
}

/// True if no operation of the history is a reconciliation pass.
pub open spec fn no_passes(ops: Seq<Op>) -> bool {
    forall|i: int| 0 <= i < ops.len() ==> !((#[trigger] ops[i]) is Reconcile)
}

/// True if some look of the monitor in the history comes `timeout` or
/// longer after `last_heartbeat_at`.
pub open spec fn silence_noticed(ops: Seq<Op>, last_heartbeat_at: int, timeout: int) -> bool {
    exists|i: int|
        0 <= i < ops.len() && (#[trigger] ops[i]) is Tick && ops[i]->Tick_now - last_heartbeat_at
            >= timeout
}

/// The history that submits `counts` one after the other.
pub open spec fn count_updates(counts: Seq<nat>) -> Seq<Op> {
    Seq::new(counts.len(), |i: int| Op::PlayerCount { count: counts[i] as int })
}

/// Appending one operation to a history applies it to the record that the
/// history left.
pub proof fn lemma_run_push(r: RecordModel, ops: Seq<Op>, op: Op, timeout: int)
    ensures
        run(r, ops.push(op), timeout) == step(run(r, ops, timeout), op, timeout),
        calls(r, ops.push(op), timeout) == match step_call(run(r, ops, timeout), op) {
            Some(call) => calls(r, ops, timeout).push(call),
            None => calls(r, ops, timeout),
        },
{
    assert(ops.push(op).drop_last() =~= ops);
}

/// A history of one operation.
pub proof fn lemma_run_single(r: RecordModel, op: Op, timeout: int)
    ensures
        run(r, seq![op], timeout) == step(r, op, timeout),
        calls(r, seq![op], timeout) == match step_call(r, op) {
            Some(call) => seq![call],
            None => Seq::<CallModel>::empty(),
        },
{
    assert(seq![op] =~= Seq::<Op>::empty().push(op));
    lemma_run_push(r, Seq::<Op>::empty(), op, timeout);
    match step_call(r, op) {
        Some(call) => {
            assert(Seq::<CallModel>::empty().push(call) =~= seq![call]);
        },
        None => {},
    }
}

/// A history in two parts: the second part runs on the record that the
/// first part left, and its calls follow those of the first.
pub proof fn lemma_run_concat(r: RecordModel, first: Seq<Op>, second: Seq<Op>, timeout: int)
    ensures
        run(r, first + second, timeout) == run(run(r, first, timeout), second, timeout),
        calls(r, first + second, timeout) == calls(r, first, timeout) + calls(
            run(r, first, timeout),
            second,
            timeout,
        ),
    decreases second.len(),
{
    if second.len() == 0 {
        assert(first + second =~= first);
        assert(calls(r, first, timeout) + Seq::<CallModel>::empty() =~= calls(r, first, timeout));
    } else {
        let init = second.drop_last();
        assert((first + second).drop_last() =~= first + init);
        assert((first + second).last() == second.last());
        lemma_run_concat(r, first, init, timeout);
        let mid = run(r, first, timeout);
        match step_call(run(mid, init, timeout), second.last()) {
            Some(call) => {
                assert((calls(r, first, timeout) + calls(mid, init, timeout)).push(call)
                    =~= calls(r, first, timeout) + calls(mid, init, timeout).push(call));
            },
            None => {},
        }
    }
}

} // verus!
