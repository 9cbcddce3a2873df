//! What the synchronizer guarantees, proved of every history.

use vstd::prelude::*;
use crate::count::{is_digit, parse_count, unsigned_part, PLUS};
use crate::history::{
    calls, count_updates, lemma_run_concat, lemma_run_push, lemma_run_single, no_passes,
    offline_calls, only_heartbeats_and_passes, only_ticks_and_passes, run, shown, silence_noticed,
    step, step_call, Op,
};
use crate::ingest::{response_to, route, served, wakes};
use crate::record::{
    consistent, evaluate_timeout, heartbeat, pending_call, player_count, projection, timed_out,
    CallModel, LivenessState, RecordModel,
};

verus! {

/// Timeout detection, one look at a time. After a heartbeat at `t0` the
/// monitor leaves the server online at every time before `t0 + timeout`,
/// and from then on its look turns the server offline and marks the
/// record dirty.
pub proof fn lemma_timeout_boundary(r: RecordModel, t0: int, now: int, timeout: int)
    ensures
        heartbeat(r, t0).state == LivenessState::Online,
        now - t0 < timeout ==> evaluate_timeout(heartbeat(r, t0), now, timeout) == heartbeat(r, t0),
        now - t0 >= timeout ==> evaluate_timeout(heartbeat(r, t0), now, timeout) == (RecordModel {
            state: LivenessState::Offline,
            dirty: true,
            ..heartbeat(r, t0)
        }),
{
}

/// Timeout detection over a whole silence. A server is online; then no
/// heartbeat arrives, and only the monitor and the reconciler act, in any
/// order and at any times. The server stays online until a look of the
/// monitor comes `timeout` or longer after the last heartbeat, and is
/// offline from that look on. The sink is told that it is offline exactly
/// once, by the first reconciliation pass after that look, and not before.
/// If the sink was in step with the record at the start, it is told
/// nothing else.
pub proof fn lemma_timeout_detection(r: RecordModel, ops: Seq<Op>, timeout: int)
    requires
        r.state == LivenessState::Online,
        only_ticks_and_passes(ops),
    ensures
        ({
            let end = run(r, ops, timeout);
            let noticed = silence_noticed(ops, r.last_heartbeat_at, timeout);
            let made = calls(r, ops, timeout);
            &&& end == (RecordModel {
                state: if noticed {
                    LivenessState::Offline
                } else {
                    LivenessState::Online
                },
                dirty: end.dirty,
                ..r
            })
            &&& !noticed && end.dirty ==> r.dirty
            &&& offline_calls(made) == if noticed && !end.dirty {
                1nat
            } else {
                0nat
            }
            &&& !r.dirty ==> made == if noticed && !end.dirty {
                seq![CallModel::SetOffline]
            } else {
                Seq::<CallModel>::empty()
            }
        }),
    decreases ops.len(),
{
    if ops.len() > 0 {
        let init = ops.drop_last();
        let last = ops.last();
        let at = r.last_heartbeat_at;
        assert forall|i: int| 0 <= i < init.len() implies (#[trigger] init[i]) is Tick
            || init[i] is Reconcile by {
            assert(init[i] == ops[i]);
        }
        lemma_timeout_detection(r, init, timeout);
        let before = silence_noticed(init, at, timeout);
        let here = last is Tick && last->Tick_now - at >= timeout;
        assert(silence_noticed(ops, at, timeout) == (before || here)) by {
            if before {
                let i = choose|i: int|
                    0 <= i < init.len() && (#[trigger] init[i]) is Tick && init[i]->Tick_now - at
                        >= timeout;
                assert(ops[i] == init[i]);
            }
            if here {
                assert(ops[ops.len() - 1] == last);
            }
            if silence_noticed(ops, at, timeout) {
                let i = choose|i: int|
                    0 <= i < ops.len() && (#[trigger] ops[i]) is Tick && ops[i]->Tick_now - at
                        >= timeout;
                if i < init.len() {
                    assert(init[i] == ops[i]);
                }
            }
        }
        assert(ops[ops.len() - 1] is Tick || ops[ops.len() - 1] is Reconcile);
        let earlier = calls(r, init, timeout);
        match step_call(run(r, init, timeout), last) {
            Some(call) => {
                assert(earlier.push(call).drop_last() =~= earlier);
            },
            None => {},
        }
    }
}

/// Timeout detection from the heartbeat on. Whatever the record was, after
/// a heartbeat at `t0` and no other, the server is online until a look of
/// the monitor comes at `t0 + timeout` or later and offline from that look
/// on, and the sink is told that it is offline exactly once, by the first
/// reconciliation pass after that look.
pub proof fn lemma_silence_after_heartbeat(r: RecordModel, t0: int, ops: Seq<Op>, timeout: int)
    requires
        only_ticks_and_passes(ops),
    ensures
        ({
            let history = seq![Op::Heartbeat { now: t0 }] + ops;
            let end = run(r, history, timeout);
            let noticed = silence_noticed(ops, t0, timeout);
            &&& end.state == if noticed {
                LivenessState::Offline
            } else {
                LivenessState::Online
            }
            &&& offline_calls(calls(r, history, timeout)) == if noticed && !end.dirty {
                1nat
            } else {
                0nat
            }
        }),
{
    let first = seq![Op::Heartbeat { now: t0 }];
    lemma_run_single(r, Op::Heartbeat { now: t0 }, timeout);
    lemma_run_concat(r, first, ops, timeout);
    lemma_timeout_detection(heartbeat(r, t0), ops, timeout);
    assert(Seq::<CallModel>::empty() + calls(heartbeat(r, t0), ops, timeout) =~= calls(
        heartbeat(r, t0),
        ops,
        timeout,
    ));
}

/// Idempotent ingestion. While a server is online, heartbeats refresh the
/// time of the last heartbeat and nothing else: however many arrive, and
/// however the reconciliation passes fall between them, the sink is
/// called only if the record was dirty to begin with, and then once, by
/// the first pass.
pub proof fn lemma_heartbeats_add_no_calls(r: RecordModel, ops: Seq<Op>, timeout: int)
    requires
        r.state == LivenessState::Online,
        only_heartbeats_and_passes(ops),
    ensures
        ({
            let end = run(r, ops, timeout);
            &&& end.state == LivenessState::Online
            &&& end.player_count == r.player_count
            &&& end.dirty ==> r.dirty
            &&& ops.len() > 0 && ops.last() is Reconcile ==> !end.dirty
            &&& calls(r, ops, timeout) == if r.dirty && !end.dirty {
                seq![CallModel::SetOnline(r.player_count)]
            } else {
                Seq::<CallModel>::empty()
            }
        }),
    decreases ops.len(),
{
    if ops.len() > 0 {
        let init = ops.drop_last();
        assert forall|i: int| 0 <= i < init.len() implies (#[trigger] init[i]) is Heartbeat
            || init[i] is Reconcile by {
            assert(init[i] == ops[i]);
        }
        lemma_heartbeats_add_no_calls(r, init, timeout);
        assert(ops[ops.len() - 1] is Heartbeat || ops[ops.len() - 1] is Reconcile);
    }
}

/// Recovery. A heartbeat turns a server that is not online into one that
/// is, at once. Whatever heartbeats and reconciliation passes follow,
/// once a pass has run the sink has been called exactly once, with the
/// player count that the record held.
pub proof fn lemma_recovery(r: RecordModel, now: int, ops: Seq<Op>, timeout: int)
    requires
        r.state != LivenessState::Online,
        only_heartbeats_and_passes(ops),
        ops.len() > 0,
        ops.last() is Reconcile,
    ensures
        heartbeat(r, now).state == LivenessState::Online,
        calls(r, seq![Op::Heartbeat { now }] + ops, timeout) == seq![
            CallModel::SetOnline(r.player_count),
        ],
{
    let first = seq![Op::Heartbeat { now }];
    lemma_run_single(r, Op::Heartbeat { now }, timeout);
    lemma_run_concat(r, first, ops, timeout);
    lemma_heartbeats_add_no_calls(heartbeat(r, now), ops, timeout);
    assert(Seq::<CallModel>::empty() + seq![CallModel::SetOnline(r.player_count)] =~= seq![
        CallModel::SetOnline(r.player_count),
    ]);
}

/// The coalescing guarantee. Whatever is written between two
/// reconciliation passes, and however often, none of it reaches the sink
/// before the next pass, and that pass makes at most one call, which
/// shows the record as the last write left it.
pub proof fn lemma_burst_is_one_call(r: RecordModel, writes: Seq<Op>, timeout: int)
    requires
        no_passes(writes),
    ensures
        calls(r, writes, timeout) == Seq::<CallModel>::empty(),
        calls(r, writes.push(Op::Reconcile), timeout) == match pending_call(
            run(r, writes, timeout),
        ) {
            Some(call) => seq![call],
            None => Seq::<CallModel>::empty(),
        },
        !run(r, writes.push(Op::Reconcile), timeout).dirty,
    decreases writes.len(),
{
    if writes.len() > 0 {
        let init = writes.drop_last();
        assert forall|i: int| 0 <= i < init.len() implies !((#[trigger] init[i]) is Reconcile) by {
            assert(init[i] == writes[i]);
        }
        lemma_burst_is_one_call(r, init, timeout);
        assert(!(writes[writes.len() - 1] is Reconcile));
    }
    lemma_run_push(r, writes, Op::Reconcile, timeout);
    match pending_call(run(r, writes, timeout)) {
        Some(call) => {
            assert(Seq::<CallModel>::empty().push(call) =~= seq![call]);
        },
        None => {},
    }
}

/// The record after a run of player counts: the last one is stored, and
/// the record is dirty if it was, or if the server is online.
pub proof fn lemma_count_updates(r: RecordModel, counts: Seq<nat>, timeout: int)
    requires
        counts.len() > 0,
    ensures
        no_passes(count_updates(counts)),
        run(r, count_updates(counts), timeout) == (RecordModel {
            player_count: counts.last(),
            dirty: r.dirty || r.state == LivenessState::Online,
            ..r
        }),
    decreases counts.len(),
{
    let ops = count_updates(counts);
    assert(ops.drop_last() =~= count_updates(counts.drop_last()));
    assert(ops.last() == Op::PlayerCount { count: counts.last() as int });
    if counts.len() > 1 {
        lemma_count_updates(r, counts.drop_last(), timeout);
    } else {
        assert(ops.drop_last() =~= Seq::<Op>::empty());
    }
}

/// Coalescing of player counts. While a server is online, any number of
/// player counts submitted before the next reconciliation pass lead to
/// exactly one call on the sink, which carries the last of them.
pub proof fn lemma_coalescing(r: RecordModel, counts: Seq<nat>, timeout: int)
    requires
        r.state == LivenessState::Online,
        counts.len() > 0,
    ensures
        calls(r, count_updates(counts).push(Op::Reconcile), timeout) == seq![
            CallModel::SetOnline(counts.last()),
        ],
{
    lemma_count_updates(r, counts, timeout);
    lemma_burst_is_one_call(r, count_updates(counts), timeout);
}

/// While a server is not online and no heartbeat arrives, it stays as it
/// is, its player count included, and the sink is told nothing but that
/// it is offline.
pub proof fn lemma_offline_stays_offline(r: RecordModel, ops: Seq<Op>, timeout: int)
    requires
        r.state != LivenessState::Online,
        only_ticks_and_passes(ops),
    ensures
        run(r, ops, timeout).state == r.state,
        run(r, ops, timeout).player_count == r.player_count,
        forall|i: int|
            0 <= i < calls(r, ops, timeout).len() ==> #[trigger] calls(r, ops, timeout)[i]
                == CallModel::SetOffline,
    decreases ops.len(),
{
    if ops.len() > 0 {
        let init = ops.drop_last();
        assert forall|i: int| 0 <= i < init.len() implies (#[trigger] init[i]) is Tick
            || init[i] is Reconcile by {
            assert(init[i] == ops[i]);
        }
        lemma_offline_stays_offline(r, init, timeout);
        assert(ops[ops.len() - 1] is Tick || ops[ops.len() - 1] is Reconcile);
    }
}

/// Deferred application. A player count that arrives while the server is
/// not online is stored without a word to the sink: as long as no
/// heartbeat arrives, every call on the sink says offline. The heartbeat
/// that brings the server back is followed by a call that carries the
/// stored count.
pub proof fn lemma_deferred_application(
    r: RecordModel,
    n: nat,
    idle: Seq<Op>,
    now: int,
    timeout: int,
)
    requires
        r.state != LivenessState::Online,
        only_ticks_and_passes(idle),
    ensures
        ({
            let waiting = seq![Op::PlayerCount { count: n as int }] + idle;
            let back = seq![Op::Heartbeat { now }, Op::Reconcile];
            &&& player_count(r, n).dirty == r.dirty
            &&& forall|i: int|
                0 <= i < calls(r, waiting, timeout).len() ==> #[trigger] calls(
                    r,
                    waiting,
                    timeout,
                )[i] == CallModel::SetOffline
            &&& calls(r, waiting + back, timeout) == calls(r, waiting, timeout).push(
                CallModel::SetOnline(n),
            )
        }),
{
    let first = seq![Op::PlayerCount { count: n as int }];
    let waiting = first + idle;
    let back = seq![Op::Heartbeat { now }, Op::Reconcile];
    lemma_run_single(r, Op::PlayerCount { count: n as int }, timeout);
    lemma_run_concat(r, first, idle, timeout);
    lemma_offline_stays_offline(player_count(r, n), idle, timeout);
    assert(calls(r, waiting, timeout) =~= calls(player_count(r, n), idle, timeout));
    let stored = run(r, waiting, timeout);
    lemma_run_concat(r, waiting, back, timeout);
    assert(back =~= seq![Op::Heartbeat { now }].push(Op::Reconcile));
    lemma_run_single(stored, Op::Heartbeat { now }, timeout);
    lemma_run_push(stored, seq![Op::Heartbeat { now }], Op::Reconcile, timeout);
    assert(calls(stored, back, timeout) =~= seq![CallModel::SetOnline(n)]);
    assert(calls(r, waiting, timeout) + seq![CallModel::SetOnline(n)] =~= calls(
        r,
        waiting,
        timeout,
    ).push(CallModel::SetOnline(n)));
}

/// Invalid input. A request that is refused, for its path or for its
/// count, leaves the record as it was, wakes nobody and is answered with
/// an error.
pub proof fn lemma_refused_request_changes_nothing(r: RecordModel, path: Seq<u8>, now: int)
    requires
        route(path) is Err,
    ensures
        served(r, route(path), now) == r,
        !wakes(r, route(path)),
        !response_to(route(path)).spec_is_success(),
{
}

/// Text that writes a player count begins with a digit or a `+` and holds
/// only digits after that, and the count is not negative. So a minus sign
/// or a letter anywhere makes the text no count.
pub proof fn lemma_count_needs_digits(text: Seq<u8>)
    requires
        parse_count(text) is Some,
    ensures
        text.len() > 0,
        is_digit(text[0]) || text[0] == PLUS,
        forall|i: int| 1 <= i < text.len() ==> is_digit(#[trigger] text[i]),
        parse_count(text)->Some_0 >= 0,
{
    let digits = unsigned_part(text);
    if text[0] == PLUS {
        assert forall|i: int| 1 <= i < text.len() implies is_digit(#[trigger] text[i]) by {
            assert(digits[i - 1] == text[i]);
        }
    } else {
        assert(is_digit(digits[0]));
    }
}

/// Every operation keeps a consistent record consistent, so every history
/// does: whatever order the store serves its callers in, the record it
/// holds is one that the operations can make.
pub proof fn lemma_history_keeps_consistent(r: RecordModel, ops: Seq<Op>, timeout: int)
    requires
        consistent(r),
    ensures
        consistent(run(r, ops, timeout)),
    decreases ops.len(),
{
    if ops.len() > 0 {
        lemma_history_keeps_consistent(r, ops.drop_last(), timeout);
    }
}

/// No change is missed. An operation that changes what the sink should
/// show leaves the record dirty.
pub proof fn lemma_change_marks_dirty(r: RecordModel, op: Op, timeout: int)
    requires
        !(op is Reconcile),
        projection(step(r, op, timeout)) != projection(r),
    ensures
        step(r, op, timeout).dirty,
{
}

/// A clean record is what the sink shows. If at the start the record is
/// dirty or the sink shows it, then after any history a clean record is
/// what the sink was last told, or what it showed at the start if it was
/// told nothing.
pub proof fn lemma_clean_record_is_shown(
    r: RecordModel,
    before: CallModel,
    ops: Seq<Op>,
    timeout: int,
)
    requires
        !r.dirty ==> projection(r) == before,
    ensures
        !run(r, ops, timeout).dirty ==> projection(run(r, ops, timeout)) == shown(
            before,
            calls(r, ops, timeout),
        ),
    decreases ops.len(),
{
    if ops.len() > 0 {
        lemma_clean_record_is_shown(r, before, ops.drop_last(), timeout);
    }
}

/// Detection latency. If the monitor looks at least once every `period`,
/// the look that finds the server silent comes less than `period` after
/// the silence reached `timeout`.
pub proof fn lemma_detection_latency(
    r: RecordModel,
    previous: int,
    now: int,
    timeout: int,
    period: int,
)
    requires
        !timed_out(r, previous, timeout),
        timed_out(r, now, timeout),
        now - previous <= period,
    ensures
        timeout <= now - r.last_heartbeat_at < timeout + period,
{
}

} // verus!
