//! The state store: sole owner of the presence record.
//!
//! Every operation takes the store by exclusive reference, so the
//! operations are serialised by construction, and none of them waits on
//! anything outside the store.

use vstd::prelude::*;
use crate::error::IngestError;
use crate::record::{
    cleared, consistent, evaluate_timeout, heartbeat, initial, player_count, timed_out,
    LivenessState, PresenceRecord, RecordModel,
};

verus! {

/// The single guarded record of a process.
pub struct StateStore {
    record: PresenceRecord,
}

impl View for StateStore {
    type V = RecordModel;

    closed spec fn view(&self) -> RecordModel {
        self.record@
    }
}

impl StateStore {
    #[verifier::type_invariant]
    spec fn well_formed(self) -> bool {
        consistent(self.record@)
    }

    /// A store for a server that was never heard of.
    pub fn new() -> (store: StateStore)
        ensures
            store@ == initial(),
    {
        StateStore {
            record: PresenceRecord {
                last_heartbeat_at: 0,
                state: LivenessState::Unknown,
                player_count: 0,
                dirty: false,
            },
        }
    }

    /// Records a heartbeat received at `now`. Returns true if the
    /// reconciler must be woken, which is when the server was not `Online`
    /// before.
    pub fn record_heartbeat(&mut self, now: i64) -> (wake: bool)
        ensures
            final(self)@ == heartbeat(old(self)@, now as int),
            wake == (old(self)@.state != LivenessState::Online),
    {
        let wake = match self.record.state {
            LivenessState::Online => false,
            _ => true,
        };
        let dirty = self.record.dirty || wake;
        self.record = PresenceRecord {
            last_heartbeat_at: now,
            state: LivenessState::Online,
            player_count: self.record.player_count,
            dirty,
        };
        wake
    }

    /// Records the player count `n`. A negative count is refused and
    /// changes nothing. Otherwise the count is stored, and the result says
    /// whether the reconciler must be woken, which is while `Online`.
    pub fn record_player_count(&mut self, n: i64) -> (res: Result<bool, IngestError>)
        ensures
            n < 0 ==> res == Err::<bool, IngestError>(IngestError::InvalidCount) && final(self)@
                == old(self)@,
            n >= 0 ==> res == Ok::<bool, IngestError>(
                old(self)@.state == LivenessState::Online,
            ) && final(self)@ == player_count(old(self)@, n as nat),
    {
        if n < 0 {
            return Err(IngestError::InvalidCount);
        }
        proof {
            use_type_invariant(&*self);
        }
        let wake = match self.record.state {
            LivenessState::Online => true,
            _ => false,
        };
        let dirty = self.record.dirty || wake;
        self.record = PresenceRecord {
            last_heartbeat_at: self.record.last_heartbeat_at,
            state: self.record.state,
            player_count: n as u64,
            dirty,
        };
        Ok(wake)
    }

    /// Looks at the record at `now`: an `Online` server silent for
    /// `timeout` or longer goes `Offline`. Returns true if it did, which
    /// is when the reconciler must be woken.
    pub fn evaluate_timeout(&mut self, now: i64, timeout: u64) -> (wake: bool)
        ensures
            final(self)@ == evaluate_timeout(old(self)@, now as int, timeout as int),
            wake == timed_out(old(self)@, now as int, timeout as int),
    {
        let online = match self.record.state {
            LivenessState::Online => true,
            _ => false,
        };
        let silent: i128 = now as i128 - self.record.last_heartbeat_at as i128;
        if online && silent >= timeout as i128 {
            self.record = PresenceRecord {
                last_heartbeat_at: self.record.last_heartbeat_at,
                state: LivenessState::Offline,
                player_count: self.record.player_count,
                dirty: true,
            };
            true
        } else {
            false
        }
    }

    /// Hands out a copy of the record and clears the dirty flag in the
    /// same step. The copy still carries the flag as it was.
    pub fn snapshot(&mut self) -> (snap: PresenceRecord)
        ensures
            snap@ == old(self)@,
            final(self)@ == cleared(old(self)@),
            consistent(snap@),
    {
        proof {
            use_type_invariant(&*self);
        }
        let snap = self.record;
        self.record = PresenceRecord {
            last_heartbeat_at: snap.last_heartbeat_at,
            state: snap.state,
            player_count: snap.player_count,
            dirty: false,
        };
        snap
    }

    /// A copy of the record, which is left as it is. Every store holds a
    /// consistent record.
    pub fn peek(&self) -> (snap: PresenceRecord)
        ensures
            snap@ == self@,
            consistent(snap@),
    {
        proof {
            use_type_invariant(self);
        }
        self.record
    }

    /// True if the sink has yet to be told of a change.
    pub fn is_dirty(&self) -> (dirty: bool)
        ensures
            dirty == self@.dirty,
    {
        self.record.dirty
    }
}

} // verus!
