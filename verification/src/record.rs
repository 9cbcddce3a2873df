//! The presence record, the calls made on the presence sink, and their
//! mathematical models.

use vstd::prelude::*;

verus! {

/// Whether the monitored server is believed to be reachable.
#[derive(Clone, Copy, Debug, PartialEq, Eq, Structural)]
pub enum LivenessState {
    /// No heartbeat has ever been seen.
    Unknown,
    /// The last heartbeat is younger than the timeout.
    Online,
    /// Contact was lost after at least one heartbeat.
    Offline,
}

/// A call on the presence sink.
#[derive(Clone, Copy, Debug, PartialEq, Eq, Structural)]
pub enum SinkCall {
    /// Show the server as offline.
    SetOffline,
    /// Show the server as online with this many players.
    SetOnline(u64),
}

/// The model of a [`SinkCall`].
pub ghost enum CallModel {
    SetOffline,
    SetOnline(nat),
}

impl View for SinkCall {
    type V = CallModel;

    open spec fn view(&self) -> CallModel {
        match *self {
            SinkCall::SetOffline => CallModel::SetOffline,
            SinkCall::SetOnline(n) => CallModel::SetOnline(n as nat),
        }
    }
}

/// The authoritative snapshot: when the server was last heard of, what is
/// believed of it, and whether the sink has yet to be told.
#[derive(Clone, Copy, Debug, PartialEq, Eq, Structural)]
pub struct PresenceRecord {
    /// Time of the latest heartbeat, in seconds.
    pub last_heartbeat_at: i64,
    pub state: LivenessState,
    /// The latest player count received, applied to the sink only while
    /// `state` is `Online`.
    pub player_count: u64,
    /// True if state or player count changed since the sink was last told.
    pub dirty: bool,
}

/// The model of a [`PresenceRecord`], over unbounded integers.
pub ghost struct RecordModel {
    pub last_heartbeat_at: int,
    pub state: LivenessState,
    pub player_count: nat,
    pub dirty: bool,
}

impl View for PresenceRecord {
    type V = RecordModel;

    open spec fn view(&self) -> RecordModel {
        RecordModel {
            last_heartbeat_at: self.last_heartbeat_at as int,
            state: self.state,
            player_count: self.player_count as nat,
            dirty: self.dirty,
        }
    }
}

/// The record a process starts with: never contacted, no players, nothing
/// to tell the sink.
pub open spec fn initial() -> RecordModel {
    RecordModel { last_heartbeat_at: 0, state: LivenessState::Unknown, player_count: 0, dirty: false }
}

/// The record after a heartbeat received at `now`. The time is always
/// refreshed; only a record that was not `Online` changes state and
/// becomes dirty.
pub open spec fn heartbeat(r: RecordModel, now: int) -> RecordModel {
    RecordModel {
        last_heartbeat_at: now,
        state: LivenessState::Online,
        dirty: r.dirty || r.state != LivenessState::Online,
        ..r
    }
}

/// The record after the player count `n >= 0` was received. The count is
/// always stored; the record becomes dirty only while `Online`.
pub open spec fn player_count(r: RecordModel, n: nat) -> RecordModel {
    RecordModel { player_count: n, dirty: r.dirty || r.state == LivenessState::Online, ..r }
}

/// True if at `now` an `Online` record has been silent for `timeout` or
/// longer.
pub open spec fn timed_out(r: RecordModel, now: int, timeout: int) -> bool {
    r.state == LivenessState::Online && now - r.last_heartbeat_at >= timeout
}

/// The record after the monitor looked at it at `now`.
pub open spec fn evaluate_timeout(r: RecordModel, now: int, timeout: int) -> RecordModel {
    if timed_out(r, now, timeout) {
        RecordModel { state: LivenessState::Offline, dirty: true, ..r }
    } else {
        r
    }
}

/// The record after a snapshot was taken of it.
pub open spec fn cleared(r: RecordModel) -> RecordModel {
    RecordModel { dirty: false, ..r }
}

/// What the sink should show for a record: the player count while
/// `Online`, offline otherwise.
pub open spec fn projection(r: RecordModel) -> CallModel {
    if r.state == LivenessState::Online {
        CallModel::SetOnline(r.player_count)
    } else {
        CallModel::SetOffline
    }
}

/// The call a reconciliation pass makes on finding `r`: none if the record
/// is clean.
pub open spec fn pending_call(r: RecordModel) -> Option<CallModel> {
    if r.dirty {
        Some(projection(r))
    } else {
        None
    }
}

/// A record that a store can hold: until the first heartbeat nothing is
/// owed to the sink and the heartbeat time is still zero.
pub open spec fn consistent(r: RecordModel) -> bool {
    r.state == LivenessState::Unknown ==> !r.dirty && r.last_heartbeat_at == 0
}

impl PresenceRecord {
    /// The call that shows this record on the sink.
    pub fn sink_call(&self) -> (call: SinkCall)
        ensures
            call@ == projection(self@),
    {
        match self.state {
            LivenessState::Online => SinkCall::SetOnline(self.player_count),
            _ => SinkCall::SetOffline,
        }
    }
}

} // verus!
