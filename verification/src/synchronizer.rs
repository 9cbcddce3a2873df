//! The synchronizer: a clock, the state store and the timeout, as the one
//! value that a process guards.
//!
//! Each operation that needs the time comes in two forms. The form whose
//! name ends in `_at` takes a reading of the clock as an argument. The
//! other form reads the system's clock itself and then does the same.

use vstd::prelude::*;
use crate::clock::{later, Clock};
use crate::ingest::{parse_request, response_to, route, serve, served, wakes, Response};
use crate::reconciler::{call_view, reconcile};
use crate::record::{
    cleared, consistent, evaluate_timeout, initial, pending_call, timed_out, PresenceRecord,
    RecordModel, SinkCall,
};
use crate::store::StateStore;

verus! {

/// The silence, in seconds, after which a server counts as offline,
/// unless another timeout is chosen.
pub const DEFAULT_TIMEOUT: u64 = 10;

/// The period, in seconds, at which the monitor should look at the store.
pub const DEFAULT_TICK_PERIOD: u64 = 1;

/// The model of a [`Synchronizer`].
pub ghost struct SynchronizerModel {
    /// The latest time that the clock has handed out.
    pub clock: int,
    pub record: RecordModel,
    pub timeout: int,
}

/// A clock, the state store and the timeout.
pub struct Synchronizer {
    clock: Clock,
    store: StateStore,
    timeout: u64,
}

impl View for Synchronizer {
    type V = SynchronizerModel;

    closed spec fn view(&self) -> SynchronizerModel {
        SynchronizerModel {
            clock: self.clock@,
            record: self.store@,
            timeout: self.timeout as int,
        }
    }
}

impl Synchronizer {
    /// A synchronizer for a server that was never heard of.
    pub fn new(timeout: u64) -> (sync: Synchronizer)
        ensures
            sync@.record == initial(),
            sync@.timeout == timeout,
            sync@.clock == i64::MIN,
    {
        Synchronizer { clock: Clock::new(), store: StateStore::new(), timeout }
    }

    /// Serves the request at `path`, given a reading of the clock. Returns
    /// the response for the sender and whether the reconciler must be
    /// woken.
    pub fn handle_at(&mut self, path: &[u8], reading: i64) -> (reply: (Response, bool))
        ensures
            final(self)@.clock == later(old(self)@.clock, reading as int),
            final(self)@.record == served(old(self)@.record, route(path@), final(self)@.clock),
            final(self)@.timeout == old(self)@.timeout,
            reply.0 == response_to(route(path@)),
            reply.1 == wakes(old(self)@.record, route(path@)),
    {
        let request = parse_request(path);
        let now: i64 = self.clock.observe(reading);
        serve(&mut self.store, request, now)
    }

    /// Serves the request at `path` at the time that the system's clock
    /// gives, which never lies before a time used earlier.
    pub fn handle(&mut self, path: &[u8]) -> (reply: (Response, bool))
        ensures
            final(self)@.clock >= old(self)@.clock,
            final(self)@.record == served(old(self)@.record, route(path@), final(self)@.clock),
            final(self)@.timeout == old(self)@.timeout,
            reply.0 == response_to(route(path@)),
            reply.1 == wakes(old(self)@.record, route(path@)),
    {
        let request = parse_request(path);
        let now: i64 = self.clock.now();
        serve(&mut self.store, request, now)
    }

    /// One look of the monitor at the store, given a reading of the
    /// clock. Returns true if the server went offline, which is when the
    /// reconciler must be woken.
    pub fn tick_at(&mut self, reading: i64) -> (wake: bool)
        ensures
            final(self)@.clock == later(old(self)@.clock, reading as int),
            final(self)@.record == evaluate_timeout(
                old(self)@.record,
                final(self)@.clock,
                old(self)@.timeout,
            ),
            final(self)@.timeout == old(self)@.timeout,
            wake == timed_out(old(self)@.record, final(self)@.clock, old(self)@.timeout),
    {
        let now: i64 = self.clock.observe(reading);
        self.store.evaluate_timeout(now, self.timeout)
    }

    /// One look of the monitor at the store at the time that the system's
    /// clock gives, which never lies before a time used earlier.
    pub fn tick(&mut self) -> (wake: bool)
        ensures
            final(self)@.clock >= old(self)@.clock,
            final(self)@.record == evaluate_timeout(
                old(self)@.record,
                final(self)@.clock,
                old(self)@.timeout,
            ),
            final(self)@.timeout == old(self)@.timeout,
            wake == timed_out(old(self)@.record, final(self)@.clock, old(self)@.timeout),
    {
        let now: i64 = self.clock.now();
        self.store.evaluate_timeout(now, self.timeout)
    }

    /// One reconciliation pass: the call to make on the sink, if any. The
    /// record is clean afterwards.
    pub fn reconcile(&mut self) -> (call: Option<SinkCall>)
        ensures
            call_view(call) == pending_call(old(self)@.record),
            final(self)@ == (SynchronizerModel {
                record: cleared(old(self)@.record),
                ..old(self)@
            }),
    {
        reconcile(&mut self.store)
    }

    /// True if the sink has yet to be told of a change: the condition on
    /// which the reconciler wakes.
    pub fn is_dirty(&self) -> (dirty: bool)
        ensures
            dirty == self@.record.dirty,
    {
        self.store.is_dirty()
    }

    /// A copy of the record, which is left as it is.
    pub fn record(&self) -> (snap: PresenceRecord)
        ensures
            snap@ == self@.record,
            consistent(snap@),
    {
        self.store.peek()
    }

    /// The timeout in seconds.
    pub fn timeout(&self) -> (timeout: u64)
        ensures
            timeout == self@.timeout,
    {
        self.timeout
    }
}

} // verus!
