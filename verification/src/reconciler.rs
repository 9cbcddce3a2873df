//! The reconciler's decision: what to tell the sink after a wake-up.
//!
//! A pass takes one snapshot, which clears the dirty flag, and turns it
//! into at most one call. The caller makes the call after it has let go
//! of the store, and a failed call is not repeated: the next change to
//! the record brings the next pass.

use vstd::prelude::*;
use crate::record::{cleared, pending_call, CallModel, SinkCall};
use crate::store::StateStore;

verus! {

/// The model of the result of a pass.
pub open spec fn call_view(call: Option<SinkCall>) -> Option<CallModel> {
    match call {
        Some(c) => Some(c@),
        None => None,
    }
}

/// One reconciliation pass. If the record is dirty the result is the call
/// that shows its latest state, however many changes made it dirty. If it
/// is clean there is nothing to tell. Either way the record is clean
/// afterwards.
pub fn reconcile(store: &mut StateStore) -> (call: Option<SinkCall>)
    ensures
        call_view(call) == pending_call(old(store)@),
        final(store)@ == cleared(old(store)@),
{
    let snap = store.snapshot();
    if snap.dirty {
        Some(snap.sink_call())
    } else {
        None
    }
}

} // verus!
