use vstd::prelude::*;
use std::collections::HashMap;
use crate::ids::TxId;

verus! {

broadcast use vstd::std_specs::hash::group_hash_axioms;

/// Reconciliation state of one outstanding external ledger call.
#[derive(Clone, Copy, PartialEq, Eq, Structural, Debug)]
pub enum ReconciliationState {
    /// The call is outstanding or settled normally.
    Normal,
    /// The call settled in failure.
    Panicked,
    /// The call was interrupted while suspended and should be rerun.
    NeedsRerun,
}

/// What the tracker holds for one external call: its reconciliation state
/// and the transaction the call belongs to.
#[derive(Clone, Copy, PartialEq, Eq, Structural, Debug)]
pub struct InterruptRecord {
    pub state: ReconciliationState,
    pub tx_id: TxId,
}

/// Bookkeeping for transfers that may be interrupted while suspended on the
/// ledger call: external call ids mapped to reconciliation records.  Entries
/// are never removed; they are the trail the interrupt hook reconciles
/// against.
pub struct InterruptTracker {
    pub entries: HashMap<u64, InterruptRecord>,
}

impl InterruptTracker {
    /// An empty tracker.
    pub fn new() -> (r: Self)
        ensures
            r.entries@ == Map::<u64, InterruptRecord>::empty(),
    {
        InterruptTracker { entries: HashMap::new() }
    }

    /// Records a freshly dispatched ledger call, in state `Normal`, before
    /// the caller suspends on its reply.
    pub fn record_dispatch(&mut self, call_id: u64, tx_id: TxId)
        ensures
            final(self).entries@ == old(self).entries@.insert(
                call_id,
                (InterruptRecord { state: ReconciliationState::Normal, tx_id }),
            ),
    {
        self.entries.insert(call_id, InterruptRecord { state: ReconciliationState::Normal, tx_id });
    }

    /// Rewrites the reconciliation state of a tracked call; a call that was
    /// never tracked is left alone.
    pub fn mark(&mut self, call_id: u64, state: ReconciliationState) -> (r: bool)
        ensures
            old(self).entries@.contains_key(call_id) ==> r && final(self).entries@ == old(
                self,
            ).entries@.insert(
                call_id,
                (InterruptRecord { state, tx_id: old(self).entries@[call_id].tx_id }),
            ),
            !old(self).entries@.contains_key(call_id) ==> !r && final(self).entries@ == old(
                self,
            ).entries@,
    {
        let entry = match self.entries.get(&call_id) {
            Some(e) => *e,
            None => {
                return false;
            },
        };
        self.entries.insert(call_id, InterruptRecord { state, tx_id: entry.tx_id });
        true
    }

    /// The record tracked for a call id, if any.
    pub fn get(&self, call_id: u64) -> (r: Option<InterruptRecord>)
        ensures
            self.entries@.contains_key(call_id) ==> r == Some(self.entries@[call_id]),
            !self.entries@.contains_key(call_id) ==> r == None::<InterruptRecord>,
    {
        match self.entries.get(&call_id) {
            Some(e) => Some(*e),
            None => None,
        }
    }
}

} // verus!
