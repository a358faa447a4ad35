use vstd::prelude::*;
use std::collections::HashMap;
use crate::ids::{TxId, WalletId};

verus! {

broadcast use vstd::std_specs::hash::group_hash_axioms;

/// A fund-moving action outstanding under a transaction id, resumable by
/// `Continue`.
#[derive(Clone, Copy, PartialEq, Eq, Structural, Debug)]
pub enum PendingAction {
    /// Move the agreed amount from the buyer into escrow.
    Deposit(WalletId),
    /// Release the escrowed amount to the seller.
    Confirm(WalletId),
    /// Return the escrowed amount to the buyer.
    Refund(WalletId),
}

impl PendingAction {
    /// The wallet the action operates on.
    pub open spec fn wallet_id(self) -> WalletId {
        match self {
            PendingAction::Deposit(id) => id,
            PendingAction::Confirm(id) => id,
            PendingAction::Refund(id) => id,
        }
    }
}

/// The table of in-flight transactions: each pending record maps a
/// transaction id to the escrow action it represents.  A record is removed
/// once the transaction is settled, by success or definitive failure.
pub struct TransactionLog {
    pub records: HashMap<TxId, PendingAction>,
    pub nonce: TxId,
}

impl TransactionLog {
    /// An empty log.
    pub fn new() -> (r: Self)
        ensures
            r.records@ == Map::<TxId, PendingAction>::empty(),
            r.nonce == 0,
    {
        TransactionLog { records: HashMap::new(), nonce: 0 }
    }

    /// Opens a transaction: an explicit id (a resumption) is reused as it
    /// stands, otherwise the next sequential id is allocated.  The action is
    /// stored as the pending record under that id.
    pub fn begin(&mut self, explicit_id: Option<TxId>, action: PendingAction) -> (r: TxId)
        ensures
            final(self).records@ == old(self).records@.insert(r, action),
            match explicit_id {
                Some(id) => r == id && final(self).nonce == old(self).nonce,
                None => r == old(self).nonce && final(self).nonce == (old(self).nonce + 1) % (
                0x1_0000_0000_0000_0000int),
            },
    {
        let id = match explicit_id {
            Some(id) => id,
            None => {
                let id = self.nonce;
                self.nonce = self.nonce.wrapping_add(1);
                id
            },
        };
        self.records.insert(id, action);
        id
    }

    /// Settles a transaction: its pending record, if any, is removed.
    pub fn complete(&mut self, id: TxId)
        ensures
            final(self).records@ == old(self).records@.remove(id),
            final(self).nonce == old(self).nonce,
    {
        self.records.remove(&id);
    }

    /// The pending record under an id, if the transaction is still open.
    pub fn lookup(&self, id: TxId) -> (r: Option<PendingAction>)
        ensures
            self.records@.contains_key(id) ==> r == Some(self.records@[id]),
            !self.records@.contains_key(id) ==> r == None::<PendingAction>,
    {
        match self.records.get(&id) {
            Some(action) => Some(*action),
            None => None,
        }
    }
}

} // verus!
