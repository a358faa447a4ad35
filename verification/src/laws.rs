use vstd::prelude::*;
use crate::ids::{AccountId, Uint256, WalletId};
use crate::wallet::WalletState;
use crate::txlog::PendingAction;
use crate::engine::{
    begin_transition, cancel_transition, continue_transition, create_transition,
    finish_transition, EscrowError, EscrowEvent, EscrowModel, Step, TransferRequest,
};

verus! {

/// Wallet ids issued by repeated creations are strictly increasing and
/// unique: a successful creation issues the id equal to the number of
/// wallets already stored, so each new id exceeds every id issued before
/// it, and two consecutive creations issue ids in strictly increasing
/// order.
pub proof fn lemma_create_ids_strictly_increase(
    s0: EscrowModel,
    s1: EscrowModel,
    s2: EscrowModel,
    caller1: AccountId,
    buyer1: AccountId,
    seller1: AccountId,
    amount1: u128,
    caller2: AccountId,
    buyer2: AccountId,
    seller2: AccountId,
    amount2: u128,
    id1: WalletId,
    id2: WalletId,
)
    requires
        s0.wf(),
        s0.wallets.len() < Uint256::max_value(),
        s1.wallets.len() < Uint256::max_value(),
        create_transition(
            s0,
            s1,
            caller1,
            buyer1,
            seller1,
            amount1,
            Ok(EscrowEvent::Created(id1)),
        ),
        create_transition(
            s1,
            s2,
            caller2,
            buyer2,
            seller2,
            amount2,
            Ok(EscrowEvent::Created(id2)),
        ),
    ensures
        id1.value() < id2.value(),
        id1.value() == s0.wallets.len(),
        id2.value() == s1.wallets.len(),
{
    s0.next_wallet.lemma_succ_value();
    s1.next_wallet.lemma_succ_value();
}

/// A closed wallet is terminal for fund movement: any further deposit,
/// confirm or refund on it is rejected and leaves the engine unchanged.
pub proof fn lemma_closed_wallet_rejects_transfers(
    pre: EscrowModel,
    post: EscrowModel,
    caller: AccountId,
    a: PendingAction,
    r: Result<TransferRequest, EscrowError>,
)
    requires
        pre.has_wallet(a.wallet_id()),
        pre.wallet_at(a.wallet_id()).state == WalletState::Closed,
        begin_transition(pre, post, caller, a, r),
    ensures
        r is Err,
        post =~= pre,
{
}

/// A closed wallet is terminal for cancellation too: a further cancel on it
/// is rejected and leaves the engine unchanged.
pub proof fn lemma_closed_wallet_rejects_cancel(
    pre: EscrowModel,
    post: EscrowModel,
    caller: AccountId,
    wid: WalletId,
    r: Result<EscrowEvent, EscrowError>,
)
    requires
        pre.has_wallet(wid),
        pre.wallet_at(wid).state == WalletState::Closed,
        cancel_transition(pre, post, caller, wid, r),
    ensures
        r is Err,
        post =~= pre,
{
}

/// Resuming a pending transaction re-issues the identical transfer: when a
/// fund-moving request dispatched a transfer and the ledger's reply was
/// never settled, `Continue` under that transaction id hands back the very
/// same request, field for field, and mutates nothing.  Safety of the
/// replay then rests on the ledger treating the transaction id
/// idempotently.
pub proof fn lemma_continue_reissues_identical_request(
    pre: EscrowModel,
    mid: EscrowModel,
    post: EscrowModel,
    caller: AccountId,
    a: PendingAction,
    req: TransferRequest,
    r: Result<Step, EscrowError>,
)
    requires
        begin_transition(pre, mid, caller, a, Ok(req)),
        continue_transition(mid, post, req.tx_id, r),
    ensures
        r == Ok::<Step, EscrowError>(Step::Transfer(req)),
        post =~= mid,
{
    assert(req.tx_id == pre.next_tx);
    assert(mid.records.contains_key(pre.next_tx));
    assert(mid.records[pre.next_tx] == a);
    assert(mid.wallets =~= pre.wallets);
    assert(mid.request_for(req.tx_id, a) == pre.request_for(pre.next_tx, a));
}

/// A wallet's parties and agreed amount never change after creation:
/// settling a ledger reply rewrites at most one wallet's lifecycle state
/// and keeps every wallet's buyer, seller and amount as they were.
pub proof fn lemma_settlement_keeps_wallet_identity(
    pre: EscrowModel,
    post: EscrowModel,
    call_id: u64,
    ok: bool,
    r: Result<EscrowEvent, EscrowError>,
)
    requires
        finish_transition(pre, post, call_id, ok, r),
    ensures
        post.wallets.len() == pre.wallets.len(),
        forall|j: int|
            0 <= j < pre.wallets.len() ==> {
                &&& (#[trigger] post.wallets[j]).buyer == pre.wallets[j].buyer
                &&& post.wallets[j].seller == pre.wallets[j].seller
                &&& post.wallets[j].amount == pre.wallets[j].amount
            },
{
}

/// Cancellation keeps wallet identity too: it closes one wallet and keeps
/// every wallet's buyer, seller and amount as they were.
pub proof fn lemma_cancel_keeps_wallet_identity(
    pre: EscrowModel,
    post: EscrowModel,
    caller: AccountId,
    wid: WalletId,
    r: Result<EscrowEvent, EscrowError>,
)
    requires
        cancel_transition(pre, post, caller, wid, r),
    ensures
        post.wallets.len() == pre.wallets.len(),
        forall|j: int|
            0 <= j < pre.wallets.len() ==> {
                &&& (#[trigger] post.wallets[j]).buyer == pre.wallets[j].buyer
                &&& post.wallets[j].seller == pre.wallets[j].seller
                &&& post.wallets[j].amount == pre.wallets[j].amount
            },
{
}

} // verus!
