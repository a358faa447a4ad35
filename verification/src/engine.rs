use vstd::prelude::*;
use crate::ids::{AccountId, TxId, Uint256, WalletId};
use crate::wallet::{Wallet, WalletState, WalletStore};
use crate::txlog::{PendingAction, TransactionLog};
use crate::interrupts::{InterruptRecord, InterruptTracker, ReconciliationState};

verus! {

/// Execution resource set aside for the interrupt hook before every
/// suspension on the ledger call.
pub const SIGNAL_GAS_RESERVE: u64 = 5_000_000_000;

/// Bootstrap configuration: the address of the ledger service holding the
/// actual token balances.
#[derive(Clone, Copy, PartialEq, Eq, Structural, Debug)]
pub struct InitEscrow {
    /// Address of the fungible-token ledger program.
    pub ft_program_id: AccountId,
}

/// An inbound request.
#[derive(Clone, Copy, PartialEq, Eq, Structural, Debug)]
pub enum EscrowAction {
    /// Creates one escrow wallet and replies with its id.
    Create { buyer: AccountId, seller: AccountId, amount: u128 },
    /// Moves the agreed amount from the buyer into escrow.
    Deposit(WalletId),
    /// Releases the escrowed amount to the seller and closes the wallet.
    Confirm(WalletId),
    /// Returns the escrowed amount to the buyer; the wallet becomes reusable.
    Refund(WalletId),
    /// Closes a wallet that holds no funds yet.
    Cancel(WalletId),
    /// Resumes the pending transaction with this id.
    Continue(TxId),
}

/// An outbound reply.
#[derive(Clone, Copy, PartialEq, Eq, Structural, Debug)]
pub enum EscrowEvent {
    Created(WalletId),
    Deposited(TxId, WalletId),
    Confirmed(TxId, WalletId),
    Refunded(TxId, WalletId),
    Cancelled(WalletId),
    TransactionFailed,
    TransactionProcessed,
}

/// A fatal precondition violation: the request is rejected before any
/// mutation.
#[derive(Clone, Copy, PartialEq, Eq, Structural, Debug)]
pub enum EscrowError {
    /// The caller is not entitled to this action.
    Unauthorized,
    /// The wallet is not in the state the action requires.
    InvalidState,
    /// No wallet or transaction exists under the given id.
    NotFound,
    /// A malformed input, such as both parties being the null account.
    InvalidInput,
}

/// A transfer for the runtime to dispatch to the ledger service.  The ledger
/// treats `tx_id` idempotently: a repeated request under the same id must
/// not move funds twice.
#[derive(Clone, Copy, PartialEq, Eq, Structural, Debug)]
pub struct TransferRequest {
    pub tx_id: TxId,
    pub sender: AccountId,
    pub recipient: AccountId,
    pub amount: u128,
}

/// What a request handler decided: either a finished reply, or a transfer
/// that the runtime must dispatch before the request can settle.
#[derive(Clone, Copy, PartialEq, Eq, Structural, Debug)]
pub enum Step {
    /// The request is complete; reply with this event.
    Done(EscrowEvent),
    /// Reserve the signal gas, report the call id through `dispatched`,
    /// send the transfer, and settle the reply through `finish`.
    Transfer(TransferRequest),
}

/// A read-only state query.
#[derive(Clone, Copy, PartialEq, Eq, Structural, Debug)]
pub enum EscrowState {
    /// One wallet by id.
    Info(WalletId),
    /// Every wallet created so far, with its id.
    CreatedWallets,
}

/// The reply to a state query.
#[derive(PartialEq, Eq, Debug)]
pub enum EscrowStateReply {
    Info(Wallet),
    CreatedWallets(Vec<(WalletId, Wallet)>),
}

/// The escrow engine's abstract state, over which every contract speaks.
#[verifier::ext_equal]
pub ghost struct EscrowModel {
    /// Address of the ledger service.
    pub ledger: AccountId,
    /// The engine's own ledger account, holding escrowed funds.
    pub escrow_account: AccountId,
    /// Wallets by id: the wallet with id `n` sits at index `n`.
    pub wallets: Seq<Wallet>,
    /// The next wallet id to issue.
    pub next_wallet: WalletId,
    /// Pending transaction records.
    pub records: Map<TxId, PendingAction>,
    /// The next transaction id to allocate.
    pub next_tx: TxId,
    /// Reconciliation records for dispatched ledger calls.
    pub signals: Map<u64, InterruptRecord>,
}

/// The wallet state a fund-moving action requires before it may dispatch.
pub open spec fn action_source_state(a: PendingAction) -> WalletState {
    match a {
        PendingAction::Deposit(_) => WalletState::AwaitingDeposit,
        PendingAction::Confirm(_) => WalletState::AwaitingConfirmation,
        PendingAction::Refund(_) => WalletState::AwaitingConfirmation,
    }
}

/// The wallet state a fund-moving action commits on success.
pub open spec fn action_target_state(a: PendingAction) -> WalletState {
    match a {
        PendingAction::Deposit(_) => WalletState::AwaitingConfirmation,
        PendingAction::Confirm(_) => WalletState::Closed,
        PendingAction::Refund(_) => WalletState::AwaitingDeposit,
    }
}

/// Who may request a fund-moving action: the buyer deposits and confirms,
/// the seller refunds.
pub open spec fn action_authorized(a: PendingAction, w: Wallet, caller: AccountId) -> bool {
    match a {
        PendingAction::Deposit(_) => caller == w.buyer,
        PendingAction::Confirm(_) => caller == w.buyer,
        PendingAction::Refund(_) => caller == w.seller,
    }
}

/// The reply a fund-moving action earns once its transfer succeeds.
pub open spec fn success_event(a: PendingAction, tx: TxId) -> EscrowEvent {
    match a {
        PendingAction::Deposit(id) => EscrowEvent::Deposited(tx, id),
        PendingAction::Confirm(id) => EscrowEvent::Confirmed(tx, id),
        PendingAction::Refund(id) => EscrowEvent::Refunded(tx, id),
    }
}

/// How a wallet creation request relates the engine states before and after
/// it, the caller's identity, and the reply.
pub open spec fn create_transition(
    pre: EscrowModel,
    post: EscrowModel,
    caller: AccountId,
    buyer: AccountId,
    seller: AccountId,
    amount: u128,
    r: Result<EscrowEvent, EscrowError>,
) -> bool {
    if buyer.value() == 0 && seller.value() == 0 {
        r == Err::<EscrowEvent, EscrowError>(EscrowError::InvalidInput) && post =~= pre
    } else if caller != buyer && caller != seller {
        r == Err::<EscrowEvent, EscrowError>(EscrowError::Unauthorized) && post =~= pre
    } else {
        &&& r == Ok::<EscrowEvent, EscrowError>(EscrowEvent::Created(pre.next_wallet))
        &&& post =~= (EscrowModel {
            wallets: pre.wallets.push(
                (Wallet { buyer, seller, state: WalletState::AwaitingDeposit, amount }),
            ),
            next_wallet: pre.next_wallet.spec_succ(),
            ..pre
        })
    }
}

/// How the dispatch phase of a fund-moving request (deposit, confirm,
/// refund) relates the states before and after it: on success a transaction
/// is opened, its record stored, and the transfer request returned; wallets
/// are untouched until the ledger replies.
pub open spec fn begin_transition(
    pre: EscrowModel,
    post: EscrowModel,
    caller: AccountId,
    a: PendingAction,
    r: Result<TransferRequest, EscrowError>,
) -> bool {
    let wid = a.wallet_id();
    if !pre.has_wallet(wid) {
        r == Err::<TransferRequest, EscrowError>(EscrowError::NotFound) && post =~= pre
    } else if !action_authorized(a, pre.wallet_at(wid), caller) {
        r == Err::<TransferRequest, EscrowError>(EscrowError::Unauthorized) && post =~= pre
    } else if pre.wallet_at(wid).state != action_source_state(a) {
        r == Err::<TransferRequest, EscrowError>(EscrowError::InvalidState) && post =~= pre
    } else {
        let tx = pre.next_tx;
        &&& r == Ok::<TransferRequest, EscrowError>(pre.request_for(tx, a))
        &&& post =~= (EscrowModel {
            records: pre.records.insert(tx, a),
            next_tx: (((pre.next_tx + 1) % 0x1_0000_0000_0000_0000int) as u64),
            ..pre
        })
    }
}

/// How a cancellation relates the states before and after it: a wallet that
/// holds no funds yet is closed, with no transfer and no transaction.
pub open spec fn cancel_transition(
    pre: EscrowModel,
    post: EscrowModel,
    caller: AccountId,
    wid: WalletId,
    r: Result<EscrowEvent, EscrowError>,
) -> bool {
    if !pre.has_wallet(wid) {
        r == Err::<EscrowEvent, EscrowError>(EscrowError::NotFound) && post =~= pre
    } else if caller != pre.wallet_at(wid).buyer && caller != pre.wallet_at(wid).seller {
        r == Err::<EscrowEvent, EscrowError>(EscrowError::Unauthorized) && post =~= pre
    } else if pre.wallet_at(wid).state != WalletState::AwaitingDeposit {
        r == Err::<EscrowEvent, EscrowError>(EscrowError::InvalidState) && post =~= pre
    } else {
        &&& r == Ok::<EscrowEvent, EscrowError>(EscrowEvent::Cancelled(wid))
        &&& post =~= (EscrowModel {
            wallets: pre.wallets.update(
                wid.value() as int,
                (Wallet { state: WalletState::Closed, ..pre.wallet_at(wid) }),
            ),
            ..pre
        })
    }
}

/// How a resumption relates the states before and after it: without a
/// pending record the transaction is already settled and nothing moves;
/// with one, the identical transfer is re-issued under the same id, without
/// re-validating caller or wallet state.
pub open spec fn continue_transition(
    pre: EscrowModel,
    post: EscrowModel,
    tx: TxId,
    r: Result<Step, EscrowError>,
) -> bool {
    if !pre.records.contains_key(tx) {
        r == Ok::<Step, EscrowError>(Step::Done(EscrowEvent::TransactionProcessed)) && post =~= pre
    } else if !pre.has_wallet(pre.records[tx].wallet_id()) {
        r == Err::<Step, EscrowError>(EscrowError::NotFound) && post =~= pre
    } else {
        r == Ok::<Step, EscrowError>(Step::Transfer(pre.request_for(tx, pre.records[tx]))) && post
            =~= pre
    }
}

/// How reporting a dispatched ledger call relates the states before and
/// after it: the call is tracked as `Normal` under its call id, before the
/// request suspends.
pub open spec fn dispatch_transition(
    pre: EscrowModel,
    post: EscrowModel,
    tx: TxId,
    call_id: u64,
) -> bool {
    post =~= (EscrowModel {
        signals: pre.signals.insert(
            call_id,
            (InterruptRecord { state: ReconciliationState::Normal, tx_id: tx }),
        ),
        ..pre
    })
}

/// How settling a ledger reply relates the states before and after it.  On
/// failure the wallet is left exactly as it was; a failed deposit clears its
/// record, a failed confirm or refund retains it for resumption.  On success
/// the wallet commits its transition and the record is cleared.
pub open spec fn finish_transition(
    pre: EscrowModel,
    post: EscrowModel,
    call_id: u64,
    ok: bool,
    r: Result<EscrowEvent, EscrowError>,
) -> bool {
    if !pre.signals.contains_key(call_id) {
        r == Err::<EscrowEvent, EscrowError>(EscrowError::NotFound) && post =~= pre
    } else {
        let tx = pre.signals[call_id].tx_id;
        if !pre.records.contains_key(tx) {
            r == Err::<EscrowEvent, EscrowError>(EscrowError::NotFound) && post =~= pre
        } else {
            let a = pre.records[tx];
            let wid = a.wallet_id();
            if !ok {
                &&& r == Ok::<EscrowEvent, EscrowError>(EscrowEvent::TransactionFailed)
                &&& post =~= (EscrowModel {
                    signals: pre.signals.insert(
                        call_id,
                        (InterruptRecord { state: ReconciliationState::Panicked, tx_id: tx }),
                    ),
                    records: if a is Deposit {
                        pre.records.remove(tx)
                    } else {
                        pre.records
                    },
                    ..pre
                })
            } else if !pre.has_wallet(wid) {
                r == Err::<EscrowEvent, EscrowError>(EscrowError::NotFound) && post =~= pre
            } else if pre.wallet_at(wid).state != action_source_state(a) {
                r == Err::<EscrowEvent, EscrowError>(EscrowError::InvalidState) && post =~= pre
            } else {
                &&& r == Ok::<EscrowEvent, EscrowError>(success_event(a, tx))
                &&& post =~= (EscrowModel {
                    wallets: pre.wallets.update(
                        wid.value() as int,
                        (Wallet { state: action_target_state(a), ..pre.wallet_at(wid) }),
                    ),
                    records: pre.records.remove(tx),
                    signals: pre.signals.insert(
                        call_id,
                        (InterruptRecord { state: ReconciliationState::Normal, tx_id: tx }),
                    ),
                    ..pre
                })
            }
        }
    }
}

/// How the interrupt hook relates the states before and after it: a tracked
/// call is marked `NeedsRerun` and its prior record handed back; an unknown
/// call changes nothing.
pub open spec fn signal_transition(
    pre: EscrowModel,
    post: EscrowModel,
    call_id: u64,
    r: Option<InterruptRecord>,
) -> bool {
    if pre.signals.contains_key(call_id) {
        &&& r == Some(pre.signals[call_id])
        &&& post =~= (EscrowModel {
            signals: pre.signals.insert(
                call_id,
                (InterruptRecord {
                    state: ReconciliationState::NeedsRerun,
                    tx_id: pre.signals[call_id].tx_id,
                }),
            ),
            ..pre
        })
    } else {
        r == None::<InterruptRecord> && post =~= pre
    }
}

/// The escrow engine: wallet table, transaction log and interrupt tracker,
/// driven by one request at a time.
pub struct Escrow {
    /// Address of the ledger service.
    pub ft_program_id: AccountId,
    /// The engine's own ledger account, the holder of escrowed funds.
    pub escrow_account: AccountId,
    /// The wallet table.
    pub wallets: WalletStore,
    /// The transaction log.
    pub transactions: TransactionLog,
    /// The interrupt tracker.
    pub signal_state: InterruptTracker,
}

impl View for Escrow {
    type V = EscrowModel;

    open spec fn view(&self) -> EscrowModel {
        EscrowModel {
            ledger: self.ft_program_id,
            escrow_account: self.escrow_account,
            wallets: self.wallets.wallets@,
            next_wallet: self.wallets.id_nonce,
            records: self.transactions.records@,
            next_tx: self.transactions.nonce,
            signals: self.signal_state.entries@,
        }
    }
}

impl EscrowModel {
    /// Whether a wallet with this id has been issued.
    pub open spec fn has_wallet(self, id: WalletId) -> bool {
        id.value() < self.wallets.len()
    }

    /// The wallet under an issued id.
    pub open spec fn wallet_at(self, id: WalletId) -> Wallet {
        self.wallets[id.value() as int]
    }

    /// The transfer a fund-moving action asks of the ledger: a deposit moves
    /// the agreed amount from the buyer into the escrow account; a confirm
    /// releases it to the seller; a refund returns it to the buyer.
    pub open spec fn request_for(self, tx: TxId, a: PendingAction) -> TransferRequest {
        let w = self.wallet_at(a.wallet_id());
        match a {
            PendingAction::Deposit(_) => TransferRequest {
                tx_id: tx,
                sender: w.buyer,
                recipient: self.escrow_account,
                amount: w.amount,
            },
            PendingAction::Confirm(_) => TransferRequest {
                tx_id: tx,
                sender: self.escrow_account,
                recipient: w.seller,
                amount: w.amount,
            },
            PendingAction::Refund(_) => TransferRequest {
                tx_id: tx,
                sender: self.escrow_account,
                recipient: w.buyer,
                amount: w.amount,
            },
        }
    }

    /// Well-formedness: the id counter counts the wallets, and every pending
    /// record points at a wallet that exists.
    pub open spec fn wf(self) -> bool {
        &&& self.next_wallet.value() == self.wallets.len()
        &&& forall|tx: TxId|
            #[trigger] self.records.contains_key(tx) ==> self.has_wallet(
                self.records[tx].wallet_id(),
            )
    }
}

impl Escrow {
    /// Well-formedness of the running engine.
    pub open spec fn wf(self) -> bool {
        self@.wf()
    }

    /// Builds an engine around the given ledger service; rejected when the
    /// ledger address is the null account.  `escrow_account` is the engine's
    /// own ledger account, which holds deposited funds.
    pub fn new(config: InitEscrow, escrow_account: AccountId) -> (r: Result<Escrow, EscrowError>)
        ensures
            config.ft_program_id.value() == 0 ==> r == Err::<Escrow, EscrowError>(
                EscrowError::InvalidInput,
            ),
            config.ft_program_id.value() != 0 ==> {
                &&& r is Ok
                &&& r->Ok_0.wf()
                &&& r->Ok_0@.ledger == config.ft_program_id
                &&& r->Ok_0@.escrow_account == escrow_account
                &&& r->Ok_0@.wallets =~= Seq::<Wallet>::empty()
                &&& r->Ok_0@.records =~= Map::<TxId, PendingAction>::empty()
                &&& r->Ok_0@.signals =~= Map::<u64, InterruptRecord>::empty()
                &&& r->Ok_0@.next_tx == 0
            },
    {
        if config.ft_program_id.is_zero() {
            return Err(EscrowError::InvalidInput);
        }
        Ok(
            Escrow {
                ft_program_id: config.ft_program_id,
                escrow_account,
                wallets: WalletStore::new(),
                transactions: TransactionLog::new(),
                signal_state: InterruptTracker::new(),
            },
        )
    }

    /// Creates one escrow wallet and replies with its id.  The caller must
    /// be the future buyer or seller, and the two parties must not both be
    /// the null account.
    pub fn create(
        &mut self,
        caller: AccountId,
        buyer: AccountId,
        seller: AccountId,
        amount: u128,
    ) -> (r: Result<EscrowEvent, EscrowError>)
        requires
            old(self).wf(),
        ensures
            final(self).wf(),
            create_transition(old(self)@, final(self)@, caller, buyer, seller, amount, r),
    {
        if buyer.is_zero() && seller.is_zero() {
            return Err(EscrowError::InvalidInput);
        }
        if caller != buyer && caller != seller {
            return Err(EscrowError::Unauthorized);
        }
        match self.wallets.create(buyer, seller, amount) {
            Ok(id) => {
                proof {
                    assert forall|t: TxId| #[trigger] self@.records.contains_key(t) implies self@
                        .has_wallet(self@.records[t].wallet_id()) by {
                        assert(old(self)@.records.contains_key(t));
                    }
                }
                Ok(EscrowEvent::Created(id))
            },
            Err(e) => Err(e),
        }
    }

    /// Validates a fund-moving request and opens its transaction: the
    /// pending record is stored and the transfer request handed back for
    /// dispatch, before any suspension.  Wallets stay untouched until the
    /// ledger's reply is settled through `finish`.
    fn begin_transfer(&mut self, caller: AccountId, action: PendingAction) -> (r: Result<
        TransferRequest,
        EscrowError,
    >)
        requires
            old(self).wf(),
        ensures
            final(self).wf(),
            begin_transition(old(self)@, final(self)@, caller, action, r),
    {
        let wallet_id = match action {
            PendingAction::Deposit(id) => id,
            PendingAction::Confirm(id) => id,
            PendingAction::Refund(id) => id,
        };
        let w = match self.wallets.get(wallet_id) {
            Ok(w) => w,
            Err(e) => {
                return Err(e);
            },
        };
        let authorized = match action {
            PendingAction::Deposit(_) => caller == w.buyer,
            PendingAction::Confirm(_) => caller == w.buyer,
            PendingAction::Refund(_) => caller == w.seller,
        };
        if !authorized {
            return Err(EscrowError::Unauthorized);
        }
        let required = match action {
            PendingAction::Deposit(_) => WalletState::AwaitingDeposit,
            PendingAction::Confirm(_) => WalletState::AwaitingConfirmation,
            PendingAction::Refund(_) => WalletState::AwaitingConfirmation,
        };
        if w.state != required {
            return Err(EscrowError::InvalidState);
        }
        let tx = self.transactions.begin(None, action);
        proof {
            assert forall|t: TxId| #[trigger] self@.records.contains_key(t) implies self@
                .has_wallet(self@.records[t].wallet_id()) by {
                if t != tx {
                    assert(old(self)@.records.contains_key(t));
                }
            }
        }
        let req = match action {
            PendingAction::Deposit(_) => TransferRequest {
                tx_id: tx,
                sender: w.buyer,
                recipient: self.escrow_account,
                amount: w.amount,
            },
            PendingAction::Confirm(_) => TransferRequest {
                tx_id: tx,
                sender: self.escrow_account,
                recipient: w.seller,
                amount: w.amount,
            },
            PendingAction::Refund(_) => TransferRequest {
                tx_id: tx,
                sender: self.escrow_account,
                recipient: w.buyer,
                amount: w.amount,
            },
        };
        Ok(req)
    }

    /// Opens a deposit: the buyer asks to move the agreed amount into
    /// escrow.  Dispatch the returned transfer and settle it with `finish`.
    pub fn deposit(&mut self, caller: AccountId, wallet_id: WalletId) -> (r: Result<
        TransferRequest,
        EscrowError,
    >)
        requires
            old(self).wf(),
        ensures
            final(self).wf(),
            begin_transition(
                old(self)@,
                final(self)@,
                caller,
                PendingAction::Deposit(wallet_id),
                r,
            ),
    {
        self.begin_transfer(caller, PendingAction::Deposit(wallet_id))
    }

    /// Opens a confirmation: the buyer asks to release the escrowed amount
    /// to the seller and close the wallet.
    pub fn confirm(&mut self, caller: AccountId, wallet_id: WalletId) -> (r: Result<
        TransferRequest,
        EscrowError,
    >)
        requires
            old(self).wf(),
        ensures
            final(self).wf(),
            begin_transition(
                old(self)@,
                final(self)@,
                caller,
                PendingAction::Confirm(wallet_id),
                r,
            ),
    {
        self.begin_transfer(caller, PendingAction::Confirm(wallet_id))
    }

    /// Opens a refund: the seller asks to return the escrowed amount to the
    /// buyer, after which the wallet is reusable.
    pub fn refund(&mut self, caller: AccountId, wallet_id: WalletId) -> (r: Result<
        TransferRequest,
        EscrowError,
    >)
        requires
            old(self).wf(),
        ensures
            final(self).wf(),
            begin_transition(
                old(self)@,
                final(self)@,
                caller,
                PendingAction::Refund(wallet_id),
                r,
            ),
    {
        self.begin_transfer(caller, PendingAction::Refund(wallet_id))
    }

    /// Cancels a deal: buyer or seller closes a wallet that holds no funds
    /// yet.  Synchronous; no transfer and no transaction is involved.
    pub fn cancel(&mut self, caller: AccountId, wallet_id: WalletId) -> (r: Result<
        EscrowEvent,
        EscrowError,
    >)
        requires
            old(self).wf(),
        ensures
            final(self).wf(),
            cancel_transition(old(self)@, final(self)@, caller, wallet_id, r),
    {
        let w = match self.wallets.get(wallet_id) {
            Ok(w) => w,
            Err(e) => {
                return Err(e);
            },
        };
        if caller != w.buyer && caller != w.seller {
            return Err(EscrowError::Unauthorized);
        }
        if w.state != WalletState::AwaitingDeposit {
            return Err(EscrowError::InvalidState);
        }
        match self.wallets.set_state(wallet_id, WalletState::Closed) {
            Ok(()) => Ok(EscrowEvent::Cancelled(wallet_id)),
            Err(e) => Err(e),
        }
    }

    /// Resumes a cached transaction.  A settled (or never opened) id replies
    /// `TransactionProcessed` and changes nothing; a pending one re-issues
    /// the identical transfer under the same transaction id, relying on the
    /// ledger's per-id idempotency to make the replay safe.
    pub fn continue_transaction(&mut self, transaction_id: TxId) -> (r: Result<Step, EscrowError>)
        requires
            old(self).wf(),
        ensures
            final(self).wf(),
            continue_transition(old(self)@, final(self)@, transaction_id, r),
    {
        let action = match self.transactions.lookup(transaction_id) {
            Some(a) => a,
            None => {
                return Ok(Step::Done(EscrowEvent::TransactionProcessed));
            },
        };
        let wallet_id = match action {
            PendingAction::Deposit(id) => id,
            PendingAction::Confirm(id) => id,
            PendingAction::Refund(id) => id,
        };
        let w = match self.wallets.get(wallet_id) {
            Ok(w) => w,
            Err(e) => {
                return Err(e);
            },
        };
        let req = match action {
            PendingAction::Deposit(_) => TransferRequest {
                tx_id: transaction_id,
                sender: w.buyer,
                recipient: self.escrow_account,
                amount: w.amount,
            },
            PendingAction::Confirm(_) => TransferRequest {
                tx_id: transaction_id,
                sender: self.escrow_account,
                recipient: w.seller,
                amount: w.amount,
            },
            PendingAction::Refund(_) => TransferRequest {
                tx_id: transaction_id,
                sender: self.escrow_account,
                recipient: w.buyer,
                amount: w.amount,
            },
        };
        Ok(Step::Transfer(req))
    }

    /// Reports the call id the runtime obtained when it dispatched a
    /// transfer for the given transaction, before suspending on the reply:
    /// the call is tracked so a later interruption has something to
    /// reconcile against.
    pub fn dispatched(&mut self, tx_id: TxId, call_id: u64)
        requires
            old(self).wf(),
        ensures
            final(self).wf(),
            dispatch_transition(old(self)@, final(self)@, tx_id, call_id),
    {
        self.signal_state.record_dispatch(call_id, tx_id);
    }

    /// Settles the ledger's reply to a dispatched transfer.  On success the
    /// wallet commits its transition and the transaction settles; on failure
    /// the wallet stays exactly as it was, a failed deposit clears its
    /// record, and a failed confirm or refund retains it for `Continue`.
    pub fn finish(&mut self, call_id: u64, ok: bool) -> (r: Result<EscrowEvent, EscrowError>)
        requires
            old(self).wf(),
        ensures
            final(self).wf(),
            finish_transition(old(self)@, final(self)@, call_id, ok, r),
    {
        let entry = match self.signal_state.get(call_id) {
            Some(e) => e,
            None => {
                return Err(EscrowError::NotFound);
            },
        };
        let tx = entry.tx_id;
        let action = match self.transactions.lookup(tx) {
            Some(a) => a,
            None => {
                return Err(EscrowError::NotFound);
            },
        };
        if !ok {
            self.signal_state.mark(call_id, ReconciliationState::Panicked);
            if matches!(action, PendingAction::Deposit(_)) {
                self.transactions.complete(tx);
            }
            proof {
                assert forall|t: TxId| #[trigger] self@.records.contains_key(t) implies self@
                    .has_wallet(self@.records[t].wallet_id()) by {
                    assert(old(self)@.records.contains_key(t));
                }
            }
            return Ok(EscrowEvent::TransactionFailed);
        }
        let wallet_id = match action {
            PendingAction::Deposit(id) => id,
            PendingAction::Confirm(id) => id,
            PendingAction::Refund(id) => id,
        };
        let w = match self.wallets.get(wallet_id) {
            Ok(w) => w,
            Err(e) => {
                return Err(e);
            },
        };
        let required = match action {
            PendingAction::Deposit(_) => WalletState::AwaitingDeposit,
            PendingAction::Confirm(_) => WalletState::AwaitingConfirmation,
            PendingAction::Refund(_) => WalletState::AwaitingConfirmation,
        };
        if w.state != required {
            return Err(EscrowError::InvalidState);
        }
        let target = match action {
            PendingAction::Deposit(_) => WalletState::AwaitingConfirmation,
            PendingAction::Confirm(_) => WalletState::Closed,
            PendingAction::Refund(_) => WalletState::AwaitingDeposit,
        };
        self.signal_state.mark(call_id, ReconciliationState::Normal);
        match self.wallets.set_state(wallet_id, target) {
            Ok(()) => {},
            Err(e) => {
                return Err(e);
            },
        }
        self.transactions.complete(tx);
        proof {
            assert forall|t: TxId| #[trigger] self@.records.contains_key(t) implies self@
                .has_wallet(self@.records[t].wallet_id()) by {
                assert(old(self)@.records.contains_key(t));
            }
        }
        let event = match action {
            PendingAction::Deposit(id) => EscrowEvent::Deposited(tx, id),
            PendingAction::Confirm(id) => EscrowEvent::Confirmed(tx, id),
            PendingAction::Refund(id) => EscrowEvent::Refunded(tx, id),
        };
        Ok(event)
    }

    /// The interrupt hook: invoked by the runtime after a suspended ledger
    /// call was abandoned for resource exhaustion.  The tracked entry is
    /// marked `NeedsRerun` and handed back; recovery itself is caller-driven
    /// through `Continue`.
    pub fn handle_signal(&mut self, call_id: u64) -> (r: Option<InterruptRecord>)
        requires
            old(self).wf(),
        ensures
            final(self).wf(),
            signal_transition(old(self)@, final(self)@, call_id, r),
    {
        let entry = match self.signal_state.get(call_id) {
            Some(e) => e,
            None => {
                return None;
            },
        };
        self.signal_state.mark(call_id, ReconciliationState::NeedsRerun);
        proof {
            assert forall|t: TxId| #[trigger] self@.records.contains_key(t) implies self@
                .has_wallet(self@.records[t].wallet_id()) by {
                assert(old(self)@.records.contains_key(t));
            }
        }
        Some(entry)
    }

    /// Handles one inbound request from `caller`, committing any synchronous
    /// effect.  A `Done` step is a finished reply; a `Transfer` step must be
    /// dispatched by the runtime and settled through `dispatched` and
    /// `finish`.
    pub fn handle(&mut self, caller: AccountId, action: EscrowAction) -> (r: Result<
        Step,
        EscrowError,
    >)
        requires
            old(self).wf(),
        ensures
            final(self).wf(),
            (match action {
                EscrowAction::Create { buyer, seller, amount } => {
                    &&& (r matches Ok(s) ==> s matches Step::Done(ev) && create_transition(
                        old(self)@,
                        final(self)@,
                        caller,
                        buyer,
                        seller,
                        amount,
                        Ok(ev),
                    ))
                    &&& (r matches Err(e) ==> create_transition(
                        old(self)@,
                        final(self)@,
                        caller,
                        buyer,
                        seller,
                        amount,
                        Err(e),
                    ))
                },
                EscrowAction::Deposit(wid) => {
                    &&& (r matches Ok(s) ==> s matches Step::Transfer(req) && begin_transition(
                        old(self)@,
                        final(self)@,
                        caller,
                        PendingAction::Deposit(wid),
                        Ok(req),
                    ))
                    &&& (r matches Err(e) ==> begin_transition(
                        old(self)@,
                        final(self)@,
                        caller,
                        PendingAction::Deposit(wid),
                        Err(e),
                    ))
                },
                EscrowAction::Confirm(wid) => {
                    &&& (r matches Ok(s) ==> s matches Step::Transfer(req) && begin_transition(
                        old(self)@,
                        final(self)@,
                        caller,
                        PendingAction::Confirm(wid),
                        Ok(req),
                    ))
                    &&& (r matches Err(e) ==> begin_transition(
                        old(self)@,
                        final(self)@,
                        caller,
                        PendingAction::Confirm(wid),
                        Err(e),
                    ))
                },
                EscrowAction::Refund(wid) => {
                    &&& (r matches Ok(s) ==> s matches Step::Transfer(req) && begin_transition(
                        old(self)@,
                        final(self)@,
                        caller,
                        PendingAction::Refund(wid),
                        Ok(req),
                    ))
                    &&& (r matches Err(e) ==> begin_transition(
                        old(self)@,
                        final(self)@,
                        caller,
                        PendingAction::Refund(wid),
                        Err(e),
                    ))
                },
                EscrowAction::Cancel(wid) => {
                    &&& (r matches Ok(s) ==> s matches Step::Done(ev) && cancel_transition(
                        old(self)@,
                        final(self)@,
                        caller,
                        wid,
                        Ok(ev),
                    ))
                    &&& (r matches Err(e) ==> cancel_transition(
                        old(self)@,
                        final(self)@,
                        caller,
                        wid,
                        Err(e),
                    ))
                },
                EscrowAction::Continue(tx) => continue_transition(
                    old(self)@,
                    final(self)@,
                    tx,
                    r,
                ),
            }),
    {
        match action {
            EscrowAction::Create { buyer, seller, amount } => {
                match self.create(caller, buyer, seller, amount) {
                    Ok(ev) => Ok(Step::Done(ev)),
                    Err(e) => Err(e),
                }
            },
            EscrowAction::Deposit(wallet_id) => {
                match self.deposit(caller, wallet_id) {
                    Ok(req) => Ok(Step::Transfer(req)),
                    Err(e) => Err(e),
                }
            },
            EscrowAction::Confirm(wallet_id) => {
                match self.confirm(caller, wallet_id) {
                    Ok(req) => Ok(Step::Transfer(req)),
                    Err(e) => Err(e),
                }
            },
            EscrowAction::Refund(wallet_id) => {
                match self.refund(caller, wallet_id) {
                    Ok(req) => Ok(Step::Transfer(req)),
                    Err(e) => Err(e),
                }
            },
            EscrowAction::Cancel(wallet_id) => {
                match self.cancel(caller, wallet_id) {
                    Ok(ev) => Ok(Step::Done(ev)),
                    Err(e) => Err(e),
                }
            },
            EscrowAction::Continue(transaction_id) => self.continue_transaction(transaction_id),
        }
    }

    /// One wallet by id; `NotFound` when the id was never issued.
    pub fn info(&self, wallet_id: WalletId) -> (r: Result<Wallet, EscrowError>)
        ensures
            self@.has_wallet(wallet_id) ==> r == Ok::<Wallet, EscrowError>(
                self@.wallet_at(wallet_id),
            ),
            !self@.has_wallet(wallet_id) ==> r == Err::<Wallet, EscrowError>(EscrowError::NotFound),
    {
        self.wallets.get(wallet_id)
    }

    /// Every wallet created so far, paired with its id, in order of
    /// creation.
    pub fn created_wallets(&self) -> (r: Vec<(WalletId, Wallet)>)
        ensures
            r@.len() == self@.wallets.len(),
            forall|i: int|
                0 <= i < r@.len() ==> (#[trigger] r@[i]).0.value() == i && r@[i].1
                    == self@.wallets[i],
    {
        let n: usize = self.wallets.len();
        let mut out: Vec<(WalletId, Wallet)> = Vec::new();
        let mut i: usize = 0;
        while i < n
            invariant
                n == self@.wallets.len(),
                i <= n,
                out@.len() == i,
                forall|j: int|
                    0 <= j < i ==> (#[trigger] out@[j]).0.value() == j && out@[j].1
                        == self@.wallets[j],
            decreases n - i,
        {
            let id = Uint256::from_u64(i as u64);
            let w = self.wallets.wallets[i];
            out.push((id, w));
            i += 1;
        }
        out
    }

    /// Answers a read-only state query over a snapshot of the wallet table.
    pub fn meta_state(&self, query: EscrowState) -> (r: Result<EscrowStateReply, EscrowError>)
        ensures
            (match query {
                EscrowState::Info(wid) => {
                    &&& self@.has_wallet(wid) ==> (r matches Ok(
                        EscrowStateReply::Info(w),
                    ) && w == self@.wallet_at(wid))
                    &&& !self@.has_wallet(wid) ==> r == Err::<EscrowStateReply, EscrowError>(
                        EscrowError::NotFound,
                    )
                },
                EscrowState::CreatedWallets => r matches Ok(
                    EscrowStateReply::CreatedWallets(v),
                ) && v@.len() == self@.wallets.len() && forall|i: int|
                    0 <= i < v@.len() ==> (#[trigger] v@[i]).0.value() == i && v@[i].1
                        == self@.wallets[i],
            }),
    {
        match query {
            EscrowState::Info(wallet_id) => {
                match self.wallets.get(wallet_id) {
                    Ok(w) => Ok(EscrowStateReply::Info(w)),
                    Err(e) => Err(e),
                }
            },
            EscrowState::CreatedWallets => Ok(
                EscrowStateReply::CreatedWallets(self.created_wallets()),
            ),
        }
    }
}

} // verus!
