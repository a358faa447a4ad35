use escrow::engine::{
    Escrow, EscrowAction, EscrowError, EscrowEvent, EscrowState, EscrowStateReply, InitEscrow,
    Step, TransferRequest,
};
use escrow::ids::Uint256;
use escrow::interrupts::ReconciliationState;
use escrow::wallet::WalletState;
use std::collections::HashMap;
use std::collections::HashSet;

fn account(n: u64) -> Uint256 {
    Uint256::from_u64(n)
}

fn engine() -> Escrow {
    Escrow::new(InitEscrow { ft_program_id: account(9) }, account(100)).unwrap()
}

/// An engine with one wallet: buyer 1, seller 2, amount 100, id 0.
fn engine_with_wallet() -> (Escrow, Uint256, Uint256, Uint256) {
    let mut esc = engine();
    let buyer = account(1);
    let seller = account(2);
    let ev = esc.create(buyer, buyer, seller, 100).unwrap();
    let id = match ev {
        EscrowEvent::Created(id) => id,
        _ => panic!("expected Created"),
    };
    (esc, id, buyer, seller)
}

/// Dispatches a transfer request and settles it with the given ledger reply.
fn settle(esc: &mut Escrow, req: &TransferRequest, call_id: u64, ok: bool) -> EscrowEvent {
    esc.dispatched(req.tx_id, call_id);
    esc.finish(call_id, ok).unwrap()
}

/// A toy ledger honouring per-transaction idempotency: a transaction id seen
/// before moves no funds again and reports success.
fn ledger_transfer(
    balances: &mut HashMap<u64, u128>,
    seen: &mut HashSet<u64>,
    req: &TransferRequest,
    accept: bool,
) -> bool {
    if !accept {
        return false;
    }
    if seen.contains(&req.tx_id) {
        return true;
    }
    seen.insert(req.tx_id);
    let from = balances.get(&req.sender.limb0).copied().unwrap_or(0);
    if from < req.amount {
        return false;
    }
    balances.insert(req.sender.limb0, from - req.amount);
    let to = balances.get(&req.recipient.limb0).copied().unwrap_or(0);
    balances.insert(req.recipient.limb0, to + req.amount);
    true
}

#[test]
fn init_rejects_null_ledger() {
    let r = Escrow::new(InitEscrow { ft_program_id: Uint256::zero() }, account(100));
    match r {
        Err(e) => assert_eq!(e, EscrowError::InvalidInput),
        Ok(_) => panic!("a null ledger address must be rejected"),
    }
    assert!(Escrow::new(InitEscrow { ft_program_id: account(9) }, account(100)).is_ok());
}

#[test]
fn create_issues_increasing_ids() {
    let mut esc = engine();
    let buyer = account(1);
    let seller = account(2);
    let mut last: Option<Uint256> = None;
    for k in 0..3u64 {
        let ev = esc.create(buyer, buyer, seller, 10 + k as u128).unwrap();
        match ev {
            EscrowEvent::Created(id) => {
                assert_eq!(id, account(k));
                if let Some(prev) = last {
                    assert!(prev.limb0 < id.limb0);
                    assert_ne!(prev, id);
                }
                last = Some(id);
            },
            _ => panic!("expected Created"),
        }
    }
    assert_eq!(esc.created_wallets().len(), 3);
}

#[test]
fn create_rejects_both_null_parties() {
    let mut esc = engine();
    let r = esc.create(Uint256::zero(), Uint256::zero(), Uint256::zero(), 5);
    assert_eq!(r.unwrap_err(), EscrowError::InvalidInput);
    assert!(esc.created_wallets().is_empty());
}

#[test]
fn create_rejects_foreign_caller() {
    let mut esc = engine();
    let r = esc.create(account(7), account(1), account(2), 5);
    assert_eq!(r.unwrap_err(), EscrowError::Unauthorized);
    assert!(esc.created_wallets().is_empty());
}

#[test]
fn deposit_requires_buyer() {
    let (mut esc, id, _buyer, seller) = engine_with_wallet();
    let r = esc.deposit(seller, id);
    assert_eq!(r.unwrap_err(), EscrowError::Unauthorized);
    let w = esc.info(id).unwrap();
    assert_eq!(w.state, WalletState::AwaitingDeposit);
    let r = esc.deposit(account(7), id);
    assert_eq!(r.unwrap_err(), EscrowError::Unauthorized);
}

#[test]
fn deposit_requires_awaiting_deposit() {
    let (mut esc, id, buyer, _seller) = engine_with_wallet();
    let req = esc.deposit(buyer, id).unwrap();
    assert_eq!(settle(&mut esc, &req, 50, true), EscrowEvent::Deposited(0, id));
    assert_eq!(esc.info(id).unwrap().state, WalletState::AwaitingConfirmation);
    let r = esc.deposit(buyer, id);
    assert_eq!(r.unwrap_err(), EscrowError::InvalidState);
}

#[test]
fn deposit_on_unknown_wallet_is_not_found() {
    let (mut esc, _id, buyer, _seller) = engine_with_wallet();
    let r = esc.deposit(buyer, account(999999));
    assert_eq!(r.unwrap_err(), EscrowError::NotFound);
}

#[test]
fn failed_deposit_keeps_wallet_and_clears_record() {
    let (mut esc, id, buyer, _seller) = engine_with_wallet();
    let req = esc.deposit(buyer, id).unwrap();
    assert_eq!(req.tx_id, 0);
    assert_eq!(settle(&mut esc, &req, 50, false), EscrowEvent::TransactionFailed);
    assert_eq!(esc.info(id).unwrap().state, WalletState::AwaitingDeposit);
    assert!(esc.transactions.lookup(0).is_none());
    // a fresh attempt allocates a new transaction
    let retry = esc.deposit(buyer, id).unwrap();
    assert_eq!(retry.tx_id, 1);
}

#[test]
fn confirm_closes_wallet_terminally() {
    let (mut esc, id, buyer, seller) = engine_with_wallet();
    // confirm before any deposit: wrong state
    assert_eq!(esc.confirm(buyer, id).unwrap_err(), EscrowError::InvalidState);
    let req = esc.deposit(buyer, id).unwrap();
    settle(&mut esc, &req, 50, true);
    // only the buyer may confirm
    assert_eq!(esc.confirm(seller, id).unwrap_err(), EscrowError::Unauthorized);
    let req = esc.confirm(buyer, id).unwrap();
    assert_eq!(req.sender, account(100));
    assert_eq!(req.recipient, seller);
    assert_eq!(settle(&mut esc, &req, 51, true), EscrowEvent::Confirmed(1, id));
    assert_eq!(esc.info(id).unwrap().state, WalletState::Closed);
    // closed is terminal
    assert_eq!(esc.confirm(buyer, id).unwrap_err(), EscrowError::InvalidState);
    assert_eq!(esc.refund(seller, id).unwrap_err(), EscrowError::InvalidState);
    assert_eq!(esc.cancel(buyer, id).unwrap_err(), EscrowError::InvalidState);
}

#[test]
fn refund_reopens_wallet() {
    let (mut esc, id, buyer, seller) = engine_with_wallet();
    let req = esc.deposit(buyer, id).unwrap();
    settle(&mut esc, &req, 50, true);
    // only the seller may refund
    assert_eq!(esc.refund(buyer, id).unwrap_err(), EscrowError::Unauthorized);
    let req = esc.refund(seller, id).unwrap();
    assert_eq!(req.sender, account(100));
    assert_eq!(req.recipient, buyer);
    assert_eq!(settle(&mut esc, &req, 51, true), EscrowEvent::Refunded(1, id));
    assert_eq!(esc.info(id).unwrap().state, WalletState::AwaitingDeposit);
    // the wallet is reusable: another deposit goes through
    let req = esc.deposit(buyer, id).unwrap();
    assert_eq!(settle(&mut esc, &req, 52, true), EscrowEvent::Deposited(2, id));
}

#[test]
fn cancel_closes_without_transfer() {
    let (mut esc, id, _buyer, seller) = engine_with_wallet();
    // a stranger may not cancel
    assert_eq!(esc.cancel(account(7), id).unwrap_err(), EscrowError::Unauthorized);
    // through the request entry: the reply is synchronous, no transfer step
    let step = esc.handle(seller, EscrowAction::Cancel(id)).unwrap();
    assert_eq!(step, Step::Done(EscrowEvent::Cancelled(id)));
    assert_eq!(esc.info(id).unwrap().state, WalletState::Closed);
    // no transaction was opened and nothing was tracked for dispatch
    assert!(esc.transactions.lookup(0).is_none());
    assert!(esc.signal_state.get(0).is_none());
}

#[test]
fn cancel_requires_awaiting_deposit() {
    let (mut esc, id, buyer, _seller) = engine_with_wallet();
    let req = esc.deposit(buyer, id).unwrap();
    settle(&mut esc, &req, 50, true);
    assert_eq!(esc.cancel(buyer, id).unwrap_err(), EscrowError::InvalidState);
}

#[test]
fn continue_without_record_is_processed() {
    let (mut esc, id, _buyer, _seller) = engine_with_wallet();
    let step = esc.continue_transaction(42).unwrap();
    assert_eq!(step, Step::Done(EscrowEvent::TransactionProcessed));
    assert_eq!(esc.info(id).unwrap().state, WalletState::AwaitingDeposit);
    assert_eq!(esc.created_wallets().len(), 1);
}

#[test]
fn continue_replays_identical_request_without_double_spend() {
    let (mut esc, id, buyer, _seller) = engine_with_wallet();
    let mut balances: HashMap<u64, u128> = HashMap::new();
    balances.insert(buyer.limb0, 100);
    let mut seen: HashSet<u64> = HashSet::new();

    let req1 = esc.deposit(buyer, id).unwrap();
    esc.dispatched(req1.tx_id, 70);
    // the ledger moves the funds, but the reply never arrives: the runtime
    // abandons the request and fires the interrupt hook
    assert!(ledger_transfer(&mut balances, &mut seen, &req1, true));
    let hooked = esc.handle_signal(70).unwrap();
    assert_eq!(hooked.state, ReconciliationState::Normal);
    assert_eq!(hooked.tx_id, req1.tx_id);
    assert_eq!(esc.signal_state.get(70).unwrap().state, ReconciliationState::NeedsRerun);

    // the caller resumes: the identical request is re-issued
    let step = esc.continue_transaction(req1.tx_id).unwrap();
    let req2 = match step {
        Step::Transfer(req) => req,
        _ => panic!("expected a transfer step"),
    };
    assert_eq!(req2, req1);
    // the ledger treats the repeated transaction id as a duplicate
    esc.dispatched(req2.tx_id, 71);
    assert!(ledger_transfer(&mut balances, &mut seen, &req2, true));
    let ev = esc.finish(71, true).unwrap();
    assert_eq!(ev, EscrowEvent::Deposited(req1.tx_id, id));
    // funds moved exactly once and the wallet reached the normal state
    assert_eq!(balances.get(&buyer.limb0).copied().unwrap(), 0);
    assert_eq!(balances.get(&account(100).limb0).copied().unwrap(), 100);
    assert_eq!(esc.info(id).unwrap().state, WalletState::AwaitingConfirmation);
}

#[test]
fn end_to_end_scenario() {
    let mut esc = engine();
    let buyer = account(1);
    let seller = account(2);
    let step = esc
        .handle(buyer, EscrowAction::Create { buyer, seller, amount: 100 })
        .unwrap();
    assert_eq!(step, Step::Done(EscrowEvent::Created(account(0))));
    let id = account(0);

    let step = esc.handle(buyer, EscrowAction::Deposit(id)).unwrap();
    let req = match step {
        Step::Transfer(req) => req,
        _ => panic!("expected a transfer step"),
    };
    assert_eq!(req.sender, buyer);
    assert_eq!(req.recipient, account(100));
    assert_eq!(req.amount, 100);
    assert_eq!(settle(&mut esc, &req, 60, true), EscrowEvent::Deposited(0, id));
    assert_eq!(esc.info(id).unwrap().state, WalletState::AwaitingConfirmation);

    let step = esc.handle(buyer, EscrowAction::Confirm(id)).unwrap();
    let req = match step {
        Step::Transfer(req) => req,
        _ => panic!("expected a transfer step"),
    };
    assert_eq!(settle(&mut esc, &req, 61, true), EscrowEvent::Confirmed(1, id));
    assert_eq!(esc.info(id).unwrap().state, WalletState::Closed);

    let r = esc.handle(buyer, EscrowAction::Confirm(id));
    assert_eq!(r.unwrap_err(), EscrowError::InvalidState);
}

#[test]
fn failed_then_fresh_deposit_scenario() {
    let mut esc = engine();
    let buyer = account(1);
    let seller = account(2);
    esc.create(buyer, buyer, seller, 10).unwrap();
    let ev = esc.create(buyer, buyer, seller, 20).unwrap();
    assert_eq!(ev, EscrowEvent::Created(account(1)));
    let id = account(1);

    let req = esc.deposit(buyer, id).unwrap();
    assert_eq!(settle(&mut esc, &req, 60, false), EscrowEvent::TransactionFailed);
    assert_eq!(esc.info(id).unwrap().state, WalletState::AwaitingDeposit);

    let retry = esc.deposit(buyer, id).unwrap();
    assert!(retry.tx_id > req.tx_id);
    assert_eq!(
        settle(&mut esc, &retry, 61, true),
        EscrowEvent::Deposited(retry.tx_id, id)
    );
}

#[test]
fn failed_confirm_retains_record_for_continue() {
    let (mut esc, id, buyer, _seller) = engine_with_wallet();
    let req = esc.deposit(buyer, id).unwrap();
    settle(&mut esc, &req, 50, true);
    let req = esc.confirm(buyer, id).unwrap();
    assert_eq!(settle(&mut esc, &req, 51, false), EscrowEvent::TransactionFailed);
    assert_eq!(esc.signal_state.get(51).unwrap().state, ReconciliationState::Panicked);
    // the record is retained: continue re-issues the same confirm transfer
    let step = esc.continue_transaction(req.tx_id).unwrap();
    match step {
        Step::Transfer(req2) => assert_eq!(req2, req),
        _ => panic!("expected a transfer step"),
    }
}

#[test]
fn finish_on_unknown_call_is_not_found() {
    let mut esc = engine();
    assert_eq!(esc.finish(12345, true).unwrap_err(), EscrowError::NotFound);
}

#[test]
fn dispatch_bookkeeping_states() {
    let (mut esc, id, buyer, _seller) = engine_with_wallet();
    let req = esc.deposit(buyer, id).unwrap();
    esc.dispatched(req.tx_id, 80);
    assert_eq!(esc.signal_state.get(80).unwrap().state, ReconciliationState::Normal);
    assert_eq!(esc.signal_state.get(80).unwrap().tx_id, req.tx_id);
    esc.finish(80, true).unwrap();
    assert_eq!(esc.signal_state.get(80).unwrap().state, ReconciliationState::Normal);
    // the entry outlives the settled transaction as a bookkeeping trail
    assert!(esc.transactions.lookup(req.tx_id).is_none());
    // a hook on an untracked call does nothing
    assert!(esc.handle_signal(9999).is_none());
}

#[test]
fn meta_state_queries() {
    let (esc, id, buyer, seller) = engine_with_wallet();
    match esc.meta_state(EscrowState::Info(id)).unwrap() {
        EscrowStateReply::Info(w) => {
            assert_eq!(w.buyer, buyer);
            assert_eq!(w.seller, seller);
            assert_eq!(w.amount, 100);
            assert_eq!(w.state, WalletState::AwaitingDeposit);
        },
        _ => panic!("expected an Info reply"),
    }
    assert_eq!(
        esc.meta_state(EscrowState::Info(account(5))).unwrap_err(),
        EscrowError::NotFound
    );
    match esc.meta_state(EscrowState::CreatedWallets).unwrap() {
        EscrowStateReply::CreatedWallets(v) => {
            assert_eq!(v.len(), 1);
            assert_eq!(v[0].0, id);
            assert_eq!(v[0].1.amount, 100);
        },
        _ => panic!("expected a CreatedWallets reply"),
    }
}

#[test]
fn uint256_successor_carries_across_limbs() {
    let a = Uint256 { limb0: u64::MAX, limb1: 0, limb2: 0, limb3: 0 };
    let b = a.succ_saturating();
    assert_eq!(b, Uint256 { limb0: 0, limb1: 1, limb2: 0, limb3: 0 });
    let c = Uint256 { limb0: u64::MAX, limb1: u64::MAX, limb2: u64::MAX, limb3: 7 };
    let d = c.succ_saturating();
    assert_eq!(d, Uint256 { limb0: 0, limb1: 0, limb2: 0, limb3: 8 });
    let top = Uint256 { limb0: u64::MAX, limb1: u64::MAX, limb2: u64::MAX, limb3: u64::MAX };
    assert_eq!(top.succ_saturating(), top);
    assert!(Uint256::zero().is_zero());
    assert!(!Uint256::from_u64(3).is_zero());
    assert_eq!(Uint256::from_u64(3).succ_saturating(), Uint256::from_u64(4));
}
