use vstd::prelude::*;
use crate::ids::{AccountId, Uint256, WalletId};

verus! {

/// Lifecycle state of an escrow wallet.
#[derive(Clone, Copy, PartialEq, Eq, Structural, Debug)]
pub enum WalletState {
    AwaitingDeposit,
    AwaitingConfirmation,
    Closed,
}

/// An escrow wallet: a buyer, a seller, the agreed transfer amount and the
/// lifecycle state.  `amount` is the contractually agreed transfer size, not
/// a live balance, and never changes after creation.
#[derive(Clone, Copy, PartialEq, Eq, Structural, Debug)]
pub struct Wallet {
    /// The buyer.
    pub buyer: AccountId,
    /// The seller.
    pub seller: AccountId,
    /// The wallet's lifecycle state.
    pub state: WalletState,
    /// The agreed amount of tokens.
    pub amount: u128,
}

/// The table of wallets.  Wallet ids are issued densely from zero, so the
/// wallet with id `n` sits at index `n`; `id_nonce` is the next id to issue.
pub struct WalletStore {
    pub wallets: Vec<Wallet>,
    pub id_nonce: WalletId,
}

impl WalletStore {
    /// The issued-id counter always equals the number of wallets stored:
    /// ids are dense, strictly increasing, and never reused.
    pub open spec fn wf(self) -> bool {
        self.id_nonce.value() == self.wallets@.len()
    }

    /// An empty store.
    pub fn new() -> (r: Self)
        ensures
            r.wf(),
            r.wallets@ =~= Seq::<Wallet>::empty(),
            r.id_nonce.value() == 0,
    {
        WalletStore { wallets: Vec::new(), id_nonce: Uint256::zero() }
    }

    /// Whether a wallet with this id has been created.
    pub open spec fn has_wallet(self, id: WalletId) -> bool {
        id.value() < self.wallets@.len()
    }

    /// The wallet stored under an issued id.
    pub open spec fn wallet_at(self, id: WalletId) -> Wallet {
        self.wallets@[id.value() as int]
    }

    /// Allocates the next wallet id and stores a fresh wallet in
    /// `AwaitingDeposit`; rejected when both parties are the null account.
    pub fn create(&mut self, buyer: AccountId, seller: AccountId, amount: u128) -> (r: Result<
        WalletId,
        crate::engine::EscrowError,
    >)
        requires
            old(self).wf(),
        ensures
            final(self).wf(),
            buyer.value() == 0 && seller.value() == 0 ==> r == Err::<WalletId,
                crate::engine::EscrowError,
            >(crate::engine::EscrowError::InvalidInput) && *final(self) == *old(self),
            !(buyer.value() == 0 && seller.value() == 0) ==> {
                &&& r == Ok::<WalletId, crate::engine::EscrowError>(old(self).id_nonce)
                &&& old(self).id_nonce.value() == old(self).wallets@.len()
                &&& final(self).wallets@ == old(self).wallets@.push(
                    (Wallet { buyer, seller, state: WalletState::AwaitingDeposit, amount }),
                )
                &&& final(self).id_nonce == old(self).id_nonce.spec_succ()
                &&& final(self).id_nonce.value() == old(self).id_nonce.value() + 1
            },
    {
        if buyer.is_zero() && seller.is_zero() {
            return Err(crate::engine::EscrowError::InvalidInput);
        }
        let ghost len_before = self.wallets@.len();
        let n: usize = self.wallets.len();
        let wallet_id = self.id_nonce;
        proof {
            wallet_id.lemma_succ_value();
            assert(wallet_id.value() == n);
            assert(wallet_id.value() < Uint256::max_value());
        }
        self.id_nonce = self.id_nonce.succ_saturating();
        self.wallets.push(Wallet { buyer, seller, state: WalletState::AwaitingDeposit, amount });
        Ok(wallet_id)
    }

    /// Looks a wallet up by id; `NotFound` when the id was never issued.
    pub fn get(&self, id: WalletId) -> (r: Result<Wallet, crate::engine::EscrowError>)
        ensures
            self.has_wallet(id) ==> r == Ok::<Wallet, crate::engine::EscrowError>(
                self.wallet_at(id),
            ),
            !self.has_wallet(id) ==> r == Err::<Wallet, crate::engine::EscrowError>(
                crate::engine::EscrowError::NotFound,
            ),
    {
        let n: usize = self.wallets.len();
        if id.is_below(n as u64) {
            let i = id.limb0 as usize;
            Ok(self.wallets[i])
        } else {
            Err(crate::engine::EscrowError::NotFound)
        }
    }

    /// Replaces the lifecycle state of an existing wallet, leaving its
    /// parties and amount as they were.
    pub fn set_state(&mut self, id: WalletId, state: WalletState) -> (r: Result<
        (),
        crate::engine::EscrowError,
    >)
        requires
            old(self).wf(),
        ensures
            final(self).wf(),
            old(self).has_wallet(id) ==> {
                &&& r == Ok::<(), crate::engine::EscrowError>(())
                &&& final(self).wallets@ == old(self).wallets@.update(
                    id.value() as int,
                    (Wallet { state, ..old(self).wallet_at(id) }),
                )
                &&& final(self).id_nonce == old(self).id_nonce
            },
            !old(self).has_wallet(id) ==> r == Err::<(), crate::engine::EscrowError>(
                crate::engine::EscrowError::NotFound,
            ) && *final(self) == *old(self),
    {
        let n: usize = self.wallets.len();
        if id.is_below(n as u64) {
            let i = id.limb0 as usize;
            let w = self.wallets[i];
            self.wallets.set(i, Wallet { buyer: w.buyer, seller: w.seller, state, amount: w.amount });
            Ok(())
        } else {
            Err(crate::engine::EscrowError::NotFound)
        }
    }

    /// The number of wallets created so far.
    pub fn len(&self) -> (r: usize)
        ensures
            r == self.wallets@.len(),
    {
        self.wallets.len()
    }
}

} // verus!
