//! The seam through which an outside staking subsystem pays period rewards.
//!
//! What a reward is worth and who receives it is decided outside the ledger;
//! here a computed `(recipient, amount)` is applied as any other mint.
use vstd::prelude::*;
use crate::ledger::{AccountId, ArithmeticPolicy, LedgerError, credited, unchanged};
use crate::origin::Origin;
use crate::pallet::{MintError, Pallet};

verus! {

/// Submits rewards on behalf of the staking subsystem's own signed account.
pub struct RewardFeed {
    authority: AccountId,
}

impl RewardFeed {
    /// The account in whose name rewards are minted.
    pub closed spec fn authority(&self) -> AccountId {
        self.authority
    }

    /// A feed that mints in the name of `authority`.
    pub fn new(authority: AccountId) -> (r: RewardFeed)
        ensures
            r.authority() == authority,
    {
        RewardFeed { authority }
    }

    /// The account in whose name rewards are minted.
    pub fn get_authority(&self) -> (r: AccountId)
        ensures
            r == self.authority(),
    {
        self.authority
    }

    /// Credits `amount`, the reward already computed for one period, to `recipient`.
    pub fn pay(&self, pallet: &mut Pallet, recipient: AccountId, amount: u64) -> (r: Result<
        (),
        MintError,
    >)
        requires
            old(pallet).wf(),
        ensures
            final(pallet).wf(),
            r is Ok <==> !(old(pallet).state().policy() == ArithmeticPolicy::Checked
                && old(pallet).state().supply() + amount > u64::MAX),
            r is Ok ==> credited(old(pallet).state(), final(pallet).state(), recipient, amount),
            r is Err ==> r == Err::<(), MintError>(MintError::Ledger(LedgerError::Overflow))
                && unchanged(old(pallet).state(), final(pallet).state()),
    {
        pallet.mint(Origin::Signed(self.authority), recipient, amount)
    }
}

} // verus!
