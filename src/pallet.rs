//! The mint transition: the authorized entry point that credits new tokens.
use vstd::prelude::*;
use crate::ledger::{
    AccountId, ArithmeticPolicy, Ledger, LedgerError, credited, lemma_credit_keeps_wf, sum_balances,
    unchanged,
};
use crate::origin::{Origin, ensure_signed, is_signed};

verus! {

/// Why a mint was refused.
#[derive(Clone, Copy, Debug, PartialEq, Eq, Structural)]
pub enum MintError {
    /// The call carried no verified caller identity.
    Unauthorized,
    /// The ledger refused the credit.
    Ledger(LedgerError),
}

/// The ledger state of one runtime instance, with the mint transition over it.
pub struct Pallet {
    ledger: Ledger,
}

impl Pallet {
    /// The ledger state that this instance holds.
    pub closed spec fn state(&self) -> Ledger {
        self.ledger
    }

    /// The held ledger keeps its supply equal to the clamped sum of its balances.
    pub open spec fn wf(&self) -> bool {
        self.state().wf()
    }

    /// A ledger at genesis with saturating arithmetic: supply zero, no balances.
    pub fn new() -> (r: Pallet)
        ensures
            r.wf(),
            r.state().supply() == 0,
            r.state().balances() == Map::<AccountId, u64>::empty(),
            r.state().policy() == ArithmeticPolicy::Saturating,
    {
        Pallet { ledger: Ledger::new(ArithmeticPolicy::Saturating) }
    }

    /// A ledger at genesis with the given overflow policy.
    pub fn with_policy(policy: ArithmeticPolicy) -> (r: Pallet)
        ensures
            r.wf(),
            r.state().supply() == 0,
            r.state().balances() == Map::<AccountId, u64>::empty(),
            r.state().policy() == policy,
    {
        Pallet { ledger: Ledger::new(policy) }
    }

    /// Read access to the ledger store.
    pub fn ledger(&self) -> (r: &Ledger)
        ensures
            *r == self.state(),
    {
        &self.ledger
    }

    /// The balance of `account`, zero if it was never credited.
    pub fn get_balance(&self, account: AccountId) -> (r: u64)
        ensures
            r == self.state().balance(account),
    {
        self.ledger.get_balance(account)
    }

    /// The current total supply.
    pub fn get_total_supply(&self) -> (r: u64)
        ensures
            r == self.state().supply(),
    {
        self.ledger.get_total_supply()
    }

    /// Mints `amount` new tokens to `to` on behalf of `origin`.
    ///
    /// Any signed origin may mint to any account. Any other origin is refused
    /// with `Unauthorized`; a credit that the ledger refuses surfaces as
    /// `MintError::Ledger`. A refused mint leaves the state as it was.
    pub fn mint(&mut self, origin: Origin, to: AccountId, amount: u64) -> (r: Result<
        (),
        MintError,
    >)
        requires
            old(self).wf(),
        ensures
            final(self).wf(),
            r is Ok <==> is_signed(origin) && !(old(self).state().policy()
                == ArithmeticPolicy::Checked && old(self).state().supply() + amount > u64::MAX),
            r is Ok ==> credited(old(self).state(), final(self).state(), to, amount),
            !is_signed(origin) ==> r == Err::<(), MintError>(MintError::Unauthorized),
            is_signed(origin) && r is Err ==> r == Err::<(), MintError>(
                MintError::Ledger(LedgerError::Overflow),
            ),
            r is Err ==> unchanged(old(self).state(), final(self).state()),
    {
        if ensure_signed(origin).is_err() {
            return Err(MintError::Unauthorized);
        }
        match self.ledger.credit(to, amount) {
            Ok(()) => Ok(()),
            Err(e) => Err(MintError::Ledger(e)),
        }
    }
}

/// A successful mint on a ledger whose supply equals the sum of its balances
/// keeps it so, unless the supply reaches the `u64` ceiling.
pub proof fn lemma_mint_keeps_supply_equal_to_sum(
    pre: Ledger,
    post: Ledger,
    to: AccountId,
    amount: u64,
)
    requires
        pre.wf(),
        pre.supply() == sum_balances(pre.balances()),
        credited(pre, post, to, amount),
        pre.supply() + amount <= u64::MAX,
    ensures
        post.wf(),
        post.supply() == sum_balances(post.balances()),
{
    lemma_credit_keeps_wf(pre, post, to, amount);
}

/// Minting is not idempotent: minting the same `amount` to the same account
/// twice adds `amount` to its balance and to the supply on each call, as long
/// as the supply stays below the `u64` ceiling.
pub proof fn lemma_mint_twice_adds_twice(
    s0: Ledger,
    s1: Ledger,
    s2: Ledger,
    to: AccountId,
    amount: u64,
)
    requires
        s0.wf(),
        credited(s0, s1, to, amount),
        credited(s1, s2, to, amount),
        s0.supply() + 2 * amount <= u64::MAX,
    ensures
        s1.balance(to) == s0.balance(to) + amount,
        s1.supply() == s0.supply() + amount,
        s2.balance(to) == s1.balance(to) + amount,
        s2.supply() == s1.supply() + amount,
        amount > 0 ==> s2.balance(to) != s1.balance(to) && s2.supply() != s1.supply(),
{
    lemma_credit_keeps_wf(s0, s1, to, amount);
    lemma_credit_keeps_wf(s1, s2, to, amount);
}

/// A mint that would take a balance past `u64::MAX` clamps that balance, and
/// the supply, to `u64::MAX`: the supply grows only by what the balance could
/// still take, never wraps and never shrinks.
pub proof fn lemma_mint_saturates_at_ceiling(pre: Ledger, post: Ledger, to: AccountId, amount: u64)
    requires
        pre.wf(),
        credited(pre, post, to, amount),
        pre.balance(to) + amount > u64::MAX,
    ensures
        post.balance(to) == u64::MAX,
        post.supply() == u64::MAX,
        pre.supply() <= post.supply(),
        post.supply() - pre.supply() <= u64::MAX - pre.balance(to),
{
    lemma_credit_keeps_wf(pre, post, to, amount);
}

} // verus!
