//! The ledger store: sole owner of the total supply and of the account balances.
use std::collections::HashMap;
use vstd::prelude::*;

verus! {

broadcast use vstd::std_specs::hash::group_hash_axioms;

/// Identity of an account, as issued by the surrounding account system.
pub type AccountId = u64;

/// `a + b`, clamped to `u64::MAX`.
pub open spec fn sat_add(a: u64, b: u64) -> u64 {
    if a + b > u64::MAX {
        u64::MAX
    } else {
        (a + b) as u64
    }
}

/// The balance that `m` records for `account`; an account without an entry holds zero.
pub open spec fn balance_in(m: Map<AccountId, u64>, account: AccountId) -> u64 {
    if m.contains_key(account) {
        m[account]
    } else {
        0
    }
}

/// The sum of all balances recorded in `m`.
pub open spec fn sum_balances(m: Map<AccountId, u64>) -> int
    decreases m.dom().len(),
    when m.dom().finite()
{
    if m.dom().len() == 0 {
        0
    } else {
        let k = m.dom().choose();
        m[k] + sum_balances(m.remove(k))
    }
}

/// Taking any one entry out of a finite map lowers its sum by that entry's balance.
pub proof fn lemma_sum_remove(m: Map<AccountId, u64>, k: AccountId)
    requires
        m.dom().finite(),
        m.contains_key(k),
    ensures
        sum_balances(m) == m[k] + sum_balances(m.remove(k)),
    decreases m.dom().len(),
{
    assert(m.dom().len() > 0);
    let j = m.dom().choose();
    if j != k {
        lemma_sum_remove(m.remove(j), k);
        lemma_sum_remove(m.remove(k), j);
        assert(m.remove(j).remove(k) =~= m.remove(k).remove(j));
    }
}

/// Setting the entry of `k` to `v` changes the sum by the difference of the two balances.
pub proof fn lemma_sum_insert(m: Map<AccountId, u64>, k: AccountId, v: u64)
    requires
        m.dom().finite(),
    ensures
        sum_balances(m.insert(k, v)) == sum_balances(m) - balance_in(m, k) + v,
{
    let n = m.insert(k, v);
    lemma_sum_remove(n, k);
    if m.contains_key(k) {
        lemma_sum_remove(m, k);
        assert(n.remove(k) =~= m.remove(k));
    } else {
        assert(n.remove(k) =~= m);
    }
}

/// Every single balance is at most the sum of all of them.
pub proof fn lemma_balance_le_sum(m: Map<AccountId, u64>, k: AccountId)
    requires
        m.dom().finite(),
    ensures
        balance_in(m, k) <= sum_balances(m),
{
    if m.contains_key(k) {
        lemma_sum_remove(m, k);
        lemma_sum_nonneg(m.remove(k));
    } else {
        lemma_sum_nonneg(m);
    }
}

/// A sum of balances is never negative.
pub proof fn lemma_sum_nonneg(m: Map<AccountId, u64>)
    requires
        m.dom().finite(),
    ensures
        sum_balances(m) >= 0,
    decreases m.dom().len(),
{
    if m.dom().len() > 0 {
        lemma_sum_nonneg(m.remove(m.dom().choose()));
    }
}

/// How `credit` treats a sum that would pass `u64::MAX`.
#[derive(Clone, Copy, Debug, PartialEq, Eq, Structural)]
pub enum ArithmeticPolicy {
    /// Clamp the balance and the supply to `u64::MAX`; never fail.
    Saturating,
    /// Refuse the credit with `LedgerError::Overflow` and change nothing.
    Checked,
}

/// Why the ledger refused a credit.
#[derive(Clone, Copy, Debug, PartialEq, Eq, Structural)]
pub enum LedgerError {
    /// Under the checked policy, the credit would take the supply past `u64::MAX`.
    Overflow,
}

/// Total supply and account balances, mutated only through `credit`.
pub struct Ledger {
    total_supply: u64,
    balances: HashMap<AccountId, u64>,
    policy: ArithmeticPolicy,
}

/// `post` is `pre` with `amount` credited to `account` under saturating addition:
/// the account's balance and the supply each grow by `amount`, clamped to `u64::MAX`.
pub open spec fn credited(pre: Ledger, post: Ledger, account: AccountId, amount: u64) -> bool {
    &&& post.supply() == sat_add(pre.supply(), amount)
    &&& post.balances() == pre.balances().insert(account, sat_add(pre.balance(account), amount))
    &&& post.policy() == pre.policy()
}

/// `post` holds the same supply, balances and policy as `pre`.
pub open spec fn unchanged(pre: Ledger, post: Ledger) -> bool {
    &&& post.supply() == pre.supply()
    &&& post.balances() == pre.balances()
    &&& post.policy() == pre.policy()
}

/// Crediting keeps the supply equal to the clamped sum of the balances.
pub proof fn lemma_credit_keeps_wf(pre: Ledger, post: Ledger, account: AccountId, amount: u64)
    requires
        pre.wf(),
        credited(pre, post, account, amount),
    ensures
        post.wf(),
        sum_balances(post.balances()) == sum_balances(pre.balances()) - pre.balance(account)
            + sat_add(pre.balance(account), amount),
        pre.balance(account) <= pre.supply(),
{
    lemma_balance_le_sum(pre.balances(), account);
    lemma_sum_insert(pre.balances(), account, sat_add(pre.balance(account), amount));
}

impl Ledger {
    /// The total-supply counter.
    pub closed spec fn supply(&self) -> u64 {
        self.total_supply
    }

    /// The recorded balances; accounts without an entry hold zero.
    pub closed spec fn balances(&self) -> Map<AccountId, u64> {
        self.balances@
    }

    /// The overflow policy that the ledger was created with.
    pub closed spec fn policy(&self) -> ArithmeticPolicy {
        self.policy
    }

    /// The balance of `account`, zero where it has no entry.
    pub open spec fn balance(&self, account: AccountId) -> u64 {
        balance_in(self.balances(), account)
    }

    /// The supply is the sum of all balances, clamped to `u64::MAX`.
    pub open spec fn wf(&self) -> bool {
        &&& self.balances().dom().finite()
        &&& self.supply() == if sum_balances(self.balances()) > u64::MAX {
            u64::MAX as int
        } else {
            sum_balances(self.balances())
        }
    }

    /// An empty ledger at genesis: no balances and a supply of zero.
    pub fn new(policy: ArithmeticPolicy) -> (r: Ledger)
        ensures
            r.wf(),
            r.supply() == 0,
            r.supply() == sum_balances(r.balances()),
            r.balances() == Map::<AccountId, u64>::empty(),
            r.policy() == policy,
    {
        let r = Ledger { total_supply: 0, balances: HashMap::new(), policy };
        assert(r.balances() =~= Map::<AccountId, u64>::empty());
        r
    }

    /// The balance of `account`, zero if it was never credited.
    pub fn get_balance(&self, account: AccountId) -> (r: u64)
        ensures
            r == self.balance(account),
    {
        match self.balances.get(&account) {
            Some(b) => *b,
            None => 0,
        }
    }

    /// The current total supply.
    pub fn get_total_supply(&self) -> (r: u64)
        ensures
            r == self.supply(),
    {
        self.total_supply
    }

    /// The overflow policy of this ledger.
    pub fn get_policy(&self) -> (r: ArithmeticPolicy)
        ensures
            r == self.policy(),
    {
        self.policy
    }

    /// Credits `amount` to `account` and to the total supply, as one unit.
    ///
    /// Under the saturating policy both sums clamp to `u64::MAX` and the call
    /// always succeeds. Under the checked policy it fails, changing nothing,
    /// exactly when the supply would pass `u64::MAX`; no balance can pass it
    /// without the supply doing so.
    pub fn credit(&mut self, account: AccountId, amount: u64) -> (r: Result<(), LedgerError>)
        requires
            old(self).wf(),
        ensures
            final(self).wf(),
            r is Err <==> (old(self).policy() == ArithmeticPolicy::Checked && old(self).supply()
                + amount > u64::MAX),
            r is Ok ==> credited(*old(self), *final(self), account, amount),
            r is Err ==> r == Err::<(), LedgerError>(LedgerError::Overflow) && *final(self)
                == *old(self),
    {
        let ghost pre = *self;
        proof {
            lemma_balance_le_sum(self.balances@, account);
        }
        let old_balance = self.get_balance(account);
        let new_balance: u64;
        let new_supply: u64;
        match self.policy {
            ArithmeticPolicy::Saturating => {
                new_balance = old_balance.saturating_add(amount);
                new_supply = self.total_supply.saturating_add(amount);
            },
            ArithmeticPolicy::Checked => {
                match (old_balance.checked_add(amount), self.total_supply.checked_add(amount)) {
                    (Some(b), Some(s)) => {
                        new_balance = b;
                        new_supply = s;
                    },
                    _ => {
                        return Err(LedgerError::Overflow);
                    },
                }
            },
        }
        self.balances.insert(account, new_balance);
        self.total_supply = new_supply;
        proof {
            lemma_credit_keeps_wf(pre, *self, account, amount);
        }
        Ok(())
    }
}

} // verus!
