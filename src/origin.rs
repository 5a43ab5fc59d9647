//! Caller identities handed to the ledger by the host that dispatches calls.
use vstd::prelude::*;
use crate::ledger::AccountId;

verus! {

/// Who issued a call, as established by the host before the call reaches the ledger.
#[derive(Clone, Copy, Debug, PartialEq, Eq, Structural)]
pub enum Origin {
    /// A call whose signature the host has verified, on behalf of this account.
    Signed(AccountId),
    /// A privileged system call that carries no account identity.
    Root,
    /// A call that arrived without any verified identity.
    Unsigned,
}

/// The origin carries no verified account identity.
#[derive(Clone, Copy, Debug, PartialEq, Eq, Structural)]
pub enum BadOrigin {
    NotSigned,
}

/// The origin carries a verified account identity.
pub open spec fn is_signed(origin: Origin) -> bool {
    origin is Signed
}

/// The account that signed the call, or `BadOrigin` for any other origin.
pub fn ensure_signed(origin: Origin) -> (r: Result<AccountId, BadOrigin>)
    ensures
        match origin {
            Origin::Signed(who) => r == Ok::<AccountId, BadOrigin>(who),
            _ => r == Err::<AccountId, BadOrigin>(BadOrigin::NotSigned),
        },
{
    match origin {
        Origin::Signed(who) => Ok(who),
        _ => Err(BadOrigin::NotSigned),
    }
}

} // verus!
