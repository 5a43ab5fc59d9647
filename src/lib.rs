//! A minimal token ledger: per-account balances, a total-supply counter kept
//! equal to their sum, and an authorized mint transition that credits both.
pub mod ledger;
pub mod origin;
pub mod pallet;
pub mod reward;

pub use ledger::{AccountId, ArithmeticPolicy, Ledger, LedgerError};
pub use origin::Origin;
pub use pallet::{MintError, Pallet};
