//! A fungible-token ledger.
//!
//! A fixed total supply of indivisible units is minted once, at construction,
//! to the constructing account. Holders move units with `transfer`, or grant
//! a spender a capped right to move units on their behalf with `approve` and
//! `transfer_from`. Every mutation preserves two invariants: the sum of all
//! balances equals the total supply, and no balance is ever negative.
//!
//! The ledger consumes an already-authenticated caller identifier from its
//! host context; every mutating operation takes that caller explicitly. The
//! events each operation emits are recorded in order and exposed to the host
//! for transport to outside observers.

mod account;
mod allowances;
mod balances;
mod error;
mod event;
mod ledger;

pub use account::AccountId;
pub use allowances::AllowanceStore;
pub use balances::BalanceStore;
pub use error::Error;
pub use event::Approve;
pub use event::Event;
pub use event::Transfer;
pub use ledger::approve_post;
pub use ledger::balances_shifted;
pub use ledger::transfer_from_post;
pub use ledger::transfer_from_result;
pub use ledger::transfer_post;
pub use ledger::transfer_result;
pub use ledger::Erc20;
