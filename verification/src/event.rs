use vstd::prelude::*;

use crate::account::AccountId;

verus! {

/// Announces that units moved. Construction emits the one Transfer whose
/// `from` is `None`: the minting of the initial supply.
#[derive(Clone, Copy, Debug, PartialEq, Eq)]
pub struct Transfer {
    pub from: Option<AccountId>,
    pub to: Option<AccountId>,
    pub value: u128,
}

/// Announces that an owner set a spender's allowance.
#[derive(Clone, Copy, Debug, PartialEq, Eq)]
pub struct Approve {
    pub owner: AccountId,
    pub spender: AccountId,
    pub value: u128,
}

/// One entry of the ledger's event stream, in the order the operations
/// emitted them; the host forwards them to outside observers.
#[derive(Clone, Copy, Debug, PartialEq, Eq)]
pub enum Event {
    Transfer(Transfer),
    Approve(Approve),
}

} // verus!
