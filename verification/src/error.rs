use vstd::prelude::*;

verus! {

/// The two ways an operation can be rejected. Both are ordinary result
/// values: a rejected operation leaves the ledger exactly as it was.
#[derive(Clone, Copy, Debug, PartialEq, Eq, Structural)]
pub enum Error {
    /// A debit would take the source balance below zero.
    InsufficientBalance,
    /// A delegated transfer exceeds the spender's remaining allowance.
    InsufficientAllowance,
}

} // verus!
