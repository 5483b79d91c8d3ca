use vstd::prelude::*;

verus! {

/// The reasons an operation is rejected. Every failure aborts the whole
/// operation: no partial balance change and no registry change is ever
/// observable after an error.
#[derive(Clone, Copy, Debug, PartialEq, Eq, Structural)]
pub enum SwapError {
    /// The registry slot already holds a pool record.
    AlreadyInitialized,
    /// A supplied signer does not match the required authority.
    Unauthorized,
    /// A source account's balance is smaller than the requested amount.
    InsufficientFunds,
    /// A required signer is absent from the call.
    MissingSignature,
}

} // verus!
