use vstd::prelude::*;
use crate::errors::SwapError;

verus! {

/// An identity taking part in a call, together with whether a valid
/// signature for it accompanies the call.
#[derive(Clone, Copy, Debug, PartialEq, Eq, Structural)]
pub struct Signer {
    /// The identity's address.
    pub key: u64,
    /// Whether this identity has cryptographically proven control of its
    /// key for the current call.
    pub signed: bool,
}

/// A ledger account holding a balance of one token type, debitable only by
/// its owning authority.
#[derive(Clone, Copy, Debug, PartialEq, Eq, Structural)]
pub struct TokenAccount {
    /// The account's own address.
    pub address: u64,
    /// The token type the account holds.
    pub mint: u64,
    /// The identity authorized to debit the account.
    pub owner: u64,
    /// The current balance.
    pub balance: u64,
}

/// The account as it stands after `amount` units leave it.
pub open spec fn debited(a: TokenAccount, amount: u64) -> TokenAccount {
    TokenAccount { balance: (a.balance - amount) as u64, ..a }
}

/// The account as it stands after `amount` units reach it.
pub open spec fn credited(a: TokenAccount, amount: u64) -> TokenAccount {
    TokenAccount { balance: (a.balance + amount) as u64, ..a }
}

/// Whether the token-accounting service accepts a transfer of `amount` out
/// of `from` under `authority`: the authority has signed, it owns the source
/// account, and the source balance covers the amount.
pub open spec fn transfer_allowed(from: TokenAccount, authority: Signer, amount: u64) -> bool {
    authority.signed && authority.key == from.owner && from.balance >= amount
}

/// The rejection the token-accounting service reports for a transfer it does
/// not accept: a missing signature first, then a wrong authority, then a
/// short balance.
pub open spec fn transfer_rejection(from: TokenAccount, authority: Signer, amount: u64) -> SwapError {
    if !authority.signed {
        SwapError::MissingSignature
    } else if authority.key != from.owner {
        SwapError::Unauthorized
    } else {
        SwapError::InsufficientFunds
    }
}

/// The transfer primitive: moves exactly `amount` units from `from` to `to`
/// under `authority`, or rejects the call and leaves both accounts
/// untouched. Each call is atomic and exactly-once; there is no partial
/// transfer.
pub fn transfer(
    from: &mut TokenAccount,
    to: &mut TokenAccount,
    authority: Signer,
    amount: u64,
) -> (r: Result<(), SwapError>)
    requires
        old(to).balance + amount <= u64::MAX,
    ensures
        r is Ok <==> transfer_allowed(*old(from), authority, amount),
        r is Ok ==> r == Ok::<(), SwapError>(()),
        r is Ok ==> *final(from) == debited(*old(from), amount)
            && *final(to) == credited(*old(to), amount),
        r is Err ==> *final(from) == *old(from) && *final(to) == *old(to)
            && r == Err::<(), SwapError>(transfer_rejection(*old(from), authority, amount)),
{
    if !authority.signed {
        return Err(SwapError::MissingSignature);
    }
    if authority.key != from.owner {
        return Err(SwapError::Unauthorized);
    }
    if from.balance < amount {
        return Err(SwapError::InsufficientFunds);
    }
    from.balance = from.balance - amount;
    to.balance = to.balance + amount;
    Ok(())
}

} // verus!
