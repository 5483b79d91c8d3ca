use vstd::prelude::*;
use crate::accounts::{
    credited, debited, transfer, transfer_allowed, transfer_rejection, Signer, TokenAccount,
};
use crate::errors::SwapError;
use crate::pool::{PoolSlot, SwapPool};

verus! {

// ---------------------------------------------------------------------------
// Initialize
// ---------------------------------------------------------------------------

/// The inputs of `initialize`: the two token types the pool will trade, the
/// two reserve accounts holding its liquidity, and the caller that is to
/// become the pool's permanent owner.
#[derive(Clone, Copy, Debug)]
pub struct Initialize {
    /// The first token type.
    pub token_a_mint: u64,
    /// The second token type; must differ from the first.
    pub token_b_mint: u64,
    /// The address of the reserve account for token A.
    pub token_a_account: u64,
    /// The address of the reserve account for token B.
    pub token_b_account: u64,
    /// The initializing caller; its key becomes the pool's owner.
    pub owner: Signer,
}

/// The record `initialize` writes: all five registry fields taken from the
/// supplied inputs, with the initializing caller as the permanent owner.
pub open spec fn initialized_pool(ctx: Initialize) -> SwapPool {
    SwapPool {
        token_a_mint: ctx.token_a_mint,
        token_b_mint: ctx.token_b_mint,
        token_a_account: ctx.token_a_account,
        token_b_account: ctx.token_b_account,
        owner: ctx.owner.key,
    }
}

/// What `initialize` does to a slot: an occupied slot rejects every further
/// attempt (first write wins), an unsigned caller is rejected, and otherwise
/// the slot is filled with the record built from the inputs.
pub open spec fn initialize_step(slot: PoolSlot, ctx: Initialize) -> (PoolSlot, Result<(), SwapError>) {
    if slot.record is Some {
        (slot, Err(SwapError::AlreadyInitialized))
    } else if !ctx.owner.signed {
        (slot, Err(SwapError::MissingSignature))
    } else {
        (PoolSlot { record: Some(initialized_pool(ctx)) }, Ok(()))
    }
}

/// Create the pool registry record, exactly once per slot.
///
/// No token moves here. The slot check comes first, so re-initialization
/// fails with `AlreadyInitialized` whatever the arguments; a caller that has
/// not signed fails with `MissingSignature`. On success the slot holds the
/// record built from the inputs, the caller is the permanent owner, and the
/// two token types are distinct.
pub fn initialize(slot: &mut PoolSlot, ctx: &Initialize) -> (r: Result<(), SwapError>)
    requires
        ctx.token_a_mint != ctx.token_b_mint,
    ensures
        *final(slot) == initialize_step(*old(slot), *ctx).0,
        r == initialize_step(*old(slot), *ctx).1,
        r is Ok <==> old(slot).record is None && ctx.owner.signed,
        r is Ok ==> final(slot).record == Some(initialized_pool(*ctx))
            && initialized_pool(*ctx).wf()
            && initialized_pool(*ctx).owner == ctx.owner.key,
        r is Err ==> *final(slot) == *old(slot),
{
    if slot.is_initialized() {
        return Err(SwapError::AlreadyInitialized);
    }
    if !ctx.owner.signed {
        return Err(SwapError::MissingSignature);
    }
    let pool = SwapPool {
        token_a_mint: ctx.token_a_mint,
        token_b_mint: ctx.token_b_mint,
        token_a_account: ctx.token_a_account,
        token_b_account: ctx.token_b_account,
        owner: ctx.owner.key,
    };
    slot.record = Some(pool);
    Ok(())
}

// ---------------------------------------------------------------------------
// Faucet
// ---------------------------------------------------------------------------

/// The accounts and signer of `faucet`: the pool reserve paying out, the
/// destination account, and the pool owner authorizing the hand-out.
///
/// The handler checks the signer against the registry's stored owner but
/// trusts the caller to supply a reserve account that belongs to the pool;
/// it does not cross-check the reserve's address against the registry.
#[derive(Clone, Copy, Debug)]
pub struct Faucet {
    /// The pool reserve the tokens leave.
    pub pool_token_account: TokenAccount,
    /// The account the tokens reach.
    pub user_token_account: TokenAccount,
    /// The pool owner authorizing the outbound transfer.
    pub owner: Signer,
}

/// Whether `faucet` accepts: the owner signer is present, matches the
/// registry's stored owner, owns the supplied reserve account, and the
/// reserve balance covers the amount.
pub open spec fn faucet_allowed(pool: SwapPool, ctx: Faucet, amount: u64) -> bool {
    ctx.owner.signed && ctx.owner.key == pool.owner
        && transfer_allowed(ctx.pool_token_account, ctx.owner, amount)
}

/// The rejection `faucet` reports: a missing signature first, then an owner
/// mismatch against the registry, then the transfer primitive's own
/// rejection of the reserve-to-destination leg.
pub open spec fn faucet_rejection(pool: SwapPool, ctx: Faucet, amount: u64) -> SwapError {
    if !ctx.owner.signed {
        SwapError::MissingSignature
    } else if ctx.owner.key != pool.owner {
        SwapError::Unauthorized
    } else {
        transfer_rejection(ctx.pool_token_account, ctx.owner, amount)
    }
}

/// What `faucet` does to its accounts: on acceptance exactly `amount` units
/// move from the reserve to the destination; on rejection nothing changes.
pub open spec fn faucet_step(pool: SwapPool, ctx: Faucet, amount: u64) -> (Faucet, Result<(), SwapError>) {
    if faucet_allowed(pool, ctx, amount) {
        (
            (Faucet {
                pool_token_account: debited(ctx.pool_token_account, amount),
                user_token_account: credited(ctx.user_token_account, amount),
                ..ctx
            }),
            Ok(()),
        )
    } else {
        (ctx, Err(faucet_rejection(pool, ctx, amount)))
    }
}

/// Hand `amount` units out of a pool reserve to a destination account,
/// authorized by the pool owner.
///
/// The owner's signature and its match against the registry's stored owner
/// are checked before the single reserve-to-destination transfer. On success
/// exactly `amount` units moved and no registry field changed; on any error
/// both accounts are untouched. A zero amount is degenerate and outside the
/// operation's domain: callers reject it at the validation boundary.
pub fn faucet(pool: &SwapPool, ctx: &mut Faucet, amount: u64) -> (r: Result<(), SwapError>)
    requires
        amount > 0,
        old(ctx).user_token_account.balance + amount <= u64::MAX,
    ensures
        *final(ctx) == faucet_step(*pool, *old(ctx), amount).0,
        r == faucet_step(*pool, *old(ctx), amount).1,
        r is Ok <==> faucet_allowed(*pool, *old(ctx), amount),
        r is Ok ==> final(ctx).pool_token_account == debited(old(ctx).pool_token_account, amount)
            && final(ctx).user_token_account == credited(old(ctx).user_token_account, amount),
        r is Err ==> *final(ctx) == *old(ctx),
{
    if !ctx.owner.signed {
        return Err(SwapError::MissingSignature);
    }
    if ctx.owner.key != pool.owner {
        return Err(SwapError::Unauthorized);
    }
    let owner = ctx.owner;
    transfer(&mut ctx.pool_token_account, &mut ctx.user_token_account, owner, amount)
}

// ---------------------------------------------------------------------------
// Swap
// ---------------------------------------------------------------------------

/// The accounts and signers of `swap`: the end user sending one token and
/// receiving the other, the two pool reserves on the matching sides, and
/// the pool owner authorizing the outbound leg.
///
/// The handler checks both signatures and the owner against the registry,
/// but trusts the caller to supply a coherent account wiring; it does not
/// cross-check the reserves' addresses or token types against the registry.
#[derive(Clone, Copy, Debug)]
pub struct Swap {
    /// The end user initiating the swap.
    pub user: Signer,
    /// The user's account the sent tokens leave.
    pub user_from_account: TokenAccount,
    /// The user's account the received tokens reach.
    pub user_to_account: TokenAccount,
    /// The pool reserve receiving the sent tokens.
    pub pool_from_account: TokenAccount,
    /// The pool reserve paying out the received tokens.
    pub pool_to_account: TokenAccount,
    /// The pool owner authorizing the pool-to-user leg.
    pub owner: Signer,
}

/// Whether `swap` accepts: both signers are present, the owner signer
/// matches the registry's stored owner, the user authorizes and covers the
/// inbound leg, and the owner authorizes and the paying reserve covers the
/// outbound leg.
pub open spec fn swap_allowed(pool: SwapPool, ctx: Swap, amount: u64) -> bool {
    ctx.user.signed && ctx.owner.signed && ctx.owner.key == pool.owner
        && transfer_allowed(ctx.user_from_account, ctx.user, amount)
        && transfer_allowed(ctx.pool_to_account, ctx.owner, amount)
}

/// The rejection `swap` reports: a missing signature first, then an owner
/// mismatch against the registry, then the inbound leg's rejection, then
/// the outbound leg's.
pub open spec fn swap_rejection(pool: SwapPool, ctx: Swap, amount: u64) -> SwapError {
    if !ctx.user.signed || !ctx.owner.signed {
        SwapError::MissingSignature
    } else if ctx.owner.key != pool.owner {
        SwapError::Unauthorized
    } else if !transfer_allowed(ctx.user_from_account, ctx.user, amount) {
        transfer_rejection(ctx.user_from_account, ctx.user, amount)
    } else {
        transfer_rejection(ctx.pool_to_account, ctx.owner, amount)
    }
}

/// What `swap` does to its four accounts: on acceptance the user's source
/// loses `amount`, the receiving reserve gains `amount`, the paying reserve
/// loses `amount`, and the user's destination gains `amount`; on rejection
/// nothing changes on any account.
pub open spec fn swap_step(pool: SwapPool, ctx: Swap, amount: u64) -> (Swap, Result<(), SwapError>) {
    if swap_allowed(pool, ctx, amount) {
        (
            (Swap {
                user_from_account: debited(ctx.user_from_account, amount),
                pool_from_account: credited(ctx.pool_from_account, amount),
                pool_to_account: debited(ctx.pool_to_account, amount),
                user_to_account: credited(ctx.user_to_account, amount),
                ..ctx
            }),
            Ok(()),
        )
    } else {
        (ctx, Err(swap_rejection(pool, ctx, amount)))
    }
}

/// Exchange `amount` units of one of the pool's tokens for the same amount
/// of the other, at a fixed 1:1 rate with no fee.
///
/// The protocol is two transfers: the inbound leg moves `amount` from the
/// user's source into the receiving reserve under the user's signature, the
/// outbound leg moves `amount` from the paying reserve into the user's
/// destination under the pool owner's signature. Every condition of both
/// legs is checked before either balance moves, so the operation is atomic:
/// it commits both legs or leaves all four accounts untouched.
pub fn swap(pool: &SwapPool, ctx: &mut Swap, amount: u64) -> (r: Result<(), SwapError>)
    requires
        old(ctx).pool_from_account.balance + amount <= u64::MAX,
        old(ctx).user_to_account.balance + amount <= u64::MAX,
    ensures
        *final(ctx) == swap_step(*pool, *old(ctx), amount).0,
        r == swap_step(*pool, *old(ctx), amount).1,
        r is Ok <==> swap_allowed(*pool, *old(ctx), amount),
        r is Ok ==> final(ctx).user_from_account == debited(old(ctx).user_from_account, amount)
            && final(ctx).pool_from_account == credited(old(ctx).pool_from_account, amount)
            && final(ctx).pool_to_account == debited(old(ctx).pool_to_account, amount)
            && final(ctx).user_to_account == credited(old(ctx).user_to_account, amount),
        r is Err ==> *final(ctx) == *old(ctx),
{
    if !ctx.user.signed || !ctx.owner.signed {
        return Err(SwapError::MissingSignature);
    }
    if ctx.owner.key != pool.owner {
        return Err(SwapError::Unauthorized);
    }
    // Stage both legs: every condition either transfer will check is
    // decided here, before any balance moves, so a late failure cannot
    // leave the inbound leg half-committed.
    if ctx.user.key != ctx.user_from_account.owner {
        return Err(SwapError::Unauthorized);
    }
    if ctx.user_from_account.balance < amount {
        return Err(SwapError::InsufficientFunds);
    }
    if ctx.owner.key != ctx.pool_to_account.owner {
        return Err(SwapError::Unauthorized);
    }
    if ctx.pool_to_account.balance < amount {
        return Err(SwapError::InsufficientFunds);
    }
    let user = ctx.user;
    let owner = ctx.owner;
    let leg_in = transfer(&mut ctx.user_from_account, &mut ctx.pool_from_account, user, amount);
    match leg_in {
        Err(e) => {
            return Err(e);
        },
        Ok(()) => {},
    }
    let leg_out = transfer(&mut ctx.pool_to_account, &mut ctx.user_to_account, owner, amount);
    match leg_out {
        Err(e) => {
            return Err(e);
        },
        Ok(()) => {},
    }
    Ok(())
}

} // verus!
