use vstd::prelude::*;
use crate::errors::SwapError;
use crate::handlers::{faucet_step, initialize_step, swap_step, Faucet, Initialize, Swap};
use crate::pool::{PoolSlot, SwapPool};

verus! {

/// Law: initialization is first-write-wins. On an empty slot a signed
/// `initialize` succeeds and fills the slot; on the slot it leaves behind,
/// every further `initialize` fails with `AlreadyInitialized` and changes
/// nothing, whatever its arguments.
pub proof fn law_initialize_once(slot: PoolSlot, first: Initialize, second: Initialize)
    requires
        slot.record is None,
        first.owner.signed,
        first.token_a_mint != first.token_b_mint,
    ensures
        initialize_step(slot, first).1 == Ok::<(), SwapError>(()),
        initialize_step(slot, first).0.record is Some,
        initialize_step(initialize_step(slot, first).0, second).1
            == Err::<(), SwapError>(SwapError::AlreadyInitialized),
        initialize_step(initialize_step(slot, first).0, second).0
            == initialize_step(slot, first).0,
{
}

/// Law: conservation. A swap that commits creates and destroys nothing:
/// per token, what the user's account loses the matching reserve gains and
/// what the paying reserve loses the user's account gains, so the total
/// held by the four accounts together is unchanged.
pub proof fn law_swap_conserves(pool: SwapPool, ctx: Swap, amount: u64)
    requires
        swap_step(pool, ctx, amount).1 is Ok,
        ctx.pool_from_account.balance + amount <= u64::MAX,
        ctx.user_to_account.balance + amount <= u64::MAX,
    ensures
        swap_step(pool, ctx, amount).0.user_from_account.balance
            + swap_step(pool, ctx, amount).0.pool_from_account.balance
            == ctx.user_from_account.balance + ctx.pool_from_account.balance,
        swap_step(pool, ctx, amount).0.pool_to_account.balance
            + swap_step(pool, ctx, amount).0.user_to_account.balance
            == ctx.pool_to_account.balance + ctx.user_to_account.balance,
        swap_step(pool, ctx, amount).0.user_from_account.balance
            + swap_step(pool, ctx, amount).0.user_to_account.balance
            + swap_step(pool, ctx, amount).0.pool_from_account.balance
            + swap_step(pool, ctx, amount).0.pool_to_account.balance
            == ctx.user_from_account.balance + ctx.user_to_account.balance
            + ctx.pool_from_account.balance + ctx.pool_to_account.balance,
{
}

/// Law: authority enforcement for the faucet. Whenever the supplied owner
/// signer is present but its key differs from the registry's stored owner,
/// `faucet` rejects with `Unauthorized` for every amount and moves nothing.
pub proof fn law_faucet_authority(pool: SwapPool, ctx: Faucet, amount: u64)
    requires
        ctx.owner.signed,
        ctx.owner.key != pool.owner,
    ensures
        faucet_step(pool, ctx, amount).1 == Err::<(), SwapError>(SwapError::Unauthorized),
        faucet_step(pool, ctx, amount).0 == ctx,
{
}

/// Law: authority enforcement for the owner leg of a swap. Whenever both
/// signers are present but the owner signer's key differs from the
/// registry's stored owner, `swap` rejects with `Unauthorized` for every
/// amount and moves nothing.
pub proof fn law_swap_authority(pool: SwapPool, ctx: Swap, amount: u64)
    requires
        ctx.user.signed,
        ctx.owner.signed,
        ctx.owner.key != pool.owner,
    ensures
        swap_step(pool, ctx, amount).1 == Err::<(), SwapError>(SwapError::Unauthorized),
        swap_step(pool, ctx, amount).0 == ctx,
{
}

/// Law: atomicity. If the paying reserve cannot cover the amount, the swap
/// rejects and the outbound leg's failure takes the inbound leg with it:
/// none of the four accounts changes at all.
pub proof fn law_swap_atomic(pool: SwapPool, ctx: Swap, amount: u64)
    requires
        ctx.pool_to_account.balance < amount,
    ensures
        swap_step(pool, ctx, amount).1 is Err,
        swap_step(pool, ctx, amount).0 == ctx,
{
}

/// Law: fixed 1:1 rate. A swap that commits credits the user's destination
/// with exactly the requested amount — never scaled, never fee-adjusted —
/// and debits the user's source by exactly that amount.
pub proof fn law_swap_fixed_rate(pool: SwapPool, ctx: Swap, amount: u64)
    requires
        swap_step(pool, ctx, amount).1 is Ok,
        ctx.user_to_account.balance + amount <= u64::MAX,
    ensures
        swap_step(pool, ctx, amount).0.user_to_account.balance
            == ctx.user_to_account.balance + amount,
        swap_step(pool, ctx, amount).0.user_from_account.balance
            == ctx.user_from_account.balance - amount,
{
}

} // verus!
