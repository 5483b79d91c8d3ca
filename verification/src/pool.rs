use vstd::prelude::*;

verus! {

/// The pool registry: the persistent record binding two token reserves,
/// their token types, and an administrative owner into one tradable pool.
/// All five fields are written once by `initialize` and never change
/// afterwards; there is no ownership-transfer operation.
#[derive(Clone, Copy, Debug, PartialEq, Eq, Structural)]
pub struct SwapPool {
    /// The token type held by reserve A.
    pub token_a_mint: u64,
    /// The token type held by reserve B.
    pub token_b_mint: u64,
    /// The address of the account holding the pool's reserve of token A.
    pub token_a_account: u64,
    /// The address of the account holding the pool's reserve of token B.
    pub token_b_account: u64,
    /// The identity with administrative authority over the pool: it alone
    /// authorizes faucet hand-outs and the pool-to-user leg of a swap.
    pub owner: u64,
}

impl SwapPool {
    /// The record's invariant: a pool trades two distinct token types.
    pub open spec fn wf(self) -> bool {
        self.token_a_mint != self.token_b_mint
    }
}

/// The storage slot a pool record lives in: empty until `initialize` writes
/// it, occupied from then on. The slot is first-write-wins: `initialize`
/// rejects a slot that already holds a record.
#[derive(Clone, Copy, Debug)]
pub struct PoolSlot {
    /// The record the slot holds, if any.
    pub record: Option<SwapPool>,
}

impl PoolSlot {
    /// A freshly allocated, still unoccupied storage slot.
    pub fn empty() -> (s: PoolSlot)
        ensures
            s.record is None,
    {
        PoolSlot { record: None }
    }

    /// Whether the slot already holds a pool record.
    pub fn is_initialized(&self) -> (b: bool)
        ensures
            b == (self.record is Some),
    {
        self.record.is_some()
    }

    /// Read the pool record out of an occupied slot.
    pub fn get(&self) -> (p: SwapPool)
        requires
            self.record is Some,
        ensures
            Some(p) == self.record,
    {
        self.record.unwrap()
    }
}

} // verus!
