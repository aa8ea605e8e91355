//! The per-creator accounting record.

use vstd::prelude::*;

use crate::addresses::Address;

verus! {

/// Administrative state of a pool.
///
/// A pool is never destroyed; retiring one means moving it to `Closed`.
#[derive(Clone, Copy, Debug, PartialEq, Eq, Structural)]
pub enum PoolStatus {
    Active,
    Paused,
    Closed,
}

/// Accounting record of one creator's escrow pool.
///
/// Exactly one pool exists per creator; its address and its vault's address
/// are both derived from the creator's key.
pub struct CreatorPool {
    /// Wallet key of the creator the pool belongs to.
    pub creator: u64,
    /// Key of the fee-currency mint snapshotted at creation.
    pub usdc_mint: u64,
    /// Address of the custody vault holding the pool's funds.
    pub usdc_vault: Address,
    /// Running total of funds ever booked into the vault.
    pub total_deposited: u64,
    /// Running total of funds ever withdrawn or paid out against the books.
    pub total_withdrawn: u64,
    /// Minimum yes + no votes a claim needs before it can be finalized.
    pub voting_quorum: u64,
    /// Length of each claim's voting window, in seconds.
    pub voting_window: i64,
    /// Administrative state.
    pub status: PoolStatus,
    /// Number of claims ever filed; assigns each claim its ordinal.
    pub claim_count: u64,
}

} // verus!
