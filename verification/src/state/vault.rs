//! The custody vault of a pool, as the engine accounts for it.

use vstd::prelude::*;

use crate::state::creator_pool::CreatorPool;

verus! {

/// Balance sheet of one pool's custody vault.
///
/// The vault is mutated only by the engine's own operations, never by fans
/// or creators directly. `refunded_out` records the funds that left the
/// vault as refund distributions to collectible holders, the one outflow
/// that is not booked on the pool's `total_withdrawn`; keeping it lets the
/// books state exactly where every deposited unit went.
pub struct Vault {
    /// Wallet key of the creator whose pool this vault serves.
    pub creator: u64,
    /// Funds currently held in custody.
    pub balance: u64,
    /// Funds distributed to collectible holders after rejected claims.
    pub refunded_out: u64,
}

/// Custody discipline tying a pool's books to its vault.
///
/// Every unit ever deposited is either still in the vault, withdrawn or
/// paid out against `total_withdrawn`, or distributed to holders as a
/// refund. All balance-moving operations require and preserve this.
pub open spec fn custody_ok(pool: CreatorPool, vault: Vault) -> bool {
    &&& vault.creator == pool.creator
    &&& vault.balance + vault.refunded_out == pool.total_deposited - pool.total_withdrawn
}

} // verus!
