//! The protocol-wide configuration record.

use vstd::prelude::*;

verus! {

/// One-time protocol configuration, read when a pool is created.
///
/// Pools snapshot these defaults at creation; nothing re-reads them live
/// afterwards.
pub struct Factory {
    /// Wallet key of the administrator who initialized the protocol.
    pub authority: u64,
    /// Quorum given to pools created without one of their own.
    pub default_quorum: u64,
    /// Voting window given to pools created without one of their own.
    pub default_voting_window: i64,
    /// Percentage of sale revenue kept by the platform.
    pub platform_fee_percentage: u64,
    /// Key of the designated fee-currency mint.
    pub usdc_mint: u64,
}

} // verus!
