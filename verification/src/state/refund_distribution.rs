//! A holder's share of a rejected claim's refund.

use vstd::prelude::*;

use crate::addresses::Address;

verus! {

/// One collectible holder's computed share of a refund.
///
/// An outside orchestrator enumerates the eligible holders of a rejected
/// claim, computes each share, and records it here before the vault pays
/// it out holder by holder.
pub struct RefundDistribution {
    /// Address of the claim the refund settles.
    pub claim: Address,
    /// Wallet key of the holder receiving this share.
    pub nft_holder: u64,
    /// Key of the collectible that entitles the holder to the share.
    pub nft_mint: u64,
    /// Amount owed to the holder.
    pub refund_amount: u64,
    /// Whether the share has been paid out.
    pub is_claimed: bool,
    /// When the share was computed.
    pub calculated_at: i64,
}

} // verus!
