//! A creator's collectible collection, as registered with the protocol.

use vstd::prelude::*;

verus! {

/// Registry record of one creator's membership collection.
pub struct CreatorCollection {
    /// Wallet key of the creator the collection belongs to.
    pub creator: u64,
    /// Key of the collection's mint.
    pub collection_mint: u64,
    /// Key of the collection's metadata record.
    pub collection_metadata: u64,
    /// Key of the collection's master edition record.
    pub collection_master_edition: u64,
    /// Number of collectibles issued under the collection.
    pub total_supply: u64,
    /// When the collection was registered.
    pub created_at: i64,
}

} // verus!
