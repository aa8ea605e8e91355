//! Ownership record of one collectible.

use vstd::prelude::*;

use crate::addresses::Address;

verus! {

/// Registry record tying one collectible to its current owner.
pub struct NftOwnership {
    /// Wallet key of the current owner.
    pub owner: u64,
    /// Key of the collectible's mint; the record's address derives from it.
    pub nft_mint: u64,
    /// Address of the collection record the collectible belongs to.
    pub creator_collection: Address,
    /// Wallet key of the creator behind the collection.
    pub creator: u64,
    /// When the ownership was registered.
    pub registered_at: i64,
}

} // verus!
