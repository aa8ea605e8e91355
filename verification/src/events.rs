//! Write-once records emitted by the engine's operations.
//!
//! Each successful operation returns the record describing what it did;
//! callers persist or forward them. They are facts, not a query surface.

use vstd::prelude::*;

use crate::addresses::Address;

verus! {

/// The protocol configuration was initialized.
#[derive(Debug, PartialEq, Eq)]
pub struct FactoryInitialized {
    pub authority: u64,
    pub default_quorum: u64,
    pub default_voting_window: i64,
    pub platform_fee_percentage: u64,
    pub usdc_mint: u64,
}

/// A creator's pool was created.
#[derive(Debug, PartialEq, Eq)]
pub struct CreatorPoolCreated {
    pub creator: u64,
    pub pool: Address,
    pub voting_quorum: u64,
    pub voting_window: i64,
}

/// A claim was filed and its voting window opened.
#[derive(Debug, PartialEq, Eq)]
pub struct ClaimFiled {
    pub claim: Address,
    pub creator: u64,
    pub creator_pool: Address,
    pub pool_amount: u64,
    pub evidence_ipfs_hash: String,
    pub voting_ends_at: i64,
}

/// A vote was cast or changed; `vote_choice` is true for yes.
#[derive(Debug, PartialEq, Eq)]
pub struct VoteCast {
    pub claim: Address,
    pub voter: u64,
    pub vote_choice: bool,
    pub voted_at: i64,
}

/// A claim's tally was resolved into an outcome.
#[derive(Debug, PartialEq, Eq)]
pub struct ClaimFinalized {
    pub claim: Address,
    pub creator: u64,
    pub creator_pool: Address,
    pub pool_amount: u64,
    pub yes_votes: u64,
    pub no_votes: u64,
    pub status: String,
}

/// A claim was canceled before its voting window opened.
#[derive(Debug, PartialEq, Eq)]
pub struct ClaimCanceled {
    pub claim: Address,
    pub creator: u64,
    pub creator_pool: Address,
}

/// An approved claim's vault balance was paid out to the creator.
#[derive(Debug, PartialEq, Eq)]
pub struct PayoutSent {
    pub claim: Address,
    pub creator: u64,
    pub creator_pool: Address,
    pub payout_amount: u64,
}

/// A rejected claim's vault balance was released for refund distribution.
#[derive(Debug, PartialEq, Eq)]
pub struct RefundDistributed {
    pub claim: Address,
    pub creator_pool: Address,
    pub total_refund_amount: u64,
    pub nft_holders_count: u64,
}

/// A fan's ownership of a collectible was verified.
#[derive(Debug, PartialEq, Eq)]
pub struct NftOwnershipVerified {
    pub voter: u64,
    pub nft_mint: u64,
    pub creator: u64,
}

/// Collectible sale revenue was split across vault, creator and platform.
#[derive(Debug, PartialEq, Eq)]
pub struct NftSaleRevenueDistributed {
    pub creator: u64,
    pub creator_pool: Address,
    pub total_amount: u64,
    pub creator_pool_amount: u64,
    pub creator_amount: u64,
    pub platform_fee: u64,
}

} // verus!
