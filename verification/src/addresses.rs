//! Deterministic record addressing.
//!
//! Every persistent record lives at an address that is a pure function of
//! its parent keys: the pool and its vault are derived from the creator's
//! key, a claim from the creator and the pool-assigned ordinal, a vote
//! record from the claim plus the voter's key, and the collectible records
//! from the collectible's mint key. Any party can therefore recompute a
//! record's address without a lookup table.

use vstd::prelude::*;

verus! {

/// Address of a persistent record or wallet, derived from parent keys.
///
/// `Wallet` is an externally owned account identified by an opaque key;
/// the remaining variants are protocol records whose addresses are pure
/// functions of their parents.
#[derive(Clone, Copy, Debug, PartialEq, Eq, Hash, Structural)]
pub enum Address {
    /// Externally owned account.
    Wallet { key: u64 },
    /// The protocol-wide configuration record.
    Factory,
    /// The accounting record of the pool belonging to `creator`.
    Pool { creator: u64 },
    /// The custody vault holding the funds of `creator`'s pool.
    Vault { creator: u64 },
    /// The `ordinal`-th claim filed against `creator`'s pool.
    Claim { creator: u64, ordinal: u64 },
    /// The vote record of `voter` on the claim `(creator, ordinal)`.
    Vote { creator: u64, ordinal: u64, voter: u64 },
    /// The collection record of the collectible minted as `mint`.
    Collection { mint: u64 },
    /// The ownership record of the collectible minted as `mint`.
    Ownership { mint: u64 },
}

/// Address of the pool record of `creator`.
pub open spec fn pool_addr(creator: u64) -> Address {
    Address::Pool { creator }
}

/// Address of the custody vault of `creator`'s pool.
pub open spec fn vault_addr(creator: u64) -> Address {
    Address::Vault { creator }
}

/// Address of the claim with the given ordinal under `creator`'s pool.
pub open spec fn claim_addr(creator: u64, ordinal: u64) -> Address {
    Address::Claim { creator, ordinal }
}

/// Address of `voter`'s vote record on the claim `(creator, ordinal)`.
pub open spec fn vote_addr(creator: u64, ordinal: u64, voter: u64) -> Address {
    Address::Vote { creator, ordinal, voter }
}

/// Address of the collection record for the collectible `mint`.
pub open spec fn collection_addr(mint: u64) -> Address {
    Address::Collection { mint }
}

/// Address of the ownership record for the collectible `mint`.
pub open spec fn ownership_addr(mint: u64) -> Address {
    Address::Ownership { mint }
}

/// Recomputes the address of the pool record of `creator`.
pub fn derive_pool_address(creator: u64) -> (a: Address)
    ensures
        a == pool_addr(creator),
{
    Address::Pool { creator }
}

/// Recomputes the address of the custody vault of `creator`'s pool.
pub fn derive_vault_address(creator: u64) -> (a: Address)
    ensures
        a == vault_addr(creator),
{
    Address::Vault { creator }
}

/// Recomputes the address of a claim from its pool's creator and its ordinal.
pub fn derive_claim_address(creator: u64, ordinal: u64) -> (a: Address)
    ensures
        a == claim_addr(creator, ordinal),
{
    Address::Claim { creator, ordinal }
}

/// Recomputes the address of a vote record from its claim and voter keys.
pub fn derive_vote_address(creator: u64, ordinal: u64, voter: u64) -> (a: Address)
    ensures
        a == vote_addr(creator, ordinal, voter),
{
    Address::Vote { creator, ordinal, voter }
}

/// Deterministic addressing assigns distinct claims distinct addresses:
/// two claim addresses coincide only when both parent keys coincide.
pub proof fn lemma_claim_addresses_distinct(c1: u64, o1: u64, c2: u64, o2: u64)
    ensures
        claim_addr(c1, o1) == claim_addr(c2, o2) <==> (c1 == c2 && o1 == o2),
{
}

/// Deterministic addressing assigns distinct voters on distinct claims
/// distinct vote records: two vote addresses coincide only when claim and
/// voter keys all coincide.
pub proof fn lemma_vote_addresses_distinct(
    c1: u64,
    o1: u64,
    v1: u64,
    c2: u64,
    o2: u64,
    v2: u64,
)
    ensures
        vote_addr(c1, o1, v1) == vote_addr(c2, o2, v2) <==> (c1 == c2 && o1 == o2 && v1 == v2),
{
}

} // verus!
