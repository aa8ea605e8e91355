//! A claim filed by a creator against their pool.

use vstd::prelude::*;

use crate::addresses::claim_addr;
use crate::addresses::Address;

verus! {

/// Lifecycle state of a claim.
///
/// A claim enters `Voting` as soon as it is filed, moves to `Approved` or
/// `Rejected` when it is finalized, and from there to the terminal `Paid`
/// or `Refunded` once the funds have moved. `Canceled` is terminal as well.
/// `Pending` exists for deployments that stage a claim before its voting
/// window opens; filing here opens the window immediately, so no operation
/// of this crate produces it.
#[derive(Clone, Copy, Debug, PartialEq, Eq, Structural)]
pub enum ClaimStatus {
    Pending,
    Voting,
    Approved,
    Rejected,
    Paid,
    Canceled,
    Refunded,
}

/// A creator's request to draw funds from their pool, subject to a vote.
#[derive(Debug, PartialEq, Eq)]
pub struct Claim {
    /// Address of the pool the claim is filed against.
    pub creator_pool: Address,
    /// Wallet key of the creator who filed the claim.
    pub creator: u64,
    /// Pool-assigned ordinal from which the claim's address is derived.
    pub ordinal: u64,
    /// Vault balance at filing time; an audit snapshot, never paid out.
    pub pool_amount_at_claim: u64,
    /// Content reference of the evidence backing the claim.
    pub evidence_ipfs_hash: String,
    /// Lifecycle state.
    pub status: ClaimStatus,
    /// Number of vote records currently choosing yes.
    pub yes_votes: u64,
    /// Number of vote records currently choosing no.
    pub no_votes: u64,
    /// When the voting window opened.
    pub voting_started_at: i64,
    /// When the voting window closes.
    pub voting_ends_at: i64,
    /// When the claim was filed.
    pub created_at: i64,
}

impl Claim {
    /// The claim's pool address names a creator: the parent key from which
    /// the claim's own address is derived.
    pub open spec fn wf(self) -> bool {
        self.creator_pool is Pool
    }

    /// Wallet key of the creator owning the pool the claim was filed against.
    pub open spec fn pool_creator(self) -> u64 {
        self.creator_pool->Pool_creator
    }

    /// The claim's own address, recomputed from its parent keys.
    pub open spec fn addr(self) -> Address {
        claim_addr(self.pool_creator(), self.ordinal)
    }

    /// A claim in a terminal state is never mutated again.
    pub open spec fn is_terminal(self) -> bool {
        self.status is Paid || self.status is Canceled || self.status is Refunded
    }

    /// Recomputes the claim's own address from its parent keys.
    pub fn self_address(&self) -> (a: Address)
        requires
            self.wf(),
        ensures
            a == self.addr(),
    {
        match self.creator_pool {
            Address::Pool { creator } => Address::Claim { creator, ordinal: self.ordinal },
            _ => {
                proof {
                    assert(false);
                }
                Address::Claim { creator: 0, ordinal: 0 }
            },
        }
    }
}

} // verus!
