//! The claim state machine and the settlement engine.
//!
//! A claim is filed against a pool, opens its voting window immediately,
//! and is finalized once the window has elapsed and quorum is met: more
//! yes than no votes approves it and pays the vault out to the creator;
//! a tie or a no majority rejects it and leaves the vault in custody for
//! distribution to collectible holders. Every settlement is reachable only
//! from a live status, so it can happen at most once per claim.

use vstd::prelude::*;
use vstd::string::StringExecFns;

use crate::addresses::claim_addr;
use crate::addresses::pool_addr;
use crate::events::ClaimCanceled;
use crate::events::ClaimFiled;
use crate::events::ClaimFinalized;
use crate::events::PayoutSent;
use crate::events::RefundDistributed;
use crate::state::claim::Claim;
use crate::state::claim::ClaimStatus;
use crate::state::creator_pool::CreatorPool;
use crate::state::vault::custody_ok;
use crate::state::vault::Vault;

verus! {

/// Failures of the claim and settlement operations.
#[derive(Clone, Copy, Debug, PartialEq, Eq, Structural)]
pub enum ErrorCode {
    /// The claim's status does not admit the operation.
    InvalidClaimStatus,
    /// The voting window has not elapsed yet.
    VotingStillActive,
    /// The tally has not reached the pool's quorum.
    InsufficientVotes,
    /// A balance or counter would overflow.
    MathOverflow,
    /// The vault holds nothing to move.
    InsufficientFunds,
    /// The pool record offered does not match the claim's pool.
    InvalidCreatorPoolAddress,
}

/// The custody movement a settlement performed.
#[derive(Debug, PartialEq, Eq)]
pub enum SettlementRecord {
    /// The claim was approved: the vault was paid out to the creator.
    Payout(PayoutSent),
    /// The claim was rejected: the vault was released for refunds.
    Refund(RefundDistributed),
}

/// The claim references exactly the offered pool record.
pub open spec fn has_pool(claim: Claim, pool: CreatorPool) -> bool {
    claim.creator_pool == pool_addr(pool.creator)
}

/// The outcome a resolved tally decides: approved only on a strict yes
/// majority; a tie resolves against the claimant.
pub open spec fn decide_outcome(yes_votes: u64, no_votes: u64) -> ClaimStatus {
    if yes_votes > no_votes {
        ClaimStatus::Approved
    } else {
        ClaimStatus::Rejected
    }
}

/// When `cancel_claim` succeeds: only a staged claim whose voting window
/// has not opened yet can be canceled.
pub open spec fn cancel_ok(claim: Claim, now: i64) -> bool {
    claim.status is Pending && now < claim.voting_started_at
}

/// When `finalize_claim` succeeds: the claim is in its voting phase, the
/// window has elapsed, the tally fits a counter, and quorum is met.
pub open spec fn finalize_ok(claim: Claim, pool: CreatorPool, now: i64) -> bool {
    &&& claim.status is Voting
    &&& now >= claim.voting_ends_at
    &&& claim.yes_votes + claim.no_votes <= u64::MAX
    &&& claim.yes_votes + claim.no_votes >= pool.voting_quorum
}

/// The error `finalize_claim` reports when it fails.
pub open spec fn finalize_error(claim: Claim, pool: CreatorPool, now: i64) -> ErrorCode {
    if !(claim.status is Voting) {
        ErrorCode::InvalidClaimStatus
    } else if now < claim.voting_ends_at {
        ErrorCode::VotingStillActive
    } else if claim.yes_votes + claim.no_votes > u64::MAX {
        ErrorCode::MathOverflow
    } else {
        ErrorCode::InsufficientVotes
    }
}

/// When `finalize_claim_with_distribution` succeeds: additionally to the
/// tally conditions, the vault must hold something to settle with.
pub open spec fn finalize_dist_ok(claim: Claim, pool: CreatorPool, vault: Vault, now: i64) -> bool {
    &&& claim.status is Voting || claim.status is Pending
    &&& now >= claim.voting_ends_at
    &&& claim.yes_votes + claim.no_votes <= u64::MAX
    &&& claim.yes_votes + claim.no_votes >= pool.voting_quorum
    &&& vault.balance > 0
}

/// The error `finalize_claim_with_distribution` reports when it fails.
pub open spec fn finalize_dist_error(claim: Claim, pool: CreatorPool, vault: Vault, now: i64) -> ErrorCode {
    if !(claim.status is Voting || claim.status is Pending) {
        ErrorCode::InvalidClaimStatus
    } else if now < claim.voting_ends_at {
        ErrorCode::VotingStillActive
    } else if claim.yes_votes + claim.no_votes > u64::MAX {
        ErrorCode::MathOverflow
    } else if claim.yes_votes + claim.no_votes < pool.voting_quorum {
        ErrorCode::InsufficientVotes
    } else {
        ErrorCode::InsufficientFunds
    }
}

/// When `payout_claim` succeeds: an approved claim and a non-empty vault.
pub open spec fn payout_ok(claim: Claim, vault: Vault) -> bool {
    claim.status is Approved && vault.balance > 0
}

/// When `refund_claim` succeeds: a rejected claim and a non-empty vault.
pub open spec fn refund_ok(claim: Claim, vault: Vault) -> bool {
    claim.status is Rejected && vault.balance > 0
}

/// Files a claim against the pool and opens its voting window at once.
///
/// The new claim snapshots the vault's current balance for audit, starts
/// with an empty tally, and closes its window `voting_window` seconds from
/// `now`. It takes the pool's current `claim_count` as its ordinal, from
/// which its address is derived, and the count moves up by one. Fails with
/// `MathOverflow`, changing nothing, exactly when the window's end or the
/// claim count would overflow.
pub fn file_claim(
    creator_pool: &mut CreatorPool,
    vault: &Vault,
    creator: u64,
    evidence_ipfs_hash: String,
    now: i64,
) -> (r: Result<(Claim, ClaimFiled), ErrorCode>)
    requires
        vault.creator == old(creator_pool).creator,
    ensures
        r is Ok <==> (i64::MIN <= now + old(creator_pool).voting_window <= i64::MAX
            && old(creator_pool).claim_count + 1 <= u64::MAX),
        r matches Ok(p) ==> {
            &&& *final(creator_pool) == (CreatorPool {
                claim_count: (old(creator_pool).claim_count + 1) as u64,
                ..*old(creator_pool)
            })
            &&& p.0 == (Claim {
                creator_pool: pool_addr(old(creator_pool).creator),
                creator,
                ordinal: old(creator_pool).claim_count,
                pool_amount_at_claim: vault.balance,
                evidence_ipfs_hash,
                status: ClaimStatus::Voting,
                yes_votes: 0,
                no_votes: 0,
                voting_started_at: now,
                voting_ends_at: (now + old(creator_pool).voting_window) as i64,
                created_at: now,
            })
            &&& p.1.claim == claim_addr(old(creator_pool).creator, old(creator_pool).claim_count)
            &&& p.1.creator == creator
            &&& p.1.creator_pool == pool_addr(old(creator_pool).creator)
            &&& p.1.pool_amount == vault.balance
            &&& p.1.evidence_ipfs_hash@ == evidence_ipfs_hash@
            &&& p.1.voting_ends_at == now + old(creator_pool).voting_window
        },
        r is Err ==> r == Err::<(Claim, ClaimFiled), ErrorCode>(ErrorCode::MathOverflow)
            && *final(creator_pool) == *old(creator_pool),
{
    let voting_ends_at = match now.checked_add(creator_pool.voting_window) {
        Some(t) => t,
        None => {
            return Err(ErrorCode::MathOverflow);
        },
    };
    let new_count = match creator_pool.claim_count.checked_add(1) {
        Some(c) => c,
        None => {
            return Err(ErrorCode::MathOverflow);
        },
    };
    let ordinal = creator_pool.claim_count;
    let event = ClaimFiled {
        claim: crate::addresses::derive_claim_address(creator_pool.creator, ordinal),
        creator,
        creator_pool: crate::addresses::derive_pool_address(creator_pool.creator),
        pool_amount: vault.balance,
        evidence_ipfs_hash: String::from_str(evidence_ipfs_hash.as_str()),
        voting_ends_at,
    };
    let claim = Claim {
        creator_pool: crate::addresses::derive_pool_address(creator_pool.creator),
        creator,
        ordinal,
        pool_amount_at_claim: vault.balance,
        evidence_ipfs_hash,
        status: ClaimStatus::Voting,
        yes_votes: 0,
        no_votes: 0,
        voting_started_at: now,
        voting_ends_at,
        created_at: now,
    };
    creator_pool.claim_count = new_count;
    Ok((claim, event))
}

/// Cancels a staged claim before its voting window opens.
///
/// Only the filing creator may cancel, only while the claim is still
/// `Pending`, and only before `voting_started_at`; no funds move. Filing
/// opens the window immediately here, so a claim of this crate is never
/// `Pending` and cancellation is reserved for records staged elsewhere.
pub fn cancel_claim(claim: &mut Claim, creator: u64, now: i64) -> (r: Result<
    ClaimCanceled,
    ErrorCode,
>)
    requires
        old(claim).wf(),
        old(claim).creator == creator,
    ensures
        r is Ok <==> cancel_ok(*old(claim), now),
        r matches Ok(ev) ==> {
            &&& *final(claim) == (Claim { status: ClaimStatus::Canceled, ..*old(claim) })
            &&& ev == (ClaimCanceled {
                claim: old(claim).addr(),
                creator: old(claim).creator,
                creator_pool: old(claim).creator_pool,
            })
        },
        r is Err ==> r == Err::<ClaimCanceled, ErrorCode>(ErrorCode::InvalidClaimStatus)
            && *final(claim) == *old(claim),
{
    if !matches!(claim.status, ClaimStatus::Pending) {
        return Err(ErrorCode::InvalidClaimStatus);
    }
    if !(now < claim.voting_started_at) {
        return Err(ErrorCode::InvalidClaimStatus);
    }
    claim.status = ClaimStatus::Canceled;
    Ok(ClaimCanceled {
        claim: claim.self_address(),
        creator: claim.creator,
        creator_pool: claim.creator_pool,
    })
}

/// Resolves an elapsed claim's tally into `Approved` or `Rejected`.
///
/// Requires the voting window to have elapsed and the tally to meet the
/// pool's quorum; otherwise it fails with `VotingStillActive` or
/// `InsufficientVotes` and the claim stays in `Voting` until quorum is
/// reached. A strict yes majority approves; a tie or a no majority
/// rejects. No funds move here: payout and refund are separate steps.
pub fn finalize_claim(claim: &mut Claim, creator_pool: &CreatorPool, now: i64) -> (r: Result<
    ClaimFinalized,
    ErrorCode,
>)
    requires
        has_pool(*old(claim), *creator_pool),
    ensures
        r is Ok <==> finalize_ok(*old(claim), *creator_pool, now),
        r matches Ok(ev) ==> {
            &&& *final(claim) == (Claim {
                status: decide_outcome(old(claim).yes_votes, old(claim).no_votes),
                ..*old(claim)
            })
            &&& ev.claim == old(claim).addr()
            &&& ev.creator == old(claim).creator
            &&& ev.creator_pool == old(claim).creator_pool
            &&& ev.pool_amount == old(claim).pool_amount_at_claim
            &&& ev.yes_votes == old(claim).yes_votes
            &&& ev.no_votes == old(claim).no_votes
            &&& ev.status@ == if old(claim).yes_votes > old(claim).no_votes {
                "Approved"@
            } else {
                "Rejected"@
            }
        },
        r matches Err(e) ==> e == finalize_error(*old(claim), *creator_pool, now)
            && *final(claim) == *old(claim),
{
    if !matches!(claim.status, ClaimStatus::Voting) {
        return Err(ErrorCode::InvalidClaimStatus);
    }
    if now < claim.voting_ends_at {
        return Err(ErrorCode::VotingStillActive);
    }
    let total_votes = match claim.yes_votes.checked_add(claim.no_votes) {
        Some(t) => t,
        None => {
            return Err(ErrorCode::MathOverflow);
        },
    };
    if total_votes < creator_pool.voting_quorum {
        return Err(ErrorCode::InsufficientVotes);
    }
    let approved = claim.yes_votes > claim.no_votes;
    claim.status = if approved {
        ClaimStatus::Approved
    } else {
        ClaimStatus::Rejected
    };
    Ok(ClaimFinalized {
        claim: claim.self_address(),
        creator: claim.creator,
        creator_pool: claim.creator_pool,
        pool_amount: claim.pool_amount_at_claim,
        yes_votes: claim.yes_votes,
        no_votes: claim.no_votes,
        status: if approved {
            String::from_str("Approved")
        } else {
            String::from_str("Rejected")
        },
    })
}

/// Pays an approved claim's entire vault balance out to the creator.
///
/// The payout is the vault's balance at settlement time, not the filing
/// snapshot. The caller performs the transfer the result describes; the
/// books move the amount onto `total_withdrawn` and the claim becomes
/// `Paid`, after which no settlement can touch it again. Fails with
/// `InsufficientFunds` when the vault is empty.
pub fn payout_claim(claim: &mut Claim, creator_pool: &mut CreatorPool, vault: &mut Vault) -> (r:
    Result<PayoutSent, ErrorCode>)
    requires
        has_pool(*old(claim), *old(creator_pool)),
        custody_ok(*old(creator_pool), *old(vault)),
    ensures
        custody_ok(*final(creator_pool), *final(vault)),
        r is Ok <==> payout_ok(*old(claim), *old(vault)),
        r matches Ok(ev) ==> {
            &&& *final(claim) == (Claim { status: ClaimStatus::Paid, ..*old(claim) })
            &&& *final(creator_pool) == (CreatorPool {
                total_withdrawn: (old(creator_pool).total_withdrawn + old(vault).balance) as u64,
                ..*old(creator_pool)
            })
            &&& *final(vault) == (Vault { balance: 0, ..*old(vault) })
            &&& ev == (PayoutSent {
                claim: old(claim).addr(),
                creator: old(claim).creator,
                creator_pool: old(claim).creator_pool,
                payout_amount: old(vault).balance,
            })
        },
        r matches Err(e) ==> {
            &&& e == if !(old(claim).status is Approved) {
                ErrorCode::InvalidClaimStatus
            } else {
                ErrorCode::InsufficientFunds
            }
            &&& *final(claim) == *old(claim)
            &&& *final(creator_pool) == *old(creator_pool)
            &&& *final(vault) == *old(vault)
        },
{
    if !matches!(claim.status, ClaimStatus::Approved) {
        return Err(ErrorCode::InvalidClaimStatus);
    }
    let payout_amount = vault.balance;
    if !(payout_amount > 0) {
        return Err(ErrorCode::InsufficientFunds);
    }
    vault.balance = 0;
    creator_pool.total_withdrawn = creator_pool.total_withdrawn + payout_amount;
    claim.status = ClaimStatus::Paid;
    Ok(PayoutSent {
        claim: claim.self_address(),
        creator: claim.creator,
        creator_pool: claim.creator_pool,
        payout_amount,
    })
}

/// Releases a rejected claim's vault balance for refund distribution.
///
/// The claim becomes `Refunded`, a terminal state, and the result records
/// the total available downstream; the funds stay in the vault until
/// `distribute_to_nft_holder` moves them holder by holder. Fails with
/// `InsufficientFunds` when the vault is empty.
pub fn refund_claim(claim: &mut Claim, creator_pool: &CreatorPool, vault: &Vault) -> (r: Result<
    RefundDistributed,
    ErrorCode,
>)
    requires
        has_pool(*old(claim), *creator_pool),
    ensures
        r is Ok <==> refund_ok(*old(claim), *vault),
        r matches Ok(ev) ==> {
            &&& *final(claim) == (Claim { status: ClaimStatus::Refunded, ..*old(claim) })
            &&& ev == (RefundDistributed {
                claim: old(claim).addr(),
                creator_pool: old(claim).creator_pool,
                total_refund_amount: vault.balance,
                nft_holders_count: 0,
            })
        },
        r matches Err(e) ==> {
            &&& e == if !(old(claim).status is Rejected) {
                ErrorCode::InvalidClaimStatus
            } else {
                ErrorCode::InsufficientFunds
            }
            &&& *final(claim) == *old(claim)
        },
{
    if !matches!(claim.status, ClaimStatus::Rejected) {
        return Err(ErrorCode::InvalidClaimStatus);
    }
    let refund_amount = vault.balance;
    if !(refund_amount > 0) {
        return Err(ErrorCode::InsufficientFunds);
    }
    claim.status = ClaimStatus::Refunded;
    Ok(RefundDistributed {
        claim: claim.self_address(),
        creator_pool: claim.creator_pool,
        total_refund_amount: refund_amount,
        nft_holders_count: 0,
    })
}

/// Resolves an elapsed claim and moves custody in the same atomic step.
///
/// On a strict yes majority the vault's entire balance is paid out to the
/// creator, booked on `total_withdrawn`, and the claim ends `Paid`; on a
/// tie or a no majority the claim ends `Refunded` and the balance stays in
/// custody for distribution to holders. Either way the claim leaves its
/// live status exactly once; re-invocation fails closed with
/// `InvalidClaimStatus`.
pub fn finalize_claim_with_distribution(
    claim: &mut Claim,
    creator_pool: &mut CreatorPool,
    vault: &mut Vault,
    now: i64,
) -> (r: Result<(ClaimFinalized, SettlementRecord), ErrorCode>)
    requires
        has_pool(*old(claim), *old(creator_pool)),
        custody_ok(*old(creator_pool), *old(vault)),
    ensures
        custody_ok(*final(creator_pool), *final(vault)),
        r is Ok <==> finalize_dist_ok(*old(claim), *old(creator_pool), *old(vault), now),
        r matches Ok(p) ==> {
            &&& p.0.claim == old(claim).addr()
            &&& p.0.creator == old(claim).creator
            &&& p.0.creator_pool == old(claim).creator_pool
            &&& p.0.pool_amount == old(claim).pool_amount_at_claim
            &&& p.0.yes_votes == old(claim).yes_votes
            &&& p.0.no_votes == old(claim).no_votes
        },
        r matches Ok(p) ==> old(claim).yes_votes > old(claim).no_votes ==> {
            &&& *final(claim) == (Claim { status: ClaimStatus::Paid, ..*old(claim) })
            &&& *final(creator_pool) == (CreatorPool {
                total_withdrawn: (old(creator_pool).total_withdrawn + old(vault).balance) as u64,
                ..*old(creator_pool)
            })
            &&& *final(vault) == (Vault { balance: 0, ..*old(vault) })
            &&& p.0.status@ == "Paid"@
            &&& p.1 matches SettlementRecord::Payout(sent) && sent == (PayoutSent {
                claim: old(claim).addr(),
                creator: old(claim).creator,
                creator_pool: old(claim).creator_pool,
                payout_amount: old(vault).balance,
            })
        },
        r matches Ok(p) ==> old(claim).yes_votes <= old(claim).no_votes ==> {
            &&& *final(claim) == (Claim { status: ClaimStatus::Refunded, ..*old(claim) })
            &&& *final(creator_pool) == *old(creator_pool)
            &&& *final(vault) == *old(vault)
            &&& p.0.status@ == "Refunded"@
            &&& p.1 matches SettlementRecord::Refund(rec) && rec == (RefundDistributed {
                claim: old(claim).addr(),
                creator_pool: old(claim).creator_pool,
                total_refund_amount: old(vault).balance,
                nft_holders_count: 0,
            })
        },
        r matches Err(e) ==> {
            &&& e == finalize_dist_error(*old(claim), *old(creator_pool), *old(vault), now)
            &&& *final(claim) == *old(claim)
            &&& *final(creator_pool) == *old(creator_pool)
            &&& *final(vault) == *old(vault)
        },
{
    if !(matches!(claim.status, ClaimStatus::Voting) || matches!(
        claim.status,
        ClaimStatus::Pending,
    )) {
        return Err(ErrorCode::InvalidClaimStatus);
    }
    if now < claim.voting_ends_at {
        return Err(ErrorCode::VotingStillActive);
    }
    let total_votes = match claim.yes_votes.checked_add(claim.no_votes) {
        Some(t) => t,
        None => {
            return Err(ErrorCode::MathOverflow);
        },
    };
    if total_votes < creator_pool.voting_quorum {
        return Err(ErrorCode::InsufficientVotes);
    }
    let payout_amount = vault.balance;
    if !(payout_amount > 0) {
        return Err(ErrorCode::InsufficientFunds);
    }
    let claim_address = claim.self_address();
    if claim.yes_votes > claim.no_votes {
        // Approved: the whole balance leaves custody for the creator.
        vault.balance = 0;
        creator_pool.total_withdrawn = creator_pool.total_withdrawn + payout_amount;
        claim.status = ClaimStatus::Paid;
        let sent = PayoutSent {
            claim: claim_address,
            creator: claim.creator,
            creator_pool: claim.creator_pool,
            payout_amount,
        };
        let finalized = ClaimFinalized {
            claim: claim_address,
            creator: claim.creator,
            creator_pool: claim.creator_pool,
            pool_amount: claim.pool_amount_at_claim,
            yes_votes: claim.yes_votes,
            no_votes: claim.no_votes,
            status: String::from_str("Paid"),
        };
        Ok((finalized, SettlementRecord::Payout(sent)))
    } else {
        // Rejected: the balance stays in custody for holder distribution.
        claim.status = ClaimStatus::Refunded;
        let refund = RefundDistributed {
            claim: claim_address,
            creator_pool: claim.creator_pool,
            total_refund_amount: payout_amount,
            nft_holders_count: 0,
        };
        let finalized = ClaimFinalized {
            claim: claim_address,
            creator: claim.creator,
            creator_pool: claim.creator_pool,
            pool_amount: claim.pool_amount_at_claim,
            yes_votes: claim.yes_votes,
            no_votes: claim.no_votes,
            status: String::from_str("Refunded"),
        };
        Ok((finalized, SettlementRecord::Refund(refund)))
    }
}

/// Moves one holder's refund share out of the vault.
///
/// An outside orchestrator enumerates a rejected claim's eligible holders
/// and calls this once per holder with the externally computed share; the
/// caller performs the transfer to `nft_holder`. The share leaves the
/// balance and is booked on `refunded_out`, never on `total_withdrawn`.
/// Fails with `InsufficientFunds` when the vault does not cover the share.
pub fn distribute_to_nft_holder(
    creator_pool: &CreatorPool,
    vault: &mut Vault,
    nft_holder: u64,
    amount: u64,
) -> (r: Result<(), ErrorCode>)
    requires
        custody_ok(*creator_pool, *old(vault)),
    ensures
        custody_ok(*creator_pool, *final(vault)),
        r is Ok <==> amount <= old(vault).balance,
        r is Ok ==> *final(vault) == (Vault {
            balance: (old(vault).balance - amount) as u64,
            refunded_out: (old(vault).refunded_out + amount) as u64,
            ..*old(vault)
        }),
        r is Err ==> r == Err::<(), ErrorCode>(ErrorCode::InsufficientFunds)
            && *final(vault) == *old(vault),
{
    let _ = nft_holder;
    if !(amount <= vault.balance) {
        return Err(ErrorCode::InsufficientFunds);
    }
    vault.balance = vault.balance - amount;
    vault.refunded_out = vault.refunded_out + amount;
    Ok(())
}

} // verus!
