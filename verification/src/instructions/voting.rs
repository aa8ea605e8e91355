//! Casting and changing votes on a live claim.
//!
//! Each `(claim, voter)` pair owns exactly one vote record, addressed by
//! the pair, so voting again overwrites the record rather than adding a
//! second vote. Every counter movement is paired with the matching record
//! mutation in the same atomic step, which keeps the claim's yes and no
//! counters equal to the number of records currently holding that choice.

use vstd::prelude::*;

use crate::events::VoteCast;
use crate::instructions::claims::has_pool;
use crate::state::claim::Claim;
use crate::state::claim::ClaimStatus;
use crate::state::creator_pool::CreatorPool;
use crate::state::vote_account::VoteAccount;
use crate::state::vote_account::VoteChoice;

verus! {

/// Failures of the voting operations.
#[derive(Clone, Copy, Debug, PartialEq, Eq, Structural)]
pub enum ErrorCode {
    /// The claim's status does not admit voting.
    InvalidClaimStatus,
    /// The voting window has closed.
    VotingEnded,
    /// The vote record does not belong to the claim, or holds no prior
    /// choice to change.
    InvalidVoteAccount,
    /// A tally counter would overflow.
    MathOverflow,
}

/// The claim accepts votes: it is in its voting phase and the window has
/// not closed.
pub open spec fn voting_open(claim: Claim, now: i64) -> bool {
    &&& claim.status is Voting || claim.status is Pending
    &&& now < claim.voting_ends_at
}

/// The tally after a voter whose record held `old_choice` settles on
/// `new_choice`: the old choice's counter goes down by one, the new
/// choice's counter up by one, a first vote only adds.
pub open spec fn tally_after(
    yes_votes: u64,
    no_votes: u64,
    old_choice: Option<VoteChoice>,
    new_choice: VoteChoice,
) -> (int, int) {
    let (y, n) = match old_choice {
        Some(VoteChoice::Yes) => (yes_votes - 1, no_votes as int),
        Some(VoteChoice::No) => (yes_votes as int, no_votes - 1),
        None => (yes_votes as int, no_votes as int),
    };
    match new_choice {
        VoteChoice::Yes => (y + 1, n),
        VoteChoice::No => (y, n + 1),
    }
}

/// Both counter movements of `tally_after` stay within a counter: the
/// decremented counter was positive, and the counter incremented after the
/// decrement does not pass the maximum.
pub open spec fn tally_fits(
    yes_votes: u64,
    no_votes: u64,
    old_choice: Option<VoteChoice>,
    new_choice: VoteChoice,
) -> bool {
    &&& match old_choice {
        Some(VoteChoice::Yes) => yes_votes >= 1,
        Some(VoteChoice::No) => no_votes >= 1,
        None => true,
    }
    &&& tally_after(yes_votes, no_votes, old_choice, new_choice).0 <= u64::MAX
    &&& tally_after(yes_votes, no_votes, old_choice, new_choice).1 <= u64::MAX
}

/// When `vote` succeeds: the claim accepts votes and the tally movement
/// fits the counters.
pub open spec fn vote_ok(claim: Claim, record: VoteAccount, choice: VoteChoice, now: i64) -> bool {
    &&& voting_open(claim, now)
    &&& tally_fits(claim.yes_votes, claim.no_votes, record.vote_choice, choice)
}

/// The error `vote` reports when it fails.
pub open spec fn vote_error(claim: Claim, now: i64) -> ErrorCode {
    if !(claim.status is Voting || claim.status is Pending) {
        ErrorCode::InvalidClaimStatus
    } else if now >= claim.voting_ends_at {
        ErrorCode::VotingEnded
    } else {
        ErrorCode::MathOverflow
    }
}

/// When `change_vote` succeeds: the claim accepts votes, the record
/// belongs to the claim and holds a prior choice, and the tally movement
/// fits the counters.
pub open spec fn change_vote_ok(
    claim: Claim,
    record: VoteAccount,
    new_choice: VoteChoice,
    now: i64,
) -> bool {
    &&& voting_open(claim, now)
    &&& record.claim == claim.addr()
    &&& record.vote_choice is Some
    &&& tally_fits(claim.yes_votes, claim.no_votes, record.vote_choice, new_choice)
}

/// The error `change_vote` reports when it fails.
pub open spec fn change_vote_error(claim: Claim, record: VoteAccount, now: i64) -> ErrorCode {
    if !(claim.status is Voting || claim.status is Pending) {
        ErrorCode::InvalidClaimStatus
    } else if now >= claim.voting_ends_at {
        ErrorCode::VotingEnded
    } else if record.claim != claim.addr() || record.vote_choice is None {
        ErrorCode::InvalidVoteAccount
    } else {
        ErrorCode::MathOverflow
    }
}

/// Casts `fan`'s vote on the claim, creating or overwriting their record.
///
/// A first vote (the record holds no prior choice) adds one to the chosen
/// counter; a repeated vote through this operation moves the prior choice's
/// count onto the new choice, never counting the voter twice. The record
/// ends up holding the claim's address, the voter, the choice and the
/// time, whatever it held before. Fails, changing nothing, when the claim
/// is not accepting votes or a counter movement would not fit.
pub fn vote(
    claim: &mut Claim,
    creator_pool: &CreatorPool,
    vote_account: &mut VoteAccount,
    fan: u64,
    choice: VoteChoice,
    now: i64,
) -> (r: Result<VoteCast, ErrorCode>)
    requires
        has_pool(*old(claim), *creator_pool),
        old(vote_account).vote_choice is Some ==> old(vote_account).claim == old(claim).addr()
            && old(vote_account).voter == fan,
    ensures
        r is Ok <==> vote_ok(*old(claim), *old(vote_account), choice, now),
        r matches Ok(ev) ==> {
            &&& *final(claim) == (Claim {
                yes_votes: tally_after(
                    old(claim).yes_votes,
                    old(claim).no_votes,
                    old(vote_account).vote_choice,
                    choice,
                ).0 as u64,
                no_votes: tally_after(
                    old(claim).yes_votes,
                    old(claim).no_votes,
                    old(vote_account).vote_choice,
                    choice,
                ).1 as u64,
                ..*old(claim)
            })
            &&& *final(vote_account) == (VoteAccount {
                claim: old(claim).addr(),
                voter: fan,
                vote_choice: Some(choice),
                voted_at: now,
            })
            &&& ev == (VoteCast {
                claim: old(claim).addr(),
                voter: fan,
                vote_choice: choice is Yes,
                voted_at: now,
            })
        },
        r matches Err(e) ==> {
            &&& e == vote_error(*old(claim), now)
            &&& *final(claim) == *old(claim)
            &&& *final(vote_account) == *old(vote_account)
        },
{
    if !(matches!(claim.status, ClaimStatus::Voting) || matches!(
        claim.status,
        ClaimStatus::Pending,
    )) {
        return Err(ErrorCode::InvalidClaimStatus);
    }
    if now >= claim.voting_ends_at {
        return Err(ErrorCode::VotingEnded);
    }
    let (new_yes, new_no) = match apply_choice(
        claim.yes_votes,
        claim.no_votes,
        vote_account.vote_choice,
        choice,
    ) {
        Some(counts) => counts,
        None => {
            return Err(ErrorCode::MathOverflow);
        },
    };
    claim.yes_votes = new_yes;
    claim.no_votes = new_no;
    let claim_address = claim.self_address();
    vote_account.claim = claim_address;
    vote_account.voter = fan;
    vote_account.vote_choice = Some(choice);
    vote_account.voted_at = now;
    Ok(VoteCast {
        claim: claim_address,
        voter: fan,
        vote_choice: matches!(choice, VoteChoice::Yes),
        voted_at: now,
    })
}

/// Changes an existing vote to `new_choice`.
///
/// Requires a record that already belongs to the claim and holds a prior
/// choice; otherwise it fails with `InvalidVoteAccount`. In one atomic
/// step the prior choice's counter goes down and the new choice's counter
/// up, so the voter is never counted twice and never lost.
pub fn change_vote(
    claim: &mut Claim,
    creator_pool: &CreatorPool,
    vote_account: &mut VoteAccount,
    voter: u64,
    new_choice: VoteChoice,
    now: i64,
) -> (r: Result<VoteCast, ErrorCode>)
    requires
        has_pool(*old(claim), *creator_pool),
        old(vote_account).voter == voter,
    ensures
        r is Ok <==> change_vote_ok(*old(claim), *old(vote_account), new_choice, now),
        r matches Ok(ev) ==> {
            &&& *final(claim) == (Claim {
                yes_votes: tally_after(
                    old(claim).yes_votes,
                    old(claim).no_votes,
                    old(vote_account).vote_choice,
                    new_choice,
                ).0 as u64,
                no_votes: tally_after(
                    old(claim).yes_votes,
                    old(claim).no_votes,
                    old(vote_account).vote_choice,
                    new_choice,
                ).1 as u64,
                ..*old(claim)
            })
            &&& *final(vote_account) == (VoteAccount {
                vote_choice: Some(new_choice),
                voted_at: now,
                ..*old(vote_account)
            })
            &&& ev == (VoteCast {
                claim: old(claim).addr(),
                voter,
                vote_choice: new_choice is Yes,
                voted_at: now,
            })
        },
        r matches Err(e) ==> {
            &&& e == change_vote_error(*old(claim), *old(vote_account), now)
            &&& *final(claim) == *old(claim)
            &&& *final(vote_account) == *old(vote_account)
        },
{
    if !(matches!(claim.status, ClaimStatus::Voting) || matches!(
        claim.status,
        ClaimStatus::Pending,
    )) {
        return Err(ErrorCode::InvalidClaimStatus);
    }
    if now >= claim.voting_ends_at {
        return Err(ErrorCode::VotingEnded);
    }
    let claim_address = claim.self_address();
    if !(vote_account.claim == claim_address) {
        return Err(ErrorCode::InvalidVoteAccount);
    }
    if vote_account.vote_choice.is_none() {
        return Err(ErrorCode::InvalidVoteAccount);
    }
    let (new_yes, new_no) = match apply_choice(
        claim.yes_votes,
        claim.no_votes,
        vote_account.vote_choice,
        new_choice,
    ) {
        Some(counts) => counts,
        None => {
            return Err(ErrorCode::MathOverflow);
        },
    };
    claim.yes_votes = new_yes;
    claim.no_votes = new_no;
    vote_account.vote_choice = Some(new_choice);
    vote_account.voted_at = now;
    Ok(VoteCast {
        claim: claim_address,
        voter,
        vote_choice: matches!(new_choice, VoteChoice::Yes),
        voted_at: now,
    })
}

/// Moves the tally from `old_choice` to `new_choice` with checked
/// arithmetic: the old choice is retracted first, then the new one
/// counted.
fn apply_choice(
    yes_votes: u64,
    no_votes: u64,
    old_choice: Option<VoteChoice>,
    new_choice: VoteChoice,
) -> (r: Option<(u64, u64)>)
    ensures
        r is Some <==> tally_fits(yes_votes, no_votes, old_choice, new_choice),
        r matches Some(counts) ==> {
            &&& counts.0 == tally_after(yes_votes, no_votes, old_choice, new_choice).0
            &&& counts.1 == tally_after(yes_votes, no_votes, old_choice, new_choice).1
        },
{
    let (y, n) = match old_choice {
        Some(VoteChoice::Yes) => {
            match yes_votes.checked_sub(1) {
                Some(y) => (y, no_votes),
                None => {
                    return None;
                },
            }
        },
        Some(VoteChoice::No) => {
            match no_votes.checked_sub(1) {
                Some(n) => (yes_votes, n),
                None => {
                    return None;
                },
            }
        },
        None => (yes_votes, no_votes),
    };
    match new_choice {
        VoteChoice::Yes => {
            match y.checked_add(1) {
                Some(y2) => Some((y2, n)),
                None => None,
            }
        },
        VoteChoice::No => {
            match n.checked_add(1) {
                Some(n2) => Some((y, n2)),
                None => None,
            }
        },
    }
}

} // verus!
