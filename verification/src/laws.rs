//! The engine's guarantees, stated and proved once for all inputs.

use vstd::prelude::*;

use crate::instructions::claims::cancel_ok;
use crate::instructions::claims::decide_outcome;
use crate::instructions::claims::finalize_dist_error;
use crate::instructions::claims::finalize_dist_ok;
use crate::instructions::claims::finalize_error;
use crate::instructions::claims::finalize_ok;
use crate::instructions::claims::payout_ok;
use crate::instructions::claims::refund_ok;
use crate::instructions::claims::ErrorCode;
use crate::instructions::voting::tally_after;
use crate::instructions::voting::tally_fits;
use crate::instructions::voting::voting_open;
use crate::state::claim::Claim;
use crate::state::creator_pool::CreatorPool;
use crate::state::vault::custody_ok;
use crate::state::vault::Vault;
use crate::state::vote_account::VoteAccount;
use crate::state::vote_account::VoteChoice;

verus! {

/// The voters whose records currently choose yes.
pub open spec fn yes_voters(records: Map<u64, VoteAccount>) -> Set<u64> {
    records.dom().filter(|v: u64| records[v].vote_choice == Some(VoteChoice::Yes))
}

/// The voters whose records currently choose no.
pub open spec fn no_voters(records: Map<u64, VoteAccount>) -> Set<u64> {
    records.dom().filter(|v: u64| records[v].vote_choice == Some(VoteChoice::No))
}

/// The claim's counters equal the number of vote records, keyed by voter,
/// currently holding each choice.
pub open spec fn tally_consistent(claim: Claim, records: Map<u64, VoteAccount>) -> bool {
    &&& records.dom().finite()
    &&& claim.yes_votes == yes_voters(records).len()
    &&& claim.no_votes == no_voters(records).len()
}

/// Conservation: under the custody discipline a pool never shows more
/// withdrawn than deposited, and the vault holds exactly what was
/// deposited, less what was withdrawn against the books, less what was
/// distributed to holders as refunds. Every balance-moving operation
/// requires and re-establishes `custody_ok`, so this holds at every point
/// of any operation sequence.
pub proof fn lemma_conservation(pool: CreatorPool, vault: Vault)
    requires
        custody_ok(pool, vault),
    ensures
        pool.total_withdrawn <= pool.total_deposited,
        vault.balance == pool.total_deposited - pool.total_withdrawn - vault.refunded_out,
{
}

/// A claim whose tally has not been touched is consistent with the empty
/// record map: both counters are zero and no record exists.
pub proof fn lemma_empty_tally_consistent(claim: Claim)
    requires
        claim.yes_votes == 0,
        claim.no_votes == 0,
    ensures
        tally_consistent(claim, Map::empty()),
{
    broadcast use vstd::set::group_set_axioms;

    assert(yes_voters(Map::empty()) =~= Set::empty());
    assert(no_voters(Map::empty()) =~= Set::empty());
}

/// Tally consistency survives every vote and every vote change: when a
/// claim's counters move exactly as `vote` or `change_vote` moves them
/// for the voter's old and new choice, and the voter's record is updated
/// to the new choice in the same step, the counters again equal the
/// record counts. Records with no choice yet count toward neither side,
/// so a record that exists but never voted is treated like no record.
pub proof fn lemma_vote_preserves_tally(
    pre: Claim,
    post: Claim,
    records: Map<u64, VoteAccount>,
    voter: u64,
    pre_rec: VoteAccount,
    post_rec: VoteAccount,
    choice: VoteChoice,
)
    requires
        tally_consistent(pre, records),
        records.dom().contains(voter) ==> records[voter] == pre_rec,
        !records.dom().contains(voter) ==> pre_rec.vote_choice is None,
        tally_fits(pre.yes_votes, pre.no_votes, pre_rec.vote_choice, choice),
        post.yes_votes == tally_after(pre.yes_votes, pre.no_votes, pre_rec.vote_choice, choice).0,
        post.no_votes == tally_after(pre.yes_votes, pre.no_votes, pre_rec.vote_choice, choice).1,
        post_rec.vote_choice == Some(choice),
    ensures
        tally_consistent(post, records.insert(voter, post_rec)),
{
    broadcast use vstd::set::group_set_axioms;

    let updated = records.insert(voter, post_rec);
    records.dom().lemma_len_filter(|v: u64| records[v].vote_choice == Some(VoteChoice::Yes));
    records.dom().lemma_len_filter(|v: u64| records[v].vote_choice == Some(VoteChoice::No));
    match choice {
        VoteChoice::Yes => {
            assert(yes_voters(updated) =~= yes_voters(records).insert(voter));
            assert(no_voters(updated) =~= no_voters(records).remove(voter));
        },
        VoteChoice::No => {
            assert(yes_voters(updated) =~= yes_voters(records).remove(voter));
            assert(no_voters(updated) =~= no_voters(records).insert(voter));
        },
    }
}

/// A recorded choice is always counted: under tally consistency a claim
/// with a record choosing yes has a positive yes counter, and likewise
/// for no. The checked decrement in a vote change can therefore never
/// underflow on consistent records.
pub proof fn lemma_recorded_vote_is_counted(
    claim: Claim,
    records: Map<u64, VoteAccount>,
    voter: u64,
)
    requires
        tally_consistent(claim, records),
        records.dom().contains(voter),
    ensures
        records[voter].vote_choice == Some(VoteChoice::Yes) ==> claim.yes_votes >= 1,
        records[voter].vote_choice == Some(VoteChoice::No) ==> claim.no_votes >= 1,
{
    broadcast use vstd::set::group_set_axioms;

    records.dom().lemma_len_filter(|v: u64| records[v].vote_choice == Some(VoteChoice::Yes));
    records.dom().lemma_len_filter(|v: u64| records[v].vote_choice == Some(VoteChoice::No));
    if records[voter].vote_choice == Some(VoteChoice::Yes) {
        assert(yes_voters(records).contains(voter));
    }
    if records[voter].vote_choice == Some(VoteChoice::No) {
        assert(no_voters(records).contains(voter));
    }
}

/// The tally never exceeds the voters: under tally consistency the yes
/// and no counters together count at most one choice per vote record, so
/// their sum is bounded by the number of records and cannot overflow
/// before the records do.
pub proof fn lemma_tally_bounded_by_voters(claim: Claim, records: Map<u64, VoteAccount>)
    requires
        tally_consistent(claim, records),
    ensures
        claim.yes_votes + claim.no_votes <= records.dom().len(),
{
    broadcast use vstd::set::group_set_axioms;

    let yes = yes_voters(records);
    let no = no_voters(records);
    records.dom().lemma_len_filter(|v: u64| records[v].vote_choice == Some(VoteChoice::Yes));
    records.dom().lemma_len_filter(|v: u64| records[v].vote_choice == Some(VoteChoice::No));
    vstd::set_lib::lemma_set_disjoint_lens(yes, no);
    vstd::set_lib::lemma_len_subset(yes + no, records.dom());
}

/// No double settlement: a successful finalization moves the claim out of
/// the live statuses, and from there neither finalization entry point can
/// succeed again, whatever pool, vault or time they are offered.
pub proof fn lemma_no_double_settlement(
    pre: Claim,
    post: Claim,
    pool: CreatorPool,
    now: i64,
    pool2: CreatorPool,
    vault2: Vault,
    later: i64,
)
    requires
        finalize_ok(pre, pool, now),
        post == (Claim { status: decide_outcome(pre.yes_votes, pre.no_votes), ..pre }),
    ensures
        !finalize_ok(post, pool2, later),
        !finalize_dist_ok(post, pool2, vault2, later),
        finalize_error(post, pool2, later) == ErrorCode::InvalidClaimStatus,
        finalize_dist_error(post, pool2, vault2, later) == ErrorCode::InvalidClaimStatus,
{
}

/// A terminal claim is closed for good: no settlement, payout, refund,
/// cancellation or vote can succeed on it, so each custody movement
/// happens at most once per claim.
pub proof fn lemma_terminal_claim_closed(
    claim: Claim,
    pool: CreatorPool,
    vault: Vault,
    now: i64,
)
    requires
        claim.is_terminal(),
    ensures
        !finalize_ok(claim, pool, now),
        !finalize_dist_ok(claim, pool, vault, now),
        !payout_ok(claim, vault),
        !refund_ok(claim, vault),
        !cancel_ok(claim, now),
        !voting_open(claim, now),
{
}

/// Quorum gate: a tally below the pool's quorum can never be finalized,
/// however lopsided it is; both entry points report `InsufficientVotes`.
pub proof fn lemma_quorum_gate(claim: Claim, pool: CreatorPool, vault: Vault, now: i64)
    requires
        claim.status is Voting,
        now >= claim.voting_ends_at,
        claim.yes_votes + claim.no_votes < pool.voting_quorum,
    ensures
        !finalize_ok(claim, pool, now),
        !finalize_dist_ok(claim, pool, vault, now),
        finalize_error(claim, pool, now) == ErrorCode::InsufficientVotes,
        finalize_dist_error(claim, pool, vault, now) == ErrorCode::InsufficientVotes,
{
}

/// Tie policy: a tied tally resolves to `Rejected`, favoring the pool
/// over the claimant.
pub proof fn lemma_tie_rejected(yes_votes: u64, no_votes: u64)
    requires
        yes_votes == no_votes,
    ensures
        decide_outcome(yes_votes, no_votes) is Rejected,
{
}

} // verus!
