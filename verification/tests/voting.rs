use claim_custody::addresses::Address;
use claim_custody::instructions::change_vote;
use claim_custody::instructions::create_pool;
use claim_custody::instructions::deposit_to_pool;
use claim_custody::instructions::file_claim;
use claim_custody::instructions::initialize_factory;
use claim_custody::instructions::vote;
use claim_custody::instructions::voting::ErrorCode;
use claim_custody::state::Claim;
use claim_custody::state::ClaimStatus;
use claim_custody::state::CreatorPool;
use claim_custody::state::Vault;
use claim_custody::state::VoteAccount;
use claim_custody::state::VoteChoice;

fn pool_with_claim(quorum: u64) -> (CreatorPool, Vault, Claim) {
    let (factory, _fev) = initialize_factory(1, 3, 3600, 5, 9);
    let (mut pool, mut vault, _ev) = create_pool(42, quorum, 3600, &factory);
    deposit_to_pool(&mut pool, &mut vault, 1000).unwrap();
    let (claim, _cev) = file_claim(&mut pool, &vault, 42, "ev".to_string(), 0).unwrap();
    (pool, vault, claim)
}

#[test]
fn first_vote_creates_the_record_and_counts_once() {
    let (pool, _vault, mut claim) = pool_with_claim(3);
    let mut record: VoteAccount = VoteAccount::new();
    let ev = vote(&mut claim, &pool, &mut record, 7, VoteChoice::Yes, 10)
        .expect("a first vote is accepted");
    assert_eq!(claim.yes_votes, 1);
    assert_eq!(claim.no_votes, 0);
    assert_eq!(
        record.claim,
        Address::Claim {
            creator: 42,
            ordinal: 0
        }
    );
    assert_eq!(record.voter, 7);
    assert_eq!(record.vote_choice, Some(VoteChoice::Yes));
    assert_eq!(record.voted_at, 10);
    assert_eq!(ev.voter, 7);
    assert!(ev.vote_choice);
    assert_eq!(ev.voted_at, 10);
}

#[test]
fn revoting_through_vote_never_counts_twice() {
    let (pool, _vault, mut claim) = pool_with_claim(3);
    let mut record: VoteAccount = VoteAccount::new();
    vote(&mut claim, &pool, &mut record, 7, VoteChoice::Yes, 10).unwrap();
    vote(&mut claim, &pool, &mut record, 7, VoteChoice::No, 20).unwrap();
    assert_eq!(claim.yes_votes, 0);
    assert_eq!(claim.no_votes, 1);
    vote(&mut claim, &pool, &mut record, 7, VoteChoice::No, 30).unwrap();
    assert_eq!(claim.yes_votes, 0);
    assert_eq!(claim.no_votes, 1);
}

#[test]
fn change_vote_moves_one_count_across() {
    // A voter who voted yes and then changes to no ends at 0 yes, 1 no.
    let (pool, _vault, mut claim) = pool_with_claim(3);
    let mut record: VoteAccount = VoteAccount::new();
    vote(&mut claim, &pool, &mut record, 7, VoteChoice::Yes, 10).unwrap();
    assert_eq!(claim.yes_votes, 1);
    let ev = change_vote(&mut claim, &pool, &mut record, 7, VoteChoice::No, 20)
        .expect("changing an existing vote is accepted");
    assert_eq!(claim.yes_votes, 0);
    assert_eq!(claim.no_votes, 1);
    assert_eq!(record.vote_choice, Some(VoteChoice::No));
    assert_eq!(record.voted_at, 20);
    assert!(!ev.vote_choice);
}

#[test]
fn change_vote_to_the_same_choice_keeps_the_tally() {
    let (pool, _vault, mut claim) = pool_with_claim(3);
    let mut record: VoteAccount = VoteAccount::new();
    vote(&mut claim, &pool, &mut record, 7, VoteChoice::No, 10).unwrap();
    change_vote(&mut claim, &pool, &mut record, 7, VoteChoice::No, 20).unwrap();
    assert_eq!(claim.yes_votes, 0);
    assert_eq!(claim.no_votes, 1);
}

#[test]
fn change_vote_without_a_prior_choice_fails() {
    let (pool, _vault, mut claim) = pool_with_claim(3);
    let mut record: VoteAccount = VoteAccount::new();
    // The record exists (lazily created) but was never voted with: its
    // address fields still hold the fresh defaults, so it does not pass
    // for a record of this claim.
    assert_eq!(
        change_vote(&mut claim, &pool, &mut record, 0, VoteChoice::No, 20),
        Err(ErrorCode::InvalidVoteAccount)
    );
    // A record keyed to the claim but holding no choice fails the same way.
    let mut staged = VoteAccount {
        claim: Address::Claim {
            creator: 42,
            ordinal: 0,
        },
        voter: 7,
        vote_choice: None,
        voted_at: 0,
    };
    assert_eq!(
        change_vote(&mut claim, &pool, &mut staged, 7, VoteChoice::No, 20),
        Err(ErrorCode::InvalidVoteAccount)
    );
    assert_eq!(claim.yes_votes, 0);
    assert_eq!(claim.no_votes, 0);
}

#[test]
fn change_vote_on_a_record_of_another_claim_fails() {
    let (pool, _vault, mut claim) = pool_with_claim(3);
    let mut record = VoteAccount {
        claim: Address::Claim {
            creator: 42,
            ordinal: 9,
        },
        voter: 7,
        vote_choice: Some(VoteChoice::Yes),
        voted_at: 5,
    };
    assert_eq!(
        change_vote(&mut claim, &pool, &mut record, 7, VoteChoice::No, 20),
        Err(ErrorCode::InvalidVoteAccount)
    );
}

#[test]
fn voting_after_the_window_fails() {
    let (pool, _vault, mut claim) = pool_with_claim(3);
    let mut record: VoteAccount = VoteAccount::new();
    assert_eq!(
        vote(&mut claim, &pool, &mut record, 7, VoteChoice::Yes, 3600),
        Err(ErrorCode::VotingEnded)
    );
    vote(&mut claim, &pool, &mut record, 7, VoteChoice::Yes, 3599)
        .expect("the last second inside the window still counts");
    assert_eq!(
        change_vote(&mut claim, &pool, &mut record, 7, VoteChoice::No, 3600),
        Err(ErrorCode::VotingEnded)
    );
    assert_eq!(claim.yes_votes, 1);
}

#[test]
fn voting_on_a_settled_claim_fails() {
    let (pool, _vault, mut claim) = pool_with_claim(2);
    let mut a: VoteAccount = VoteAccount::new();
    let mut b: VoteAccount = VoteAccount::new();
    vote(&mut claim, &pool, &mut a, 7, VoteChoice::Yes, 10).unwrap();
    vote(&mut claim, &pool, &mut b, 8, VoteChoice::Yes, 20).unwrap();
    claim_custody::instructions::finalize_claim(&mut claim, &pool, 3600).unwrap();
    let mut c: VoteAccount = VoteAccount::new();
    assert_eq!(
        vote(&mut claim, &pool, &mut c, 9, VoteChoice::No, 30),
        Err(ErrorCode::InvalidClaimStatus)
    );
    assert_eq!(
        change_vote(&mut claim, &pool, &mut a, 7, VoteChoice::No, 30),
        Err(ErrorCode::InvalidClaimStatus)
    );
}

#[test]
fn a_full_counter_refuses_one_more_yes() {
    let pool = CreatorPool {
        creator: 42,
        usdc_mint: 0,
        usdc_vault: Address::Vault { creator: 42 },
        total_deposited: 0,
        total_withdrawn: 0,
        voting_quorum: 3,
        voting_window: 3600,
        status: claim_custody::state::PoolStatus::Active,
        claim_count: 1,
    };
    let mut claim = Claim {
        creator_pool: Address::Pool { creator: 42 },
        creator: 42,
        ordinal: 0,
        pool_amount_at_claim: 0,
        evidence_ipfs_hash: "ev".to_string(),
        status: ClaimStatus::Voting,
        yes_votes: u64::MAX,
        no_votes: 0,
        voting_started_at: 0,
        voting_ends_at: 3600,
        created_at: 0,
    };
    let mut record: VoteAccount = VoteAccount::new();
    assert_eq!(
        vote(&mut claim, &pool, &mut record, 7, VoteChoice::Yes, 10),
        Err(ErrorCode::MathOverflow)
    );
    assert_eq!(claim.yes_votes, u64::MAX);
    assert_eq!(record.vote_choice, None);
    // Moving an existing yes to no still fits: no counter passes its bound.
    let mut existing = VoteAccount {
        claim: Address::Claim {
            creator: 42,
            ordinal: 0,
        },
        voter: 8,
        vote_choice: Some(VoteChoice::Yes),
        voted_at: 5,
    };
    change_vote(&mut claim, &pool, &mut existing, 8, VoteChoice::No, 20)
        .expect("a change away from the full counter fits");
    assert_eq!(claim.yes_votes, u64::MAX - 1);
    assert_eq!(claim.no_votes, 1);
}
