//! One voter's persistent vote record on one claim.

use vstd::prelude::*;

use crate::addresses::Address;

verus! {

/// A fan's choice on a claim.
#[derive(Clone, Copy, Debug, PartialEq, Eq, Structural)]
pub enum VoteChoice {
    Yes,
    No,
}

/// The single vote record of one `(claim, voter)` pair.
///
/// Its address is derived from the claim and the voter, so each pair owns
/// exactly one record; casting again overwrites it in place rather than
/// adding a second vote. `vote_choice` is `None` only on a freshly created
/// record that has not voted yet, and such a record counts toward neither
/// tally.
pub struct VoteAccount {
    /// Address of the claim voted on.
    pub claim: Address,
    /// Wallet key of the voter.
    pub voter: u64,
    /// The live choice, or `None` before the first vote.
    pub vote_choice: Option<VoteChoice>,
    /// When the record was last written.
    pub voted_at: i64,
}

impl VoteAccount {
    /// A freshly created record that has not voted yet.
    ///
    /// Mirrors lazy record creation: the first vote of a `(claim, voter)`
    /// pair starts from this state and fills in the keys.
    pub fn new() -> (r: VoteAccount)
        ensures
            r.vote_choice is None,
            r == (VoteAccount {
                claim: Address::Wallet { key: 0 },
                voter: 0,
                vote_choice: None,
                voted_at: 0,
            }),
    {
        VoteAccount { claim: Address::Wallet { key: 0 }, voter: 0, vote_choice: None, voted_at: 0 }
    }
}

} // verus!
