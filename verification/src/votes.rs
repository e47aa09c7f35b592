use crate::VoterId;
use rand::Rng;
use vstd::prelude::*;

verus! {

/// Binary choice a participant casts in a round.
#[derive(Clone, Copy, Debug, PartialEq, Eq, Structural)]
pub enum VoteType {
    Yes,
    No,
}

/// One cast vote: the caster's identifier paired with its choice.
#[derive(Clone, Debug)]
pub struct Vote {
    pub voter_id: VoterId,
    pub vote: VoteType,
}

/// Yes/no counts derived on demand from a list of votes.
#[derive(Clone, Copy, Debug, PartialEq, Eq, Structural)]
pub struct VotingOutcome {
    pub yes_votes: usize,
    pub no_votes: usize,
}

/// Number of `Yes` entries in a vote list.
pub open spec fn count_yes(votes: Seq<Vote>) -> nat
    decreases votes.len(),
{
    if votes.len() == 0 {
        0
    } else {
        count_yes(votes.drop_last()) + if votes.last().vote == VoteType::Yes {
            1nat
        } else {
            0nat
        }
    }
}

/// Number of `No` entries in a vote list.
pub open spec fn count_no(votes: Seq<Vote>) -> nat
    decreases votes.len(),
{
    if votes.len() == 0 {
        0
    } else {
        count_no(votes.drop_last()) + if votes.last().vote == VoteType::No {
            1nat
        } else {
            0nat
        }
    }
}

/// Every vote is either a `Yes` or a `No`, so the two counts sum to the length.
pub proof fn lemma_counts_cover(votes: Seq<Vote>)
    ensures
        count_yes(votes) + count_no(votes) == votes.len(),
    decreases votes.len(),
{
    if votes.len() > 0 {
        lemma_counts_cover(votes.drop_last());
    }
}

/// Relies on rand's thread-local generator for one random draw; nothing is
/// promised of the outcome.
#[verifier::external_body]
fn random_coin() -> bool {
    rand::thread_rng().gen()
}

/// The choice that a coin flip stands for: `Yes` on true, `No` on false.
pub fn vote_type_from_flag(flag: bool) -> (r: VoteType)
    ensures
        r == if flag {
            VoteType::Yes
        } else {
            VoteType::No
        },
{
    if flag {
        VoteType::Yes
    } else {
        VoteType::No
    }
}

/// Draws a random binary choice.
pub fn get_random_vote_type() -> VoteType {
    vote_type_from_flag(random_coin())
}

} // verus!
