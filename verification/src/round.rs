use crate::threshold::{
    required_confirmations, required_confirmations_spec, THRESHOLD_DENOMINATOR,
    THRESHOLD_NUMERATOR,
};
use crate::votes::{count_no, count_yes, Vote, VoteType, VotingOutcome};
use crate::{byte_views, HASH_SIZE, VoterId};
use vstd::prelude::*;

verus! {

/// Phase marker describing a round's progress.
#[derive(Clone, Copy, Debug, PartialEq, Eq, Structural)]
pub enum VotingStages {
    PreVoting,
    Voting,
    PostVoting,
}

/// Failure of a round operation.
#[derive(Clone, Debug)]
pub enum RoundError {
    /// A committee candidate was not a registered voter; carries the
    /// offending identifier so the caller can retry with corrected input.
    NotAVoter(VoterId),
    /// The next-round seed was requested before enough confirmations arrived.
    QuorumNotMet,
}

/// Copies an identifier (or any byte vector) byte for byte.
fn clone_id(id: &VoterId) -> (r: VoterId)
    ensures
        r@ == id@,
{
    let mut r: Vec<u8> = Vec::new();
    let mut i: usize = 0;
    while i < id.len()
        invariant
            i <= id@.len(),
            r@.len() == i,
            forall|j: int| 0 <= j < i ==> r@[j] == id@[j],
        decreases id@.len() - i,
    {
        r.push(id[i]);
        i += 1;
    }
    proof {
        assert(r@ =~= id@);
    }
    r
}

/// True when the two identifiers hold the same bytes.
fn ids_equal(a: &VoterId, b: &VoterId) -> (r: bool)
    ensures
        r == (a@ == b@),
{
    if a.len() != b.len() {
        return false;
    }
    let mut i: usize = 0;
    while i < a.len()
        invariant
            a@.len() == b@.len(),
            i <= a@.len(),
            forall|j: int| 0 <= j < i ==> a@[j] == b@[j],
        decreases a@.len() - i,
    {
        if a[i] != b[i] {
            return false;
        }
        i += 1;
    }
    proof {
        assert(a@ =~= b@);
    }
    true
}

/// True when `id`'s bytes equal some entry of `list`.
fn contains_id(list: &Vec<VoterId>, id: &VoterId) -> (r: bool)
    ensures
        r == byte_views(list@).contains(id@),
{
    let mut i: usize = 0;
    while i < list.len()
        invariant
            i <= list@.len(),
            forall|j: int| 0 <= j < i ==> list@[j]@ != id@,
        decreases list@.len() - i,
    {
        if ids_equal(&list[i], id) {
            proof {
                assert(byte_views(list@)[i as int] == id@);
            }
            return true;
        }
        i += 1;
    }
    proof {
        assert forall|j: int| 0 <= j < byte_views(list@).len() implies #[trigger] byte_views(
            list@,
        )[j] != id@ by {
            assert(byte_views(list@)[j] == list@[j]@);
        }
    }
    false
}

/// Aggregate state of one voting round: registered voters, the appointed
/// committee, the received votes, the key confirmations collected so far, the
/// stage marker, and the two round seeds.
#[derive(Debug)]
pub struct VotingRound {
    pub seed_for_committee_generation: Vec<u8>,
    pub voters: Vec<VoterId>,
    pub committee_members: Vec<VoterId>,
    pub received_votes: Vec<Vote>,
    pub key_confirmations: Vec<VoterId>,
    pub stage: VotingStages,
    pub next_round_seed_secret: Vec<u8>,
}

impl VotingRound {
    /// True when an identifier with these bytes is a registered voter.
    pub open spec fn is_registered(self, id: Seq<u8>) -> bool {
        byte_views(self.voters@).contains(id)
    }

    /// The confirmation count this round's committee must reach before the
    /// next-round seed may be released.
    pub open spec fn quorum(self) -> int {
        required_confirmations_spec(
            self.committee_members@.len() as int,
            THRESHOLD_NUMERATOR as int,
            THRESHOLD_DENOMINATOR as int,
        )
    }

    /// Creates an empty round in the `PreVoting` stage from this round's
    /// committee-generation seed; the next-round seed starts as all zeros.
    pub fn new(seed_for_committee_generation: Vec<u8>) -> (r: VotingRound)
        requires
            seed_for_committee_generation@.len() == HASH_SIZE,
        ensures
            r.seed_for_committee_generation == seed_for_committee_generation,
            r.voters@.len() == 0,
            r.committee_members@.len() == 0,
            r.received_votes@.len() == 0,
            r.key_confirmations@.len() == 0,
            r.stage == VotingStages::PreVoting,
            r.next_round_seed_secret@ == crate::seed::zero_seed(),
    {
        VotingRound {
            seed_for_committee_generation,
            voters: Vec::new(),
            committee_members: Vec::new(),
            received_votes: Vec::new(),
            key_confirmations: Vec::new(),
            stage: VotingStages::PreVoting,
            next_round_seed_secret: crate::seed::zero_seed_bytes(),
        }
    }

    /// Replaces the registered voter set wholesale; later committee
    /// eligibility checks go against this list.
    pub fn apply_for_voting_round(&mut self, voter_ids: Vec<VoterId>)
        ensures
            final (self).voters == voter_ids,
            final (self).seed_for_committee_generation == old(self).seed_for_committee_generation,
            final (self).committee_members == old(self).committee_members,
            final (self).received_votes == old(self).received_votes,
            final (self).key_confirmations == old(self).key_confirmations,
            final (self).stage == old(self).stage,
            final (self).next_round_seed_secret == old(self).next_round_seed_secret,
    {
        self.voters = voter_ids;
    }

    /// Moves the round to the given stage. The reference protocol drives the
    /// stages in call order only, so any target is accepted.
    pub fn update_voting_stage(&mut self, stage: VotingStages)
        ensures
            final (self).stage == stage,
            final (self).seed_for_committee_generation == old(self).seed_for_committee_generation,
            final (self).voters == old(self).voters,
            final (self).committee_members == old(self).committee_members,
            final (self).received_votes == old(self).received_votes,
            final (self).key_confirmations == old(self).key_confirmations,
            final (self).next_round_seed_secret == old(self).next_round_seed_secret,
    {
        self.stage = stage;
    }

    /// Appoints the candidates to the committee. If every candidate is a
    /// registered voter, all of them are appended to the committee, in the
    /// given order; otherwise nothing changes and the first ineligible
    /// identifier comes back in a `NotAVoter` error.
    pub fn apply_for_committee_membership(&mut self, voter_ids: Vec<VoterId>) -> (r: Result<
        (),
        RoundError,
    >)
        ensures
            r is Ok <==> (forall|i: int|
                0 <= i < voter_ids@.len() ==> old(self).is_registered(
                    #[trigger] voter_ids@[i]@,
                )),
            r is Ok ==> byte_views(final (self).committee_members@) == byte_views(
                old(self).committee_members@,
            ) + byte_views(voter_ids@),
            r matches Err(e) ==> *final (self) == *old(self) && (e matches RoundError::NotAVoter(
                bad,
            ) && exists|i: int|
                {
                    &&& 0 <= i < voter_ids@.len()
                    &&& bad@ == #[trigger] voter_ids@[i]@
                    &&& !old(self).is_registered(voter_ids@[i]@)
                    &&& forall|j: int| 0 <= j < i ==> old(self).is_registered(
                        #[trigger] voter_ids@[j]@,
                    )
                }),
            final (self).seed_for_committee_generation == old(self).seed_for_committee_generation,
            final (self).voters == old(self).voters,
            final (self).received_votes == old(self).received_votes,
            final (self).key_confirmations == old(self).key_confirmations,
            final (self).stage == old(self).stage,
            final (self).next_round_seed_secret == old(self).next_round_seed_secret,
    {
        let mut i: usize = 0;
        while i < voter_ids.len()
            invariant
                i <= voter_ids@.len(),
                forall|j: int| 0 <= j < i ==> old(self).is_registered(#[trigger] voter_ids@[j]@),
                *self == *old(self),
            decreases voter_ids@.len() - i,
        {
            if !contains_id(&self.voters, &voter_ids[i]) {
                return Err(RoundError::NotAVoter(clone_id(&voter_ids[i])));
            }
            i += 1;
        }
        let ghost pre_committee = byte_views(self.committee_members@);
        let mut k: usize = 0;
        while k < voter_ids.len()
            invariant
                k <= voter_ids@.len(),
                byte_views(self.committee_members@) == pre_committee + byte_views(
                    voter_ids@,
                ).subrange(0, k as int),
                self.seed_for_committee_generation == old(
                    self,
                ).seed_for_committee_generation,
                self.voters == old(self).voters,
                self.received_votes == old(self).received_votes,
                self.key_confirmations == old(self).key_confirmations,
                self.stage == old(self).stage,
                self.next_round_seed_secret == old(self).next_round_seed_secret,
                pre_committee == byte_views(old(self).committee_members@),
            decreases voter_ids@.len() - k,
        {
            let ghost before = byte_views(self.committee_members@);
            let appointed = clone_id(&voter_ids[k]);
            self.committee_members.push(appointed);
            proof {
                assert(byte_views(self.committee_members@) =~= before.push(
                    voter_ids@[k as int]@,
                ));
                assert(byte_views(self.committee_members@) =~= pre_committee + byte_views(
                    voter_ids@,
                ).subrange(0, k as int + 1));
            }
            k += 1;
        }
        proof {
            assert(byte_views(voter_ids@).subrange(0, voter_ids@.len() as int) =~= byte_views(
                voter_ids@,
            ));
        }
        Ok(())
    }

    /// Replaces the received-votes collection wholesale; nothing is
    /// deduplicated or checked against the voter set.
    pub fn vote(&mut self, vote: Vec<Vote>)
        ensures
            final (self).received_votes == vote,
            final (self).seed_for_committee_generation == old(self).seed_for_committee_generation,
            final (self).voters == old(self).voters,
            final (self).committee_members == old(self).committee_members,
            final (self).key_confirmations == old(self).key_confirmations,
            final (self).stage == old(self).stage,
            final (self).next_round_seed_secret == old(self).next_round_seed_secret,
    {
        self.received_votes = vote;
    }

    /// Counts the `Yes` and `No` entries among the received votes. Pure and
    /// repeatable; the two counts sum to the number of received votes.
    pub fn tally_votes(&self) -> (r: VotingOutcome)
        ensures
            r.yes_votes == count_yes(self.received_votes@),
            r.no_votes == count_no(self.received_votes@),
    {
        let mut yes_votes: usize = 0;
        let mut no_votes: usize = 0;
        let mut i: usize = 0;
        while i < self.received_votes.len()
            invariant
                i <= self.received_votes@.len(),
                yes_votes == count_yes(self.received_votes@.subrange(0, i as int)),
                no_votes == count_no(self.received_votes@.subrange(0, i as int)),
                yes_votes + no_votes == i,
            decreases self.received_votes@.len() - i,
        {
            proof {
                crate::votes::lemma_counts_cover(self.received_votes@.subrange(0, i as int));
                assert(self.received_votes@.subrange(0, i as int + 1).drop_last()
                    =~= self.received_votes@.subrange(0, i as int));
                assert(self.received_votes@.subrange(0, i as int + 1).last()
                    == self.received_votes@[i as int]);
            }
            match self.received_votes[i].vote {
                VoteType::Yes => {
                    yes_votes += 1;
                },
                VoteType::No => {
                    no_votes += 1;
                },
            }
            i += 1;
        }
        proof {
            assert(self.received_votes@.subrange(0, self.received_votes@.len() as int)
                =~= self.received_votes@);
        }
        VotingOutcome { yes_votes, no_votes }
    }

    /// Stores the externally combined committee contribution as this round's
    /// next-round seed secret.
    pub fn add_next_round_seed_hash(&mut self, seed_hash: Vec<u8>)
        requires
            seed_hash@.len() == HASH_SIZE,
        ensures
            final (self).next_round_seed_secret == seed_hash,
            final (self).seed_for_committee_generation == old(self).seed_for_committee_generation,
            final (self).voters == old(self).voters,
            final (self).committee_members == old(self).committee_members,
            final (self).received_votes == old(self).received_votes,
            final (self).key_confirmations == old(self).key_confirmations,
            final (self).stage == old(self).stage,
    {
        self.next_round_seed_secret = seed_hash;
    }

    /// Records that a committee member has revealed its share of the key.
    /// The identifier is appended as given: membership and duplicates are not
    /// checked, exactly as in the reference protocol.
    pub fn add_key_confirmation(&mut self, committee_member_id: VoterId)
        ensures
            final (self).key_confirmations@ == old(self).key_confirmations@.push(
                committee_member_id,
            ),
            final (self).seed_for_committee_generation == old(self).seed_for_committee_generation,
            final (self).voters == old(self).voters,
            final (self).committee_members == old(self).committee_members,
            final (self).received_votes == old(self).received_votes,
            final (self).stage == old(self).stage,
            final (self).next_round_seed_secret == old(self).next_round_seed_secret,
    {
        self.key_confirmations.push(committee_member_id);
    }

    /// The confirmation threshold of this round's committee under the
    /// configured one-half fraction, rounded down.
    pub fn get_threshold(&self) -> (r: usize)
        ensures
            r == self.quorum(),
            r <= self.committee_members@.len(),
    {
        required_confirmations(
            self.committee_members.len(),
            THRESHOLD_NUMERATOR,
            THRESHOLD_DENOMINATOR,
        )
    }

    /// Releases the next-round seed once enough confirmations have been
    /// recorded: exactly when the confirmation count has reached the floored
    /// threshold, the stored seed comes back unchanged; before that the call
    /// fails with `QuorumNotMet`.
    pub fn generate_next_round_voting_seed(&self) -> (r: Result<Vec<u8>, RoundError>)
        ensures
            r is Ok <==> self.key_confirmations@.len() >= self.quorum(),
            r matches Ok(seed) ==> seed@ == self.next_round_seed_secret@,
            r matches Err(e) ==> e is QuorumNotMet,
    {
        let threshold = self.get_threshold();
        if self.key_confirmations.len() < threshold {
            return Err(RoundError::QuorumNotMet);
        }
        Ok(clone_id(&self.next_round_seed_secret))
    }
}

} // verus!
