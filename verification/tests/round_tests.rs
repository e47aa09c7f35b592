use voting_round::identity::{
    derive_identifier, generate_voter_id, generate_voting_round_signing_key, get_hex,
};
use voting_round::round::{RoundError, VotingRound, VotingStages};
use voting_round::seed::combine_seed_contributions;
use voting_round::threshold::required_confirmations;
use voting_round::votes::{get_random_vote_type, Vote, VoteType};
use voting_round::{HASH_SIZE, VoterId};

fn id_from_byte(b: u8) -> VoterId {
    let mut id = Vec::new();
    for i in 0..HASH_SIZE {
        id.push(b.wrapping_add(i as u8));
    }
    id
}

fn fresh_round() -> VotingRound {
    VotingRound::new(vec![0u8; HASH_SIZE])
}

#[test]
fn required_confirmations_is_floor_of_fraction() {
    assert_eq!(required_confirmations(5, 1, 2), 2);
    assert_eq!(required_confirmations(4, 1, 2), 2);
    assert_eq!(required_confirmations(0, 1, 2), 0);
    assert_eq!(required_confirmations(1, 1, 2), 0);
    assert_eq!(required_confirmations(15, 1, 2), 7);
    assert_eq!(required_confirmations(3, 2, 3), 2);
    assert_eq!(required_confirmations(7, 7, 7), 7);
    for n in 0..50usize {
        let expected = (0.5f64 * n as f64).floor() as usize;
        assert_eq!(required_confirmations(n, 1, 2), expected);
    }
}

#[test]
fn tally_counts_yes_and_no() {
    let mut round = fresh_round();
    let votes = vec![
        Vote { voter_id: id_from_byte(1), vote: VoteType::Yes },
        Vote { voter_id: id_from_byte(2), vote: VoteType::Yes },
        Vote { voter_id: id_from_byte(3), vote: VoteType::No },
    ];
    round.vote(votes);
    let outcome = round.tally_votes();
    assert_eq!(outcome.yes_votes, 2);
    assert_eq!(outcome.no_votes, 1);
}

#[test]
fn tally_of_no_votes_is_zero() {
    let round = fresh_round();
    let outcome = round.tally_votes();
    assert_eq!(outcome.yes_votes, 0);
    assert_eq!(outcome.no_votes, 0);
}

#[test]
fn vote_replaces_received_votes_wholesale() {
    let mut round = fresh_round();
    round.vote(vec![Vote { voter_id: id_from_byte(1), vote: VoteType::Yes }]);
    round.vote(vec![
        Vote { voter_id: id_from_byte(2), vote: VoteType::No },
        Vote { voter_id: id_from_byte(3), vote: VoteType::No },
    ]);
    let outcome = round.tally_votes();
    assert_eq!(outcome.yes_votes, 0);
    assert_eq!(outcome.no_votes, 2);
}

#[test]
fn combine_is_order_independent() {
    let a: Vec<u8> = (0u8..16).collect();
    let b: Vec<u8> = (100u8..116).collect();
    let c: Vec<u8> = (200u8..216).collect();
    let abc = combine_seed_contributions(&vec![a.clone(), b.clone(), c.clone()]);
    let cab = combine_seed_contributions(&vec![c, a, b]);
    assert_eq!(abc, cab);
}

#[test]
fn combine_has_exact_xor_value() {
    let a = vec![0x01u8; HASH_SIZE];
    let b = vec![0x02u8; HASH_SIZE];
    let combined = combine_seed_contributions(&vec![a, b]);
    assert_eq!(combined, vec![0x03u8; HASH_SIZE]);
    let nothing = combine_seed_contributions(&Vec::new());
    assert_eq!(nothing, vec![0u8; HASH_SIZE]);
    let lone = vec![0xabu8; HASH_SIZE];
    assert_eq!(combine_seed_contributions(&vec![lone.clone()]), lone);
}

#[test]
fn identifier_derivation_is_deterministic() {
    let key_bytes = vec![7u8; 32];
    let first = derive_identifier(&key_bytes);
    let second = derive_identifier(&key_bytes);
    assert_eq!(first, second);
    assert_eq!(first.len(), HASH_SIZE);
    // The digest is not the input handed back.
    assert_ne!(first, key_bytes[..HASH_SIZE].to_vec());
    let other = derive_identifier(&vec![8u8; 32]);
    assert_ne!(first, other);
}

#[test]
fn voter_id_comes_from_the_keypair() {
    let keypair = generate_voting_round_signing_key();
    let once = generate_voter_id(&keypair);
    let again = generate_voter_id(&keypair);
    assert_eq!(once, again);
    assert_eq!(once.len(), HASH_SIZE);
    let other = generate_voter_id(&generate_voting_round_signing_key());
    assert_ne!(once, other);
}

#[test]
fn hex_rendering_is_contiguous_lowercase() {
    assert_eq!(get_hex(&vec![0x00, 0xff, 0x1a]), "00ff1a");
    assert_eq!(get_hex(&Vec::new()), "");
    let id: Vec<u8> = (0u8..16).collect();
    assert_eq!(get_hex(&id), "000102030405060708090a0b0c0d0e0f");
}

#[test]
fn committee_application_rejects_non_voters() {
    let mut round = fresh_round();
    round.apply_for_voting_round(vec![id_from_byte(1), id_from_byte(2)]);
    let outsider = id_from_byte(50);
    let result = round.apply_for_committee_membership(vec![id_from_byte(1), outsider.clone()]);
    match result {
        Err(RoundError::NotAVoter(bad)) => assert_eq!(bad, outsider),
        _ => panic!("an unregistered candidate must be rejected"),
    }
    assert!(round.committee_members.is_empty());
}

#[test]
fn committee_application_accepts_registered_voters() {
    let mut round = fresh_round();
    let ids = vec![id_from_byte(1), id_from_byte(2), id_from_byte(3)];
    round.apply_for_voting_round(ids.clone());
    let result = round.apply_for_committee_membership(vec![id_from_byte(2), id_from_byte(3)]);
    assert!(result.is_ok());
    assert_eq!(round.committee_members, vec![id_from_byte(2), id_from_byte(3)]);
}

#[test]
fn stage_moves_to_the_given_target() {
    let mut round = fresh_round();
    assert_eq!(round.stage, VotingStages::PreVoting);
    round.update_voting_stage(VotingStages::Voting);
    assert_eq!(round.stage, VotingStages::Voting);
    round.update_voting_stage(VotingStages::PostVoting);
    assert_eq!(round.stage, VotingStages::PostVoting);
}

#[test]
fn seed_release_is_gated_on_quorum() {
    let mut round = fresh_round();
    let ids: Vec<VoterId> = (1u8..=5).map(id_from_byte).collect();
    round.apply_for_voting_round(ids.clone());
    round.apply_for_committee_membership(ids.clone()).unwrap();
    assert_eq!(round.get_threshold(), 2);
    let secret = vec![0x5au8; HASH_SIZE];
    round.add_next_round_seed_hash(secret.clone());

    assert!(matches!(
        round.generate_next_round_voting_seed(),
        Err(RoundError::QuorumNotMet)
    ));
    round.add_key_confirmation(ids[0].clone());
    assert!(matches!(
        round.generate_next_round_voting_seed(),
        Err(RoundError::QuorumNotMet)
    ));
    round.add_key_confirmation(ids[1].clone());
    // Meeting the floored threshold exactly already unlocks the seed.
    assert_eq!(round.generate_next_round_voting_seed().unwrap(), secret);
}

#[test]
fn random_vote_is_a_binary_choice() {
    let vote = get_random_vote_type();
    assert!(matches!(vote, VoteType::Yes | VoteType::No));
}

#[test]
fn full_round_with_fifteen_voters() {
    let mut voter_ids: Vec<VoterId> = Vec::new();
    for _ in 0..15 {
        let keypair = generate_voting_round_signing_key();
        voter_ids.push(generate_voter_id(&keypair));
    }

    let mut round = fresh_round();
    round.apply_for_voting_round(voter_ids.clone());
    let committee: Vec<VoterId> = voter_ids[..5].to_vec();
    round.apply_for_committee_membership(committee.clone()).unwrap();
    assert_eq!(round.get_threshold(), 2);

    round.update_voting_stage(VotingStages::Voting);
    let votes: Vec<Vote> = voter_ids
        .iter()
        .map(|id| Vote { voter_id: id.clone(), vote: get_random_vote_type() })
        .collect();
    round.vote(votes);
    round.update_voting_stage(VotingStages::PostVoting);
    let outcome = round.tally_votes();
    assert_eq!(outcome.yes_votes + outcome.no_votes, 15);

    let contributions: Vec<Vec<u8>> =
        (0u8..5).map(|k| (k..k + HASH_SIZE as u8).collect()).collect();
    let combined = combine_seed_contributions(&contributions);
    round.add_next_round_seed_hash(combined.clone());

    round.add_key_confirmation(committee[0].clone());
    assert!(matches!(
        round.generate_next_round_voting_seed(),
        Err(RoundError::QuorumNotMet)
    ));
    round.add_key_confirmation(committee[1].clone());
    assert_eq!(round.generate_next_round_voting_seed().unwrap(), combined);
}
