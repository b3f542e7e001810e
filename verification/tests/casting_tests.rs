use d21_vote::cast::process_vote;
use d21_vote::election::Election;
use d21_vote::errors::D21Error;
use d21_vote::errors::EngineError;
use d21_vote::errors::VerificationError;
use d21_vote::errors::VoterError;
use d21_vote::identity::IdentityKey;
use d21_vote::initialize::initialize_election;
use d21_vote::register::register_voter;
use d21_vote::status::ElectionStatus;
use d21_vote::status::VoterStatus;
use d21_vote::verified_user::UserType;
use d21_vote::verified_user::UserVerification;
use d21_vote::voter::ElectionVoter;

fn key(v: u64) -> IdentityKey {
    IdentityKey::new(v)
}

const ELECTION_KEY: u64 = 500;

/// An active election over candidates `[A, B, C, D, E]` with two winners:
/// up to 4 plus votes and 1 minus vote per ballot.
fn five_candidate_election() -> Election {
    initialize_election(
        key(100),
        "e-1".to_string(),
        "Campus vote".to_string(),
        (1..=5).map(key).collect(),
        2,
        4,
        1,
        vec![UserType::Student],
        1_000,
    )
    .unwrap()
}

fn verification(voter: u64) -> UserVerification {
    UserVerification {
        user: key(voter),
        id_number: "1234567".to_string(),
        user_type: UserType::Student,
        is_verified: true,
        verification_time: 900,
    }
}

fn registered(election: &Election, voter: u64) -> ElectionVoter {
    let (record, _) = register_voter(
        election,
        key(ELECTION_KEY),
        &verification(voter),
        key(voter),
        1_100,
    )
    .unwrap();
    record
}

fn cast(
    election: &mut Election,
    voter_record: &mut ElectionVoter,
    voter: u64,
    plus: Vec<u8>,
    minus: Vec<u8>,
) -> Result<d21_vote::ballot::Ballot, EngineError> {
    process_vote(
        election,
        key(ELECTION_KEY),
        &verification(voter),
        voter_record,
        key(voter),
        plus,
        minus,
    )
}

#[test]
fn a_valid_ballot_updates_every_tally() {
    let mut e = five_candidate_election();
    let mut v = registered(&e, 7);
    let ballot = cast(&mut e, &mut v, 7, vec![0, 2], vec![4]).unwrap();
    assert_eq!(ballot.voter, key(7));
    assert_eq!(ballot.election, key(ELECTION_KEY));
    assert_eq!(ballot.plus_votes, vec![0, 2]);
    assert_eq!(ballot.minus_votes, vec![4]);
    assert_eq!(e.total_voters, 1);
    assert!(v.has_voted);
    let plus: Vec<i64> = e.candidates.iter().map(|c| c.plus_votes).collect();
    let minus: Vec<i64> = e.candidates.iter().map(|c| c.minus_votes).collect();
    assert_eq!(plus, vec![1, 0, 1, 0, 0]);
    assert_eq!(minus, vec![0, 0, 0, 0, 1]);
}

#[test]
fn second_ballot_fails_and_changes_nothing() {
    let mut e = five_candidate_election();
    let mut v = registered(&e, 7);
    cast(&mut e, &mut v, 7, vec![0, 1], vec![]).unwrap();
    let before_election = e.clone();
    let before_voter = v;
    let second = cast(&mut e, &mut v, 7, vec![2, 3], vec![]);
    assert_eq!(second, Err(EngineError::D21(D21Error::AlreadyVoted)));
    assert_eq!(e, before_election);
    assert_eq!(v, before_voter);
    assert_eq!(e.total_voters, 1);
    assert_eq!(e.candidates[0].plus_votes, 1);
    assert_eq!(e.candidates[2].plus_votes, 0);
}

#[test]
fn minus_votes_demand_two_plus_votes() {
    let mut e = five_candidate_election();
    let mut v = registered(&e, 7);
    // one minus vote is within its own allowance, but only one plus vote
    let r = cast(&mut e, &mut v, 7, vec![0], vec![1]);
    assert_eq!(r, Err(EngineError::D21(D21Error::InsufficientPlusVotes)));
    let r = cast(&mut e, &mut v, 7, vec![], vec![1]);
    assert_eq!(r, Err(EngineError::D21(D21Error::InsufficientPlusVotes)));
    assert_eq!(e.total_voters, 0);
    assert!(!v.has_voted);
}

#[test]
fn overlapping_plus_and_minus_votes_are_rejected() {
    let mut e = five_candidate_election();
    let mut v = registered(&e, 7);
    // 3 plus votes within the allowance of 4; index 2 on both sides
    let r = cast(&mut e, &mut v, 7, vec![0, 1, 2], vec![2]);
    assert_eq!(r, Err(EngineError::D21(D21Error::OverlappingVotes)));
}

#[test]
fn duplicate_plus_votes_are_rejected() {
    let mut e = five_candidate_election();
    let mut v = registered(&e, 7);
    let r = cast(&mut e, &mut v, 7, vec![0, 0], vec![]);
    assert_eq!(r, Err(EngineError::D21(D21Error::DuplicateVotes)));
}

#[test]
fn ballots_over_either_allowance_are_rejected() {
    let mut e = five_candidate_election();
    let mut v = registered(&e, 7);
    let r = cast(&mut e, &mut v, 7, vec![0, 1, 2, 3, 4], vec![]);
    assert_eq!(r, Err(EngineError::D21(D21Error::TooManyPlusVotes)));
    let r = cast(&mut e, &mut v, 7, vec![0, 1], vec![3, 4]);
    assert_eq!(r, Err(EngineError::D21(D21Error::TooManyMinusVotes)));
}

#[test]
fn votes_must_name_existing_candidates() {
    let mut e = five_candidate_election();
    let mut v = registered(&e, 7);
    let r = cast(&mut e, &mut v, 7, vec![0, 5], vec![]);
    assert_eq!(r, Err(EngineError::D21(D21Error::InvalidCandidate)));
}

#[test]
fn ballots_need_an_active_election() {
    let mut e = five_candidate_election();
    let mut v = registered(&e, 7);
    e.status = ElectionStatus::Ended;
    let r = cast(&mut e, &mut v, 7, vec![0, 1], vec![]);
    assert_eq!(r, Err(EngineError::D21(D21Error::ElectionNotActive)));
}

#[test]
fn ballots_need_a_verified_voter() {
    let mut e = five_candidate_election();
    let mut v = registered(&e, 7);
    let mut unverified = verification(7);
    unverified.is_verified = false;
    let r = process_vote(
        &mut e,
        key(ELECTION_KEY),
        &unverified,
        &mut v,
        key(7),
        vec![0, 1],
        vec![],
    );
    assert_eq!(
        r,
        Err(EngineError::Verification(VerificationError::VoterNotVerified))
    );
}

#[test]
fn ballots_need_an_eligible_active_registration() {
    let mut e = five_candidate_election();
    let mut suspended = registered(&e, 7);
    suspended.status = VoterStatus::Suspended;
    let r = cast(&mut e, &mut suspended, 7, vec![0, 1], vec![]);
    assert_eq!(r, Err(EngineError::Voter(VoterError::VoterNotEligible)));

    let mut ineligible = registered(&e, 8);
    ineligible.is_eligible = false;
    let r = cast(&mut e, &mut ineligible, 8, vec![0, 1], vec![]);
    assert_eq!(r, Err(EngineError::Voter(VoterError::VoterNotEligible)));

    // a registration for some other election is not accepted either
    let mut elsewhere = registered(&e, 9);
    elsewhere.election = key(777);
    let r = cast(&mut e, &mut elsewhere, 9, vec![0, 1], vec![]);
    assert_eq!(r, Err(EngineError::Voter(VoterError::VoterNotEligible)));
}

#[test]
fn a_ballot_may_use_the_whole_allowance() {
    let mut e = five_candidate_election();
    let mut v = registered(&e, 7);
    cast(&mut e, &mut v, 7, vec![3, 1, 0, 2], vec![4]).unwrap();
    let plus: Vec<i64> = e.candidates.iter().map(|c| c.plus_votes).collect();
    assert_eq!(plus, vec![1, 1, 1, 1, 0]);
    assert_eq!(e.candidates[4].minus_votes, 1);
}

#[test]
fn tallies_accumulate_across_voters() {
    let mut e = five_candidate_election();
    let mut v1 = registered(&e, 11);
    let mut v2 = registered(&e, 12);
    let mut v3 = registered(&e, 13);
    cast(&mut e, &mut v1, 11, vec![0, 1], vec![]).unwrap();
    cast(&mut e, &mut v2, 12, vec![0, 2], vec![4]).unwrap();
    cast(&mut e, &mut v3, 13, vec![0, 1], vec![4]).unwrap();
    assert_eq!(e.total_voters, 3);
    let plus: Vec<i64> = e.candidates.iter().map(|c| c.plus_votes).collect();
    let minus: Vec<i64> = e.candidates.iter().map(|c| c.minus_votes).collect();
    assert_eq!(plus, vec![3, 2, 1, 0, 0]);
    assert_eq!(minus, vec![0, 0, 0, 0, 2]);
}
