use d21_vote::candidate::Candidate;
use d21_vote::election::Election;
use d21_vote::errors::D21Error;
use d21_vote::identity::IdentityKey;
use d21_vote::initialize::initialize_election;
use d21_vote::lifecycle::end_election;
use d21_vote::status::ElectionStatus;
use d21_vote::verified_user::UserType;

fn key(v: u64) -> IdentityKey {
    IdentityKey::new(v)
}

fn candidate(address: u64, plus: i64, minus: i64) -> Candidate {
    Candidate { address: key(address), plus_votes: plus, minus_votes: minus, rank: 0 }
}

/// An active election whose tallies are already written, for exercising
/// the closing pass directly.
fn tallied_election(num_winners: u8, total_voters: u32, candidates: Vec<Candidate>) -> Election {
    Election {
        authority: key(100),
        id: "e-1".to_string(),
        name: "Campus vote".to_string(),
        num_winners,
        num_plus_votes: 4,
        num_minus_votes: 1,
        allowed_voter_types: vec![UserType::Student],
        status: ElectionStatus::Active,
        start_time: 1_000,
        end_time: None,
        total_voters,
        candidates,
        winners: vec![],
    }
}

#[test]
fn closing_ranks_by_score_and_selects_winners() {
    let mut e = tallied_election(
        2,
        4,
        vec![
            candidate(1, 3, 0),  // score 3
            candidate(2, 2, 0),  // score 2
            candidate(3, 2, 0),  // score 2, tied with the previous: earlier index wins
            candidate(4, 1, 0),  // score 1
            candidate(5, 0, 2),  // score -2
        ],
    );
    end_election(&mut e, key(100), 2_000).unwrap();
    assert_eq!(e.status, ElectionStatus::Ended);
    assert_eq!(e.end_time, Some(2_000));
    let ranks: Vec<u8> = e.candidates.iter().map(|c| c.rank).collect();
    assert_eq!(ranks, vec![0, 1, 2, 3, 4]);
    assert_eq!(e.winners.len(), 2);
    assert_eq!(e.winners, vec![key(1), key(2)]);
    // tallies are untouched by the closing pass
    assert_eq!(e.candidates[0].plus_votes, 3);
    assert_eq!(e.candidates[4].minus_votes, 2);
    assert_eq!(e.total_voters, 4);
}

#[test]
fn equal_scores_rank_by_plus_votes() {
    let mut e = tallied_election(
        2,
        5,
        vec![
            candidate(10, 1, 0),  // score 1 with 1 plus vote
            candidate(11, 3, 2),  // score 1 with 3 plus votes
            candidate(12, 2, 1),  // score 1 with 2 plus votes
        ],
    );
    end_election(&mut e, key(100), 2_000).unwrap();
    let ranks: Vec<u8> = e.candidates.iter().map(|c| c.rank).collect();
    assert_eq!(ranks, vec![2, 0, 1]);
    assert_eq!(e.winners, vec![key(11), key(12)]);
}

#[test]
fn winners_follow_cast_ballots() {
    let mut e = initialize_election(
        key(100),
        "e-1".to_string(),
        "Campus vote".to_string(),
        (1..=5).map(key).collect(),
        2,
        4,
        1,
        vec![UserType::Student],
        1_000,
    )
    .unwrap();
    // write the tallies a few ballots would have produced
    e.candidates[0].plus_votes = 3;
    e.candidates[1].plus_votes = 2;
    e.candidates[2].plus_votes = 1;
    e.candidates[4].minus_votes = 2;
    e.total_voters = 3;
    end_election(&mut e, key(100), 2_000).unwrap();
    assert_eq!(e.winners, vec![key(1), key(2)]);
    let ranks: Vec<u8> = e.candidates.iter().map(|c| c.rank).collect();
    assert_eq!(ranks, vec![0, 1, 2, 3, 4]);
}

#[test]
fn only_the_administrator_may_close() {
    let mut e = tallied_election(1, 0, vec![candidate(1, 0, 0), candidate(2, 0, 0)]);
    let before = e.clone();
    assert_eq!(end_election(&mut e, key(999), 2_000), Err(D21Error::Unauthorized));
    assert_eq!(e, before);
}

#[test]
fn a_closed_election_cannot_be_closed_again() {
    let mut e = tallied_election(1, 0, vec![candidate(1, 0, 0), candidate(2, 0, 0)]);
    end_election(&mut e, key(100), 2_000).unwrap();
    let before = e.clone();
    assert_eq!(end_election(&mut e, key(100), 3_000), Err(D21Error::ElectionNotActive));
    assert_eq!(e, before);
}
