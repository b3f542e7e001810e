use d21_vote::election::Election;
use d21_vote::errors::D21Error;
use d21_vote::identity::IdentityKey;
use d21_vote::status::ElectionStatus;
use d21_vote::verified_user::UserType;

fn key(v: u64) -> IdentityKey {
    IdentityKey::new(v)
}

fn keys(n: u64) -> Vec<IdentityKey> {
    (1..=n).map(key).collect()
}

fn blank_election() -> Election {
    Election {
        authority: key(100),
        id: "e-1".to_string(),
        name: "blank".to_string(),
        num_winners: 1,
        num_plus_votes: 1,
        num_minus_votes: 0,
        allowed_voter_types: vec![UserType::Student],
        status: ElectionStatus::Created,
        start_time: 0,
        end_time: None,
        total_voters: 0,
        candidates: vec![],
        winners: vec![],
    }
}

#[test]
fn accepts_a_sound_configuration() {
    let e = blank_election();
    assert_eq!(e.validate_config("Campus vote", &keys(5), 2, 4, 1), Ok(()));
}

#[test]
fn rejects_empty_and_oversized_names() {
    let e = blank_election();
    assert_eq!(
        e.validate_config("", &keys(5), 2, 4, 1),
        Err(D21Error::InvalidNameLength)
    );
    let long = "x".repeat(51);
    assert_eq!(
        e.validate_config(&long, &keys(5), 2, 4, 1),
        Err(D21Error::InvalidNameLength)
    );
}

#[test]
fn rejects_too_few_or_too_many_candidates() {
    let e = blank_election();
    assert_eq!(
        e.validate_config("Campus vote", &keys(1), 1, 1, 0),
        Err(D21Error::InvalidCandidateCount)
    );
    assert_eq!(
        e.validate_config("Campus vote", &keys(51), 2, 4, 1),
        Err(D21Error::InvalidCandidateCount)
    );
}

#[test]
fn rejects_duplicate_candidates_at_any_position() {
    let e = blank_election();
    let head = vec![key(7), key(7), key(2), key(3), key(4)];
    let tail = vec![key(1), key(2), key(3), key(4), key(4)];
    let apart = vec![key(9), key(2), key(3), key(4), key(9)];
    for list in [head, tail, apart] {
        assert_eq!(
            e.validate_config("Campus vote", &list, 2, 4, 1),
            Err(D21Error::DuplicateCandidates)
        );
    }
}

#[test]
fn rejects_winner_counts_outside_the_candidate_count() {
    let e = blank_election();
    assert_eq!(
        e.validate_config("Campus vote", &keys(5), 0, 4, 1),
        Err(D21Error::InvalidWinnerCount)
    );
    assert_eq!(
        e.validate_config("Campus vote", &keys(5), 5, 4, 1),
        Err(D21Error::InvalidWinnerCount)
    );
}

#[test]
fn rejects_plus_allowances_outside_the_formula_bound() {
    let e = blank_election();
    assert_eq!(
        e.validate_config("Campus vote", &keys(5), 2, 0, 0),
        Err(D21Error::InvalidPlusVoteCount)
    );
    // the D21 bound for 2 winners of 5 candidates is 4
    assert_eq!(
        e.validate_config("Campus vote", &keys(5), 2, 5, 1),
        Err(D21Error::InvalidPlusVoteCount)
    );
}

#[test]
fn rejects_minus_allowances_over_a_third_of_plus() {
    let e = blank_election();
    // 4 / 3 = 1, so 2 minus votes are too many
    assert_eq!(
        e.validate_config("Campus vote", &keys(5), 2, 4, 2),
        Err(D21Error::InvalidMinusVoteCount)
    );
    assert_eq!(e.validate_config("Campus vote", &keys(5), 2, 4, 1), Ok(()));
}

#[test]
fn boundary_lengths_are_accepted() {
    let e = blank_election();
    assert_eq!(e.validate_config("x", &keys(5), 2, 4, 1), Ok(()));
    let exact = "x".repeat(50);
    assert_eq!(e.validate_config(&exact, &keys(5), 2, 4, 1), Ok(()));
    // the largest candidate list, with a duplicate buried at the far end
    assert_eq!(e.validate_config("Campus vote", &keys(50), 10, 4, 1), Ok(()));
    let mut dup = keys(50);
    dup[49] = dup[0];
    assert_eq!(
        e.validate_config("Campus vote", &dup, 10, 4, 1),
        Err(D21Error::DuplicateCandidates)
    );
}

#[test]
fn name_limits_count_bytes_not_characters() {
    let e = blank_election();
    // each of these characters encodes to two bytes
    let fifty_bytes = "\u{e9}".repeat(25);
    assert_eq!(e.validate_config(&fifty_bytes, &keys(5), 2, 4, 1), Ok(()));
    let fifty_two_bytes = "\u{e9}".repeat(26);
    assert_eq!(
        e.validate_config(&fifty_two_bytes, &keys(5), 2, 4, 1),
        Err(D21Error::InvalidNameLength)
    );
}

#[test]
fn space_grows_with_the_candidate_allowance() {
    assert_eq!(Election::space(0), 176);
    assert_eq!(Election::space(50), 176 + 50 * (56 + 32));
}

#[test]
fn voter_type_check_follows_the_allow_list() {
    let mut e = blank_election();
    assert!(e.is_voter_type_allowed(&UserType::Student));
    assert!(!e.is_voter_type_allowed(&UserType::Staff));
    e.allowed_voter_types = vec![UserType::Student, UserType::Staff];
    assert!(e.is_voter_type_allowed(&UserType::Staff));
}
