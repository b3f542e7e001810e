//! Election creation.

use vstd::prelude::*;

use crate::candidate::Candidate;
use crate::constant::MAX_ELECTION_ID_LENGTH;
use crate::election::Election;
use crate::errors::D21Error;
use crate::identity::IdentityKey;
use crate::status::ElectionStatus;
use crate::text::byte_len;
use crate::text::str_byte_len;
use crate::verified_user::UserType;

verus! {

/// The outcome of checking a proposed election, first failing check first:
/// identifier length, a non-empty category allow-list, and then every
/// structural configuration constraint.
pub open spec fn initialize_check(
    election_id: Seq<char>,
    name: Seq<char>,
    candidates: Seq<IdentityKey>,
    num_winners: u8,
    num_plus_votes: u8,
    num_minus_votes: u8,
    allowed_voter_types: Seq<UserType>,
) -> Result<(), D21Error> {
    if !(1 <= byte_len(election_id) <= MAX_ELECTION_ID_LENGTH) {
        Err(D21Error::InvalidElectionId)
    } else if allowed_voter_types.len() == 0 {
        Err(D21Error::InvalidVoterTypes)
    } else {
        Election::config_check(name, candidates, num_winners, num_plus_votes, num_minus_votes)
    }
}

/// Creates an election from a validated configuration, owned by
/// `authority`. On success the election is immediately active, starts at
/// `now`, and carries every proposed candidate with zeroed counters; the
/// host stores it under the key derived from `(authority, election_id)`,
/// failing there if one already exists.
pub fn initialize_election(
    authority: IdentityKey,
    election_id: String,
    name: String,
    candidates: Vec<IdentityKey>,
    num_winners: u8,
    num_plus_votes: u8,
    num_minus_votes: u8,
    allowed_voter_types: Vec<UserType>,
    now: i64,
) -> (r: Result<Election, D21Error>)
    ensures
        match r {
            Ok(e) => {
                &&& initialize_check(
                    election_id@,
                    name@,
                    candidates@,
                    num_winners,
                    num_plus_votes,
                    num_minus_votes,
                    allowed_voter_types@,
                ) == Ok::<(), D21Error>(())
                &&& e.authority == authority
                &&& e.id@ == election_id@
                &&& e.name@ == name@
                &&& e.num_winners == num_winners
                &&& e.num_plus_votes == num_plus_votes
                &&& e.num_minus_votes == num_minus_votes
                &&& e.allowed_voter_types@ == allowed_voter_types@
                &&& e.status == ElectionStatus::Active
                &&& e.start_time == now
                &&& e.end_time is None
                &&& e.total_voters == 0
                &&& e.winners@.len() == 0
                &&& e.candidates@.len() == candidates@.len()
                &&& forall|i: int|
                    0 <= i < candidates@.len() ==> #[trigger] e.candidates@[i] == (Candidate {
                        address: candidates@[i],
                        plus_votes: 0,
                        minus_votes: 0,
                        rank: 0,
                    })
                &&& e.wf()
            },
            Err(err) => initialize_check(
                election_id@,
                name@,
                candidates@,
                num_winners,
                num_plus_votes,
                num_minus_votes,
                allowed_voter_types@,
            ) == Err::<(), D21Error>(err),
        },
{
    let id_len = str_byte_len(election_id.as_str());
    if id_len < 1 || id_len > MAX_ELECTION_ID_LENGTH {
        return Err(D21Error::InvalidElectionId);
    }
    if allowed_voter_types.len() == 0 {
        return Err(D21Error::InvalidVoterTypes);
    }
    let mut election = Election {
        authority,
        id: election_id,
        name,
        num_winners,
        num_plus_votes,
        num_minus_votes,
        allowed_voter_types,
        status: ElectionStatus::Active,
        start_time: now,
        end_time: None,
        total_voters: 0,
        candidates: Vec::new(),
        winners: Vec::new(),
    };
    match election.validate_config(
        election.name.as_str(),
        &candidates,
        num_winners,
        num_plus_votes,
        num_minus_votes,
    ) {
        Ok(()) => {},
        Err(err) => {
            return Err(err);
        },
    }
    let n = candidates.len();
    let mut roster: Vec<Candidate> = Vec::new();
    let mut k: usize = 0;
    while k < n
        invariant
            k <= n,
            n == candidates@.len(),
            roster@.len() == k,
            forall|i: int|
                0 <= i < k ==> #[trigger] roster@[i] == (Candidate {
                    address: candidates@[i],
                    plus_votes: 0,
                    minus_votes: 0,
                    rank: 0,
                }),
        decreases n - k,
    {
        roster.push(
            Candidate { address: candidates[k], plus_votes: 0, minus_votes: 0, rank: 0 },
        );
        k += 1;
    }
    election.candidates = roster;
    proof {
        assert(crate::election::candidate_addresses(election.candidates@) =~= candidates@);
    }
    Ok(election)
}

} // verus!
