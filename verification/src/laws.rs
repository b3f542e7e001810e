//! The engine's stated laws, proved once and for all inputs.

use vstd::prelude::*;

use crate::allowance::max_plus_votes;
use crate::candidate::score;
use crate::candidate::Candidate;
use crate::cast::cast_check;
use crate::constant::MAX_CANDIDATES;
use crate::constant::MAX_NAME_LENGTH;
use crate::constant::MIN_CANDIDATES;
use crate::election::has_duplicate_addresses;
use crate::election::Election;
use crate::errors::D21Error;
use crate::errors::EngineError;
use crate::identity::IdentityKey;
use crate::lifecycle::election_closed;
use crate::lifecycle::rank_consistent_at;
use crate::lifecycle::ranking_assigned;
use crate::lifecycle::winner_at;
use crate::status::transition_allowed;
use crate::status::ElectionStatus;
use crate::status::VoterStatus;
use crate::text::byte_len;
use crate::verified_user::UserVerification;
use crate::voter::ElectionVoter;

verus! {

/// The plus-vote allowance is monotone in the winner count: for a fixed
/// candidate count, allowing more winners never shrinks the allowance. And
/// it never exceeds one less than the candidate count.
pub proof fn lemma_allowance_monotone(w1: u8, w2: u8, n: u8)
    requires
        w1 <= w2,
        2 <= n,
    ensures
        max_plus_votes(w1, n) <= max_plus_votes(w2, n),
        max_plus_votes(w2, n) <= n - 1,
{
    vstd::arithmetic::div_mod::lemma_div_is_ordered(
        1382 * (w1 as int) + 1736,
        1382 * (w2 as int) + 1736,
        1000,
    );
}

/// A candidate list that names the same key at two positions is rejected
/// with `DuplicateCandidates`, wherever those positions are — provided the
/// checks that come first (name length, candidate count) pass.
pub proof fn lemma_duplicate_candidates_rejected(
    name: Seq<char>,
    candidates: Seq<IdentityKey>,
    num_winners: u8,
    num_plus_votes: u8,
    num_minus_votes: u8,
    i: int,
    j: int,
)
    requires
        1 <= byte_len(name) <= MAX_NAME_LENGTH,
        MIN_CANDIDATES <= candidates.len() <= MAX_CANDIDATES,
        0 <= i < j < candidates.len(),
        candidates[i] == candidates[j],
    ensures
        Election::config_check(name, candidates, num_winners, num_plus_votes, num_minus_votes)
            == Err::<(), D21Error>(D21Error::DuplicateCandidates),
{
    assert(has_duplicate_addresses(candidates));
}

/// A ballot that casts any minus vote while carrying fewer than two plus
/// votes fails with `InsufficientPlusVotes`, even when the minus votes are
/// within their own allowance — provided the checks that come first (an
/// active election, a verified, eligible voter who has not voted, and both
/// allowances) pass.
pub proof fn lemma_minus_votes_need_two_plus(
    election: Election,
    election_key: IdentityKey,
    verification: UserVerification,
    election_voter: ElectionVoter,
    voter: IdentityKey,
    plus: Seq<u8>,
    minus: Seq<u8>,
)
    requires
        election.status == ElectionStatus::Active,
        verification.is_verified,
        election_voter.voter == voter,
        election_voter.election == election_key,
        election_voter.status == VoterStatus::Active,
        election_voter.is_eligible,
        !election_voter.has_voted,
        plus.len() <= election.num_plus_votes as int,
        minus.len() <= election.num_minus_votes as int,
        minus.len() > 0,
        plus.len() < 2,
    ensures
        cast_check(election, election_key, verification, election_voter, voter, plus, minus)
            == Err::<(), EngineError>(EngineError::D21(D21Error::InsufficientPlusVotes)),
{
}

/// A voter whose registration already records a cast ballot is turned away
/// with `AlreadyVoted`, whatever their ballot holds — provided the checks
/// that come first (an active election, a verified, eligible voter) pass.
/// Together with the contract of `process_vote`, which leaves every record
/// unchanged on failure, a second ballot for the same `(election, voter)`
/// pair fails and disturbs nothing.
pub proof fn lemma_second_ballot_rejected(
    election: Election,
    election_key: IdentityKey,
    verification: UserVerification,
    election_voter: ElectionVoter,
    voter: IdentityKey,
    plus: Seq<u8>,
    minus: Seq<u8>,
)
    requires
        election.status == ElectionStatus::Active,
        verification.is_verified,
        election_voter.voter == voter,
        election_voter.election == election_key,
        election_voter.status == VoterStatus::Active,
        election_voter.is_eligible,
        election_voter.has_voted,
    ensures
        cast_check(election, election_key, verification, election_voter, voter, plus, minus)
            == Err::<(), EngineError>(EngineError::D21(D21Error::AlreadyVoted)),
{
}

/// `Revoked` is terminal: no transition out of it is legal.
pub proof fn lemma_revoked_is_terminal(to: VoterStatus)
    ensures
        !transition_allowed(VoterStatus::Revoked, to),
{
}

/// Every state other than `Revoked` has at least one legal transition out
/// — in particular, it can always be revoked.
pub proof fn lemma_live_states_can_move(from: VoterStatus)
    requires
        from != VoterStatus::Revoked,
    ensures
        transition_allowed(from, VoterStatus::Revoked),
        exists|to: VoterStatus| transition_allowed(from, to),
{
    assert(transition_allowed(from, VoterStatus::Revoked));
}

/// In a written ranking, a better rank means a strictly higher score, or
/// an equal score with at least as many plus votes.
pub proof fn lemma_ranking_sorted(old_c: Seq<Candidate>, new_c: Seq<Candidate>, i: int, j: int)
    requires
        ranking_assigned(old_c, new_c),
        0 <= i < new_c.len(),
        0 <= j < new_c.len(),
        new_c[i].rank < new_c[j].rank,
    ensures
        score(old_c[i]) > score(old_c[j]) || (score(old_c[i]) == score(old_c[j])
            && old_c[i].plus_votes >= old_c[j].plus_votes),
{
    assert(i != j);
}

/// In a closed election the winner list has exactly `num_winners` entries,
/// and they come in ranking order: an earlier winner carries a strictly
/// higher score than a later one, or an equal score with at least as many
/// plus votes.
pub proof fn lemma_winners_ranked(old_e: Election, new_e: Election, now: i64, k: int, l: int)
    requires
        election_closed(old_e, new_e, now),
        0 <= k < l < new_e.winners@.len(),
    ensures
        new_e.winners@.len() == old_e.num_winners as int,
        exists|i: int, j: int|
            {
                &&& 0 <= i < old_e.candidates@.len()
                &&& 0 <= j < old_e.candidates@.len()
                &&& i != j
                &&& new_e.winners@[k] == old_e.candidates@[i].address
                &&& new_e.winners@[l] == old_e.candidates@[j].address
                &&& (score(#[trigger] old_e.candidates@[i]) > score(#[trigger] old_e.candidates@[j])
                    || (score(old_e.candidates@[i]) == score(old_e.candidates@[j])
                    && old_e.candidates@[i].plus_votes >= old_e.candidates@[j].plus_votes))
            },
{
    let old_c = old_e.candidates@;
    let new_c = new_e.candidates@;
    assert(winner_at(old_c, new_c, new_e.winners@, k));
    assert(winner_at(old_c, new_c, new_e.winners@, l));
    let i = choose|i: int|
        0 <= i < new_c.len() && (#[trigger] new_c[i].rank as int) == k && new_e.winners@[k]
            == old_c[i].address;
    let j = choose|j: int|
        0 <= j < new_c.len() && (#[trigger] new_c[j].rank as int) == l && new_e.winners@[l]
            == old_c[j].address;
    assert(i != j);
    assert(rank_consistent_at(old_c, new_c, i) && rank_consistent_at(old_c, new_c, j)) by {
        assert(ranking_assigned(old_c, new_c));
    }
    lemma_ranking_sorted(old_c, new_c, i, j);
}

} // verus!
