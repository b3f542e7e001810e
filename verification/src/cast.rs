//! Ballot casting: validation of a voter's plus/minus ballot and the
//! tally update it commits.

use vstd::prelude::*;

use crate::ballot::Ballot;
use crate::candidate::Candidate;
use crate::election::candidate_addresses;
use crate::election::Election;
use crate::errors::D21Error;
use crate::errors::EngineError;
use crate::errors::VerificationError;
use crate::errors::VoterError;
use crate::identity::IdentityKey;
use crate::status::ElectionStatus;
use crate::status::VoterStatus;
use crate::verified_user::UserVerification;
use crate::voter::ElectionVoter;

verus! {

/// Every index in `votes` names a candidate: all are below `n`.
pub open spec fn votes_in_range(votes: Seq<u8>, n: int) -> bool {
    forall|k: int| 0 <= k < votes.len() ==> (#[trigger] votes[k] as int) < n
}

/// Some candidate receives both a plus and a minus vote.
pub open spec fn votes_overlap(plus: Seq<u8>, minus: Seq<u8>) -> bool {
    exists|i: int| 0 <= i < plus.len() && minus.contains(#[trigger] plus[i])
}

/// Some candidate index appears twice in `votes`.
pub open spec fn has_duplicate_votes(votes: Seq<u8>) -> bool {
    exists|i: int, j: int| 0 <= i < j < votes.len() && votes[i] == votes[j]
}

/// The outcome of validating a ballot, first failing check first: the
/// election must be active; the voter must be verified; their registration
/// must be theirs, for this election, active, and eligible; they must not
/// have voted; the ballot must respect both allowances; minus votes require
/// at least two plus votes; every index must name a candidate; and no
/// candidate may be voted twice, whether across the two lists or within
/// one.
pub open spec fn cast_check(
    election: Election,
    election_key: IdentityKey,
    verification: UserVerification,
    election_voter: ElectionVoter,
    voter: IdentityKey,
    plus: Seq<u8>,
    minus: Seq<u8>,
) -> Result<(), EngineError> {
    if election.status != ElectionStatus::Active {
        Err(EngineError::D21(D21Error::ElectionNotActive))
    } else if !verification.is_verified {
        Err(EngineError::Verification(VerificationError::VoterNotVerified))
    } else if !(election_voter.voter == voter && election_voter.election == election_key
        && election_voter.status == VoterStatus::Active && election_voter.is_eligible) {
        Err(EngineError::Voter(VoterError::VoterNotEligible))
    } else if election_voter.has_voted {
        Err(EngineError::D21(D21Error::AlreadyVoted))
    } else if plus.len() > election.num_plus_votes as int {
        Err(EngineError::D21(D21Error::TooManyPlusVotes))
    } else if minus.len() > election.num_minus_votes as int {
        Err(EngineError::D21(D21Error::TooManyMinusVotes))
    } else if !(plus.len() >= 2 || minus.len() == 0) {
        Err(EngineError::D21(D21Error::InsufficientPlusVotes))
    } else if !(votes_in_range(plus, election.candidates@.len() as int) && votes_in_range(
        minus,
        election.candidates@.len() as int,
    )) {
        Err(EngineError::D21(D21Error::InvalidCandidate))
    } else if votes_overlap(plus, minus) {
        Err(EngineError::D21(D21Error::OverlappingVotes))
    } else if has_duplicate_votes(plus + minus) {
        Err(EngineError::D21(D21Error::DuplicateVotes))
    } else {
        Ok(())
    }
}

/// The tally at position `i` after an accepted ballot: one more plus vote
/// if `plus` names `i`, one more minus vote if `minus` names `i`, and
/// nothing else about the candidate changed.
pub open spec fn tally_at(
    old_c: Seq<Candidate>,
    new_c: Seq<Candidate>,
    plus: Seq<u8>,
    minus: Seq<u8>,
    i: int,
) -> bool {
    &&& (new_c[i].plus_votes as int) == old_c[i].plus_votes + (if plus.contains(i as u8) {
        1int
    } else {
        0int
    })
    &&& (new_c[i].minus_votes as int) == old_c[i].minus_votes + (if minus.contains(i as u8) {
        1int
    } else {
        0int
    })
    &&& new_c[i].address == old_c[i].address
    &&& new_c[i].rank == old_c[i].rank
}

/// The tallies after an accepted ballot: each candidate named in `plus`
/// gains one plus vote, each named in `minus` gains one minus vote, and
/// nothing else about any candidate changes.
pub open spec fn tallies_updated(
    old_c: Seq<Candidate>,
    new_c: Seq<Candidate>,
    plus: Seq<u8>,
    minus: Seq<u8>,
) -> bool {
    &&& new_c.len() == old_c.len()
    &&& forall|i: int| 0 <= i < new_c.len() ==> #[trigger] tally_at(old_c, new_c, plus, minus, i)
}

/// Everything about an election except its tallies is as it was.
pub open spec fn same_except_tallies(old_e: Election, new_e: Election) -> bool {
    &&& new_e.authority == old_e.authority
    &&& new_e.id == old_e.id
    &&& new_e.name == old_e.name
    &&& new_e.num_winners == old_e.num_winners
    &&& new_e.num_plus_votes == old_e.num_plus_votes
    &&& new_e.num_minus_votes == old_e.num_minus_votes
    &&& new_e.allowed_voter_types == old_e.allowed_voter_types
    &&& new_e.status == old_e.status
    &&& new_e.start_time == old_e.start_time
    &&& new_e.end_time == old_e.end_time
    &&& new_e.winners == old_e.winners
}

/// Whether `votes` holds `x`.
fn contains_vote(votes: &Vec<u8>, x: u8) -> (r: bool)
    ensures
        r == votes@.contains(x),
{
    let n = votes.len();
    let mut k: usize = 0;
    while k < n
        invariant
            k <= n,
            n == votes@.len(),
            forall|a: int| 0 <= a < k ==> votes@[a] != x,
        decreases n - k,
    {
        if votes[k] == x {
            assert(votes@[k as int] == x);
            return true;
        }
        k += 1;
    }
    false
}

/// Whether every index in `votes` is below `n`.
fn all_in_range(votes: &Vec<u8>, n: usize) -> (r: bool)
    ensures
        r == votes_in_range(votes@, n as int),
{
    let len = votes.len();
    let mut k: usize = 0;
    while k < len
        invariant
            k <= len,
            len == votes@.len(),
            forall|a: int| 0 <= a < k ==> (#[trigger] votes@[a] as int) < n,
        decreases len - k,
    {
        if !((votes[k] as usize) < n) {
            assert(!((votes@[k as int] as int) < n));
            return false;
        }
        k += 1;
    }
    true
}

/// Whether any index receives both a plus and a minus vote.
fn votes_overlap_exec(plus: &Vec<u8>, minus: &Vec<u8>) -> (r: bool)
    ensures
        r == votes_overlap(plus@, minus@),
{
    let n = plus.len();
    let mut k: usize = 0;
    while k < n
        invariant
            k <= n,
            n == plus@.len(),
            forall|a: int| 0 <= a < k ==> !minus@.contains(#[trigger] plus@[a]),
        decreases n - k,
    {
        if contains_vote(minus, plus[k]) {
            assert(minus@.contains(plus@[k as int]));
            return true;
        }
        k += 1;
    }
    false
}

/// Whether any index appears twice in `votes`, by pairwise comparison.
fn has_duplicate_votes_exec(votes: &Vec<u8>) -> (r: bool)
    ensures
        r == has_duplicate_votes(votes@),
{
    let n = votes.len();
    let mut i: usize = 0;
    while i < n
        invariant
            i <= n,
            n == votes@.len(),
            forall|a: int, b: int| 0 <= a < b < n && a < i ==> votes@[a] != votes@[b],
        decreases n - i,
    {
        let mut j: usize = i + 1;
        while j < n
            invariant
                i < n,
                i < j <= n,
                n == votes@.len(),
                forall|b: int| i < b < j ==> votes@[i as int] != votes@[b],
            decreases n - j,
        {
            if votes[i] == votes[j] {
                assert(votes@[i as int] == votes@[j as int]);
                return true;
            }
            j += 1;
        }
        i += 1;
    }
    false
}

/// Validates and records one voter's ballot. Every check runs before any
/// mutation, so a rejected ballot leaves the election and the registration
/// exactly as they were. An accepted ballot, atomically: yields the ballot
/// record for the host to store under `(election_key, voter)` (creation
/// fails there if one exists), adds one plus vote to each candidate named
/// in `plus_votes` and one minus vote to each named in `minus_votes`, marks
/// the voter as having voted, and counts them in `total_voters`.
///
/// The host resolves `verification` under the voter's own key, so the
/// record is known to be theirs; `election_key` is the key of `election`.
#[verifier::loop_isolation(false)]
pub fn process_vote(
    election: &mut Election,
    election_key: IdentityKey,
    verification: &UserVerification,
    election_voter: &mut ElectionVoter,
    voter: IdentityKey,
    plus_votes: Vec<u8>,
    minus_votes: Vec<u8>,
) -> (r: Result<Ballot, EngineError>)
    requires
        old(election).wf(),
        old(election).total_voters < u32::MAX,
        verification.user == voter,
    ensures
        match r {
            Ok(ballot) => {
                &&& cast_check(
                    *old(election),
                    election_key,
                    *verification,
                    *old(election_voter),
                    voter,
                    plus_votes@,
                    minus_votes@,
                ) == Ok::<(), EngineError>(())
                &&& ballot.voter == voter
                &&& ballot.election == election_key
                &&& ballot.plus_votes@ == plus_votes@
                &&& ballot.minus_votes@ == minus_votes@
                &&& tallies_updated(
                    old(election).candidates@,
                    final(election).candidates@,
                    plus_votes@,
                    minus_votes@,
                )
                &&& final(election).total_voters == old(election).total_voters + 1
                &&& same_except_tallies(*old(election), *final(election))
                &&& final(election).wf()
                &&& *final(election_voter) == (ElectionVoter {
                    has_voted: true,
                    ..*old(election_voter)
                })
            },
            Err(e) => {
                &&& cast_check(
                    *old(election),
                    election_key,
                    *verification,
                    *old(election_voter),
                    voter,
                    plus_votes@,
                    minus_votes@,
                ) == Err::<(), EngineError>(e)
                &&& *final(election) == *old(election)
                &&& *final(election_voter) == *old(election_voter)
            },
        },
{
    if !(election.status == ElectionStatus::Active) {
        return Err(EngineError::D21(D21Error::ElectionNotActive));
    }
    if !verification.is_verified {
        return Err(EngineError::Verification(VerificationError::VoterNotVerified));
    }
    if !(election_voter.voter == voter && election_voter.election == election_key
        && election_voter.status == VoterStatus::Active && election_voter.is_eligible) {
        return Err(EngineError::Voter(VoterError::VoterNotEligible));
    }
    if election_voter.has_voted {
        return Err(EngineError::D21(D21Error::AlreadyVoted));
    }
    if plus_votes.len() > election.num_plus_votes as usize {
        return Err(EngineError::D21(D21Error::TooManyPlusVotes));
    }
    if minus_votes.len() > election.num_minus_votes as usize {
        return Err(EngineError::D21(D21Error::TooManyMinusVotes));
    }
    if !(plus_votes.len() >= 2 || minus_votes.len() == 0) {
        return Err(EngineError::D21(D21Error::InsufficientPlusVotes));
    }
    let candidate_count = election.candidates.len();
    if !(all_in_range(&plus_votes, candidate_count) && all_in_range(
        &minus_votes,
        candidate_count,
    )) {
        return Err(EngineError::D21(D21Error::InvalidCandidate));
    }
    if votes_overlap_exec(&plus_votes, &minus_votes) {
        return Err(EngineError::D21(D21Error::OverlappingVotes));
    }
    let mut all_votes: Vec<u8> = Vec::new();
    let np = plus_votes.len();
    let mut k: usize = 0;
    while k < np
        invariant
            k <= np,
            all_votes@ == plus_votes@.take(k as int),
        decreases np - k,
    {
        all_votes.push(plus_votes[k]);
        k += 1;
        proof {
            assert(all_votes@ =~= plus_votes@.take(k as int));
        }
    }
    let nm = minus_votes.len();
    let mut k2: usize = 0;
    while k2 < nm
        invariant
            k2 <= nm,
            all_votes@ == plus_votes@.take(np as int) + minus_votes@.take(k2 as int),
        decreases nm - k2,
    {
        all_votes.push(minus_votes[k2]);
        k2 += 1;
        proof {
            assert(all_votes@ =~= plus_votes@.take(np as int) + minus_votes@.take(k2 as int));
        }
    }
    proof {
        assert(all_votes@ =~= plus_votes@ + minus_votes@);
    }
    if has_duplicate_votes_exec(&all_votes) {
        return Err(EngineError::D21(D21Error::DuplicateVotes));
    }

    let ghost cands0 = election.candidates@;
    let ghost combined = plus_votes@ + minus_votes@;
    proof {
        assert(plus_votes@.take(0) =~= Seq::<u8>::empty());
        assert(minus_votes@.take(0) =~= Seq::<u8>::empty());
        assert(forall|i: int|
            0 <= i < cands0.len() ==> #[trigger] tally_at(
                cands0,
                cands0,
                plus_votes@.take(0),
                Seq::<u8>::empty(),
                i,
            ));
    }
    let mut p: usize = 0;
    while p < np
        invariant
            p <= np,
            election.candidates@.len() == cands0.len(),
            same_except_tallies(*old(election), *election),
            election.total_voters == old(election).total_voters,
            forall|i: int|
                0 <= i < cands0.len() ==> #[trigger] tally_at(
                    cands0,
                    election.candidates@,
                    plus_votes@.take(p as int),
                    Seq::<u8>::empty(),
                    i,
                ),
        decreases np - p,
    {
        let idx = plus_votes[p] as usize;
        proof {
            assert((plus_votes@[p as int] as int) < cands0.len());
            assert(tally_at(
                cands0,
                election.candidates@,
                plus_votes@.take(p as int),
                Seq::<u8>::empty(),
                idx as int,
            ));
            assert(!plus_votes@.take(p as int).contains(plus_votes@[p as int])) by {
                if plus_votes@.take(p as int).contains(plus_votes@[p as int]) {
                    let a = choose|a: int|
                        0 <= a < p && plus_votes@.take(p as int)[a] == plus_votes@[p as int];
                    assert(combined[a] == combined[p as int]);
                    assert(has_duplicate_votes(combined));
                }
            }
        }
        let cur = election.candidates[idx];
        let updated = Candidate { plus_votes: cur.plus_votes + 1, ..cur };
        let ghost before = election.candidates@;
        election.candidates[idx] = updated;
        p += 1;
        proof {
            let prev = plus_votes@.take(p - 1);
            let stepped = plus_votes@.take(p as int);
            assert(stepped =~= prev.push(plus_votes@[p - 1]));
            assert forall|i: int| 0 <= i < cands0.len() implies #[trigger] tally_at(
                cands0,
                election.candidates@,
                stepped,
                Seq::<u8>::empty(),
                i,
            ) by {
                assert(tally_at(cands0, before, prev, Seq::<u8>::empty(), i));
                if i == idx as int {
                    assert(stepped[p - 1] == i as u8);
                    assert(stepped.contains(i as u8));
                    assert(!prev.contains(i as u8));
                } else {
                    assert(election.candidates@[i] == before[i]);
                    assert(stepped.contains(i as u8) == prev.contains(i as u8)) by {
                        if stepped.contains(i as u8) {
                            let w = choose|w: int| 0 <= w < stepped.len() && stepped[w] == i as u8;
                            if w < p - 1 {
                                assert(prev[w] == i as u8);
                            } else {
                                assert(plus_votes@[p - 1] as int == idx as int);
                            }
                        } else {
                            if prev.contains(i as u8) {
                                let w = choose|w: int| 0 <= w < prev.len() && prev[w] == i as u8;
                                assert(stepped[w] == i as u8);
                            }
                        }
                    }
                }
            }
        }
    }
    proof {
        assert(plus_votes@.take(np as int) =~= plus_votes@);
    }
    let ghost cands1 = election.candidates@;
    let mut m: usize = 0;
    while m < nm
        invariant
            m <= nm,
            election.candidates@.len() == cands0.len(),
            same_except_tallies(*old(election), *election),
            election.total_voters == old(election).total_voters,
            forall|i: int|
                0 <= i < cands0.len() ==> #[trigger] tally_at(
                    cands0,
                    election.candidates@,
                    plus_votes@,
                    minus_votes@.take(m as int),
                    i,
                ),
        decreases nm - m,
    {
        let idx = minus_votes[m] as usize;
        proof {
            assert((minus_votes@[m as int] as int) < cands0.len());
            assert(tally_at(
                cands0,
                election.candidates@,
                plus_votes@,
                minus_votes@.take(m as int),
                idx as int,
            ));
            assert(!minus_votes@.take(m as int).contains(minus_votes@[m as int])) by {
                if minus_votes@.take(m as int).contains(minus_votes@[m as int]) {
                    let a = choose|a: int|
                        0 <= a < m && minus_votes@.take(m as int)[a] == minus_votes@[m as int];
                    assert(combined[np + a] == combined[np + m as int]);
                    assert(has_duplicate_votes(combined));
                }
            }
        }
        let cur = election.candidates[idx];
        let updated = Candidate { minus_votes: cur.minus_votes + 1, ..cur };
        let ghost before = election.candidates@;
        election.candidates[idx] = updated;
        m += 1;
        proof {
            let prev = minus_votes@.take(m - 1);
            let stepped = minus_votes@.take(m as int);
            assert(stepped =~= prev.push(minus_votes@[m - 1]));
            assert forall|i: int| 0 <= i < cands0.len() implies #[trigger] tally_at(
                cands0,
                election.candidates@,
                plus_votes@,
                stepped,
                i,
            ) by {
                assert(tally_at(cands0, before, plus_votes@, prev, i));
                if i == idx as int {
                    assert(stepped[m - 1] == i as u8);
                    assert(stepped.contains(i as u8));
                    assert(!prev.contains(i as u8));
                } else {
                    assert(election.candidates@[i] == before[i]);
                    assert(stepped.contains(i as u8) == prev.contains(i as u8)) by {
                        if stepped.contains(i as u8) {
                            let w = choose|w: int| 0 <= w < stepped.len() && stepped[w] == i as u8;
                            if w < m - 1 {
                                assert(prev[w] == i as u8);
                            } else {
                                assert(minus_votes@[m - 1] as int == idx as int);
                            }
                        } else {
                            if prev.contains(i as u8) {
                                let w = choose|w: int| 0 <= w < prev.len() && prev[w] == i as u8;
                                assert(stepped[w] == i as u8);
                            }
                        }
                    }
                }
            }
        }
    }
    proof {
        assert(minus_votes@.take(nm as int) =~= minus_votes@);
    }
    election_voter.has_voted = true;
    let tv = election.total_voters;
    election.total_voters = tv + 1;
    proof {
        assert forall|i: int|
            0 <= i < election.candidates@.len() implies #[trigger] election.candidates@[i].address
            == cands0[i].address by {
            assert(tally_at(cands0, election.candidates@, plus_votes@, minus_votes@, i));
        }
        assert(candidate_addresses(election.candidates@) =~= candidate_addresses(cands0));
        assert forall|i: int|
            0 <= i < election.candidates@.len() implies 0 <= #[trigger] election.candidates@[i].plus_votes
            <= election.total_voters && 0 <= election.candidates@[i].minus_votes
            <= election.total_voters by {
            assert(tally_at(cands0, election.candidates@, plus_votes@, minus_votes@, i));
            assert(0 <= cands0[i].plus_votes <= old(election).total_voters);
        }
    }
    Ok(Ballot { voter, election: election_key, plus_votes, minus_votes })
}

} // verus!
