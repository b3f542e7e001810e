//! The election record and its configuration rules.

use vstd::prelude::*;

use crate::allowance::calculate_max_plus_votes;
use crate::allowance::max_plus_votes;
use crate::candidate::counters_bounded;
use crate::candidate::Candidate;
use crate::constant::MAX_CANDIDATES;
use crate::constant::MAX_NAME_LENGTH;
use crate::constant::MIN_CANDIDATES;
use crate::constant::UUID_LENGTH;
use crate::errors::D21Error;
use crate::identity::IdentityKey;
use crate::status::ElectionStatus;
use crate::text::byte_len;
use crate::text::str_byte_len;
use crate::verified_user::UserType;

verus! {

/// One election: its administrator, its configuration, its lifecycle state,
/// and its running tallies. The candidate list is fixed at creation;
/// `winners` is populated only when the election is closed.
#[derive(Clone, Debug, PartialEq, Eq)]
pub struct Election {
    /// Only this identity may close the election or move voters between
    /// statuses.
    pub authority: IdentityKey,
    /// Identifier, unique per administrator; part of the record's storage
    /// address.
    pub id: String,
    pub name: String,
    pub num_winners: u8,
    /// Most plus votes one ballot may carry.
    pub num_plus_votes: u8,
    /// Most minus votes one ballot may carry.
    pub num_minus_votes: u8,
    /// The voter categories admitted to registration; never empty.
    pub allowed_voter_types: Vec<UserType>,
    pub status: ElectionStatus,
    pub start_time: i64,
    /// Set exactly once, when the election is closed.
    pub end_time: Option<i64>,
    /// Count of ballots cast.
    pub total_voters: u32,
    pub candidates: Vec<Candidate>,
    /// The winning candidates' keys in ranked order, once closed.
    pub winners: Vec<IdentityKey>,
}

/// Bytes the host's record store reserves per stored candidate entry: a
/// 32-byte key, two 8-byte counters, and a rank byte, padded to an 8-byte
/// boundary.
pub const CANDIDATE_SPACE: usize = 56;

/// Two positions of `s` carry the same candidate key.
pub open spec fn has_duplicate_addresses(s: Seq<IdentityKey>) -> bool {
    exists|i: int, j: int| 0 <= i < j < s.len() && s[i] == s[j]
}

/// The candidates' keys, in list order.
pub open spec fn candidate_addresses(s: Seq<Candidate>) -> Seq<IdentityKey> {
    s.map_values(|c: Candidate| c.address)
}

/// What every operation may assume of an election record, and what every
/// operation that touches one preserves: the structural constraints fixed at
/// creation, and vote counters that never outrun the ballot count.
impl Election {
    pub open spec fn wf(self) -> bool {
        &&& MIN_CANDIDATES <= self.candidates@.len() <= MAX_CANDIDATES
        &&& 0 < self.num_winners < self.candidates@.len()
        &&& !has_duplicate_addresses(candidate_addresses(self.candidates@))
        &&& counters_bounded(self.candidates@, self.total_voters as int)
    }

    /// The outcome of checking a proposed configuration, first failing
    /// check first: name length, candidate count, duplicate candidates,
    /// winner count, plus-vote allowance against the D21 bound, and the
    /// proportional minus-vote limit (at most a third of the plus
    /// allowance, rounding down).
    pub open spec fn config_check(
        name: Seq<char>,
        candidates: Seq<IdentityKey>,
        num_winners: u8,
        num_plus_votes: u8,
        num_minus_votes: u8,
    ) -> Result<(), D21Error> {
        if !(1 <= byte_len(name) <= MAX_NAME_LENGTH) {
            Err(D21Error::InvalidNameLength)
        } else if !(MIN_CANDIDATES <= candidates.len() <= MAX_CANDIDATES) {
            Err(D21Error::InvalidCandidateCount)
        } else if has_duplicate_addresses(candidates) {
            Err(D21Error::DuplicateCandidates)
        } else if !(0 < num_winners < candidates.len()) {
            Err(D21Error::InvalidWinnerCount)
        } else if !(0 < num_plus_votes && num_plus_votes <= max_plus_votes(
            num_winners,
            candidates.len() as u8,
        )) {
            Err(D21Error::InvalidPlusVoteCount)
        } else if !(num_minus_votes <= num_plus_votes / 3) {
            Err(D21Error::InvalidMinusVoteCount)
        } else {
            Ok(())
        }
    }

    /// Validates a proposed configuration against every structural
    /// constraint, reporting the first check that fails.
    pub fn validate_config(
        &self,
        name: &str,
        candidates: &Vec<IdentityKey>,
        num_winners: u8,
        num_plus_votes: u8,
        num_minus_votes: u8,
    ) -> (r: Result<(), D21Error>)
        ensures
            r == Election::config_check(
                name@,
                candidates@,
                num_winners,
                num_plus_votes,
                num_minus_votes,
            ),
    {
        let name_len = str_byte_len(name);
        if name_len < 1 || name_len > MAX_NAME_LENGTH {
            return Err(D21Error::InvalidNameLength);
        }
        let n = candidates.len();
        if n < MIN_CANDIDATES || n > MAX_CANDIDATES {
            return Err(D21Error::InvalidCandidateCount);
        }
        if has_duplicate_addresses_exec(candidates) {
            return Err(D21Error::DuplicateCandidates);
        }
        if !(0 < num_winners && (num_winners as usize) < n) {
            return Err(D21Error::InvalidWinnerCount);
        }
        let max_plus = calculate_max_plus_votes(num_winners, n as u8);
        if !(0 < num_plus_votes && num_plus_votes <= max_plus) {
            return Err(D21Error::InvalidPlusVoteCount);
        }
        if !(num_minus_votes <= num_plus_votes / 3) {
            return Err(D21Error::InvalidMinusVoteCount);
        }
        Ok(())
    }

    /// The bytes the host's record store reserves for an election record
    /// with up to `max_candidates` candidates: a tag, the administrator
    /// key, a bump byte, the two length-prefixed strings, the three vote
    /// parameters, the length-prefixed category list, status, the two
    /// times, the ballot count, and the two candidate-sized lists.
    pub fn space(max_candidates: usize) -> (r: usize)
        requires
            max_candidates <= MAX_CANDIDATES,
        ensures
            r == 8 + 32 + 1 + 4 + UUID_LENGTH + 4 + MAX_NAME_LENGTH + 1 + 1 + 1 + 4 + 2 * 2 + 1
                + 8 + 9 + 4 + 4 + max_candidates * CANDIDATE_SPACE + 4 + max_candidates * 32,
    {
        8 + 32 + 1 + 4 + UUID_LENGTH + 4 + MAX_NAME_LENGTH + 1 + 1 + 1 + 4 + 2 * 2 + 1 + 8 + 9 + 4
            + 4 + max_candidates * CANDIDATE_SPACE + 4 + max_candidates * 32
    }

    /// Whether voters of `voter_type` may register for this election.
    pub fn is_voter_type_allowed(&self, voter_type: &UserType) -> (r: bool)
        ensures
            r == self.allowed_voter_types@.contains(*voter_type),
    {
        let n = self.allowed_voter_types.len();
        let mut k: usize = 0;
        while k < n
            invariant
                k <= n,
                n == self.allowed_voter_types@.len(),
                forall|a: int| 0 <= a < k ==> self.allowed_voter_types@[a] != *voter_type,
            decreases n - k,
        {
            if self.allowed_voter_types[k] == *voter_type {
                return true;
            }
            k += 1;
        }
        false
    }
}

/// Whether the candidate list names any key twice, by pairwise comparison.
fn has_duplicate_addresses_exec(candidates: &Vec<IdentityKey>) -> (r: bool)
    ensures
        r == has_duplicate_addresses(candidates@),
{
    let n = candidates.len();
    let mut i: usize = 0;
    while i < n
        invariant
            i <= n,
            n == candidates@.len(),
            forall|a: int, b: int| 0 <= a < b < n && a < i ==> candidates@[a] != candidates@[b],
        decreases n - i,
    {
        let mut j: usize = i + 1;
        while j < n
            invariant
                i < n,
                i < j <= n,
                n == candidates@.len(),
                forall|b: int| i < b < j ==> candidates@[i as int] != candidates@[b],
            decreases n - j,
        {
            if candidates[i] == candidates[j] {
                return true;
            }
            j += 1;
        }
        i += 1;
    }
    false
}

} // verus!
