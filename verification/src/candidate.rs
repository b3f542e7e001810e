//! Candidates and their scores.

use vstd::prelude::*;

use crate::identity::IdentityKey;

verus! {

/// One candidate of an election, embedded in the election record and
/// addressed by its position in the candidate list. The vote counters only
/// ever grow; `rank` is meaningless until the election is closed, when it
/// receives the candidate's 0-based position in the final ranking.
#[derive(Clone, Copy, Debug, PartialEq, Eq, Structural)]
pub struct Candidate {
    pub address: IdentityKey,
    pub plus_votes: i64,
    pub minus_votes: i64,
    pub rank: u8,
}

/// A candidate's score: plus votes less minus votes. Ranking is by
/// descending score.
pub open spec fn score(c: Candidate) -> int {
    c.plus_votes - c.minus_votes
}

/// Both vote counters of every candidate in `s` lie between zero and
/// `total`. Holding the counters under the ballot count keeps every
/// increment comfortably inside `i64`.
pub open spec fn counters_bounded(s: Seq<Candidate>, total: int) -> bool {
    forall|i: int|
        0 <= i < s.len() ==> 0 <= #[trigger] s[i].plus_votes <= total && 0 <= s[i].minus_votes
            <= total
}

} // verus!
