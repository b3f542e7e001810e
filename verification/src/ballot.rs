//! Ballot records.

use vstd::prelude::*;

use crate::identity::IdentityKey;

verus! {

/// One voter's cast ballot for one election: the candidate indices that
/// received a plus vote and those that received a minus vote. A ballot is
/// created exactly once, at vote time, and is immutable thereafter; the
/// host's keyed store enforces at-most-once creation per `(election, voter)`
/// pair.
#[derive(Clone, Debug, PartialEq, Eq)]
pub struct Ballot {
    pub voter: IdentityKey,
    pub election: IdentityKey,
    pub plus_votes: Vec<u8>,
    pub minus_votes: Vec<u8>,
}

impl Ballot {
    /// Bytes the host's record store reserves for one ballot: a tag, the
    /// two keys, the two length-prefixed vote lists at their largest, and
    /// a bump byte.
    pub const SPACE: usize = 8 + 32 + 32 + 4 + 10 + 4 + 5 + 1;
}

} // verus!
