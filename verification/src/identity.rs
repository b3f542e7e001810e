//! Identity keys.

use vstd::prelude::*;

verus! {

/// The opaque handle by which the engine tells principals and records apart:
/// administrators, voters, candidates, and the elections themselves are all
/// named by a key of this kind. The engine only ever compares keys for
/// equality; what a key physically is (an account address, a hash, a row id)
/// is the host's business.
#[derive(Clone, Copy, Debug, Hash, PartialEq, Eq, Structural)]
pub struct IdentityKey {
    pub value: u64,
}

impl IdentityKey {
    /// Wraps a raw key value.
    pub fn new(value: u64) -> (r: IdentityKey)
        ensures
            r.value == value,
    {
        IdentityKey { value }
    }
}

} // verus!
