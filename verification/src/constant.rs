//! Bounds on election configurations and record sizes.

use vstd::prelude::*;

verus! {

/// Most candidates an election may carry.
pub const MAX_CANDIDATES: usize = 50;

/// Fewest candidates an election may carry.
pub const MIN_CANDIDATES: usize = 2;

/// Longest election name, in bytes.
pub const MAX_NAME_LENGTH: usize = 50;

/// Longest election identifier, in bytes.
pub const MAX_ELECTION_ID_LENGTH: usize = 32;

/// Most plus votes any ballot record reserves space for.
pub const MAX_PLUS_VOTES: u8 = 10;

/// Most minus votes any ballot record reserves space for.
pub const MAX_MINUS_VOTES: u8 = 5;

/// Bytes reserved for an election identifier in a stored record.
pub const UUID_LENGTH: usize = 36;

} // verus!
