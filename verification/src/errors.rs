//! Named failure kinds.
//!
//! Every operation of the engine fails with one of these enumerable kinds,
//! surfaced verbatim to the caller; no failure is recovered from internally,
//! and no failing operation leaves any observable state change behind.

use vstd::prelude::*;

verus! {

/// Failures of election configuration, ballot casting, and lifecycle control.
#[derive(Clone, Copy, Debug, PartialEq, Eq, Structural)]
pub enum D21Error {
    /// The election is not accepting this operation because it is not active.
    ElectionNotActive,
    /// The voter has already cast their ballot.
    AlreadyVoted,
    /// The ballot carries more plus votes than the election allows.
    TooManyPlusVotes,
    /// The ballot carries more minus votes than the election allows.
    TooManyMinusVotes,
    /// Minus votes require at least two plus votes on the same ballot.
    InsufficientPlusVotes,
    /// A vote names a candidate index the election does not have.
    InvalidCandidate,
    /// The candidate list is shorter or longer than an election allows.
    InvalidCandidateCount,
    /// The winner count must be positive and below the candidate count.
    InvalidWinnerCount,
    /// The plus-vote allowance must be positive and within the D21 bound.
    InvalidPlusVoteCount,
    /// The minus-vote allowance must be at most a third of the plus allowance.
    InvalidMinusVoteCount,
    /// The election name is empty or too long.
    InvalidNameLength,
    /// The candidate list names the same candidate twice.
    DuplicateCandidates,
    /// The ballot names the same candidate twice.
    DuplicateVotes,
    /// The ballot gives the same candidate both a plus and a minus vote.
    OverlappingVotes,
    /// The election identifier is empty or too long.
    InvalidElectionId,
    /// The acting identity is not the election's administrator.
    Unauthorized,
    /// The voter's verified category is not admitted to this election.
    UserTypeNotAllowed,
    /// An election must admit at least one voter category.
    InvalidVoterTypes,
}

/// Failures of voter registration records.
#[derive(Clone, Copy, Debug, PartialEq, Eq, Structural)]
pub enum VoterError {
    /// No registration record exists for this voter.
    VoterNotRegistered,
    /// A registration record already exists for this voter.
    VoterAlreadyRegistered,
    /// The voter's registration does not let them vote here and now.
    VoterNotEligible,
    /// The voter's registration is suspended.
    VoterSuspended,
    /// The requested voter-status change is not a legal transition.
    InvalidStatusTransition,
}

/// Failures of identity verification records.
#[derive(Clone, Copy, Debug, PartialEq, Eq, Structural)]
pub enum VerificationError {
    /// The identity document number has an invalid length.
    InvalidIdNumber,
    /// The identity was already verified.
    AlreadyVerified,
    /// The identity has not proven who they are.
    VoterNotVerified,
}

/// Any failure an engine operation can surface: operations whose checks span
/// more than one of the enums above return this sum of them.
#[derive(Clone, Copy, Debug, PartialEq, Eq, Structural)]
pub enum EngineError {
    D21(D21Error),
    Voter(VoterError),
    Verification(VerificationError),
}

} // verus!
