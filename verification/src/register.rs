//! Voter registration.

use vstd::prelude::*;

use crate::election::Election;
use crate::errors::D21Error;
use crate::errors::EngineError;
use crate::errors::VerificationError;
use crate::identity::IdentityKey;
use crate::status::ElectionStatus;
use crate::status::VoterStatus;
use crate::verified_user::UserVerification;
use crate::voter::ElectionVoter;

verus! {

/// Notification that a voter registered for an election.
#[derive(Clone, Copy, Debug, PartialEq, Eq, Structural)]
pub struct VoterRegistered {
    pub election: IdentityKey,
    pub voter: IdentityKey,
    pub timestamp: i64,
}

/// The outcome of gating a registration, first failing check first: the
/// election must be active, the identity must be verified, and their
/// verified category must be on the election's allow-list.
pub open spec fn register_check(
    election: Election,
    verification: UserVerification,
) -> Result<(), EngineError> {
    if election.status != ElectionStatus::Active {
        Err(EngineError::D21(D21Error::ElectionNotActive))
    } else if !verification.is_verified {
        Err(EngineError::Verification(VerificationError::VoterNotVerified))
    } else if !election.allowed_voter_types@.contains(verification.user_type) {
        Err(EngineError::D21(D21Error::UserTypeNotAllowed))
    } else {
        Ok(())
    }
}

/// Registers `voter` for an election. On success the returned registration
/// starts active, eligible, and with no ballot cast; the host stores it
/// under the key derived from `(election_key, voter)`, failing there if the
/// voter is already registered.
///
/// The host resolves `verification` under the voter's own key, so the
/// record is known to be theirs; `election_key` is the key of `election`.
pub fn register_voter(
    election: &Election,
    election_key: IdentityKey,
    verification: &UserVerification,
    voter: IdentityKey,
    now: i64,
) -> (r: Result<(ElectionVoter, VoterRegistered), EngineError>)
    requires
        verification.user == voter,
    ensures
        match r {
            Ok((record, event)) => {
                &&& register_check(*election, *verification) == Ok::<(), EngineError>(())
                &&& record == (ElectionVoter {
                    voter,
                    election: election_key,
                    registration_time: now,
                    is_eligible: true,
                    status: VoterStatus::Active,
                    has_voted: false,
                })
                &&& event == (VoterRegistered { election: election_key, voter, timestamp: now })
            },
            Err(e) => register_check(*election, *verification) == Err::<(), EngineError>(e),
        },
{
    if !(election.status == ElectionStatus::Active) {
        return Err(EngineError::D21(D21Error::ElectionNotActive));
    }
    if !verification.is_verified {
        return Err(EngineError::Verification(VerificationError::VoterNotVerified));
    }
    if !election.is_voter_type_allowed(&verification.user_type) {
        return Err(EngineError::D21(D21Error::UserTypeNotAllowed));
    }
    let record = ElectionVoter {
        voter,
        election: election_key,
        registration_time: now,
        is_eligible: true,
        status: VoterStatus::Active,
        has_voted: false,
    };
    let event = VoterRegistered { election: election_key, voter, timestamp: now };
    Ok((record, event))
}

} // verus!
