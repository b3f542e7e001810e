//! Administrator-driven voter-status transitions.

use vstd::prelude::*;

use crate::election::Election;
use crate::errors::D21Error;
use crate::errors::EngineError;
use crate::errors::VoterError;
use crate::identity::IdentityKey;
use crate::status::transition_allowed;
use crate::status::VoterStatus;
use crate::voter::ElectionVoter;

verus! {

/// Notification that a voter's registration moved between statuses.
#[derive(Clone, Copy, Debug, PartialEq, Eq, Structural)]
pub struct ElectionVoterStatusChanged {
    pub election: IdentityKey,
    pub voter: IdentityKey,
    pub old_status: VoterStatus,
    pub new_status: VoterStatus,
    pub timestamp: i64,
}

/// The outcome of requesting a status change: only the election's
/// administrator may ask, and the change must be a legal transition.
pub open spec fn update_status_check(
    election: Election,
    authority: IdentityKey,
    voter_status: VoterStatus,
    new_status: VoterStatus,
) -> Result<(), EngineError> {
    if authority != election.authority {
        Err(EngineError::D21(D21Error::Unauthorized))
    } else if !transition_allowed(voter_status, new_status) {
        Err(EngineError::Voter(VoterError::InvalidStatusTransition))
    } else {
        Ok(())
    }
}

/// Moves a voter's registration to `new_status`, if `authority` is the
/// election's administrator and the transition is legal; an illegal request
/// leaves the registration unchanged. On success the record carries the new
/// status and the returned notification records the old and new state and
/// the time of the change.
///
/// The host resolves `election_voter` under `election_key`, the key of
/// `election`, so the registration is known to belong to this election.
pub fn update_voter_status(
    election: &Election,
    election_key: IdentityKey,
    authority: IdentityKey,
    election_voter: &mut ElectionVoter,
    new_status: VoterStatus,
    now: i64,
) -> (r: Result<ElectionVoterStatusChanged, EngineError>)
    requires
        old(election_voter).election == election_key,
    ensures
        match r {
            Ok(event) => {
                &&& update_status_check(*election, authority, old(election_voter).status, new_status)
                    == Ok::<(), EngineError>(())
                &&& *final(election_voter) == (ElectionVoter {
                    status: new_status,
                    ..*old(election_voter)
                })
                &&& event == (ElectionVoterStatusChanged {
                    election: election_key,
                    voter: old(election_voter).voter,
                    old_status: old(election_voter).status,
                    new_status,
                    timestamp: now,
                })
            },
            Err(e) => {
                &&& update_status_check(*election, authority, old(election_voter).status, new_status)
                    == Err::<(), EngineError>(e)
                &&& *final(election_voter) == *old(election_voter)
            },
        },
{
    if !(authority == election.authority) {
        return Err(EngineError::D21(D21Error::Unauthorized));
    }
    if !election_voter.can_transition_to(&new_status) {
        return Err(EngineError::Voter(VoterError::InvalidStatusTransition));
    }
    let old_status = election_voter.status;
    election_voter.status = new_status;
    Ok(
        ElectionVoterStatusChanged {
            election: election_key,
            voter: election_voter.voter,
            old_status,
            new_status,
            timestamp: now,
        },
    )
}

} // verus!
