//! The two lifecycle state machines: election status and voter status.

use vstd::prelude::*;

verus! {

/// Lifecycle of an election. `Created` is transient: creation immediately
/// activates the election, and closing it is irreversible.
#[derive(Clone, Copy, Debug, PartialEq, Eq, Structural)]
pub enum ElectionStatus {
    Created,
    Active,
    Ended,
}

impl Default for ElectionStatus {
    /// A fresh election record starts out `Created`.
    fn default() -> (r: Self)
        ensures
            r == ElectionStatus::Created,
    {
        ElectionStatus::Created
    }
}

/// Eligibility state of one voter's registration for one election.
#[derive(Clone, Copy, Debug, PartialEq, Eq, Structural)]
pub enum VoterStatus {
    /// Registered but awaiting administrator approval.
    Pending,
    /// May cast a ballot.
    Active,
    /// Temporarily blocked.
    Suspended,
    /// Permanently disabled; no transition leaves this state.
    Revoked,
    /// Under review.
    OnHold,
}

impl Default for VoterStatus {
    /// A blank registration record starts out `Pending`.
    fn default() -> (r: Self)
        ensures
            r == VoterStatus::Pending,
    {
        VoterStatus::Pending
    }
}

/// The legal voter-status transition table: `Revoked` is terminal, and every
/// other state may always be revoked.
pub open spec fn transition_allowed(from: VoterStatus, to: VoterStatus) -> bool {
    match from {
        VoterStatus::Pending => to == VoterStatus::Active || to == VoterStatus::Revoked,
        VoterStatus::Active => to == VoterStatus::Suspended || to == VoterStatus::OnHold
            || to == VoterStatus::Revoked,
        VoterStatus::Suspended => to == VoterStatus::Active || to == VoterStatus::Revoked
            || to == VoterStatus::OnHold,
        VoterStatus::OnHold => to == VoterStatus::Active || to == VoterStatus::Suspended
            || to == VoterStatus::Revoked,
        VoterStatus::Revoked => false,
    }
}

/// The targets of the legal transitions out of `from`, in the order the
/// transition table lists them.
pub open spec fn transition_targets(from: VoterStatus) -> Seq<VoterStatus> {
    match from {
        VoterStatus::Pending => seq![VoterStatus::Active, VoterStatus::Revoked],
        VoterStatus::Active => seq![
            VoterStatus::Suspended,
            VoterStatus::OnHold,
            VoterStatus::Revoked,
        ],
        VoterStatus::Suspended => seq![
            VoterStatus::Active,
            VoterStatus::Revoked,
            VoterStatus::OnHold,
        ],
        VoterStatus::OnHold => seq![
            VoterStatus::Active,
            VoterStatus::Suspended,
            VoterStatus::Revoked,
        ],
        VoterStatus::Revoked => seq![],
    }
}

/// One row of the transition table, as a value: a source state and the
/// states it may move to.
#[derive(Clone, Debug)]
pub struct StatusTransition {
    pub from: VoterStatus,
    pub to: Vec<VoterStatus>,
}

} // verus!
