//! Per-election voter registration records.

use vstd::prelude::*;

use crate::identity::IdentityKey;
use crate::status::transition_allowed;
use crate::status::transition_targets;
use crate::status::VoterStatus;

verus! {

/// One voter's registration for one election, created at registration and
/// never deleted. `has_voted` is set exactly once, when their ballot is
/// accepted, and never reset.
#[derive(Clone, Copy, Debug, PartialEq, Eq, Structural)]
pub struct ElectionVoter {
    pub voter: IdentityKey,
    /// The election this registration is for.
    pub election: IdentityKey,
    pub registration_time: i64,
    /// Checked alongside `status` at vote time, independently of it.
    pub is_eligible: bool,
    pub status: VoterStatus,
    pub has_voted: bool,
}

impl ElectionVoter {
    /// Bytes the host's record store reserves for one registration: a tag,
    /// the two keys, the registration time, the three flag bytes, and a
    /// bump byte.
    pub const SPACE: usize = 8 + 32 + 32 + 8 + 1 + 1 + 1 + 1;

    /// The statuses this registration may legally move to from its current
    /// one.
    pub fn allowed_transitions(&self) -> (r: Vec<VoterStatus>)
        ensures
            r@ == transition_targets(self.status),
            forall|t: VoterStatus| r@.contains(t) <==> transition_allowed(self.status, t),
    {
        let r: Vec<VoterStatus> = match self.status {
            VoterStatus::Pending => vec![VoterStatus::Active, VoterStatus::Revoked],
            VoterStatus::Active => vec![
                VoterStatus::Suspended,
                VoterStatus::OnHold,
                VoterStatus::Revoked,
            ],
            VoterStatus::Suspended => vec![
                VoterStatus::Active,
                VoterStatus::Revoked,
                VoterStatus::OnHold,
            ],
            VoterStatus::OnHold => vec![
                VoterStatus::Active,
                VoterStatus::Suspended,
                VoterStatus::Revoked,
            ],
            VoterStatus::Revoked => vec![],
        };
        proof {
            assert(r@ =~= transition_targets(self.status));
            assert forall|t: VoterStatus| r@.contains(t) <==> transition_allowed(
                self.status,
                t,
            ) by {
                if transition_allowed(self.status, t) {
                    assert(r@.contains(t)) by {
                        if r@.len() >= 1 && r@[0] == t {
                            assert(r@.contains(t));
                        } else if r@.len() >= 2 && r@[1] == t {
                            assert(r@.contains(t));
                        } else if r@.len() >= 3 && r@[2] == t {
                            assert(r@.contains(t));
                        }
                    }
                }
            }
        }
        r
    }

    /// Whether this registration may legally move to `new_status`.
    pub fn can_transition_to(&self, new_status: &VoterStatus) -> (r: bool)
        ensures
            r == transition_allowed(self.status, *new_status),
    {
        let allowed = self.allowed_transitions();
        let n = allowed.len();
        let mut k: usize = 0;
        while k < n
            invariant
                k <= n,
                n == allowed@.len(),
                forall|t: VoterStatus| allowed@.contains(t) <==> transition_allowed(
                    self.status,
                    t,
                ),
                forall|a: int| 0 <= a < k ==> allowed@[a] != *new_status,
            decreases n - k,
        {
            if allowed[k] == *new_status {
                return true;
            }
            k += 1;
        }
        proof {
            if transition_allowed(self.status, *new_status) {
                assert(allowed@.contains(*new_status));
            }
        }
        false
    }
}

} // verus!
