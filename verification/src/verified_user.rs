//! Identity verification: who has proven who they are, and in which
//! voter category.

use vstd::prelude::*;

use crate::errors::VerificationError;
use crate::identity::IdentityKey;
use crate::text::byte_len;
use crate::text::str_byte_len;

verus! {

/// A voter category. Elections admit registrations only from the categories
/// on their allow-list.
#[derive(Clone, Copy, Debug, PartialEq, Eq, Structural)]
pub enum UserType {
    Student,
    Staff,
}

/// The process-wide verification record of one identity: whether they have
/// proven who they are, and the category they verified under. Created once
/// by the identity-proofing step below.
#[derive(Clone, Debug, PartialEq, Eq)]
pub struct UserVerification {
    pub user: IdentityKey,
    pub id_number: String,
    pub user_type: UserType,
    pub is_verified: bool,
    pub verification_time: i64,
}

impl UserVerification {
    /// Bytes the host's record store reserves for one verification record:
    /// a tag, the key, the length-prefixed document number at its largest,
    /// the category, the flag, the time, and a bump byte.
    pub const SPACE: usize = 8 + 32 + 4 + 10 + 1 + 1 + 8 + 1;
}

/// Notification that an identity was verified.
#[derive(Clone, Debug, PartialEq, Eq)]
pub struct UserVerified {
    pub user: IdentityKey,
    pub id_number: String,
    pub user_type: UserType,
    pub timestamp: i64,
}

/// An identity document number must be 7 to 12 bytes long.
pub open spec fn id_number_len_ok(id_number: Seq<char>) -> bool {
    7 <= byte_len(id_number) <= 12
}

/// Records `user` as verified under `user_type`, after checking the format
/// of their identity document number. Returns the verification record for
/// the host to store under the user's key (creation fails there if one
/// already exists) and the notification to deliver.
pub fn verify_user(user: IdentityKey, id_number: String, user_type: UserType, now: i64) -> (r:
    Result<(UserVerification, UserVerified), VerificationError>)
    ensures
        match r {
            Ok((record, event)) => {
                &&& id_number_len_ok(id_number@)
                &&& record.user == user
                &&& record.id_number@ == id_number@
                &&& record.user_type == user_type
                &&& record.is_verified
                &&& record.verification_time == now
                &&& event.user == user
                &&& event.id_number@ == id_number@
                &&& event.user_type == user_type
                &&& event.timestamp == now
            },
            Err(e) => {
                &&& e == VerificationError::InvalidIdNumber
                &&& !id_number_len_ok(id_number@)
            },
        },
{
    let len = str_byte_len(id_number.as_str());
    if len < 7 || len > 12 {
        return Err(VerificationError::InvalidIdNumber);
    }
    let record = UserVerification {
        user,
        id_number: id_number.clone(),
        user_type,
        is_verified: true,
        verification_time: now,
    };
    let event = UserVerified { user, id_number, user_type, timestamp: now };
    Ok((record, event))
}

} // verus!
