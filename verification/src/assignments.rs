//! Task assignments: assigning a task to a project member, listing and
//! revoking assignments.
use vstd::prelude::*;
use crate::codec::{base64_decode, base64_decoding};
use crate::error::{AppError, BadRequestReason, bytes_of};
use crate::text::text_eq;

verus! {

/// What `decode` answers for a text.
pub open spec fn decode_result(value: Seq<char>) -> Result<Seq<u8>, AppError> {
    match base64_decoding(value) {
        Some(bytes) => Ok(bytes),
        None => Err(AppError::BadRequest(BadRequestReason::InvalidBase64EncryptedPayload)),
    }
}

/// Decodes an opaque base64 assignment payload; anything else is a bad
/// request. The payload itself is never interpreted.
pub fn decode(value: &str) -> (r: Result<Vec<u8>, AppError>)
    ensures
        bytes_of(r) == decode_result(value@),
{
    match base64_decode(value) {
        Some(v) => Ok(v),
        None => Err(AppError::BadRequest(BadRequestReason::InvalidBase64EncryptedPayload)),
    }
}

/// The encrypted payload of a new assignment: base64 of at least one byte.
pub fn assignment_payload(encrypted_payload_b64: &str) -> (r: Result<Vec<u8>, AppError>)
    ensures
        bytes_of(r) == match decode_result(encrypted_payload_b64@) {
            Ok(bytes) => if bytes.len() == 0 {
                Err(AppError::BadRequest(BadRequestReason::EmptyAssignmentPayload))
            } else {
                Ok(bytes)
            },
            Err(e) => Err(e),
        },
{
    let bytes = decode(encrypted_payload_b64)?;
    if bytes.len() == 0 {
        return Err(AppError::BadRequest(BadRequestReason::EmptyAssignmentPayload));
    }
    Ok(bytes)
}

/// The outcome of the first recipient-access checks.
#[derive(Clone, Copy, Debug, PartialEq, Eq, Structural)]
pub enum RecipientAccess {
    /// The assigner owns or administers the project.
    Granted,
    /// The recipient must also have full access to the task's list.
    NeedsFullListAccess,
}

/// Whether a project role is one that may assign to any member.
pub open spec fn is_owner_or_admin(role: Seq<char>) -> bool {
    role == "owner"@ || role == "admin"@
}

/// Checks who may assign a task to whom: the assigner must be an active
/// member (else forbidden) and the recipient an active member (else a bad
/// request); an owner or admin may then assign, anyone else only to a
/// recipient with full access to the task list.
pub fn recipient_access(actor_role: Option<&str>, assignee_is_member: bool) -> (r: Result<RecipientAccess, AppError>)
    ensures
        match actor_role {
            None => r == Err::<RecipientAccess, AppError>(AppError::Forbidden),
            Some(role) => if !assignee_is_member {
                r == Err::<RecipientAccess, AppError>(AppError::BadRequest(BadRequestReason::RecipientNotActiveMember))
            } else if is_owner_or_admin(role@) {
                r == Ok::<RecipientAccess, AppError>(RecipientAccess::Granted)
            } else {
                r == Ok::<RecipientAccess, AppError>(RecipientAccess::NeedsFullListAccess)
            },
        },
{
    let role = match actor_role {
        Some(role) => role,
        None => return Err(AppError::Forbidden),
    };
    if !assignee_is_member {
        return Err(AppError::BadRequest(BadRequestReason::RecipientNotActiveMember));
    }
    if text_eq(role, "owner") || text_eq(role, "admin") {
        Ok(RecipientAccess::Granted)
    } else {
        Ok(RecipientAccess::NeedsFullListAccess)
    }
}

/// The last recipient check: without full access to the list, forbidden.
pub fn require_full_list_access(has_full_list_access: bool) -> (r: Result<(), AppError>)
    ensures
        r is Ok <==> has_full_list_access,
        r matches Err(e) ==> e == AppError::Forbidden,
{
    if has_full_list_access { Ok(()) } else { Err(AppError::Forbidden) }
}

/// The index of the first unrevoked assignment.
pub open spec fn first_active(revoked: Seq<bool>) -> Option<int> {
    if exists|i: int| 0 <= i < revoked.len() && !revoked[i] {
        Some(choose|i: int| 0 <= i < revoked.len() && !revoked[i]
            && forall|j: int| 0 <= j < i ==> revoked[j])
    } else {
        None
    }
}

/// The active assignment of a task: the first assignment, in assignment order,
/// that was not revoked.
pub fn active_assignment_id(assignments: &[(u128, bool)]) -> (r: Option<u128>)
    ensures
        match r {
            Some(id) => exists|i: int| 0 <= i < assignments@.len() && assignments@[i].0 == id
                && !assignments@[i].1 && forall|j: int| 0 <= j < i ==> #[trigger] assignments@[j].1,
            None => forall|i: int| 0 <= i < assignments@.len() ==> #[trigger] assignments@[i].1,
        },
{
    let n = assignments.len();
    for i in 0..n
        invariant
            n == assignments@.len(),
            forall|j: int| 0 <= j < i ==> #[trigger] assignments@[j].1,
    {
        if !assignments[i].1 {
            return Some(assignments[i].0);
        }
    }
    None
}

/// An assignment payload decodes to exactly the bytes whose padded standard
/// base64 it is, and any other text is an invalid-payload bad request.
pub proof fn assignment_payloads_decode_to_what_encodes_them(value: Seq<char>, bytes: Seq<u8>)
    ensures
        decode_result(value) == Ok::<Seq<u8>, AppError>(bytes) <==> crate::codec::base64_encoding(bytes) == value,
        decode_result(value) is Err <==> forall|b: Seq<u8>| crate::codec::base64_encoding(b) != value,
        decode_result(value) matches Err(e) ==> e == AppError::BadRequest(BadRequestReason::InvalidBase64EncryptedPayload),
{
    if crate::codec::base64_encoding(bytes) == value {
        crate::codec::lemma_base64_decoding_of_encoding(bytes);
    }
    if decode_result(value) is Ok {
        let b = decode_result(value)->Ok_0;
        assert(crate::codec::base64_encoding(b) == value);
    }
}

} // verus!
