//! Development-only login.
use vstd::prelude::*;
use crate::error::{AppError, BadRequestReason};

verus! {

/// A development login request: an email or an identity handle.
pub struct DevLoginRequest {
    pub email: Option<String>,
    pub identity_handle: Option<String>,
}

impl DevLoginRequest {
    /// The debug rendering of a login request, with every field redacted.
    pub fn debug_text(&self) -> (s: &'static str)
        ensures
            s@ == "DevLoginRequest { email: \"[REDACTED]\", identity_handle: \"[REDACTED]\", device: \"[REDACTED]\" }"@,
    {
        "DevLoginRequest { email: \"[REDACTED]\", identity_handle: \"[REDACTED]\", device: \"[REDACTED]\" }"
    }
}

/// Development login exists only in a development deployment; anywhere else
/// the route is not found.
pub fn require_development(is_development: bool) -> (r: Result<(), AppError>)
    ensures
        r is Ok <==> is_development,
        r matches Err(e) ==> e == AppError::NotFound,
{
    if is_development { Ok(()) } else { Err(AppError::NotFound) }
}

/// Resolves the identity to log in as, from the lookups the route made: by
/// email an active identity first and then a pending one, then by handle; a
/// request with neither an email nor a handle is a bad request, and one that
/// matches nothing names no development account.
pub fn resolve_identity(
    email_given: bool,
    active_by_email: Option<u128>,
    pending_by_email: Option<u128>,
    handle_given: bool,
    by_handle: Option<u128>,
) -> (r: Result<u128, AppError>)
    ensures
        r == if !email_given && !handle_given {
            Err(AppError::BadRequest(BadRequestReason::EmailOrHandleRequired))
        } else if email_given && active_by_email is Some {
            Ok(active_by_email.unwrap())
        } else if email_given && pending_by_email is Some {
            Ok(pending_by_email.unwrap())
        } else if handle_given && by_handle is Some {
            Ok(by_handle.unwrap())
        } else {
            Err(AppError::BadRequest(BadRequestReason::NoMatchingDevelopmentAccount))
        },
{
    if !email_given && !handle_given {
        return Err(AppError::BadRequest(BadRequestReason::EmailOrHandleRequired));
    }
    if email_given {
        if let Some(id) = active_by_email {
            return Ok(id);
        }
        if let Some(id) = pending_by_email {
            return Ok(id);
        }
    }
    if handle_given {
        if let Some(id) = by_handle {
            return Ok(id);
        }
    }
    Err(AppError::BadRequest(BadRequestReason::NoMatchingDevelopmentAccount))
}

} // verus!
