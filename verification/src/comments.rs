//! Comments by humans and by agents working a claimed work item.
use vstd::prelude::*;
use crate::codec::{base64_decode, base64_decoding};
use crate::error::{AppError, BadRequestReason};
use crate::text::{is_blank, spec_is_blank};

verus! {

/// An end-to-end encrypted payload, as it arrives on the wire.
pub struct EncryptedPayloadDto {
    pub version: u32,
    pub algorithm: String,
    pub key_id: String,
    pub nonce_b64: String,
    pub ciphertext_b64: String,
}

/// What checking that a payload is complete answers: a zero version, a blank
/// algorithm or key id, or an empty nonce or ciphertext make it incomplete;
/// a nonce or ciphertext that is not base64 is refused as such (checked in
/// this order).
pub open spec fn opaque_payload_check(
    version: u32,
    algorithm: Seq<char>,
    key_id: Seq<char>,
    nonce_b64: Seq<char>,
    ciphertext_b64: Seq<char>,
) -> Result<(), AppError> {
    if version == 0 || spec_is_blank(algorithm) || spec_is_blank(key_id) {
        Err(AppError::BadRequest(BadRequestReason::IncompleteEncryptedPayload))
    } else {
        match base64_decoding(nonce_b64) {
            None => Err(AppError::BadRequest(BadRequestReason::InvalidBase64Ciphertext)),
            Some(nonce) => if nonce.len() == 0 {
                Err(AppError::BadRequest(BadRequestReason::IncompleteEncryptedPayload))
            } else {
                match base64_decoding(ciphertext_b64) {
                    None => Err(AppError::BadRequest(BadRequestReason::InvalidBase64Ciphertext)),
                    Some(ct) => if ct.len() == 0 {
                        Err(AppError::BadRequest(BadRequestReason::IncompleteEncryptedPayload))
                    } else {
                        Ok(())
                    },
                }
            },
        }
    }
}

/// Checks that a comment payload is complete before it is stored opaquely.
pub fn check_opaque_payload(payload: &EncryptedPayloadDto) -> (r: Result<(), AppError>)
    ensures
        r == opaque_payload_check(payload.version, payload.algorithm@, payload.key_id@,
            payload.nonce_b64@, payload.ciphertext_b64@),
{
    if payload.version == 0 || is_blank(payload.algorithm.as_str()) || is_blank(payload.key_id.as_str()) {
        return Err(AppError::BadRequest(BadRequestReason::IncompleteEncryptedPayload));
    }
    let nonce = match base64_decode(payload.nonce_b64.as_str()) {
        Some(n) => n,
        None => return Err(AppError::BadRequest(BadRequestReason::InvalidBase64Ciphertext)),
    };
    if nonce.len() == 0 {
        return Err(AppError::BadRequest(BadRequestReason::IncompleteEncryptedPayload));
    }
    let ciphertext = match base64_decode(payload.ciphertext_b64.as_str()) {
        Some(c) => c,
        None => return Err(AppError::BadRequest(BadRequestReason::InvalidBase64Ciphertext)),
    };
    if ciphertext.len() == 0 {
        return Err(AppError::BadRequest(BadRequestReason::IncompleteEncryptedPayload));
    }
    Ok(())
}

/// A human posts: an agent may not use this route, and a run it names must be
/// a real (non-nil) run.
pub fn authorize_human_post(actor_is_agent: bool, run_id: Option<u128>) -> (r: Result<(), AppError>)
    ensures
        r is Ok <==> !actor_is_agent && run_id != Some(0u128),
        r matches Err(e) ==> e == AppError::Forbidden,
{
    let nil_run = match run_id {
        Some(id) => id == 0,
        None => false,
    };
    if actor_is_agent || nil_run { Err(AppError::Forbidden) } else { Ok(()) }
}

/// An agent posts under a claimed work attempt, which starts at 1.
pub fn authorize_agent_post(actor_is_agent: bool, attempt: u16) -> (r: Result<(), AppError>)
    ensures
        r is Ok <==> actor_is_agent && attempt != 0,
        r matches Err(e) ==> e == AppError::Forbidden,
{
    if !actor_is_agent || attempt == 0 { Err(AppError::Forbidden) } else { Ok(()) }
}

/// The stored key epoch of a comment.
pub fn stored_key_epoch(key_epoch: u32) -> (r: Result<i32, AppError>)
    ensures
        match r {
            Ok(v) => v == key_epoch,
            Err(e) => key_epoch > i32::MAX && e == AppError::BadRequest(BadRequestReason::InvalidKeyEpoch),
        },
{
    if key_epoch <= i32::MAX as u32 { Ok(key_epoch as i32) } else { Err(AppError::BadRequest(BadRequestReason::InvalidKeyEpoch)) }
}

/// The wall-clock tick recorded for an operational comment: only a comment
/// that names no run gets one (a run-bound comment is ticked by the run's own
/// allocator); a tick beyond `i64::MAX` is an internal error.
pub fn operational_tick(run_bound: bool, now_tick: u64) -> (r: Result<Option<i64>, AppError>)
    ensures
        run_bound ==> r == Ok::<Option<i64>, AppError>(None),
        !run_bound ==> match r {
            Ok(t) => t == Some(now_tick as i64) && now_tick <= i64::MAX,
            Err(e) => now_tick > i64::MAX && e == AppError::Internal,
        },
{
    if run_bound {
        return Ok(None);
    }
    if now_tick <= i64::MAX as u64 { Ok(Some(now_tick as i64)) } else { Err(AppError::Internal) }
}

/// Reads back a stored non-negative `i32` column (depth or key epoch); a
/// negative value is an internal error.
pub fn stored_u32(value: i32) -> (r: Result<u32, AppError>)
    ensures
        match r {
            Ok(v) => v == value,
            Err(e) => value < 0 && e == AppError::Internal,
        },
{
    if value >= 0 { Ok(value as u32) } else { Err(AppError::Internal) }
}

/// Reads back a stored non-negative semantic tick.
pub fn stored_tick(value: i64) -> (r: Result<u64, AppError>)
    ensures
        match r {
            Ok(v) => v == value,
            Err(e) => value < 0 && e == AppError::Internal,
        },
{
    if value >= 0 { Ok(value as u64) } else { Err(AppError::Internal) }
}

/// A comment payload is complete exactly when it has a version, an algorithm
/// and a key id that are not blank, and a nonce and a ciphertext that are each
/// the base64 of at least one byte.
pub proof fn complete_payloads(
    version: u32, algorithm: Seq<char>, key_id: Seq<char>, nonce_b64: Seq<char>, ciphertext_b64: Seq<char>,
)
    ensures
        opaque_payload_check(version, algorithm, key_id, nonce_b64, ciphertext_b64) is Ok <==> {
            &&& version != 0 && !spec_is_blank(algorithm) && !spec_is_blank(key_id)
            &&& exists|n: Seq<u8>| n.len() > 0 && crate::codec::base64_encoding(n) == nonce_b64
            &&& exists|c: Seq<u8>| c.len() > 0 && crate::codec::base64_encoding(c) == ciphertext_b64
        },
{
    if exists|n: Seq<u8>| n.len() > 0 && crate::codec::base64_encoding(n) == nonce_b64 {
        let n = choose|n: Seq<u8>| n.len() > 0 && crate::codec::base64_encoding(n) == nonce_b64;
        crate::codec::lemma_base64_decoding_of_encoding(n);
    }
    if exists|c: Seq<u8>| c.len() > 0 && crate::codec::base64_encoding(c) == ciphertext_b64 {
        let c = choose|c: Seq<u8>| c.len() > 0 && crate::codec::base64_encoding(c) == ciphertext_b64;
        crate::codec::lemma_base64_decoding_of_encoding(c);
    }
    if base64_decoding(nonce_b64) is Some {
        let n = base64_decoding(nonce_b64)->Some_0;
        assert(crate::codec::base64_encoding(n) == nonce_b64);
    }
    if base64_decoding(ciphertext_b64) is Some {
        let c = base64_decoding(ciphertext_b64)->Some_0;
        assert(crate::codec::base64_encoding(c) == ciphertext_b64);
    }
}

} // verus!
