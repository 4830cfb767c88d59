use sprout_routes::agent_chat::{history_page, HISTORY_FETCH_LIMIT, HISTORY_PAGE_SIZE};
use sprout_routes::assignments::{
    active_assignment_id, assignment_payload, recipient_access, require_full_list_access,
    RecipientAccess,
};
use sprout_routes::comments::{
    authorize_agent_post, authorize_human_post, check_opaque_payload, operational_tick,
    stored_key_epoch, stored_tick, stored_u32, EncryptedPayloadDto,
};
use sprout_routes::dev_auth::{require_development, resolve_identity, DevLoginRequest};
use sprout_routes::error::{AppError, BadRequestReason};
use sprout_routes::text::{contains_whitespace, is_blank, is_whitespace, text_eq};

fn bad(reason: BadRequestReason) -> AppError {
    AppError::BadRequest(reason)
}

#[test]
fn whitespace_is_std_whitespace() {
    for c in (0u32..0x3100).filter_map(char::from_u32) {
        assert_eq!(is_whitespace(c), c.is_whitespace(), "{c:?}");
    }
    assert_eq!(is_whitespace('\u{10FFFF}'), false);
    assert!(contains_whitespace("a b"));
    assert!(contains_whitespace("a\u{3000}b"));
    assert!(!contains_whitespace("ab"));
    assert!(is_blank(""));
    assert!(is_blank(" \t\u{a0}"));
    assert!(!is_blank(" x "));
    for s in ["", "  ", " a ", "\u{2003}b"] {
        assert_eq!(is_blank(s), s.trim().is_empty());
    }
}

#[test]
fn text_equality_and_lower_case() {
    assert!(text_eq("abc", "abc"));
    assert!(!text_eq("abc", "abd"));
    assert!(!text_eq("abc", "ab"));
    // lower-casing goes through the identity-handle check
    assert!(sprout_routes::agents::validate_identity_handle("abç").is_ok());
    assert!(sprout_routes::agents::validate_identity_handle("abÇ").is_err());
    assert!(sprout_routes::agents::validate_identity_handle("ΣΑΣ").is_err());
}

#[test]
fn assignment_payloads_must_be_non_empty_base64() {
    assert_eq!(assignment_payload("AQI=").unwrap(), vec![1, 2]);
    assert_eq!(assignment_payload("").unwrap_err(), bad(BadRequestReason::EmptyAssignmentPayload));
    assert_eq!(assignment_payload("A").unwrap_err(), bad(BadRequestReason::InvalidBase64EncryptedPayload));
}

#[test]
fn who_may_assign_to_whom() {
    assert_eq!(recipient_access(None, true).unwrap_err(), AppError::Forbidden);
    assert_eq!(recipient_access(Some("member"), false).unwrap_err(), bad(BadRequestReason::RecipientNotActiveMember));
    assert_eq!(recipient_access(Some("owner"), true).unwrap(), RecipientAccess::Granted);
    assert_eq!(recipient_access(Some("admin"), true).unwrap(), RecipientAccess::Granted);
    assert_eq!(recipient_access(Some("member"), true).unwrap(), RecipientAccess::NeedsFullListAccess);
    assert!(require_full_list_access(true).is_ok());
    assert_eq!(require_full_list_access(false).unwrap_err(), AppError::Forbidden);
}

#[test]
fn the_active_assignment_is_the_first_unrevoked() {
    assert_eq!(active_assignment_id(&[(1, true), (2, false), (3, false)]), Some(2));
    assert_eq!(active_assignment_id(&[(1, true), (2, true)]), None);
    assert_eq!(active_assignment_id(&[]), None);
}

fn payload() -> EncryptedPayloadDto {
    EncryptedPayloadDto {
        version: 1,
        algorithm: "xchacha20poly1305".into(),
        key_id: "k1".into(),
        nonce_b64: "AAEC".into(),
        ciphertext_b64: "AwQ=".into(),
    }
}

#[test]
fn comment_payloads_must_be_complete() {
    assert!(check_opaque_payload(&payload()).is_ok());
    let incomplete = bad(BadRequestReason::IncompleteEncryptedPayload);
    let invalid = bad(BadRequestReason::InvalidBase64Ciphertext);
    assert_eq!(check_opaque_payload(&EncryptedPayloadDto { version: 0, ..payload() }).unwrap_err(), incomplete);
    assert_eq!(check_opaque_payload(&EncryptedPayloadDto { algorithm: " ".into(), ..payload() }).unwrap_err(), incomplete);
    assert_eq!(check_opaque_payload(&EncryptedPayloadDto { key_id: "".into(), ..payload() }).unwrap_err(), incomplete);
    assert_eq!(check_opaque_payload(&EncryptedPayloadDto { nonce_b64: "".into(), ..payload() }).unwrap_err(), incomplete);
    assert_eq!(check_opaque_payload(&EncryptedPayloadDto { ciphertext_b64: "".into(), ..payload() }).unwrap_err(), incomplete);
    assert_eq!(check_opaque_payload(&EncryptedPayloadDto { nonce_b64: "@@".into(), ..payload() }).unwrap_err(), invalid);
    assert_eq!(check_opaque_payload(&EncryptedPayloadDto { ciphertext_b64: "A".into(), ..payload() }).unwrap_err(), invalid);
    // an incomplete header is reported before malformed base64
    let both = EncryptedPayloadDto { version: 0, nonce_b64: "@@".into(), ..payload() };
    assert_eq!(check_opaque_payload(&both).unwrap_err(), incomplete);
}

#[test]
fn who_posts_comments() {
    assert!(authorize_human_post(false, None).is_ok());
    assert!(authorize_human_post(false, Some(5)).is_ok());
    assert_eq!(authorize_human_post(false, Some(0)).unwrap_err(), AppError::Forbidden);
    assert_eq!(authorize_human_post(true, None).unwrap_err(), AppError::Forbidden);
    assert!(authorize_agent_post(true, 1).is_ok());
    assert_eq!(authorize_agent_post(true, 0).unwrap_err(), AppError::Forbidden);
    assert_eq!(authorize_agent_post(false, 1).unwrap_err(), AppError::Forbidden);
}

#[test]
fn stored_comment_columns() {
    assert_eq!(stored_key_epoch(3).unwrap(), 3);
    assert_eq!(stored_key_epoch(u32::MAX).unwrap_err(), bad(BadRequestReason::InvalidKeyEpoch));
    assert_eq!(operational_tick(true, u64::MAX).unwrap(), None);
    assert_eq!(operational_tick(false, 9).unwrap(), Some(9));
    assert_eq!(operational_tick(false, u64::MAX).unwrap_err(), AppError::Internal);
    assert_eq!(stored_u32(stored_key_epoch(7).unwrap()).unwrap(), 7);
    assert_eq!(stored_u32(-1).unwrap_err(), AppError::Internal);
    assert_eq!(stored_tick(12).unwrap(), 12);
    assert_eq!(stored_tick(-12).unwrap_err(), AppError::Internal);
}

#[test]
fn development_login() {
    assert!(require_development(true).is_ok());
    assert_eq!(require_development(false).unwrap_err(), AppError::NotFound);
    assert_eq!(resolve_identity(false, None, None, false, None).unwrap_err(), bad(BadRequestReason::EmailOrHandleRequired));
    assert_eq!(resolve_identity(true, Some(1), Some(2), true, Some(3)).unwrap(), 1);
    assert_eq!(resolve_identity(true, None, Some(2), true, Some(3)).unwrap(), 2);
    assert_eq!(resolve_identity(true, None, None, true, Some(3)).unwrap(), 3);
    assert_eq!(resolve_identity(false, Some(1), None, true, Some(3)).unwrap(), 3);
    assert_eq!(
        resolve_identity(true, None, None, false, Some(3)).unwrap_err(),
        bad(BadRequestReason::NoMatchingDevelopmentAccount)
    );
    let request = DevLoginRequest { email: Some("dev@example.com".into()), identity_handle: None };
    assert!(!request.debug_text().contains("dev@example.com"));
    assert!(request.debug_text().contains("[REDACTED]"));
}

#[test]
fn chat_history_pages() {
    assert_eq!(HISTORY_FETCH_LIMIT, HISTORY_PAGE_SIZE + 1);
    let ids: Vec<u128> = (0..31).collect();
    let rows: Vec<u32> = (0..31).collect();
    let (page, cursor) = history_page(rows, &ids);
    assert_eq!(page, (0..30).collect::<Vec<u32>>());
    assert_eq!(cursor, Some(29));
    let (page, cursor) = history_page(vec!["a", "b"], &[7, 8]);
    assert_eq!(page, vec!["a", "b"]);
    assert_eq!(cursor, None);
    let (page, cursor) = history_page((0..30).collect::<Vec<u8>>(), &(0..30).collect::<Vec<u128>>());
    assert_eq!(page.len(), 30);
    assert_eq!(cursor, None);
}

#[test]
fn bad_requests_carry_the_server_messages() {
    assert_eq!(BadRequestReason::InvalidCommitment.message(), "invalid commitment");
    assert_eq!(
        BadRequestReason::InitialLocalGoalMismatch.message(),
        "initial LocalGoal does not match the proposed agent"
    );
    assert_eq!(BadRequestReason::EmailOrHandleRequired.message(), "email or identity_handle is required");
}

#[test]
fn the_default_surface_is_generic() {
    assert_eq!(sprout_routes::agents::InvocationSurface::default(), sprout_routes::agents::InvocationSurface::Generic);
}

#[test]
fn empty_base64_decodes_to_no_bytes() {
    assert_eq!(sprout_routes::domain::decode("").unwrap(), Vec::<u8>::new());
    assert_eq!(sprout_routes::device_keys::encode(&[]), "");
    assert_eq!(sprout_routes::device_keys::encode(&[0xff, 0xee, 0xdd, 0x01]), "/+7dAQ==");
    assert_eq!(sprout_routes::device_keys::decode("/+7dAQ==").unwrap(), vec![0xff, 0xee, 0xdd, 0x01]);
    assert!(sprout_routes::device_keys::decode("/+7dAR==").is_err());
}
