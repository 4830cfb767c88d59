use sha2::Digest;
use sprout_routes::agent_tools::{
    authorize_tool_invocation, check_output_envelope_metadata, check_request_signer,
    check_runtime_capability_lifetime, check_terminal_dispatch, check_terminal_observation,
    check_terminal_open, check_terminal_reporter, commitment, derived_tool_uuid, idempotent_replay,
    open_dispatch, retry_attempt, server_timeout_ids, status_response, stored_i32,
    terminal_outcome, timeout_is_due, tool_deadline_tick, validate_live_call, CallView, ClaimView,
    DispatchView, OutputKeyEnvelopeMeta, TerminalDispatchView, TerminalToolStatus, WorkView,
    RUNTIME_CAPABILITY_MAX_LIFETIME_NANOS, SERVER_TIMEOUT_IDEMPOTENCY_CONTEXT,
    SERVER_TIMEOUT_OBSERVATION_CONTEXT, TOOL_DERIVED_ID_DOMAIN, TOOL_LEASE_SECONDS,
};
use sprout_routes::agent_tools::work_tool_ceiling;
use sprout_routes::error::{AppError, BadRequestReason};

fn bad(reason: BadRequestReason) -> AppError {
    AppError::BadRequest(reason)
}

fn expected_tool_id(context: &[u8], parts: &[u128]) -> Vec<u8> {
    let mut hasher = sha2::Sha256::new();
    hasher.update(TOOL_DERIVED_ID_DOMAIN.as_bytes());
    hasher.update(context);
    for part in parts {
        hasher.update(part.to_be_bytes());
    }
    let digest = hasher.finalize();
    let mut bytes = [0u8; 16];
    bytes.copy_from_slice(&digest[..16]);
    uuid::Builder::from_custom_bytes(bytes).into_uuid().as_bytes().to_vec()
}

#[test]
fn tool_ids_are_version_8_uuids_of_the_sha256() {
    assert_eq!(derived_tool_uuid(b"ctx", &[1, 2]), expected_tool_id(b"ctx", &[1, 2]));
    assert_eq!(derived_tool_uuid(b"", &[]), expected_tool_id(b"", &[]));
    let (observation, idempotency) = server_timeout_ids(1, 2, 3);
    assert_eq!(observation, expected_tool_id(SERVER_TIMEOUT_OBSERVATION_CONTEXT.as_bytes(), &[1, 2, 3]));
    assert_eq!(idempotency, expected_tool_id(SERVER_TIMEOUT_IDEMPOTENCY_CONTEXT.as_bytes(), &[1, 2, 3]));
    assert_ne!(observation, idempotency);
    assert_eq!(server_timeout_ids(1, 2, 3), server_timeout_ids(1, 2, 3));
}

#[test]
fn commitments_round_trip_through_hex() {
    let bytes = vec![0x5a; 32];
    assert_eq!(commitment(&hex::encode(&bytes)).unwrap(), bytes);
    assert_eq!(commitment(&hex::encode_upper(&bytes)).unwrap(), bytes);
    assert_eq!(commitment("5a").unwrap_err(), bad(BadRequestReason::InvalidCommitment));
}

#[test]
fn stored_status_names_are_answered_verbatim() {
    for status in ["pending", "succeeded", "failed", "timed_out"] {
        assert_eq!(status_response(status), status);
        assert_eq!(status_response(status_response(status)), status_response(status));
    }
    assert_eq!(status_response("dispatched"), "invalid");
    assert_eq!(status_response("invalid"), "invalid");
}

#[test]
fn terminal_outcomes() {
    assert_eq!(terminal_outcome(TerminalToolStatus::Succeeded), ("succeeded", "completed", true));
    assert_eq!(terminal_outcome(TerminalToolStatus::Failed), ("failed", "failed", false));
    assert_eq!(terminal_outcome(TerminalToolStatus::TimedOut), ("timed_out", "timed_out", false));
}

fn envelope(recipient: u128, version: u16, purpose: &str) -> OutputKeyEnvelopeMeta {
    OutputKeyEnvelopeMeta {
        recipient_identity_id: recipient,
        envelope_version: version,
        key_purpose: purpose.into(),
        sender_device_key_version: 1,
    }
}

#[test]
fn terminal_observations_are_consistent_with_their_status() {
    let to_owner = [envelope(7, 2, "tool_output")];
    assert!(check_terminal_observation(TerminalToolStatus::Succeeded, true, true, None, true, &to_owner, 7).is_ok());
    assert!(check_terminal_observation(TerminalToolStatus::Failed, false, false, Some("boom"), true, &[], 7).is_ok());
    assert!(check_terminal_observation(TerminalToolStatus::TimedOut, false, true, Some("late"), true, &[], 7).is_ok());
    let mismatch = bad(BadRequestReason::TerminalToolObservationMismatch);
    let cases: Vec<Result<(), AppError>> = vec![
        check_terminal_observation(TerminalToolStatus::Succeeded, true, true, None, true, &to_owner, 8),
        check_terminal_observation(TerminalToolStatus::Succeeded, true, true, None, false, &to_owner, 7),
        check_terminal_observation(TerminalToolStatus::Succeeded, false, true, None, true, &to_owner, 7),
        check_terminal_observation(TerminalToolStatus::Succeeded, true, true, Some("x"), true, &to_owner, 7),
        check_terminal_observation(TerminalToolStatus::Succeeded, true, true, None, true, &[], 7),
        check_terminal_observation(TerminalToolStatus::Succeeded, true, true, None, true, &[envelope(7, 1, "tool_output")], 7),
        check_terminal_observation(TerminalToolStatus::Succeeded, true, true, None, true, &[envelope(7, 2, "other")], 7),
        check_terminal_observation(TerminalToolStatus::Failed, false, false, Some(""), true, &[], 7),
        check_terminal_observation(TerminalToolStatus::Failed, false, false, None, true, &[], 7),
        check_terminal_observation(TerminalToolStatus::Failed, true, true, None, true, &[], 7),
        check_terminal_observation(TerminalToolStatus::Failed, false, false, Some("boom"), true, &to_owner, 7),
    ];
    for case in cases {
        assert_eq!(case.unwrap_err(), mismatch);
    }
}

#[test]
fn idempotent_replays() {
    assert_eq!(idempotent_replay(None, &[1]).unwrap(), false);
    assert_eq!(idempotent_replay(Some(&[1, 2]), &[1, 2]).unwrap(), true);
    assert_eq!(idempotent_replay(Some(&[1, 2]), &[1, 3]).unwrap_err(), AppError::Conflict);
}

#[test]
fn stored_key_versions_fit_i32() {
    assert_eq!(stored_i32(5, BadRequestReason::InvalidSignerKeyVersion).unwrap(), 5);
    assert_eq!(
        stored_i32(u32::MAX, BadRequestReason::InvalidSignerKeyVersion).unwrap_err(),
        bad(BadRequestReason::InvalidSignerKeyVersion)
    );
}

#[test]
fn runtime_capabilities_live_at_most_five_minutes() {
    assert_eq!(RUNTIME_CAPABILITY_MAX_LIFETIME_NANOS, 300_000_000_000);
    let invalid = bad(BadRequestReason::InvalidRuntimeCapabilityLifetime);
    assert!(check_runtime_capability_lifetime(0, RUNTIME_CAPABILITY_MAX_LIFETIME_NANOS, 0).is_ok());
    assert_eq!(check_runtime_capability_lifetime(0, RUNTIME_CAPABILITY_MAX_LIFETIME_NANOS + 1, 0).unwrap_err(), invalid);
    assert_eq!(check_runtime_capability_lifetime(10, 20, 9).unwrap_err(), invalid);
    assert_eq!(check_runtime_capability_lifetime(10, 20, 20).unwrap_err(), invalid);
    assert!(check_runtime_capability_lifetime(10, 20, 19).is_ok());
}

#[test]
fn tool_deadlines_saturate() {
    assert_eq!(tool_deadline_tick(10, 5), 15);
    assert_eq!(tool_deadline_tick(u64::MAX - 1, 5), u64::MAX);
}

fn claim() -> ClaimView {
    ClaimView { claimant: 1, active: true, acquired_at: 10, expires_at: 20, attempt: 2 }
}

fn work() -> WorkView {
    WorkView {
        claimed: true,
        owner: 1,
        goal: 3,
        attempt: 2,
        work_spec_id: 4,
        is_tool_invocation: true,
        is_tool_retry: false,
    }
}

#[test]
fn tool_invocations_need_a_live_claim_on_the_work() {
    assert!(authorize_tool_invocation(1, &claim(), &work(), 3, 10, true, true, true).is_ok());
    let refusals = [
        authorize_tool_invocation(2, &claim(), &work(), 3, 10, true, true, true),
        authorize_tool_invocation(1, &claim(), &work(), 3, 20, true, true, true),
        authorize_tool_invocation(1, &claim(), &work(), 3, 9, true, true, true),
        authorize_tool_invocation(1, &claim(), &work(), 4, 10, true, true, true),
        authorize_tool_invocation(1, &claim(), &work(), 3, 10, false, true, true),
        authorize_tool_invocation(1, &claim(), &work(), 3, 10, true, false, true),
        authorize_tool_invocation(1, &claim(), &work(), 3, 10, true, true, false),
        authorize_tool_invocation(1, &ClaimView { active: false, ..claim() }, &work(), 3, 10, true, true, true),
        authorize_tool_invocation(1, &claim(), &WorkView { is_tool_invocation: false, ..work() }, 3, 10, true, true, true),
        authorize_tool_invocation(1, &claim(), &WorkView { attempt: 3, ..work() }, 3, 10, true, true, true),
    ];
    for refusal in refusals {
        assert_eq!(refusal.unwrap_err(), AppError::Forbidden);
    }
}

#[test]
fn live_calls() {
    let call = CallView { owner: 1, work_attempt: 2, work_spec_id: 4, goal_id: 3 };
    assert!(validate_live_call(1, &call, Some(&claim()), Some(&work()), 15, true).is_ok());
    assert_eq!(validate_live_call(1, &call, Some(&claim()), Some(&work()), 15, false).unwrap_err(), AppError::Forbidden);
    assert_eq!(validate_live_call(1, &call, Some(&claim()), Some(&work()), 20, true).unwrap_err(), AppError::Forbidden);
    assert_eq!(validate_live_call(2, &call, Some(&claim()), Some(&work()), 15, true).unwrap_err(), AppError::Forbidden);
    assert_eq!(validate_live_call(1, &call, None, Some(&work()), 15, true).unwrap_err(), AppError::Conflict);
    assert_eq!(validate_live_call(1, &call, Some(&claim()), None, 15, true).unwrap_err(), AppError::Conflict);
}

#[test]
fn retries_follow_a_failed_or_timed_out_attempt() {
    assert_eq!(retry_attempt("failed", 1, 3).unwrap(), 2);
    assert_eq!(retry_attempt("timed_out", 2, 3).unwrap(), 3);
    assert_eq!(retry_attempt("failed", 3, 3).unwrap_err(), AppError::Conflict);
    assert_eq!(retry_attempt("succeeded", 1, 3).unwrap_err(), AppError::Conflict);
    assert_eq!(retry_attempt("pending", 1, 3).unwrap_err(), AppError::Conflict);
}

fn dispatch() -> DispatchView {
    DispatchView {
        runner_identity_id: 1,
        runner_device_id: 2,
        runner_key_version: 3,
        adapter_protocol: "mcp-v1".into(),
        canonical_input_commitment: vec![9; 32],
    }
}

#[test]
fn request_signers_must_be_the_dispatched_runner() {
    assert!(check_request_signer(1, 2, 3, &dispatch(), "mcp-v1", &[9; 32]).is_ok());
    assert_eq!(check_request_signer(5, 2, 3, &dispatch(), "mcp-v1", &[9; 32]).unwrap_err(), AppError::Forbidden);
    assert_eq!(check_request_signer(1, 5, 3, &dispatch(), "mcp-v1", &[9; 32]).unwrap_err(), AppError::Forbidden);
    assert_eq!(
        check_request_signer(1, 2, u32::MAX, &dispatch(), "mcp-v1", &[9; 32]).unwrap_err(),
        bad(BadRequestReason::InvalidSignerKeyVersion)
    );
    assert_eq!(check_request_signer(1, 2, 4, &dispatch(), "mcp-v1", &[9; 32]).unwrap_err(), AppError::Forbidden);
    assert_eq!(check_request_signer(1, 2, 3, &dispatch(), "mcp-v2", &[9; 32]).unwrap_err(), AppError::Forbidden);
    assert_eq!(check_request_signer(1, 2, 3, &dispatch(), "mcp-v1", &[8; 32]).unwrap_err(), AppError::Forbidden);
}

#[test]
fn output_envelope_metadata() {
    assert!(check_output_envelope_metadata(2, "tool_output", 4, 4).is_ok());
    let invalid = bad(BadRequestReason::InvalidToolOutputEnvelopeMetadata);
    assert_eq!(check_output_envelope_metadata(1, "tool_output", 4, 4).unwrap_err(), invalid);
    assert_eq!(check_output_envelope_metadata(2, "comment", 4, 4).unwrap_err(), invalid);
    assert_eq!(check_output_envelope_metadata(2, "tool_output", 4, 5).unwrap_err(), invalid);
    assert_eq!(
        check_output_envelope_metadata(2, "tool_output", u32::MAX, 4).unwrap_err(),
        bad(BadRequestReason::InvalidSenderKeyVersion)
    );
}

#[test]
fn timeouts_and_dispatch_leases() {
    assert!(timeout_is_due("pending", 10, 10));
    assert!(!timeout_is_due("pending", 9, 10));
    assert!(!timeout_is_due("succeeded", 11, 10));
    assert_eq!(open_dispatch("pending", false, 0, 10).unwrap(), TOOL_LEASE_SECONDS as i128 * 1_000_000_000);
    assert_eq!(open_dispatch("pending", true, 0, 10).unwrap_err(), AppError::Conflict);
    assert_eq!(open_dispatch("pending", false, 10, 10).unwrap_err(), AppError::Conflict);
    assert_eq!(open_dispatch("failed", false, 0, 10).unwrap_err(), AppError::Conflict);
}

#[test]
fn terminal_reports() {
    assert!(check_terminal_reporter(true, 1, 1).is_ok());
    assert_eq!(check_terminal_reporter(false, 1, 1).unwrap_err(), AppError::Forbidden);
    assert_eq!(check_terminal_reporter(true, 1, 2).unwrap_err(), AppError::Forbidden);
    assert!(check_terminal_open("pending", false).is_ok());
    assert!(check_terminal_open("succeeded", true).is_ok());
    assert_eq!(check_terminal_open("succeeded", false).unwrap_err(), AppError::Forbidden);
    let d = TerminalDispatchView {
        runner_identity_id: 1,
        runner_device_id: 2,
        runner_key_version: 3,
        attempt: 1,
        adapter_protocol: "mcp-v1".into(),
        canonical_input_commitment: vec![7; 32],
    };
    assert!(check_terminal_dispatch(&d, 1, 1, "mcp-v1", &[7; 32], 1, 2, 3).is_ok());
    assert_eq!(check_terminal_dispatch(&d, 1, 2, "mcp-v1", &[7; 32], 1, 2, 3).unwrap_err(), AppError::Forbidden);
    assert_eq!(check_terminal_dispatch(&d, 1, 1, "mcp-v1", &[7; 32], 1, 9, 3).unwrap_err(), AppError::Forbidden);
    assert_eq!(check_terminal_dispatch(&d, 1, 1, "mcp-v1", &[7; 32], 1, 2, 4).unwrap_err(), AppError::Forbidden);
    assert_eq!(
        check_terminal_dispatch(&d, 1, 1, "mcp-v1", &[7; 32], 1, 2, u32::MAX).unwrap_err(),
        bad(BadRequestReason::InvalidSignerKeyVersion)
    );
}

fn names(list: &[&str]) -> Vec<String> {
    list.iter().map(|s| s.to_string()).collect()
}

#[test]
fn work_tool_ceilings_narrow_along_the_parent_chain() {
    let run = names(&["web.search", "code.run", "files.read", "code.run"]);
    let chain = vec![
        (1u128, names(&["files.read", "code.run", "web.search"])),
        (2u128, names(&["code.run", "files.read"])),
    ];
    assert_eq!(work_tool_ceiling(&run, &chain, 0, 3).unwrap(), names(&["code.run", "files.read"]));
    assert_eq!(work_tool_ceiling(&run, &[], 0, 3).unwrap(), names(&["code.run", "files.read", "web.search"]));
    assert_eq!(work_tool_ceiling(&run, &[(1, vec![])], 0, 3).unwrap(), Vec::<String>::new());
    // byte order: upper case sorts before lower case
    assert_eq!(work_tool_ceiling(&names(&["b", "B", "a"]), &[], 0, 1).unwrap(), names(&["B", "a", "b"]));
    assert_eq!(work_tool_ceiling(&run, &chain, 3, 3).unwrap_err(), AppError::Forbidden);
    let cycle = vec![(1u128, names(&["code.run"])), (2, names(&["code.run"])), (1, names(&["code.run"]))];
    assert_eq!(work_tool_ceiling(&run, &cycle, 0, 3).unwrap_err(), AppError::Conflict);
    assert_eq!(work_tool_ceiling(&run, &cycle, 3, 3).unwrap_err(), AppError::Forbidden);
}

#[test]
fn replays_are_recognised_only_for_the_same_request() {
    let stored = [5u8; 32];
    assert_eq!(idempotent_replay(Some(&stored), &stored).unwrap(), true);
    assert_eq!(idempotent_replay(Some(&stored), &[6u8; 32]).unwrap_err(), AppError::Conflict);
    assert_eq!(idempotent_replay(None, &stored).unwrap(), false);
}
