//! External tool calls of collaborative runs: runtime capabilities, invocation,
//! dispatch, request witnesses, terminal observations, retries and server
//! timeouts.
use vstd::prelude::*;
use vstd::string::StringSliceAdditionalSpecFns;
use crate::codec::{derive_id, derived_id, hex_decode, hex_decoding};
use crate::error::{AppError, BadRequestReason, bytes_of};
use crate::text::text_eq;

verus! {

/// How long a runner's dispatch lease on a tool attempt lasts.
pub const TOOL_LEASE_SECONDS: i64 = 60;

/// Longest lifetime of a runtime-capability witness, in nanoseconds (five
/// minutes).
pub const RUNTIME_CAPABILITY_MAX_LIFETIME_NANOS: i128 = 300_000_000_000;

/// Bound on the instants (nanoseconds since the epoch) that the routes compare;
/// every `DateTime<Utc>` lies far inside it.
pub open spec fn instant_in_range(t: i128) -> bool {
    -0x1_0000_0000_0000_0000_0000_0000 <= t <= 0x1_0000_0000_0000_0000_0000_0000
}

/// Domain separation of identifiers that the tool routes derive.
pub const TOOL_DERIVED_ID_DOMAIN: &'static str = "sprout-external-tool-derived-id-v1";

/// Context of the observation id of a server timeout.
pub const SERVER_TIMEOUT_OBSERVATION_CONTEXT: &'static str = "server-timeout-observation";

/// Context of the idempotency key of a server timeout.
pub const SERVER_TIMEOUT_IDEMPOTENCY_CONTEXT: &'static str = "server-timeout-idempotency";

/// The identifier that the tool routes derive from a context and identifiers.
pub fn derived_tool_uuid(context: &[u8], parts: &[u128]) -> (id: Vec<u8>)
    ensures
        id@ == derived_id(TOOL_DERIVED_ID_DOMAIN.spec_bytes(), context@, parts@),
{
    derive_id(TOOL_DERIVED_ID_DOMAIN.as_bytes(), context, parts)
}

/// The observation id and idempotency key of the server timeout of a call,
/// derived from the project, the call and its work claim, so that a repeated
/// timeout sweep records the same observation.
pub fn server_timeout_ids(project_id: u128, call_id: u128, work_claim_id: u128) -> (ids: (Vec<u8>, Vec<u8>))
    ensures
        ids.0@ == derived_id(TOOL_DERIVED_ID_DOMAIN.spec_bytes(),
            SERVER_TIMEOUT_OBSERVATION_CONTEXT.spec_bytes(), seq![project_id, call_id, work_claim_id]),
        ids.1@ == derived_id(TOOL_DERIVED_ID_DOMAIN.spec_bytes(),
            SERVER_TIMEOUT_IDEMPOTENCY_CONTEXT.spec_bytes(), seq![project_id, call_id, work_claim_id]),
{
    let parts = [project_id, call_id, work_claim_id];
    assert(parts@ =~= seq![project_id, call_id, work_claim_id]);
    let observation = derived_tool_uuid(SERVER_TIMEOUT_OBSERVATION_CONTEXT.as_bytes(), parts.as_slice());
    let idempotency = derived_tool_uuid(SERVER_TIMEOUT_IDEMPOTENCY_CONTEXT.as_bytes(), parts.as_slice());
    (observation, idempotency)
}

/// What `commitment` answers: 32 bytes written as 64 hex digits, or the bad
/// request `invalid commitment`.
pub open spec fn commitment_result(value: Seq<char>) -> Result<Seq<u8>, AppError> {
    match hex_decoding(value) {
        Some(bytes) => if bytes.len() == 32 {
            Ok(bytes)
        } else {
            Err(AppError::BadRequest(BadRequestReason::InvalidCommitment))
        },
        None => Err(AppError::BadRequest(BadRequestReason::InvalidCommitment)),
    }
}

/// Decodes a SHA-256 commitment written in hex (either case).
pub fn commitment(value: &str) -> (r: Result<Vec<u8>, AppError>)
    ensures
        bytes_of(r) == commitment_result(value@),
        r matches Ok(b) ==> b@.len() == 32,
{
    match hex_decode(value) {
        Some(bytes) => {
            if bytes.len() == 32 {
                Ok(bytes)
            } else {
                Err(AppError::BadRequest(BadRequestReason::InvalidCommitment))
            }
        },
        None => Err(AppError::BadRequest(BadRequestReason::InvalidCommitment)),
    }
}

/// A 32-byte digest written as lower-case hex is accepted as a commitment to
/// exactly that digest.
pub proof fn commitments_round_trip(digest: Seq<u8>)
    requires
        digest.len() == 32,
    ensures
        commitment_result(crate::codec::hex_lower(digest)) == Ok::<Seq<u8>, AppError>(digest),
{
    crate::codec::hex_encoding_round_trips(digest);
}

/// The status of a tool call as it is reported.
pub open spec fn status_response_of(status: Seq<char>) -> Seq<char> {
    if status == "pending"@ {
        "pending"@
    } else if status == "succeeded"@ {
        "succeeded"@
    } else if status == "failed"@ {
        "failed"@
    } else if status == "timed_out"@ {
        "timed_out"@
    } else {
        "invalid"@
    }
}

/// Reports a stored call status: one of the four known statuses as it is,
/// anything else as `invalid`.
pub fn status_response(status: &str) -> (r: &'static str)
    ensures
        r@ == status_response_of(status@),
{
    if text_eq(status, "pending") {
        "pending"
    } else if text_eq(status, "succeeded") {
        "succeeded"
    } else if text_eq(status, "failed") {
        "failed"
    } else if text_eq(status, "timed_out") {
        "timed_out"
    } else {
        "invalid"
    }
}

/// Reporting is idempotent: a reported status reports as itself.
pub proof fn status_response_is_idempotent(status: Seq<char>)
    ensures
        status_response_of(status_response_of(status)) == status_response_of(status),
{
    reveal_strlit("pending");
    reveal_strlit("succeeded");
    reveal_strlit("failed");
    reveal_strlit("timed_out");
    reveal_strlit("invalid");
    let r = status_response_of(status);
    if r == "invalid"@ {
        assert(r != "pending"@ && r != "succeeded"@ && r != "failed"@ && r != "timed_out"@) by {
            assert(r.len() == 7);
            assert(r[0] == 'i');
        }
    }
}

/// The terminal status that a runner's signed observation reports.
#[derive(Clone, Copy, Debug, PartialEq, Eq, Structural)]
pub enum TerminalToolStatus {
    Succeeded,
    Failed,
    TimedOut,
}

/// The stored call status, the audit kind and whether the work succeeded, for
/// a terminal status.
pub open spec fn terminal_outcome_of(status: TerminalToolStatus) -> (Seq<char>, Seq<char>, bool) {
    match status {
        TerminalToolStatus::Succeeded => ("succeeded"@, "completed"@, true),
        TerminalToolStatus::Failed => ("failed"@, "failed"@, false),
        TerminalToolStatus::TimedOut => ("timed_out"@, "timed_out"@, false),
    }
}

/// The stored call status, the audit kind and whether the claimed work
/// succeeded, for a terminal status.
pub fn terminal_outcome(status: TerminalToolStatus) -> (r: (&'static str, &'static str, bool))
    ensures
        (r.0@, r.1@, r.2) == terminal_outcome_of(status),
{
    match status {
        TerminalToolStatus::Succeeded => ("succeeded", "completed", true),
        TerminalToolStatus::Failed => ("failed", "failed", false),
        TerminalToolStatus::TimedOut => ("timed_out", "timed_out", false),
    }
}

/// The metadata of an output key envelope that a terminal observation carries.
pub struct OutputKeyEnvelopeMeta {
    pub recipient_identity_id: u128,
    pub envelope_version: u16,
    pub key_purpose: String,
    pub sender_device_key_version: u32,
}

/// Whether a terminal observation is consistent: a success carries an
/// encrypted output, an output commitment and no failure code, and exactly one
/// output key envelope (version 2, purpose `tool_output`) for the call's
/// owner; any other status carries a non-empty failure code and no envelope;
/// and every terminal names an exact wire request.
pub open spec fn terminal_observation_consistent(
    status: TerminalToolStatus,
    has_encrypted_output: bool,
    has_output_commitment: bool,
    failure_code: Option<Seq<char>>,
    has_wire_request: bool,
    envelopes: Seq<(u128, u16, Seq<char>)>,
    owner: u128,
) -> bool {
    let succeeded = status == TerminalToolStatus::Succeeded;
    &&& succeeded == (has_encrypted_output && has_output_commitment && failure_code is None)
    &&& !succeeded ==> (failure_code matches Some(code) && code.len() > 0)
    &&& has_wire_request
    &&& succeeded ==> (envelopes.len() == 1 && envelopes[0].0 == owner && envelopes[0].1 == 2
        && envelopes[0].2 == "tool_output"@)
    &&& !succeeded ==> envelopes.len() == 0
}

/// The envelopes as the consistency check reads them: recipient, version and
/// key purpose (the sender key version is `check_output_envelope_metadata`'s).
pub open spec fn envelope_metas(envelopes: Seq<OutputKeyEnvelopeMeta>) -> Seq<(u128, u16, Seq<char>)> {
    envelopes.map_values(|e: OutputKeyEnvelopeMeta| (e.recipient_identity_id, e.envelope_version, e.key_purpose@))
}

/// Refuses an inconsistent terminal observation as a bad request.
pub fn check_terminal_observation(
    status: TerminalToolStatus,
    has_encrypted_output: bool,
    has_output_commitment: bool,
    failure_code: Option<&str>,
    has_wire_request: bool,
    envelopes: &[OutputKeyEnvelopeMeta],
    owner: u128,
) -> (r: Result<(), AppError>)
    ensures
        r is Ok <==> terminal_observation_consistent(status, has_encrypted_output, has_output_commitment,
            match failure_code { Some(c) => Some(c@), None => None }, has_wire_request,
            envelope_metas(envelopes@), owner),
        r matches Err(e) ==> e == AppError::BadRequest(BadRequestReason::TerminalToolObservationMismatch),
{
    let succeeded = match status {
        TerminalToolStatus::Succeeded => true,
        _ => false,
    };
    let failure_missing = match failure_code {
        None => true,
        Some(code) => code.is_empty(),
    };
    let envelope_ok = if succeeded {
        envelopes.len() == 1 && envelopes[0].recipient_identity_id == owner
            && envelopes[0].envelope_version == 2 && text_eq(envelopes[0].key_purpose.as_str(), "tool_output")
    } else {
        envelopes.len() == 0
    };
    assert(envelope_metas(envelopes@).len() == envelopes@.len());
    if envelopes.len() > 0 {
        assert(envelope_metas(envelopes@)[0] == (envelopes@[0].recipient_identity_id,
            envelopes@[0].envelope_version, envelopes@[0].key_purpose@));
    }
    if succeeded != (has_encrypted_output && has_output_commitment && failure_code.is_none())
        || (!succeeded && failure_missing)
        || !has_wire_request
        || !envelope_ok
    {
        return Err(AppError::BadRequest(BadRequestReason::TerminalToolObservationMismatch));
    }
    Ok(())
}

/// What the idempotent routes do with a statement hash: a key that was never
/// used is recorded (`Ok(false)`), a key already used with the same hash is a
/// replay (`Ok(true)`), and a key already used with another hash is a conflict.
pub open spec fn replay_result(existing: Option<Seq<u8>>, hash: Seq<u8>) -> Result<bool, AppError> {
    match existing {
        None => Ok(false),
        Some(h) => if h == hash { Ok(true) } else { Err(AppError::Conflict) },
    }
}

/// Whether a request under an idempotency key is new, a replay, or a conflict.
pub fn idempotent_replay(existing: Option<&[u8]>, hash: &[u8]) -> (r: Result<bool, AppError>)
    ensures
        r == replay_result(match existing { Some(h) => Some(h@), None => None }, hash@),
{
    match existing {
        None => Ok(false),
        Some(h) => if crate::codec::bytes_equal(h, hash) { Ok(true) } else { Err(AppError::Conflict) },
    }
}

/// Replays: once a request is stored, repeating it (the same request hash)
/// is recognised as a replay, to be answered from what was stored, and any
/// other request under the same key is a conflict; a request never stored is
/// new.
pub proof fn replays_match_only_the_stored_request(stored: Seq<u8>, hash: Seq<u8>)
    ensures
        replay_result(None, hash) == Ok::<bool, AppError>(false),
        replay_result(Some(hash), hash) == Ok::<bool, AppError>(true),
        replay_result(Some(stored), hash) is Ok ==> stored == hash,
        stored != hash ==> replay_result(Some(stored), hash) == Err::<bool, AppError>(AppError::Conflict),
{
}

/// Converts a `u32` request field to the stored `i32`; a value that does not fit
/// is the bad request `reason`.
pub fn stored_i32(value: u32, reason: BadRequestReason) -> (r: Result<i32, AppError>)
    ensures
        match r {
            Ok(v) => v == value,
            Err(e) => value > i32::MAX && e == AppError::BadRequest(reason),
        },
{
    if value <= i32::MAX as u32 {
        Ok(value as i32)
    } else {
        Err(AppError::BadRequest(reason))
    }
}

/// Checks the lifetime of a runtime-capability witness at `now`: issued no
/// later than now, not yet expired, and valid for at most five minutes.
pub fn check_runtime_capability_lifetime(issued_at: i128, expires_at: i128, now: i128) -> (r: Result<(), AppError>)
    requires
        instant_in_range(issued_at),
        instant_in_range(expires_at),
        instant_in_range(now),
    ensures
        r is Ok <==> (issued_at <= now && now < expires_at
            && expires_at - issued_at <= RUNTIME_CAPABILITY_MAX_LIFETIME_NANOS),
        r matches Err(e) ==> e == AppError::BadRequest(BadRequestReason::InvalidRuntimeCapabilityLifetime),
{
    if issued_at > now || expires_at <= now || expires_at - issued_at > RUNTIME_CAPABILITY_MAX_LIFETIME_NANOS {
        Err(AppError::BadRequest(BadRequestReason::InvalidRuntimeCapabilityLifetime))
    } else {
        Ok(())
    }
}

/// The tick at which a tool attempt opened at `tick` times out.
pub fn tool_deadline_tick(tick: u64, timeout_seconds: u32) -> (deadline: u64)
    ensures
        deadline == if tick + timeout_seconds <= u64::MAX { (tick + timeout_seconds) as u64 } else { u64::MAX },
{
    tick.saturating_add(timeout_seconds as u64)
}

/// What the invocation route knows of the claim under which it invokes a tool.
pub struct ClaimView {
    pub claimant: u128,
    pub active: bool,
    pub acquired_at: u64,
    pub expires_at: u64,
    pub attempt: u16,
}

/// What the invocation route knows of the claimed work item.
pub struct WorkView {
    pub claimed: bool,
    pub owner: u128,
    pub goal: u128,
    pub attempt: u16,
    pub work_spec_id: u64,
    pub is_tool_invocation: bool,
    pub is_tool_retry: bool,
}

/// Whether the actor may open a tool call on a claim at `tick`: it holds the
/// active, unexpired claim of the current attempt on claimed tool-invocation
/// work that it owns, for the contract's goal, the work's activation and its
/// obligation hold, and its spec allows invoking tools.
pub open spec fn tool_invocation_authorized(
    actor: u128,
    claim: ClaimView,
    work: WorkView,
    contract_goal: u128,
    tick: u64,
    activation_holds: bool,
    obligation_required_holds: bool,
    spec_allows_invoke: bool,
) -> bool {
    &&& claim.claimant == actor
    &&& claim.active
    &&& claim.acquired_at <= tick
    &&& tick < claim.expires_at
    &&& claim.attempt == work.attempt
    &&& work.claimed
    &&& work.owner == actor
    &&& work.goal == contract_goal
    &&& activation_holds
    &&& obligation_required_holds
    &&& work.is_tool_invocation
    &&& spec_allows_invoke
}

/// Refuses (`Forbidden`) a tool invocation that `tool_invocation_authorized`
/// does not allow.
pub fn authorize_tool_invocation(
    actor: u128,
    claim: &ClaimView,
    work: &WorkView,
    contract_goal: u128,
    tick: u64,
    activation_holds: bool,
    obligation_required_holds: bool,
    spec_allows_invoke: bool,
) -> (r: Result<(), AppError>)
    ensures
        r is Ok <==> tool_invocation_authorized(actor, *claim, *work, contract_goal, tick,
            activation_holds, obligation_required_holds, spec_allows_invoke),
        r matches Err(e) ==> e == AppError::Forbidden,
{
    if claim.claimant != actor || !claim.active || claim.acquired_at > tick || claim.expires_at <= tick
        || claim.attempt != work.attempt || !work.claimed || work.owner != actor
        || work.goal != contract_goal || !activation_holds || !obligation_required_holds
        || !work.is_tool_invocation || !spec_allows_invoke
    {
        Err(AppError::Forbidden)
    } else {
        Ok(())
    }
}

/// The call as the live-call check reads it.
pub struct CallView {
    pub owner: u128,
    pub work_attempt: u16,
    pub work_spec_id: u64,
    pub goal_id: u128,
}

/// Whether a pending call is still live for the actor at `tick`: the actor owns
/// it and holds its active, unexpired claim of the same attempt on the same
/// claimed work.
pub open spec fn call_is_live(actor: u128, call: CallView, claim: ClaimView, work: WorkView, tick: u64) -> bool {
    &&& call.owner == actor
    &&& claim.claimant == actor
    &&& claim.active
    &&& tick < claim.expires_at
    &&& claim.attempt == call.work_attempt
    &&& work.claimed
    &&& work.attempt == call.work_attempt
    &&& work.work_spec_id == call.work_spec_id
    &&& work.goal == call.goal_id
}

/// Checks that a call is live (`call_is_live`) and that the actor still holds
/// the tool permission: an unknown claim or work item is a conflict, anything
/// else missing is forbidden.
pub fn validate_live_call(
    actor: u128,
    call: &CallView,
    claim: Option<&ClaimView>,
    work: Option<&WorkView>,
    tick: u64,
    permission_current: bool,
) -> (r: Result<(), AppError>)
    ensures
        match (claim, work) {
            (Some(c), Some(w)) => (r is Ok <==> call_is_live(actor, *call, *c, *w, tick) && permission_current)
                && (r matches Err(e) ==> e == AppError::Forbidden),
            _ => r == Err::<(), AppError>(AppError::Conflict),
        },
{
    let claim = match claim {
        Some(c) => c,
        None => return Err(AppError::Conflict),
    };
    let work = match work {
        Some(w) => w,
        None => return Err(AppError::Conflict),
    };
    if call.owner != actor || claim.claimant != actor || !claim.active || claim.expires_at <= tick
        || claim.attempt != call.work_attempt || !work.claimed || work.attempt != call.work_attempt
        || work.work_spec_id != call.work_spec_id || work.goal != call.goal_id
    {
        return Err(AppError::Forbidden);
    }
    if !permission_current {
        return Err(AppError::Forbidden);
    }
    Ok(())
}

/// The next attempt of a retried call: only a failed or timed-out call below
/// its attempt budget can be retried; anything else is a conflict.
pub fn retry_attempt(status: &str, attempt: u16, max_attempts: u16) -> (r: Result<u16, AppError>)
    ensures
        match r {
            Ok(next) => (status@ == "failed"@ || status@ == "timed_out"@) && attempt < max_attempts
                && next == attempt + 1,
            Err(e) => e == AppError::Conflict
                && !((status@ == "failed"@ || status@ == "timed_out"@) && attempt < max_attempts),
        },
{
    if !(text_eq(status, "failed") || text_eq(status, "timed_out")) || attempt >= max_attempts {
        return Err(AppError::Conflict);
    }
    Ok(attempt + 1)
}

/// The runner's dispatch of an attempt, as the request-witness route reads it.
pub struct DispatchView {
    pub runner_identity_id: u128,
    pub runner_device_id: u128,
    pub runner_key_version: i32,
    pub adapter_protocol: String,
    pub canonical_input_commitment: Vec<u8>,
}

/// What checking a request witness's signer against the dispatch answers: the
/// dispatching runner must sign with the dispatching device and key version,
/// and the dispatch must be of the call's adapter protocol and input; the
/// signer key version is converted only when it is compared.
pub open spec fn request_signer_result(
    actor: u128,
    signer_device_id: u128,
    signer_key_version: u32,
    dispatch: (u128, u128, i32, Seq<char>, Seq<u8>),
    call_adapter_protocol: Seq<char>,
    call_input_commitment: Seq<u8>,
) -> Result<(), AppError> {
    if dispatch.0 != actor || dispatch.1 != signer_device_id {
        Err(AppError::Forbidden)
    } else if signer_key_version > i32::MAX {
        Err(AppError::BadRequest(BadRequestReason::InvalidSignerKeyVersion))
    } else if dispatch.2 != signer_key_version || dispatch.3 != call_adapter_protocol
        || dispatch.4 != call_input_commitment {
        Err(AppError::Forbidden)
    } else {
        Ok(())
    }
}

/// The dispatch as the check reads it.
pub open spec fn dispatch_view(d: DispatchView) -> (u128, u128, i32, Seq<char>, Seq<u8>) {
    (d.runner_identity_id, d.runner_device_id, d.runner_key_version, d.adapter_protocol@,
        d.canonical_input_commitment@)
}

/// Checks a request witness's signer and call binding against the dispatch.
pub fn check_request_signer(
    actor: u128,
    signer_device_id: u128,
    signer_key_version: u32,
    dispatch: &DispatchView,
    call_adapter_protocol: &str,
    call_input_commitment: &[u8],
) -> (r: Result<(), AppError>)
    ensures
        r == request_signer_result(actor, signer_device_id, signer_key_version, dispatch_view(*dispatch),
            call_adapter_protocol@, call_input_commitment@),
{
    if dispatch.runner_identity_id != actor || dispatch.runner_device_id != signer_device_id {
        return Err(AppError::Forbidden);
    }
    let key_version = stored_i32(signer_key_version, BadRequestReason::InvalidSignerKeyVersion)?;
    if dispatch.runner_key_version != key_version
        || !text_eq(dispatch.adapter_protocol.as_str(), call_adapter_protocol)
        || !crate::codec::bytes_equal(dispatch.canonical_input_commitment.as_slice(), call_input_commitment)
    {
        return Err(AppError::Forbidden);
    }
    Ok(())
}

/// Checks the metadata of an output key envelope: version 2, purpose
/// `tool_output`, sent under the observation signer's key version.
pub fn check_output_envelope_metadata(
    envelope_version: u16,
    key_purpose: &str,
    sender_device_key_version: u32,
    sender_key_version: i32,
) -> (r: Result<(), AppError>)
    ensures
        r == (if envelope_version != 2 || key_purpose@ != "tool_output"@ {
            Err(AppError::BadRequest(BadRequestReason::InvalidToolOutputEnvelopeMetadata))
        } else if sender_device_key_version > i32::MAX {
            Err(AppError::BadRequest(BadRequestReason::InvalidSenderKeyVersion))
        } else if sender_device_key_version != sender_key_version {
            Err(AppError::BadRequest(BadRequestReason::InvalidToolOutputEnvelopeMetadata))
        } else {
            Ok(())
        }),
{
    if envelope_version != 2 || !text_eq(key_purpose, "tool_output") {
        return Err(AppError::BadRequest(BadRequestReason::InvalidToolOutputEnvelopeMetadata));
    }
    let version = stored_i32(sender_device_key_version, BadRequestReason::InvalidSenderKeyVersion)?;
    if version != sender_key_version {
        return Err(AppError::BadRequest(BadRequestReason::InvalidToolOutputEnvelopeMetadata));
    }
    Ok(())
}

/// Whether the timeout sweep materializes a timeout for a call at `now`: the
/// call is still pending and its deadline has passed.
pub fn timeout_is_due(status: &str, now: i128, tool_deadline_at: i128) -> (due: bool)
    ensures
        due == (status@ == "pending"@ && now >= tool_deadline_at),
{
    text_eq(status, "pending") && now >= tool_deadline_at
}

/// Opens the dispatch of a pending call at `dispatched_at`: a call that is not
/// pending, an attempt that was already dispatched, or a deadline already
/// reached is a conflict; the lease expires `TOOL_LEASE_SECONDS` later.
pub fn open_dispatch(
    status: &str,
    already_dispatched: bool,
    dispatched_at: i128,
    tool_deadline_at: i128,
) -> (r: Result<i128, AppError>)
    requires
        instant_in_range(dispatched_at),
        instant_in_range(tool_deadline_at),
    ensures
        match r {
            Ok(lease_expires_at) => status@ == "pending"@ && !already_dispatched
                && dispatched_at < tool_deadline_at
                && lease_expires_at == dispatched_at + TOOL_LEASE_SECONDS * 1_000_000_000,
            Err(e) => e == AppError::Conflict
                && !(status@ == "pending"@ && !already_dispatched && dispatched_at < tool_deadline_at),
        },
{
    if !text_eq(status, "pending") || already_dispatched || dispatched_at >= tool_deadline_at {
        return Err(AppError::Conflict);
    }
    Ok(dispatched_at + (TOOL_LEASE_SECONDS as i128) * 1_000_000_000)
}

/// The first checks of a terminal observation: only the call's owner, as an
/// agent, reports it, and only while the call is pending unless it replays an
/// observation already recorded under the same idempotency key.
pub fn check_terminal_reporter(
    actor_is_agent: bool,
    actor: u128,
    call_owner: u128,
) -> (r: Result<(), AppError>)
    ensures
        r is Ok <==> actor_is_agent && call_owner == actor,
        r matches Err(e) ==> e == AppError::Forbidden,
{
    if !actor_is_agent || call_owner != actor { Err(AppError::Forbidden) } else { Ok(()) }
}

/// A terminal observation is accepted for a pending call, or as a replay.
pub fn check_terminal_open(call_status: &str, replay_candidate: bool) -> (r: Result<(), AppError>)
    ensures
        r is Ok <==> (call_status@ == "pending"@ || replay_candidate),
        r matches Err(e) ==> e == AppError::Forbidden,
{
    if !text_eq(call_status, "pending") && !replay_candidate { Err(AppError::Forbidden) } else { Ok(()) }
}

/// The dispatch of an attempt as the terminal route reads it.
pub struct TerminalDispatchView {
    pub runner_identity_id: u128,
    pub runner_device_id: u128,
    pub runner_key_version: i32,
    pub attempt: i32,
    pub adapter_protocol: String,
    pub canonical_input_commitment: Vec<u8>,
}

/// What checking a terminal observation's dispatch and signer answers: the
/// dispatch is the call owner's, of the call's attempt, adapter and input, and
/// the observation is signed by the dispatching identity, device and key
/// version (converted only when compared).
pub open spec fn terminal_dispatch_result(
    d: (u128, u128, i32, i32, Seq<char>, Seq<u8>),
    call_owner: u128,
    call_attempt: u16,
    call_adapter_protocol: Seq<char>,
    call_input_commitment: Seq<u8>,
    signer_identity_id: u128,
    signer_device_id: u128,
    signer_key_version: u32,
) -> Result<(), AppError> {
    if d.0 != call_owner || d.3 != call_attempt || d.4 != call_adapter_protocol || d.5 != call_input_commitment
        || signer_identity_id != d.0 || signer_device_id != d.1 {
        Err(AppError::Forbidden)
    } else if signer_key_version > i32::MAX {
        Err(AppError::BadRequest(BadRequestReason::InvalidSignerKeyVersion))
    } else if signer_key_version != d.2 {
        Err(AppError::Forbidden)
    } else {
        Ok(())
    }
}

/// The dispatch as the terminal check reads it.
pub open spec fn terminal_dispatch_view(d: TerminalDispatchView) -> (u128, u128, i32, i32, Seq<char>, Seq<u8>) {
    (d.runner_identity_id, d.runner_device_id, d.runner_key_version, d.attempt, d.adapter_protocol@,
        d.canonical_input_commitment@)
}

/// Checks a terminal observation's dispatch and signer.
pub fn check_terminal_dispatch(
    dispatch: &TerminalDispatchView,
    call_owner: u128,
    call_attempt: u16,
    call_adapter_protocol: &str,
    call_input_commitment: &[u8],
    signer_identity_id: u128,
    signer_device_id: u128,
    signer_key_version: u32,
) -> (r: Result<(), AppError>)
    ensures
        r == terminal_dispatch_result(terminal_dispatch_view(*dispatch), call_owner, call_attempt,
            call_adapter_protocol@, call_input_commitment@, signer_identity_id, signer_device_id, signer_key_version),
{
    if dispatch.runner_identity_id != call_owner || dispatch.attempt != call_attempt as i32
        || !text_eq(dispatch.adapter_protocol.as_str(), call_adapter_protocol)
        || !crate::codec::bytes_equal(dispatch.canonical_input_commitment.as_slice(), call_input_commitment)
        || signer_identity_id != dispatch.runner_identity_id || signer_device_id != dispatch.runner_device_id
    {
        return Err(AppError::Forbidden);
    }
    let key_version = stored_i32(signer_key_version, BadRequestReason::InvalidSignerKeyVersion)?;
    if key_version != dispatch.runner_key_version {
        return Err(AppError::Forbidden);
    }
    Ok(())
}

/// The byte order of texts (`str`'s `Ord`): lexicographic on the UTF-8 bytes.
pub open spec fn bytes_lt(a: Seq<u8>, b: Seq<u8>) -> bool
    decreases a.len(),
{
    if a.len() == 0 {
        b.len() > 0
    } else if b.len() == 0 {
        false
    } else if a[0] != b[0] {
        a[0] < b[0]
    } else {
        bytes_lt(a.drop_first(), b.drop_first())
    }
}

/// The order of tool names: by their UTF-8 bytes.
pub open spec fn tool_lt(a: Seq<char>, b: Seq<char>) -> bool {
    bytes_lt(vstd::utf8::encode_utf8(a), vstd::utf8::encode_utf8(b))
}

proof fn lemma_bytes_lt_order(a: Seq<u8>, b: Seq<u8>, c: Seq<u8>)
    ensures
        !bytes_lt(a, a),
        bytes_lt(a, b) ==> !bytes_lt(b, a),
        bytes_lt(a, b) && bytes_lt(b, c) ==> bytes_lt(a, c),
        a != b ==> bytes_lt(a, b) || bytes_lt(b, a),
    decreases a.len(),
{
    if a.len() > 0 && b.len() > 0 && c.len() > 0 {
        lemma_bytes_lt_order(a.drop_first(), b.drop_first(), c.drop_first());
    } else if a.len() > 0 && b.len() > 0 {
        lemma_bytes_lt_order(a.drop_first(), b.drop_first(), b.drop_first());
    } else if a.len() > 0 {
        lemma_bytes_lt_order(a.drop_first(), a.drop_first(), a.drop_first());
    }
    if a != b && a.len() > 0 && b.len() > 0 && a[0] == b[0] {
        assert(a =~= seq![a[0]] + a.drop_first());
        assert(b =~= seq![b[0]] + b.drop_first());
    }
    if a.len() == 0 && b.len() == 0 {
        assert(a =~= b);
    }
}

/// Tool names are totally and strictly ordered.
pub proof fn lemma_tool_order(a: Seq<char>, b: Seq<char>, c: Seq<char>)
    ensures
        !tool_lt(a, a),
        tool_lt(a, b) ==> !tool_lt(b, a),
        tool_lt(a, b) && tool_lt(b, c) ==> tool_lt(a, c),
        a != b ==> tool_lt(a, b) || tool_lt(b, a),
{
    let (ea, eb, ec) = (vstd::utf8::encode_utf8(a), vstd::utf8::encode_utf8(b), vstd::utf8::encode_utf8(c));
    lemma_bytes_lt_order(ea, eb, ec);
    vstd::utf8::encode_utf8_decode_utf8(a);
    vstd::utf8::encode_utf8_decode_utf8(b);
}

/// Compares texts by their bytes.
fn bytes_less(a: &[u8], b: &[u8]) -> (lt: bool)
    ensures
        lt == bytes_lt(a@, b@),
{
    let mut i: usize = 0;
    assert(a@.skip(0) =~= a@ && b@.skip(0) =~= b@);
    while i < a.len() && i < b.len()
        invariant
            i <= a@.len(),
            i <= b@.len(),
            bytes_lt(a@, b@) == bytes_lt(a@.skip(i as int), b@.skip(i as int)),
        decreases a@.len() - i,
    {
        if a[i] != b[i] {
            return a[i] < b[i];
        }
        assert(a@.skip(i as int).drop_first() =~= a@.skip(i + 1));
        assert(b@.skip(i as int).drop_first() =~= b@.skip(i + 1));
        i = i + 1;
    }
    i == a.len() && i < b.len()
}

/// Whether a list of tool names holds a name.
pub open spec fn lists_tool(tools: Seq<String>, t: Seq<char>) -> bool {
    exists|j: int| 0 <= j < tools.len() && (#[trigger] tools[j])@ == t
}

/// Whether a tool stays in a work item's ceiling: the run's ceiling holds
/// it, and so does the policy ceiling of every work item from this one up its
/// parent chain.
pub open spec fn in_work_ceiling(run_ceiling: Seq<String>, chain: Seq<(u128, Vec<String>)>, t: Seq<char>) -> bool {
    &&& lists_tool(run_ceiling, t)
    &&& forall|i: int| 0 <= i < chain.len() ==> lists_tool((#[trigger] chain[i]).1@, t)
}

/// Whether a parent chain revisits a work item.
pub open spec fn chain_has_cycle(chain: Seq<(u128, Vec<String>)>) -> bool {
    exists|i: int, j: int| 0 <= i < j < chain.len() && (#[trigger] chain[i]).0 == (#[trigger] chain[j]).0
}

fn lists(tools: &[String], t: &str) -> (b: bool)
    ensures
        b == lists_tool(tools@, t@),
{
    let n = tools.len();
    for j in 0..n
        invariant
            n == tools@.len(),
            forall|k: int| 0 <= k < j ==> (#[trigger] tools@[k])@ != t@,
    {
        if text_eq(tools[j].as_str(), t) {
            return true;
        }
    }
    false
}

/// Inserts a name into a strictly ordered list that does not hold it,
/// keeping it strictly ordered.
fn insert_sorted(out: &mut Vec<String>, t: String)
    requires
        forall|i: int, j: int| 0 <= i < j < old(out)@.len() ==> tool_lt(old(out)@[i]@, old(out)@[j]@),
        !lists_tool(old(out)@, t@),
    ensures
        final(out)@.len() == old(out)@.len() + 1,
        forall|i: int, j: int| 0 <= i < j < final(out)@.len() ==> tool_lt(final(out)@[i]@, final(out)@[j]@),
        forall|s: Seq<char>| lists_tool(final(out)@, s) <==> (lists_tool(old(out)@, s) || s == t@),
{
    let n = out.len();
    let mut p: usize = 0;
    while p < n
        invariant
            n == out@.len(),
            p <= n,
            forall|i: int, j: int| 0 <= i < j < out@.len() ==> tool_lt(out@[i]@, out@[j]@),
            !lists_tool(out@, t@),
            forall|k: int| 0 <= k < p ==> tool_lt((#[trigger] out@[k])@, t@),
        ensures
            p <= n,
            p < n ==> tool_lt(t@, out@[p as int]@),
            forall|k: int| 0 <= k < p ==> tool_lt((#[trigger] out@[k])@, t@),
        decreases n - p,
    {
        let lt = bytes_less(t.as_str().as_bytes(), out[p].as_str().as_bytes());
        if lt {
            break;
        }
        proof {
            lemma_tool_order(out@[p as int]@, t@, t@);
            assert(out@[p as int]@ != t@);
        }
        p = p + 1;
    }
    let ghost before = out@;
    proof {
        if p < n {
            assert(tool_lt(t@, before[p as int]@));
        }
    }
    out.insert(p, t);
    proof {
        let after = out@;
        assert forall|i: int, j: int| 0 <= i < j < after.len() implies tool_lt(after[i]@, after[j]@) by {
            if j < p {
            } else if i < p && j == p {
            } else if i < p {
                lemma_tool_order(before[i]@, t@, before[j - 1]@);
                lemma_tool_order(t@, before[p as int]@, before[j - 1]@);
            } else if i == p {
                if j - 1 > p {
                    lemma_tool_order(t@, before[p as int]@, before[j - 1]@);
                }
            } else {
            }
        }
        assert forall|s: Seq<char>| lists_tool(after, s) <==> (lists_tool(before, s) || s == after[p as int]@) by {
            if lists_tool(after, s) {
                let j = choose|j: int| 0 <= j < after.len() && (#[trigger] after[j])@ == s;
                if j < p { assert(before[j]@ == s); } else if j > p { assert(before[j - 1]@ == s); }
            }
            if lists_tool(before, s) {
                let j = choose|j: int| 0 <= j < before.len() && (#[trigger] before[j])@ == s;
                if j < p { assert(after[j]@ == s); } else { assert(after[j + 1]@ == s); }
            }
        }
    }
}

/// What computing a work item's tool ceiling answers: a work item whose
/// attempts are exhausted is forbidden; a parent chain that revisits a work
/// item is a conflict; otherwise the tools in the run's ceiling and in every
/// policy ceiling along the chain.
pub open spec fn work_tool_ceiling_refusal(attempt: u16, max_attempts: u16, chain: Seq<(u128, Vec<String>)>)
    -> Option<AppError> {
    if attempt >= max_attempts {
        Some(AppError::Forbidden)
    } else if chain_has_cycle(chain) {
        Some(AppError::Conflict)
    } else {
        None
    }
}

/// The tool ceiling of a work item: the run's ceiling narrowed by the policy
/// ceiling of each work item along its parent chain (`chain`: the work item
/// and its ancestors in order, each with its policy's ceiling), sorted by
/// name without repeats.
pub fn work_tool_ceiling(
    run_ceiling: &[String],
    chain: &[(u128, Vec<String>)],
    attempt: u16,
    max_attempts: u16,
) -> (r: Result<Vec<String>, AppError>)
    ensures
        match work_tool_ceiling_refusal(attempt, max_attempts, chain@) {
            Some(e) => r == Err::<Vec<String>, AppError>(e),
            None => r matches Ok(tools) && {
                &&& forall|i: int, j: int| 0 <= i < j < tools@.len() ==> tool_lt(tools@[i]@, tools@[j]@)
                &&& forall|t: Seq<char>| lists_tool(tools@, t) <==> in_work_ceiling(run_ceiling@, chain@, t)
            },
        },
{
    if attempt >= max_attempts {
        return Err(AppError::Forbidden);
    }
    let n = chain.len();
    for j in 0..n
        invariant
            n == chain@.len(),
            attempt < max_attempts,
            forall|a: int, b: int| 0 <= a < b < j ==> (#[trigger] chain@[a]).0 != (#[trigger] chain@[b]).0,
    {
        for i in 0..j
            invariant
                n == chain@.len(),
                j < n,
                attempt < max_attempts,
                forall|a: int, b: int| 0 <= a < b < j ==> (#[trigger] chain@[a]).0 != (#[trigger] chain@[b]).0,
                forall|a: int| 0 <= a < i ==> (#[trigger] chain@[a]).0 != chain@[j as int].0,
        {
            if chain[i].0 == chain[j].0 {
                assert(chain@[i as int].0 == chain@[j as int].0);
                assert(chain_has_cycle(chain@)) by {
                    assert(0 <= i < j < chain@.len());
                }
                return Err(AppError::Conflict);
            }
        }
    }
    assert(!chain_has_cycle(chain@));
    let mut out: Vec<String> = Vec::new();
    let m = run_ceiling.len();
    for k in 0..m
        invariant
            m == run_ceiling@.len(),
            n == chain@.len(),
            !chain_has_cycle(chain@),
            forall|i: int, j: int| 0 <= i < j < out@.len() ==> tool_lt(out@[i]@, out@[j]@),
            forall|t: Seq<char>| lists_tool(out@, t) <==> (in_work_ceiling(run_ceiling@, chain@, t)
                && exists|q: int| 0 <= q < k && (#[trigger] run_ceiling@[q])@ == t),
    {
        let t = run_ceiling[k].as_str();
        let mut everywhere = true;
        for c in 0..n
            invariant
                n == chain@.len(),
                everywhere == forall|i: int| 0 <= i < c ==> lists_tool((#[trigger] chain@[i]).1@, t@),
        {
            if !lists(chain[c].1.as_slice(), t) {
                everywhere = false;
            }
        }
        proof {
            assert(lists_tool(run_ceiling@, t@)) by { assert(run_ceiling@[k as int]@ == t@); }
        }
        if everywhere && !lists(out.as_slice(), t) {
            let ghost before = out@;
            insert_sorted(&mut out, run_ceiling[k].clone());
            proof {
                assert forall|s: Seq<char>| lists_tool(out@, s) <==> (in_work_ceiling(run_ceiling@, chain@, s)
                    && exists|q: int| 0 <= q < k + 1 && (#[trigger] run_ceiling@[q])@ == s) by {
                    if s == t@ { assert(run_ceiling@[k as int]@ == s); }
                    if exists|q: int| 0 <= q < k + 1 && (#[trigger] run_ceiling@[q])@ == s {
                        let q = choose|q: int| 0 <= q < k + 1 && (#[trigger] run_ceiling@[q])@ == s;
                        if q < k { assert(exists|q: int| 0 <= q < k && (#[trigger] run_ceiling@[q])@ == s); }
                    }
                }
            }
        } else {
            proof {
                assert forall|s: Seq<char>| lists_tool(out@, s) <==> (in_work_ceiling(run_ceiling@, chain@, s)
                    && exists|q: int| 0 <= q < k + 1 && (#[trigger] run_ceiling@[q])@ == s) by {
                    if exists|q: int| 0 <= q < k + 1 && (#[trigger] run_ceiling@[q])@ == s {
                        let q = choose|q: int| 0 <= q < k + 1 && (#[trigger] run_ceiling@[q])@ == s;
                        if q < k { assert(exists|q: int| 0 <= q < k && (#[trigger] run_ceiling@[q])@ == s); }
                    }
                }
            }
        }
    }
    proof {
        assert forall|t: Seq<char>| lists_tool(out@, t) <==> in_work_ceiling(run_ceiling@, chain@, t) by {
            if in_work_ceiling(run_ceiling@, chain@, t) {
                let q = choose|q: int| 0 <= q < run_ceiling@.len() && (#[trigger] run_ceiling@[q])@ == t;
                assert(exists|q: int| 0 <= q < m && (#[trigger] run_ceiling@[q])@ == t);
            }
        }
    }
    Ok(out)
}

/// What an accepted terminal observation guarantees: it names an exact wire
/// request; a success carries encrypted output with its commitment, no failure
/// code, and exactly one output-key envelope, of version 2, for tool output,
/// addressed to the call's owner; a failure or timeout carries a non-empty
/// failure code and no envelope.
pub proof fn terminal_observation_laws(
    status: TerminalToolStatus,
    has_encrypted_output: bool,
    has_output_commitment: bool,
    failure_code: Option<Seq<char>>,
    has_wire_request: bool,
    envelopes: Seq<(u128, u16, Seq<char>)>,
    owner: u128,
)
    ensures
        terminal_observation_consistent(status, has_encrypted_output, has_output_commitment, failure_code,
            has_wire_request, envelopes, owner) <==> {
            &&& has_wire_request
            &&& status == TerminalToolStatus::Succeeded ==> {
                &&& has_encrypted_output && has_output_commitment && failure_code is None
                &&& envelopes.len() == 1 && envelopes[0] == (owner, 2u16, "tool_output"@)
            }
            &&& status != TerminalToolStatus::Succeeded ==> {
                &&& (failure_code matches Some(c) && c.len() > 0)
                &&& envelopes.len() == 0
            }
        },
{
}

/// A tool is invoked only by the claimant of an active claim, inside the
/// claim's window, on the claimed tool-invocation work item it owns, of the
/// claim's attempt and the contract's goal, while the work's activation and
/// obligation hold and its spec allows invoking tools.
pub proof fn tool_invocation_authorization_laws(
    actor: u128, claim: ClaimView, work: WorkView, contract_goal: u128, tick: u64,
    activation_holds: bool, obligation_required_holds: bool, spec_allows_invoke: bool,
)
    ensures
        tool_invocation_authorized(actor, claim, work, contract_goal, tick, activation_holds,
            obligation_required_holds, spec_allows_invoke) <==> {
            &&& claim.claimant == actor && work.owner == actor
            &&& claim.active && work.claimed && work.is_tool_invocation
            &&& claim.acquired_at <= tick && tick < claim.expires_at
            &&& claim.attempt == work.attempt && work.goal == contract_goal
            &&& activation_holds && obligation_required_holds && spec_allows_invoke
        },
{
}

/// A call is live only for its owner, under an active claim of that owner
/// that has not expired, whose work item is claimed at the call's attempt,
/// work spec and goal.
pub proof fn live_call_laws(actor: u128, call: CallView, claim: ClaimView, work: WorkView, tick: u64)
    ensures
        call_is_live(actor, call, claim, work, tick) <==> {
            &&& call.owner == actor && claim.claimant == actor && claim.active && tick < claim.expires_at
            &&& work.claimed && claim.attempt == call.work_attempt && work.attempt == call.work_attempt
            &&& work.work_spec_id == call.work_spec_id && work.goal == call.goal_id
        },
{
}

/// A tool request is accepted only from the dispatched runner: its identity
/// and device, under its key version, for the call's adapter protocol and
/// input commitment; a key version beyond `i32` is malformed, and any other
/// signer is forbidden.
pub proof fn request_signer_laws(
    actor: u128, signer_device_id: u128, signer_key_version: u32,
    dispatch: (u128, u128, i32, Seq<char>, Seq<u8>), call_adapter_protocol: Seq<char>, call_input_commitment: Seq<u8>,
)
    ensures
        request_signer_result(actor, signer_device_id, signer_key_version, dispatch, call_adapter_protocol,
            call_input_commitment) is Ok <==> {
            &&& dispatch.0 == actor && dispatch.1 == signer_device_id && dispatch.2 == signer_key_version
            &&& dispatch.3 == call_adapter_protocol && dispatch.4 == call_input_commitment
        },
        request_signer_result(actor, signer_device_id, signer_key_version, dispatch, call_adapter_protocol,
            call_input_commitment) matches Err(e) ==> (e == AppError::Forbidden
                || (e == AppError::BadRequest(BadRequestReason::InvalidSignerKeyVersion) && signer_key_version > i32::MAX)),
{
}

/// A terminal report is accepted only for the dispatch of the call's owner at
/// the call's attempt, adapter protocol and input commitment, signed by that
/// runner's identity and device under its key version.
pub proof fn terminal_dispatch_laws(
    d: (u128, u128, i32, i32, Seq<char>, Seq<u8>), call_owner: u128, call_attempt: u16,
    call_adapter_protocol: Seq<char>, call_input_commitment: Seq<u8>,
    signer_identity_id: u128, signer_device_id: u128, signer_key_version: u32,
)
    ensures
        terminal_dispatch_result(d, call_owner, call_attempt, call_adapter_protocol, call_input_commitment,
            signer_identity_id, signer_device_id, signer_key_version) is Ok <==> {
            &&& d.0 == call_owner && signer_identity_id == call_owner && d.1 == signer_device_id
            &&& d.3 == call_attempt && d.4 == call_adapter_protocol && d.5 == call_input_commitment
            &&& d.2 == signer_key_version
        },
{
}

/// A succeeded tool call completes its work; a failed or timed-out one fails
/// it or times it out, and only a success counts as completion.
pub proof fn terminal_outcome_laws(status: TerminalToolStatus)
    ensures
        terminal_outcome_of(status).2 <==> status == TerminalToolStatus::Succeeded,
        status == TerminalToolStatus::Succeeded ==> terminal_outcome_of(status).1 == "completed"@,
        status != TerminalToolStatus::Succeeded ==> terminal_outcome_of(status).0 == terminal_outcome_of(status).1,
{
}

/// The byte order of texts is `str`'s: a proper prefix sorts first, and
/// otherwise the first differing byte decides.
pub proof fn byte_order_laws(a: Seq<u8>, b: Seq<u8>, i: int)
    ensures
        b.len() > 0 ==> bytes_lt(a, a + b) && !bytes_lt(a + b, a),
        (0 <= i < a.len() && i < b.len() && a.subrange(0, i) == b.subrange(0, i) && a[i] < b[i])
            ==> bytes_lt(a, b) && !bytes_lt(b, a),
    decreases a.len(),
{
    if a.len() > 0 {
        byte_order_laws(a.drop_first(), b, -1);
        assert((a + b).drop_first() =~= a.drop_first() + b);
        assert((a + b)[0] == a[0]);
    }
    if 0 <= i < a.len() && i < b.len() && a.subrange(0, i) == b.subrange(0, i) && a[i] < b[i] {
        if i > 0 {
            assert(a[0] == a.subrange(0, i)[0] && b[0] == b.subrange(0, i)[0]);
            assert(a.drop_first().subrange(0, i - 1) =~= a.subrange(0, i).drop_first());
            assert(b.drop_first().subrange(0, i - 1) =~= b.subrange(0, i).drop_first());
            byte_order_laws(a.drop_first(), b.drop_first(), i - 1);
        }
    }
}

} // verus!
