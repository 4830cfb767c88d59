//! Governed agents: provisioning, invocations and their runner observations,
//! proxy plans, information sources, local-goal authorizations and
//! cross-owner assignments.
use vstd::prelude::*;
use vstd::string::StringSliceAdditionalSpecFns;
use std::collections::HashSet;
use crate::codec::{derive_id, derived_id, hex_decode, hex_decoding};
use crate::error::{AppError, BadRequestReason, bytes_of};
use crate::text::{contains_whitespace, spec_is_whitespace, to_lowercase, lowercase_of, is_blank, spec_is_blank, text_eq};

verus! {

broadcast use vstd::std_specs::hash::group_hash_axioms;

/// The surface through which an agent invocation was queued.
#[derive(Clone, Copy, Debug, PartialEq, Eq, Structural)]
pub enum InvocationSurface {
    Generic,
    UserProxy,
    Interrogation,
    GovernanceSummary,
}

/// The stored name of an invocation surface.
pub open spec fn invocation_surface_name(surface: InvocationSurface) -> Seq<char> {
    match surface {
        InvocationSurface::Generic => "generic"@,
        InvocationSurface::UserProxy => "user_proxy"@,
        InvocationSurface::Interrogation => "interrogation"@,
        InvocationSurface::GovernanceSummary => "governance_summary"@,
    }
}

impl InvocationSurface {
    pub fn as_str(self) -> (name: &'static str)
        ensures
            name@ == invocation_surface_name(self),
    {
        match self {
            InvocationSurface::Generic => "generic",
            InvocationSurface::UserProxy => "user_proxy",
            InvocationSurface::Interrogation => "interrogation",
            InvocationSurface::GovernanceSummary => "governance_summary",
        }
    }
}

impl Default for InvocationSurface {
    /// An invocation that names no surface is generic.
    fn default() -> (surface: Self)
        ensures
            surface == InvocationSurface::Generic,
    {
        InvocationSurface::Generic
    }
}

/// Distinct surfaces are stored under distinct names.
pub proof fn invocation_surface_names_are_distinct(a: InvocationSurface, b: InvocationSurface)
    ensures
        invocation_surface_name(a) == invocation_surface_name(b) <==> a == b,
{
    reveal_strlit("generic");
    reveal_strlit("user_proxy");
    reveal_strlit("interrogation");
    reveal_strlit("governance_summary");
    if invocation_surface_name(a) == invocation_surface_name(b) && a != b {
        let (x, y) = (invocation_surface_name(a), invocation_surface_name(b));
        assert(x.len() != y.len() || x[0] != y[0]);
    }
}

/// Why a runner reports that it could not complete an invocation.
#[derive(Clone, Copy, Debug, PartialEq, Eq, Structural)]
pub enum RunnerFailureCode {
    ProviderUnavailable,
    ProviderTimeout,
    InvalidStructuredOutput,
    ContextDecryptionFailed,
    LocalExecutionFailed,
}

/// The stored name of a failure code.
pub open spec fn runner_failure_code_name(code: RunnerFailureCode) -> Seq<char> {
    match code {
        RunnerFailureCode::ProviderUnavailable => "provider_unavailable"@,
        RunnerFailureCode::ProviderTimeout => "provider_timeout"@,
        RunnerFailureCode::InvalidStructuredOutput => "invalid_structured_output"@,
        RunnerFailureCode::ContextDecryptionFailed => "context_decryption_failed"@,
        RunnerFailureCode::LocalExecutionFailed => "local_execution_failed"@,
    }
}

/// Whether a failure happened after a request reached the model endpoint, so
/// that the runner must witness the exact endpoint request.
pub open spec fn spec_requires_endpoint_request_witness(code: RunnerFailureCode) -> bool {
    code == RunnerFailureCode::ProviderUnavailable || code == RunnerFailureCode::ProviderTimeout
        || code == RunnerFailureCode::InvalidStructuredOutput
}

impl RunnerFailureCode {
    pub fn as_str(self) -> (name: &'static str)
        ensures
            name@ == runner_failure_code_name(self),
    {
        match self {
            RunnerFailureCode::ProviderUnavailable => "provider_unavailable",
            RunnerFailureCode::ProviderTimeout => "provider_timeout",
            RunnerFailureCode::InvalidStructuredOutput => "invalid_structured_output",
            RunnerFailureCode::ContextDecryptionFailed => "context_decryption_failed",
            RunnerFailureCode::LocalExecutionFailed => "local_execution_failed",
        }
    }

    pub fn requires_endpoint_request_witness(self) -> (b: bool)
        ensures
            b == spec_requires_endpoint_request_witness(self),
    {
        match self {
            RunnerFailureCode::ProviderUnavailable
            | RunnerFailureCode::ProviderTimeout
            | RunnerFailureCode::InvalidStructuredOutput => true,
            _ => false,
        }
    }
}

/// Distinct failure codes are stored under distinct names.
pub proof fn runner_failure_code_names_are_distinct(a: RunnerFailureCode, b: RunnerFailureCode)
    ensures
        runner_failure_code_name(a) == runner_failure_code_name(b) <==> a == b,
{
    reveal_strlit("provider_unavailable");
    reveal_strlit("provider_timeout");
    reveal_strlit("invalid_structured_output");
    reveal_strlit("context_decryption_failed");
    reveal_strlit("local_execution_failed");
    if runner_failure_code_name(a) == runner_failure_code_name(b) && a != b {
        let (x, y) = (runner_failure_code_name(a), runner_failure_code_name(b));
        assert(x.len() != y.len() || x[0] != y[0] || x[9] != y[9]);
    }
}

/// Whether a flag is false (a `false` endpoint-exactness flag is left out of a
/// serialized statement).
pub fn is_false(value: &bool) -> (b: bool)
    ensures
        b == !*value,
{
    !*value
}

/// A target controller's decision on a cross-owner task assignment.
#[derive(Clone, Copy, Debug, PartialEq, Eq, Structural)]
pub enum CrossOwnerControllerDecision {
    Approved,
    Rejected,
}

impl CrossOwnerControllerDecision {
    /// The stored decision and the assignment's next state: an approval waits
    /// for a mandate, a rejection is final.
    pub fn decision_and_state(self) -> (r: (&'static str, &'static str))
        ensures
            self == CrossOwnerControllerDecision::Approved ==> r.0@ == "approved"@
                && r.1@ == "approved_pending_mandate"@,
            self == CrossOwnerControllerDecision::Rejected ==> r.0@ == "rejected"@ && r.1@ == "rejected"@,
    {
        match self {
            CrossOwnerControllerDecision::Approved => ("approved", "approved_pending_mandate"),
            CrossOwnerControllerDecision::Rejected => ("rejected", "rejected"),
        }
    }
}

/// A target controller's request to decide a cross-owner assignment.
pub struct DecideCrossOwnerAssignmentRequest {
    pub decision: CrossOwnerControllerDecision,
}

/// Only the agent's current controller, a human, decides a cross-owner
/// assignment under review.
pub fn authorize_cross_owner_decision(
    actor_is_agent: bool,
    actor: u128,
    review_controller: u128,
    actor_controls_target_agent: bool,
) -> (r: Result<(), AppError>)
    ensures
        r is Ok <==> (!actor_is_agent && review_controller == actor && actor_controls_target_agent),
        r matches Err(e) ==> e == AppError::Forbidden,
{
    if actor_is_agent || review_controller != actor || !actor_controls_target_agent {
        Err(AppError::Forbidden)
    } else {
        Ok(())
    }
}

/// To whom an agent is available.
#[derive(Clone, Copy, Debug, PartialEq, Eq, Structural)]
pub enum AgentAvailabilityMode {
    ControllerPrivate,
    ProjectDelegable,
}

/// The stored name of an availability mode.
pub fn availability_name(availability: AgentAvailabilityMode) -> (name: &'static str)
    ensures
        name@ == availability_spec_name(availability),
{
    match availability {
        AgentAvailabilityMode::ControllerPrivate => "controller_private",
        AgentAvailabilityMode::ProjectDelegable => "project_delegable",
    }
}

/// The authority under which a local goal is compiled.
#[derive(Clone, Copy, Debug, PartialEq, Eq, Structural)]
pub enum LocalCompilationAuthorization {
    Responsibility { id: u128, revision: u64 },
    AdministratorException { id: u128, revision: u64 },
    GlobalMandate { id: u128, revision: u64 },
    AdministratorCreation { approval_id: u128 },
}

/// The stored columns of an authorization: its kind, the authorizing record
/// and, for revisioned records, its revision.
pub open spec fn authorization_columns(a: LocalCompilationAuthorization) -> (Seq<char>, Option<u128>, Option<u64>) {
    match a {
        LocalCompilationAuthorization::Responsibility { id, revision } => ("responsibility"@, Some(id), Some(revision)),
        LocalCompilationAuthorization::AdministratorException { id, revision } =>
            ("administrator_exception"@, Some(id), Some(revision)),
        LocalCompilationAuthorization::GlobalMandate { id, revision } => ("global_mandate"@, Some(id), Some(revision)),
        LocalCompilationAuthorization::AdministratorCreation { approval_id } =>
            ("administrator_creation"@, Some(approval_id), None),
    }
}

pub fn local_authorization_columns(authorization: &LocalCompilationAuthorization) -> (r: (&'static str, Option<u128>, Option<u64>))
    ensures
        (r.0@, r.1, r.2) == authorization_columns(*authorization),
{
    match *authorization {
        LocalCompilationAuthorization::Responsibility { id, revision } => ("responsibility", Some(id), Some(revision)),
        LocalCompilationAuthorization::AdministratorException { id, revision } =>
            ("administrator_exception", Some(id), Some(revision)),
        LocalCompilationAuthorization::GlobalMandate { id, revision } => ("global_mandate", Some(id), Some(revision)),
        LocalCompilationAuthorization::AdministratorCreation { approval_id } =>
            ("administrator_creation", Some(approval_id), None),
    }
}

/// A source of information that an invocation exposed to the model.
#[derive(Clone, Copy, Debug, PartialEq, Eq, Structural)]
pub enum InformationSource {
    ResourceBody { resource_id: u128 },
    Comment { resource_id: u128, comment_id: u128 },
    InfoDocument { resource_id: u128, document_id: u128 },
    InfoFile { resource_id: u128, file_id: u128 },
    ToolOutput { call_id: u128 },
    ProxyTranscript { thread_id: u128 },
    EventHistory { event_id: u128 },
    Provenance { provenance_id: u128 },
}

/// The resource that a source belongs to, if it belongs to one.
pub open spec fn spec_source_resource(source: InformationSource) -> Option<u128> {
    match source {
        InformationSource::ResourceBody { resource_id } => Some(resource_id),
        InformationSource::Comment { resource_id, .. } => Some(resource_id),
        InformationSource::InfoDocument { resource_id, .. } => Some(resource_id),
        InformationSource::InfoFile { resource_id, .. } => Some(resource_id),
        _ => None,
    }
}

pub fn source_resource(source: &InformationSource) -> (r: Option<u128>)
    ensures
        r == spec_source_resource(*source),
{
    match *source {
        InformationSource::ResourceBody { resource_id }
        | InformationSource::Comment { resource_id, .. }
        | InformationSource::InfoDocument { resource_id, .. }
        | InformationSource::InfoFile { resource_id, .. } => Some(resource_id),
        _ => None,
    }
}

/// The stored columns of a source: its kind, its resource and its record.
pub open spec fn spec_source_columns(source: InformationSource) -> (Seq<char>, Option<u128>, Option<u128>) {
    match source {
        InformationSource::ResourceBody { resource_id } => ("resource_body"@, Some(resource_id), None),
        InformationSource::Comment { resource_id, comment_id } => ("comment"@, Some(resource_id), Some(comment_id)),
        InformationSource::InfoDocument { resource_id, document_id } =>
            ("info_document"@, Some(resource_id), Some(document_id)),
        InformationSource::InfoFile { resource_id, file_id } => ("info_file"@, Some(resource_id), Some(file_id)),
        InformationSource::ToolOutput { call_id } => ("tool_output"@, None, Some(call_id)),
        InformationSource::ProxyTranscript { thread_id } => ("proxy_transcript"@, None, Some(thread_id)),
        InformationSource::EventHistory { event_id } => ("event_history"@, None, Some(event_id)),
        InformationSource::Provenance { provenance_id } => ("provenance"@, None, Some(provenance_id)),
    }
}

pub fn source_columns(source: &InformationSource) -> (r: (&'static str, Option<u128>, Option<u128>))
    ensures
        (r.0@, r.1, r.2) == spec_source_columns(*source),
{
    match *source {
        InformationSource::ResourceBody { resource_id } => ("resource_body", Some(resource_id), None),
        InformationSource::Comment { resource_id, comment_id } => ("comment", Some(resource_id), Some(comment_id)),
        InformationSource::InfoDocument { resource_id, document_id } =>
            ("info_document", Some(resource_id), Some(document_id)),
        InformationSource::InfoFile { resource_id, file_id } => ("info_file", Some(resource_id), Some(file_id)),
        InformationSource::ToolOutput { call_id } => ("tool_output", None, Some(call_id)),
        InformationSource::ProxyTranscript { thread_id } => ("proxy_transcript", None, Some(thread_id)),
        InformationSource::EventHistory { event_id } => ("event_history", None, Some(event_id)),
        InformationSource::Provenance { provenance_id } => ("provenance", None, Some(provenance_id)),
    }
}

/// The stored resource column of a source is the resource it belongs to, and
/// its record column never repeats that resource's slot.
pub proof fn source_columns_agree_with_source_resource(source: InformationSource)
    ensures
        spec_source_columns(source).1 == spec_source_resource(source),
{
}

/// A contract condition over the facts of a collaborative run.
pub enum ContractCondition {
    Always,
    Never,
    TaskDone { task: u128 },
    ObligationDone { obligation: u128 },
    CommentBy { author: u128 },
    AdministratorApproved { administrator: u128, review_work_spec_ordinal: u64 },
    All { left: Box<ContractCondition>, right: Box<ContractCondition> },
    Any { left: Box<ContractCondition>, right: Box<ContractCondition> },
    Neg { condition: Box<ContractCondition> },
}

/// The tasks whose completion a condition mentions.
pub open spec fn condition_tasks(c: ContractCondition) -> Set<u128>
    decreases c,
{
    match c {
        ContractCondition::TaskDone { task } => set![task],
        ContractCondition::All { left, right } => condition_tasks(*left).union(condition_tasks(*right)),
        ContractCondition::Any { left, right } => condition_tasks(*left).union(condition_tasks(*right)),
        ContractCondition::Neg { condition } => condition_tasks(*condition),
        _ => Set::empty(),
    }
}

/// Whether a condition rests only on facts that a cross-owner assignment can
/// observe on its own authority: constants and task completions.
pub open spec fn spec_cross_owner_authoritative(c: ContractCondition) -> bool
    decreases c,
{
    match c {
        ContractCondition::Always | ContractCondition::Never | ContractCondition::TaskDone { .. } => true,
        ContractCondition::All { left, right } =>
            spec_cross_owner_authoritative(*left) && spec_cross_owner_authoritative(*right),
        ContractCondition::Any { left, right } =>
            spec_cross_owner_authoritative(*left) && spec_cross_owner_authoritative(*right),
        ContractCondition::Neg { condition } => spec_cross_owner_authoritative(*condition),
        _ => false,
    }
}

/// Adds to `tasks` every task whose completion `condition` mentions.
pub fn collect_condition_tasks(condition: &ContractCondition, tasks: &mut HashSet<u128>)
    ensures
        final(tasks)@ == old(tasks)@.union(condition_tasks(*condition)),
    decreases condition,
{
    match condition {
        ContractCondition::TaskDone { task } => {
            tasks.insert(*task);
            assert(final(tasks)@ =~= old(tasks)@.union(condition_tasks(*condition)));
        },
        ContractCondition::All { left, right } | ContractCondition::Any { left, right } => {
            collect_condition_tasks(left, tasks);
            collect_condition_tasks(right, tasks);
            assert(final(tasks)@ =~= old(tasks)@.union(condition_tasks(*condition)));
        },
        ContractCondition::Neg { condition: inner } => {
            collect_condition_tasks(inner, tasks);
        },
        _ => {
            assert(final(tasks)@ =~= old(tasks)@.union(condition_tasks(*condition)));
        },
    }
}

pub fn cross_owner_condition_is_authoritative(condition: &ContractCondition) -> (b: bool)
    ensures
        b == spec_cross_owner_authoritative(*condition),
    decreases condition,
{
    match condition {
        ContractCondition::Always | ContractCondition::Never | ContractCondition::TaskDone { .. } => true,
        ContractCondition::All { left, right } | ContractCondition::Any { left, right } =>
            cross_owner_condition_is_authoritative(left) && cross_owner_condition_is_authoritative(right),
        ContractCondition::Neg { condition } => cross_owner_condition_is_authoritative(condition),
        _ => false,
    }
}

/// A resource operation that an effect or a plan asks for.
#[derive(Clone, Copy, Debug, PartialEq, Eq, Structural)]
pub enum ResourceOperation {
    ViewHeader,
    Read,
    ReadComment,
    EditInfo,
    Write,
    Manage,
    CompleteAssignedTask,
    PostComment,
    DelegateAssignedWork,
}

/// A responsibility action class.
#[derive(Clone, Copy, Debug, PartialEq, Eq, Structural)]
pub enum AgentActionClass {
    MarkAssignedDone,
    PostComment,
}

/// A resource effect of a proxy plan, classified by the action it performs.
#[derive(Clone, Copy, Debug, PartialEq, Eq, Structural)]
pub struct ProxyActionClassification {
    pub resource_id: u128,
    pub action: AgentActionClass,
}

/// The action class of an operation, for the two operations that name one.
pub open spec fn operation_action(op: ResourceOperation) -> Option<AgentActionClass> {
    match op {
        ResourceOperation::CompleteAssignedTask => Some(AgentActionClass::MarkAssignedDone),
        ResourceOperation::PostComment => Some(AgentActionClass::PostComment),
        _ => None,
    }
}

/// Classifies the footprint of a user-proxy plan: a plan with tool calls, or
/// with an effect whose operation names no action class, is refused; otherwise
/// each effect is classified in order.
pub fn derive_proxy_action_classification(
    tool_invocations: usize,
    effects: &[(u128, ResourceOperation)],
) -> (r: Result<Vec<ProxyActionClassification>, AppError>)
    ensures
        match r {
            Ok(classes) => tool_invocations == 0 && classes@.len() == effects@.len()
                && forall|i: int| 0 <= i < effects@.len() ==> {
                    &&& operation_action(#[trigger] effects@[i].1) is Some
                    &&& classes@[i] == ProxyActionClassification {
                        resource_id: effects@[i].0, action: operation_action(effects@[i].1).unwrap() }
                },
            Err(e) => if tool_invocations != 0 {
                e == AppError::BadRequest(BadRequestReason::ProxyToolFootprintUnclassified)
            } else {
                e == AppError::BadRequest(BadRequestReason::ProxyEffectUnclassified)
                    && exists|i: int| 0 <= i < effects@.len() && operation_action(#[trigger] effects@[i].1) is None
            },
        },
{
    if tool_invocations != 0 {
        return Err(AppError::BadRequest(BadRequestReason::ProxyToolFootprintUnclassified));
    }
    let mut classes: Vec<ProxyActionClassification> = Vec::new();
    let n = effects.len();
    for i in 0..n
        invariant
            n == effects@.len(),
            tool_invocations == 0,
            classes@.len() == i,
            forall|j: int| 0 <= j < i ==> {
                &&& operation_action(#[trigger] effects@[j].1) is Some
                &&& classes@[j] == ProxyActionClassification {
                    resource_id: effects@[j].0, action: operation_action(effects@[j].1).unwrap() }
            },
    {
        let (resource_id, operation) = effects[i];
        assert(effects@[i as int] == (resource_id, operation));
        let action = match operation {
            ResourceOperation::CompleteAssignedTask => AgentActionClass::MarkAssignedDone,
            ResourceOperation::PostComment => AgentActionClass::PostComment,
            _ => {
                assert(operation_action(effects@[i as int].1) is None);
                assert(exists|k: int| 0 <= k < effects@.len() && operation_action(#[trigger] effects@[k].1) is None);
                return Err(AppError::BadRequest(BadRequestReason::ProxyEffectUnclassified));
            },
        };
        classes.push(ProxyActionClassification { resource_id, action });
    }
    Ok(classes)
}

/// Whether an agent identity handle is canonical: 3 to 128 bytes of UTF-8,
/// already lower case, without whitespace.
pub open spec fn identity_handle_valid(handle: &str) -> bool {
    &&& 3 <= handle.len() <= 128
    &&& lowercase_of(handle@) == handle@
    &&& forall|i: int| 0 <= i < handle@.len() ==> !#[trigger] spec_is_whitespace(handle@[i])
}

/// Refuses a non-canonical agent identity handle as a bad request.
pub fn validate_identity_handle(handle: &str) -> (r: Result<(), AppError>)
    ensures
        r is Ok <==> identity_handle_valid(handle),
        r matches Err(e) ==> e == AppError::BadRequest(BadRequestReason::InvalidAgentIdentityHandle),
{
    if handle.len() < 3 || handle.len() > 128 || !text_eq(to_lowercase(handle).as_str(), handle)
        || contains_whitespace(handle)
    {
        return Err(AppError::BadRequest(BadRequestReason::InvalidAgentIdentityHandle));
    }
    Ok(())
}

/// Refuses proposals that reuse an effect id.
pub fn ensure_unique_effect_ids(ids: &[u128]) -> (r: Result<(), AppError>)
    ensures
        r is Ok <==> forall|i: int, j: int| 0 <= i < j < ids@.len() ==> ids@[i] != ids@[j],
        r matches Err(e) ==> e == AppError::BadRequest(BadRequestReason::DuplicateEffectProposalId),
{
    let mut seen: HashSet<u128> = HashSet::new();
    let n = ids.len();
    for i in 0..n
        invariant
            n == ids@.len(),
            seen@ == Set::new(|x: u128| exists|k: int| 0 <= k < i && ids@[k] == x),
            forall|a: int, b: int| 0 <= a < b < i ==> ids@[a] != ids@[b],
    {
        let fresh = seen.insert(ids[i]);
        if !fresh {
            proof {
                let k = choose|k: int| 0 <= k < i && ids@[k] == ids@[i as int];
                assert(ids@[k] == ids@[i as int]);
            }
            return Err(AppError::BadRequest(BadRequestReason::DuplicateEffectProposalId));
        }
        assert(seen@ =~= Set::new(|x: u128| exists|k: int| 0 <= k < i + 1 && ids@[k] == x)) by {
            assert forall|x: u128| seen@.contains(x) implies exists|k: int| 0 <= k < i + 1 && ids@[k] == x by {
                if x == ids@[i as int] {
                    assert(ids@[i as int] == x);
                }
            }
        }
    }
    Ok(())
}

/// Converts a `u32` to the stored `i32`.
pub fn to_i32(value: u32) -> (r: Result<i32, AppError>)
    ensures
        match r {
            Ok(v) => v == value,
            Err(e) => value > i32::MAX && e == AppError::BadRequest(BadRequestReason::NumericValueTooLarge),
        },
{
    if value <= i32::MAX as u32 { Ok(value as i32) } else { Err(AppError::BadRequest(BadRequestReason::NumericValueTooLarge)) }
}

/// Converts a `u64` to the stored `i64`.
pub fn to_i64(value: u64) -> (r: Result<i64, AppError>)
    ensures
        match r {
            Ok(v) => v == value,
            Err(e) => value > i64::MAX && e == AppError::BadRequest(BadRequestReason::NumericValueTooLarge),
        },
{
    if value <= i64::MAX as u64 { Ok(value as i64) } else { Err(AppError::BadRequest(BadRequestReason::NumericValueTooLarge)) }
}

/// A violated agent-governance invariant is answered as a bad request.
pub fn agent_validation_error() -> (e: AppError)
    ensures
        e == AppError::BadRequest(BadRequestReason::AgentGovernanceInvariantFailed),
{
    AppError::BadRequest(BadRequestReason::AgentGovernanceInvariantFailed)
}

/// Decodes a 32-byte commitment written in hex; anything else is the bad
/// request `invalid commitment`.
pub fn decode_commitment(value: &str) -> (r: Result<Vec<u8>, AppError>)
    ensures
        bytes_of(r) == crate::agent_tools::commitment_result(value@),
        r matches Ok(b) ==> b@.len() == 32,
{
    match hex_decode(value) {
        Some(bytes) => if bytes.len() == 32 {
            Ok(bytes)
        } else {
            Err(AppError::BadRequest(BadRequestReason::InvalidCommitment))
        },
        None => Err(AppError::BadRequest(BadRequestReason::InvalidCommitment)),
    }
}

/// Domain separation of governance identifiers.
pub const GOVERNANCE_DERIVED_ID_DOMAIN: &'static str = "sprout-governance-derived-id-v1";

/// The governance identifier derived from a context and identifiers.
pub fn derived_governance_id(context: &[u8], parts: &[u128]) -> (id: Vec<u8>)
    ensures
        id@ == derived_id(GOVERNANCE_DERIVED_ID_DOMAIN.spec_bytes(), context@, parts@),
{
    derive_id(GOVERNANCE_DERIVED_ID_DOMAIN.as_bytes(), context, parts)
}

/// Whether what a runner projects about the model runtime agrees with how the
/// attempt was dispatched: a `client_provider_v1` dispatch needs the runtime
/// kind and an execution-profile commitment, and, when `endpoint_witness_required`,
/// an exact endpoint request with its commitment; a `legacy_0031` dispatch
/// admits none of these; other runtime kinds are not constrained here.
pub open spec fn runtime_projection_consistent(
    dispatched_runtime_kind: Seq<char>,
    endpoint_request_exact: bool,
    has_endpoint_request_commitment: bool,
    has_execution_profile_commitment: bool,
    projected_runtime_kind: Option<Seq<char>>,
    endpoint_witness_required: bool,
) -> bool {
    &&& dispatched_runtime_kind == "client_provider_v1"@ ==> {
        &&& projected_runtime_kind == Some("client_provider_v1"@)
        &&& has_execution_profile_commitment
        &&& endpoint_witness_required ==> (endpoint_request_exact && has_endpoint_request_commitment)
    }
    &&& dispatched_runtime_kind == "legacy_0031"@ ==> {
        &&& projected_runtime_kind is None
        &&& !endpoint_request_exact
        &&& !has_endpoint_request_commitment
        &&& !has_execution_profile_commitment
    }
}

/// Refuses (`Conflict`) a runtime projection that disagrees with the dispatch.
/// A submitted output always requires the endpoint witness; a failure requires
/// it when its failure code does.
pub fn check_runtime_projection(
    dispatched_runtime_kind: &str,
    endpoint_request_exact: bool,
    has_endpoint_request_commitment: bool,
    has_execution_profile_commitment: bool,
    projected_runtime_kind: Option<&str>,
    endpoint_witness_required: bool,
) -> (r: Result<(), AppError>)
    ensures
        r is Ok <==> runtime_projection_consistent(dispatched_runtime_kind@, endpoint_request_exact,
            has_endpoint_request_commitment, has_execution_profile_commitment,
            match projected_runtime_kind { Some(k) => Some(k@), None => None }, endpoint_witness_required),
        r matches Err(e) ==> e == AppError::Conflict,
{
    let projected_is_client = match projected_runtime_kind {
        Some(k) => text_eq(k, "client_provider_v1"),
        None => false,
    };
    if (text_eq(dispatched_runtime_kind, "client_provider_v1")
        && (!projected_is_client || !has_execution_profile_commitment
            || (endpoint_witness_required && (!endpoint_request_exact || !has_endpoint_request_commitment))))
        || (text_eq(dispatched_runtime_kind, "legacy_0031")
            && (projected_runtime_kind.is_some() || endpoint_request_exact || has_endpoint_request_commitment
                || has_execution_profile_commitment))
    {
        return Err(AppError::Conflict);
    }
    Ok(())
}

/// The execution profile that a runner projects must be the one that the
/// attempt was dispatched under (both absent, or the same commitment); any
/// other is a conflict.
pub fn check_execution_profile_binding(dispatched: Option<&[u8]>, projected: Option<&[u8]>) -> (r: Result<(), AppError>)
    ensures
        r is Ok <==> match (dispatched, projected) {
            (Some(d), Some(p)) => d@ == p@,
            (None, None) => true,
            _ => false,
        },
        r matches Err(e) ==> e == AppError::Conflict,
{
    let same = match (dispatched, projected) {
        (Some(d), Some(p)) => crate::codec::bytes_equal(d, p),
        (None, None) => true,
        _ => false,
    };
    if same { Ok(()) } else { Err(AppError::Conflict) }
}

/// A claim of endpoint-request exactness must come with the endpoint request's
/// commitment, and only then.
pub fn check_endpoint_exactness(endpoint_request_exact: bool, has_endpoint_request_commitment: bool) -> (r: Result<(), AppError>)
    ensures
        r is Ok <==> endpoint_request_exact == has_endpoint_request_commitment,
        r matches Err(e) ==> e == AppError::Conflict,
{
    if endpoint_request_exact != has_endpoint_request_commitment { Err(AppError::Conflict) } else { Ok(()) }
}

/// Whether a provider status is acceptable in a model observation: not blank,
/// and at most 128 bytes.
pub fn provider_status_acceptable(status: &str) -> (b: bool)
    ensures
        b == (!spec_is_blank(status@) && status.spec_bytes().len() <= 128),
{
    !is_blank(status) && status.as_bytes().len() <= 128
}

/// A requested effect materialization.
#[derive(Clone, Copy, Debug, PartialEq, Eq, Structural)]
pub enum MaterializationKind {
    ReplaceInfoDocument { document_id: u128 },
}

/// The checks of an effect's materialization that precede the database
/// lookup: an effect needs a supported materializer, and replacing an info
/// document needs `edit_info` authority. Answers the document to look up.
pub fn check_effect_materialization(
    materialization: Option<MaterializationKind>,
    operation: ResourceOperation,
) -> (r: Result<u128, AppError>)
    ensures
        match materialization {
            None => r == Err::<u128, AppError>(AppError::BadRequest(BadRequestReason::UnsupportedMaterializer)),
            Some(MaterializationKind::ReplaceInfoDocument { document_id }) =>
                if operation == ResourceOperation::EditInfo {
                    r == Ok::<u128, AppError>(document_id)
                } else {
                    r == Err::<u128, AppError>(AppError::BadRequest(BadRequestReason::MaterializationRequiresEditInfo))
                },
        },
{
    match materialization {
        None => Err(AppError::BadRequest(BadRequestReason::UnsupportedMaterializer)),
        Some(MaterializationKind::ReplaceInfoDocument { document_id }) => {
            if operation != ResourceOperation::EditInfo {
                Err(AppError::BadRequest(BadRequestReason::MaterializationRequiresEditInfo))
            } else {
                Ok(document_id)
            }
        },
    }
}

/// A runner bootstrap token, which never appears in debug output.
pub struct SensitiveToken {
    token: String,
}

impl SensitiveToken {
    pub fn new(token: String) -> (t: Self)
        ensures
            t.secret() == token@,
    {
        SensitiveToken { token }
    }

    /// The token's text.
    pub closed spec fn secret(&self) -> Seq<char> {
        self.token@
    }

    /// The token for the response body.
    pub fn expose(&self) -> (s: &str)
        ensures
            s@ == self.secret(),
    {
        self.token.as_str()
    }

    /// The debug rendering of a token: its type and a redaction marker, never
    /// the token.
    pub fn debug_text(&self) -> (s: &'static str)
        ensures
            s@ == "SensitiveToken([REDACTED])"@,
    {
        "SensitiveToken([REDACTED])"
    }
}

/// What reading back a stored availability name gives.
pub open spec fn parse_availability_spec(name: Seq<char>) -> Result<AgentAvailabilityMode, AppError> {
    if name == "controller_private"@ {
        Ok(AgentAvailabilityMode::ControllerPrivate)
    } else if name == "project_delegable"@ {
        Ok(AgentAvailabilityMode::ProjectDelegable)
    } else {
        Err(AppError::Internal)
    }
}

/// Reads back a stored availability; an unknown name is an internal error.
pub fn parse_availability(name: &str) -> (r: Result<AgentAvailabilityMode, AppError>)
    ensures
        r == parse_availability_spec(name@),
{
    if text_eq(name, "controller_private") {
        Ok(AgentAvailabilityMode::ControllerPrivate)
    } else if text_eq(name, "project_delegable") {
        Ok(AgentAvailabilityMode::ProjectDelegable)
    } else {
        Err(AppError::Internal)
    }
}

/// The stored name of an availability mode, as a spec.
pub open spec fn availability_spec_name(a: AgentAvailabilityMode) -> Seq<char> {
    match a {
        AgentAvailabilityMode::ControllerPrivate => "controller_private"@,
        AgentAvailabilityMode::ProjectDelegable => "project_delegable"@,
    }
}

/// A stored availability reads back as itself.
pub proof fn availability_names_read_back(a: AgentAvailabilityMode)
    ensures
        parse_availability_spec(availability_spec_name(a)) == Ok::<AgentAvailabilityMode, AppError>(a),
{
    reveal_strlit("controller_private");
    reveal_strlit("project_delegable");
    assert("controller_private"@[0] != "project_delegable"@[0]);
}

/// An administrator's signed decision on an exception review binds the
/// project, the review and the administrator: the deciding human must be the
/// administrator it names (else forbidden).
pub fn check_exception_decision_binding(
    statement_project: u128,
    statement_review: u128,
    statement_administrator: u128,
    project_id: u128,
    review_id: u128,
    actor: u128,
) -> (r: Result<(), AppError>)
    ensures
        r is Ok <==> (statement_project == project_id && statement_review == review_id
            && statement_administrator == actor),
        r matches Err(e) ==> e == AppError::Forbidden,
{
    if statement_project != project_id || statement_review != review_id || statement_administrator != actor {
        Err(AppError::Forbidden)
    } else {
        Ok(())
    }
}

/// The recorded review and the administrator's draft must name the parties
/// of this decision: the deciding administrator (in both), the agent's
/// principal and its controlling user (else forbidden).
pub fn check_exception_review_parties(
    review_administrator: u128,
    review_agent: u128,
    review_user: u128,
    draft_administrator: u128,
    actor: u128,
    agent_principal: u128,
    agent_controller: u128,
) -> (r: Result<(), AppError>)
    ensures
        r is Ok <==> (review_administrator == actor && review_agent == agent_principal
            && review_user == agent_controller && draft_administrator == actor),
        r matches Err(e) ==> e == AppError::Forbidden,
{
    if review_administrator != actor || review_agent != agent_principal || review_user != agent_controller
        || draft_administrator != actor
    {
        Err(AppError::Forbidden)
    } else {
        Ok(())
    }
}

/// What follows a recorded exception decision.
#[derive(Clone, Copy, Debug, PartialEq, Eq, Structural)]
pub enum ExceptionDecisionStep {
    /// Nothing more: the approval was already applied, or the decision rejects.
    Answer,
    /// Certify the approved local goal.
    ApproveGoal,
    /// Certify the approved local goal and the final responsibility.
    ApproveGoalAndResponsibility,
}

/// The step after recording an exception decision: a replayed approval or a
/// rejection is answered at once; an approval certifies the local goal, and
/// with it the responsibility when the decision approves both.
pub fn exception_decision_step(approval_replayed: bool, rejected: bool, approves_responsibility: bool)
    -> (step: ExceptionDecisionStep)
    ensures
        step == if approval_replayed || rejected {
            ExceptionDecisionStep::Answer
        } else if approves_responsibility {
            ExceptionDecisionStep::ApproveGoalAndResponsibility
        } else {
            ExceptionDecisionStep::ApproveGoal
        },
{
    if approval_replayed || rejected {
        ExceptionDecisionStep::Answer
    } else if approves_responsibility {
        ExceptionDecisionStep::ApproveGoalAndResponsibility
    } else {
        ExceptionDecisionStep::ApproveGoal
    }
}

/// An approval of goal and responsibility needs the draft's final
/// responsibility, its encrypted source and the revision it supersedes; a
/// draft without all three is a conflict.
pub fn require_final_responsibility(has_signed: bool, has_encrypted_source: bool, has_supersedes: bool)
    -> (r: Result<(), AppError>)
    ensures
        r is Ok <==> (has_signed && has_encrypted_source && has_supersedes),
        r matches Err(e) ==> e == AppError::Conflict,
{
    if has_signed && has_encrypted_source && has_supersedes { Ok(()) } else { Err(AppError::Conflict) }
}

/// How a cross-owner task assignment is routed.
#[derive(Clone, Copy, Debug, PartialEq, Eq, Structural)]
pub enum CrossOwnerAssignmentRoute {
    AutomaticFromActiveObligation,
    ControllerReview,
    Rejected,
}

/// Cross-owner routing hands a task to an agent of another controller.
pub fn require_different_controller(target_controller: u128, actor: u128) -> (r: Result<(), AppError>)
    ensures
        r is Ok <==> target_controller != actor,
        r matches Err(e) ==> e == AppError::BadRequest(BadRequestReason::CrossOwnerSameController),
{
    if target_controller == actor {
        Err(AppError::BadRequest(BadRequestReason::CrossOwnerSameController))
    } else {
        Ok(())
    }
}

/// The route of a cross-owner assignment: automatic when the target's active
/// obligation already covers the task; otherwise controller review when the
/// kernel asks for it or the target's controller administers the project;
/// otherwise rejected.
pub fn final_cross_owner_route(
    kernel_route: CrossOwnerAssignmentRoute,
    controller_is_administrator: bool,
) -> (route: CrossOwnerAssignmentRoute)
    ensures
        route == if kernel_route == CrossOwnerAssignmentRoute::AutomaticFromActiveObligation {
            CrossOwnerAssignmentRoute::AutomaticFromActiveObligation
        } else if controller_is_administrator || kernel_route == CrossOwnerAssignmentRoute::ControllerReview {
            CrossOwnerAssignmentRoute::ControllerReview
        } else {
            CrossOwnerAssignmentRoute::Rejected
        },
{
    if kernel_route == CrossOwnerAssignmentRoute::AutomaticFromActiveObligation {
        kernel_route
    } else if controller_is_administrator || kernel_route == CrossOwnerAssignmentRoute::ControllerReview {
        CrossOwnerAssignmentRoute::ControllerReview
    } else {
        CrossOwnerAssignmentRoute::Rejected
    }
}

/// The stored route and state of a routed assignment, and whether the review
/// task that the request names is checked: only controller review carries a
/// review task, and it must carry one.
pub fn route_record(route: CrossOwnerAssignmentRoute, has_review_task: bool) -> (r: Result<(&'static str, &'static str), AppError>)
    ensures
        match route {
            CrossOwnerAssignmentRoute::AutomaticFromActiveObligation => if has_review_task {
                r == Err::<(&'static str, &'static str), AppError>(
                    AppError::BadRequest(BadRequestReason::AutomaticRouteWithReviewTask))
            } else {
                r matches Ok((a, b)) && a@ == "automatic_existing_obligation"@ && b@ == "ready"@
            },
            CrossOwnerAssignmentRoute::ControllerReview => if !has_review_task {
                r == Err::<(&'static str, &'static str), AppError>(
                    AppError::BadRequest(BadRequestReason::ReviewRouteWithoutReviewTask))
            } else {
                r matches Ok((a, b)) && a@ == "controller_review"@ && b@ == "pending_review"@
            },
            CrossOwnerAssignmentRoute::Rejected => if has_review_task {
                r == Err::<(&'static str, &'static str), AppError>(
                    AppError::BadRequest(BadRequestReason::RejectedRouteWithReviewTask))
            } else {
                r matches Ok((a, b)) && a@ == "rejected"@ && b@ == "rejected"@
            },
        },
{
    match route {
        CrossOwnerAssignmentRoute::AutomaticFromActiveObligation => {
            if has_review_task {
                return Err(AppError::BadRequest(BadRequestReason::AutomaticRouteWithReviewTask));
            }
            Ok(("automatic_existing_obligation", "ready"))
        },
        CrossOwnerAssignmentRoute::ControllerReview => {
            if !has_review_task {
                return Err(AppError::BadRequest(BadRequestReason::ReviewRouteWithoutReviewTask));
            }
            Ok(("controller_review", "pending_review"))
        },
        CrossOwnerAssignmentRoute::Rejected => {
            if has_review_task {
                return Err(AppError::BadRequest(BadRequestReason::RejectedRouteWithReviewTask));
            }
            Ok(("rejected", "rejected"))
        },
    }
}

/// A review task must be an open task that the actor created and that is
/// assigned to the target's controller.
pub fn require_authoritative_review_task(valid_review: bool) -> (r: Result<(), AppError>)
    ensures
        r is Ok <==> valid_review,
        r matches Err(e) ==> e == AppError::BadRequest(BadRequestReason::ReviewTaskNotAuthoritative),
{
    if valid_review { Ok(()) } else { Err(AppError::BadRequest(BadRequestReason::ReviewTaskNotAuthoritative)) }
}

/// The surface checks of a submitted invocation output: any surface other than
/// `generic` needs a signed endpoint observation, and an interrogation may
/// only answer, never propose effects.
pub fn check_submission_surface(surface: &str, has_observation: bool, effect_count: usize) -> (r: Result<(), AppError>)
    ensures
        r == if surface@ != "generic"@ && !has_observation {
            Err(AppError::BadRequest(BadRequestReason::SurfaceRequiresObservation))
        } else if surface@ == "interrogation"@ && effect_count != 0 {
            Err(AppError::BadRequest(BadRequestReason::InterrogationIsAnswerOnly))
        } else {
            Ok(())
        },
{
    if !text_eq(surface, "generic") && !has_observation {
        return Err(AppError::BadRequest(BadRequestReason::SurfaceRequiresObservation));
    }
    if text_eq(surface, "interrogation") && effect_count != 0 {
        return Err(AppError::BadRequest(BadRequestReason::InterrogationIsAnswerOnly));
    }
    Ok(())
}

/// A reported failure on any surface other than `generic` needs a signed
/// endpoint observation.
pub fn check_failure_surface(surface: &str, has_observation: bool) -> (r: Result<(), AppError>)
    ensures
        r is Ok <==> (surface@ == "generic"@ || has_observation),
        r matches Err(e) ==> e == AppError::BadRequest(BadRequestReason::SurfaceFailureRequiresObservation),
{
    if !text_eq(surface, "generic") && !has_observation {
        return Err(AppError::BadRequest(BadRequestReason::SurfaceFailureRequiresObservation));
    }
    Ok(())
}

/// What happens to an invocation whose attempt failed: it fails for good when
/// the failure is not retryable or the attempts are used up, and otherwise
/// returns to `pending` for another attempt.
pub fn failure_disposition(retryable: bool, attempt: i32, max_attempts: i32) -> (r: (bool, &'static str))
    ensures
        r.0 == (!retryable || attempt >= max_attempts),
        r.0 ==> r.1@ == "failed"@,
        !r.0 ==> r.1@ == "pending"@,
{
    let exhausted = !retryable || attempt >= max_attempts;
    (exhausted, if exhausted { "failed" } else { "pending" })
}

/// Whether a proposed effect stays within what the invocation may touch: its
/// resource appears in the structured output, and the authority envelope
/// grants that operation on that resource.
pub open spec fn effect_within_authority(
    output_resources: Seq<u128>,
    authority: Seq<(u128, ResourceOperation)>,
    resource: u128,
    operation: ResourceOperation,
) -> bool {
    output_resources.contains(resource) && authority.contains((resource, operation))
}

pub fn check_effect_authority(
    output_resources: &[u128],
    authority: &[(u128, ResourceOperation)],
    resource: u128,
    operation: ResourceOperation,
) -> (b: bool)
    ensures
        b == effect_within_authority(output_resources@, authority@, resource, operation),
{
    let mut in_output = false;
    let n = output_resources.len();
    for i in 0..n
        invariant
            n == output_resources@.len(),
            in_output == exists|j: int| 0 <= j < i && output_resources@[j] == resource,
    {
        if output_resources[i] == resource {
            in_output = true;
        }
    }
    let mut granted = false;
    let m = authority.len();
    for i in 0..m
        invariant
            m == authority@.len(),
            granted == exists|j: int| 0 <= j < i && authority@[j] == (resource, operation),
    {
        if authority[i].0 == resource && authority[i].1 == operation {
            granted = true;
        }
    }
    in_output && granted
}

/// The ordinal under which an effect proposal is stored; one that does not
/// fit an `i32` makes the payload too large.
pub fn effect_ordinal(ordinal: usize) -> (r: Result<i32, AppError>)
    ensures
        match r {
            Ok(v) => v == ordinal,
            Err(e) => ordinal > i32::MAX && e == AppError::PayloadTooLarge,
        },
{
    if ordinal <= i32::MAX as usize { Ok(ordinal as i32) } else { Err(AppError::PayloadTooLarge) }
}

/// The SHA-256 of the pinned local-goal compiler protocol manifest.
pub open spec fn local_goal_compiler_digest() -> Seq<u8> {
    seq![12u8, 103, 94, 133, 55, 1, 55, 92, 123, 165, 211, 150, 244, 225, 249, 181, 85, 146, 51, 154, 58,
        78, 69, 133, 155, 159, 44, 46, 143, 219, 191, 194]
}

/// The SHA-256 of the pinned responsibility compiler protocol manifest.
pub open spec fn responsibility_compiler_digest() -> Seq<u8> {
    seq![120u8, 189, 131, 219, 121, 17, 33, 145, 248, 26, 161, 24, 81, 32, 146, 247, 234, 84, 168, 119,
        51, 168, 46, 130, 63, 168, 60, 241, 7, 227, 235, 115]
}

/// The build digest pinned for a compiler: version 1 of
/// `sprout.local-goal.compiler` for local goals, version 1 of
/// `sprout.responsibility.compiler` for responsibilities; no other compiler is
/// pinned.
pub open spec fn pinned_compiler_digest(task_kind: Seq<char>, compiler_id: Seq<char>, version: u32) -> Option<Seq<u8>> {
    if task_kind == "local_goal"@ && compiler_id == "sprout.local-goal.compiler"@ && version == 1 {
        Some(local_goal_compiler_digest())
    } else if task_kind == "responsibility"@ && compiler_id == "sprout.responsibility.compiler"@ && version == 1 {
        Some(responsibility_compiler_digest())
    } else {
        None
    }
}

/// Checks a compiler's claimed build digest against the pin for its task kind;
/// an unpinned compiler or another digest is refused.
pub fn check_compiler_pin(task_kind: &str, compiler_id: &str, version: u32, digest: &[u8]) -> (r: Result<(), AppError>)
    ensures
        r is Ok <==> pinned_compiler_digest(task_kind@, compiler_id@, version) == Some(digest@),
        r matches Err(e) ==> e == AppError::BadRequest(BadRequestReason::CompilerBuildNotPinned),
{
    let expected: Vec<u8> = if text_eq(task_kind, "local_goal") && text_eq(compiler_id, "sprout.local-goal.compiler")
        && version == 1
    {
        let v = vec![12u8, 103, 94, 133, 55, 1, 55, 92, 123, 165, 211, 150, 244, 225, 249, 181, 85, 146, 51, 154, 58,
            78, 69, 133, 155, 159, 44, 46, 143, 219, 191, 194];
        assert(v@ =~= local_goal_compiler_digest());
        v
    } else if text_eq(task_kind, "responsibility") && text_eq(compiler_id, "sprout.responsibility.compiler")
        && version == 1
    {
        let v = vec![120u8, 189, 131, 219, 121, 17, 33, 145, 248, 26, 161, 24, 81, 32, 146, 247, 234, 84, 168, 119,
            51, 168, 46, 130, 63, 168, 60, 241, 7, 227, 235, 115];
        assert(v@ =~= responsibility_compiler_digest());
        v
    } else {
        return Err(AppError::BadRequest(BadRequestReason::CompilerBuildNotPinned));
    };
    if !crate::codec::bytes_equal(digest, expected.as_slice()) {
        return Err(AppError::BadRequest(BadRequestReason::CompilerBuildNotPinned));
    }
    Ok(())
}

/// The compiler that a signed compilation names: its id, version and claimed
/// build digest (hex).
pub struct CompilerIdentity {
    pub compiler_id: String,
    pub compiler_version: u32,
    pub compiler_build_digest_hex: String,
}

/// The protocol manifest of a pinned compiler: the local-goal manifest for
/// the local-goal compiler, the responsibility manifest otherwise.
pub open spec fn pinned_compiler_manifest(task_kind: Seq<char>, local_goal_manifest: Seq<u8>,
    responsibility_manifest: Seq<u8>) -> Seq<u8> {
    if task_kind == "local_goal"@ { local_goal_manifest } else { responsibility_manifest }
}

/// What `require_pinned_compiler` answers: the claimed digest must be a
/// 32-byte hex commitment, the pin of the compiler for the task kind, the
/// SHA-256 of that compiler's protocol manifest, and a build that the
/// registry lists as enabled; any of the last three failing is the bad request
/// `compiler build is not pinned`.
pub open spec fn pinned_compiler_result(
    task_kind: Seq<char>,
    compiler: CompilerIdentity,
    local_goal_manifest: Seq<u8>,
    responsibility_manifest: Seq<u8>,
    registered: bool,
) -> Result<Seq<u8>, AppError> {
    match crate::agent_tools::commitment_result(compiler.compiler_build_digest_hex@) {
        Err(e) => Err(e),
        Ok(digest) => if pinned_compiler_digest(task_kind, compiler.compiler_id@, compiler.compiler_version) == Some(digest)
            && crate::codec::sha256_of(pinned_compiler_manifest(task_kind, local_goal_manifest, responsibility_manifest))
                == digest
            && registered {
            Ok(digest)
        } else {
            Err(AppError::BadRequest(BadRequestReason::CompilerBuildNotPinned))
        },
    }
}

/// Decodes a compiler's claimed build digest and requires it to be pinned:
/// the pin for the task kind, the hash of the compiler's protocol manifest,
/// and an enabled build (`registered`: whether the build registry lists it as
/// enabled), giving back the digest.
pub fn require_pinned_compiler(
    task_kind: &str,
    compiler: &CompilerIdentity,
    local_goal_manifest: &[u8],
    responsibility_manifest: &[u8],
    registered: bool,
) -> (r: Result<Vec<u8>, AppError>)
    ensures
        bytes_of(r) == pinned_compiler_result(task_kind@, *compiler, local_goal_manifest@,
            responsibility_manifest@, registered),
{
    let digest = decode_commitment(compiler.compiler_build_digest_hex.as_str())?;
    check_compiler_pin(task_kind, compiler.compiler_id.as_str(), compiler.compiler_version, digest.as_slice())?;
    let manifest = if text_eq(task_kind, "local_goal") { local_goal_manifest } else { responsibility_manifest };
    let manifest_digest = crate::codec::sha256_digest(manifest);
    if !crate::codec::bytes_equal(manifest_digest.as_slice(), digest.as_slice()) || !registered {
        return Err(AppError::BadRequest(BadRequestReason::CompilerBuildNotPinned));
    }
    Ok(digest)
}

/// The first checks of queueing an invocation: only a human may queue, with a
/// local goal named by both its id and its revision or by neither.
pub fn check_queue_request(actor_is_agent: bool, has_goal_id: bool, has_goal_revision: bool) -> (r: Result<(), AppError>)
    ensures
        r is Ok <==> (!actor_is_agent && has_goal_id == has_goal_revision),
        r matches Err(e) ==> e == AppError::BadRequest(BadRequestReason::InvalidInvocationGoalReference),
{
    if actor_is_agent || has_goal_id != has_goal_revision {
        Err(AppError::BadRequest(BadRequestReason::InvalidInvocationGoalReference))
    } else {
        Ok(())
    }
}

/// Only the agent's controller queues its invocations.
pub fn require_controller(agent_controller: u128, actor: u128) -> (r: Result<(), AppError>)
    ensures
        r is Ok <==> agent_controller == actor,
        r matches Err(e) ==> e == AppError::Forbidden,
{
    if agent_controller != actor { Err(AppError::Forbidden) } else { Ok(()) }
}

/// Queued invocations may not use tools yet: neither the authority envelope
/// nor the language task may name one.
pub fn check_no_tools(tool_authority_count: usize, allowed_tool_count: usize) -> (r: Result<(), AppError>)
    ensures
        r is Ok <==> (tool_authority_count == 0 && allowed_tool_count == 0),
        r matches Err(e) ==> e == AppError::BadRequest(BadRequestReason::ToolsRequireSecurityAdapter),
{
    if tool_authority_count != 0 || allowed_tool_count != 0 {
        Err(AppError::BadRequest(BadRequestReason::ToolsRequireSecurityAdapter))
    } else {
        Ok(())
    }
}

/// An invocation's context must include the body of the agent's profile
/// resource (its current system prompt).
pub fn check_context_includes_profile(sources: &[InformationSource], profile_resource: u128) -> (r: Result<(), AppError>)
    ensures
        r is Ok <==> sources@.contains(InformationSource::ResourceBody { resource_id: profile_resource }),
        r matches Err(e) ==> e == AppError::BadRequest(BadRequestReason::ContextMissingSystemPrompt),
{
    let n = sources.len();
    for i in 0..n
        invariant
            n == sources@.len(),
            forall|j: int| 0 <= j < i ==> sources@[j] != (InformationSource::ResourceBody { resource_id: profile_resource }),
    {
        match sources[i] {
            InformationSource::ResourceBody { resource_id } => {
                if resource_id == profile_resource {
                    assert(sources@[i as int] == InformationSource::ResourceBody { resource_id: profile_resource });
                    return Ok(());
                }
            },
            _ => {},
        }
    }
    Err(AppError::BadRequest(BadRequestReason::ContextMissingSystemPrompt))
}

/// The first checks of claiming an invocation: a client-provider claim comes
/// with an execution-profile commitment and a legacy claim without one
/// (else a conflict), and only an agent's runner claims (else forbidden).
pub fn check_claim_request(client_provider: bool, has_profile_commitment: bool, actor_is_agent: bool) -> (r: Result<(), AppError>)
    ensures
        r == if client_provider != has_profile_commitment {
            Err(AppError::Conflict)
        } else if !actor_is_agent {
            Err(AppError::Forbidden)
        } else {
            Ok(())
        },
{
    if client_provider != has_profile_commitment {
        return Err(AppError::Conflict);
    }
    if !actor_is_agent {
        return Err(AppError::Forbidden);
    }
    Ok(())
}

/// A client-provider runner's claim: the commitment (hex) of the execution
/// profile that it will run the invocation under.
pub struct ClientProviderClaimRequest {
    pub execution_profile_commitment_hex: String,
}

impl ClientProviderClaimRequest {
    /// The decoded execution-profile commitment of the claim.
    pub fn execution_profile_commitment(&self) -> (r: Result<Vec<u8>, AppError>)
        ensures
            bytes_of(r) == crate::agent_tools::commitment_result(self.execution_profile_commitment_hex@),
    {
        decode_commitment(self.execution_profile_commitment_hex.as_str())
    }
}

/// The kind of a structured language task, as far as surface bindings tell
/// them apart.
#[derive(Clone, Copy, Debug, PartialEq, Eq, Structural)]
pub enum LanguageTaskKind {
    InterpretProxyRequest,
    AnswerFromAuthorizedContext,
    SummarizeGovernanceDecision,
    Other,
}

/// Whose context an invocation runs in, to be looked up by the route.
#[derive(Clone, Copy, Debug, PartialEq, Eq, Structural)]
pub enum SurfacePrincipal {
    /// The agent's own principal.
    AgentPrincipal,
    /// The user of this open proxy request.
    ProxyRequestUser { request_id: u128 },
    /// The creator of this unanswered interrogation.
    InterrogationCreator { session_id: u128 },
    /// The requesting user.
    Actor,
}

/// Checks how an invocation binds to its surface and says whose context it
/// runs in: a generic invocation names no surface record; a user-proxy one
/// interprets exactly one proxy request; an interrogation answers exactly one
/// session; a governance summary summarizes for the requesting user.
pub fn surface_binding(
    surface: InvocationSurface,
    proxy_request_id: Option<u128>,
    interrogation_id: Option<u128>,
    task_kind: LanguageTaskKind,
) -> (r: Result<SurfacePrincipal, AppError>)
    ensures
        r == match surface {
            InvocationSurface::Generic => if proxy_request_id is Some || interrogation_id is Some {
                Err(AppError::BadRequest(BadRequestReason::GenericInvocationHasSurfaceReference))
            } else {
                Ok(SurfacePrincipal::AgentPrincipal)
            },
            InvocationSurface::UserProxy => if task_kind != LanguageTaskKind::InterpretProxyRequest
                || interrogation_id is Some {
                Err(AppError::BadRequest(BadRequestReason::InvalidProxyLanguageTaskBinding))
            } else {
                match proxy_request_id {
                    Some(id) => Ok(SurfacePrincipal::ProxyRequestUser { request_id: id }),
                    None => Err(AppError::BadRequest(BadRequestReason::ProxyInvocationRequiresRequest)),
                }
            },
            InvocationSurface::Interrogation => if task_kind != LanguageTaskKind::AnswerFromAuthorizedContext
                || proxy_request_id is Some {
                Err(AppError::BadRequest(BadRequestReason::InvalidInterrogationLanguageTaskBinding))
            } else {
                match interrogation_id {
                    Some(id) => Ok(SurfacePrincipal::InterrogationCreator { session_id: id }),
                    None => Err(AppError::BadRequest(BadRequestReason::InterrogationRequiresSession)),
                }
            },
            InvocationSurface::GovernanceSummary => if task_kind != LanguageTaskKind::SummarizeGovernanceDecision
                || proxy_request_id is Some || interrogation_id is Some {
                Err(AppError::BadRequest(BadRequestReason::InvalidGovernanceSummaryBinding))
            } else {
                Ok(SurfacePrincipal::Actor)
            },
        },
{
    match surface {
        InvocationSurface::Generic => {
            if proxy_request_id.is_some() || interrogation_id.is_some() {
                return Err(AppError::BadRequest(BadRequestReason::GenericInvocationHasSurfaceReference));
            }
            Ok(SurfacePrincipal::AgentPrincipal)
        },
        InvocationSurface::UserProxy => {
            if task_kind != LanguageTaskKind::InterpretProxyRequest || interrogation_id.is_some() {
                return Err(AppError::BadRequest(BadRequestReason::InvalidProxyLanguageTaskBinding));
            }
            match proxy_request_id {
                Some(id) => Ok(SurfacePrincipal::ProxyRequestUser { request_id: id }),
                None => Err(AppError::BadRequest(BadRequestReason::ProxyInvocationRequiresRequest)),
            }
        },
        InvocationSurface::Interrogation => {
            if task_kind != LanguageTaskKind::AnswerFromAuthorizedContext || proxy_request_id.is_some() {
                return Err(AppError::BadRequest(BadRequestReason::InvalidInterrogationLanguageTaskBinding));
            }
            match interrogation_id {
                Some(id) => Ok(SurfacePrincipal::InterrogationCreator { session_id: id }),
                None => Err(AppError::BadRequest(BadRequestReason::InterrogationRequiresSession)),
            }
        },
        InvocationSurface::GovernanceSummary => {
            if task_kind != LanguageTaskKind::SummarizeGovernanceDecision || proxy_request_id.is_some()
                || interrogation_id.is_some()
            {
                return Err(AppError::BadRequest(BadRequestReason::InvalidGovernanceSummaryBinding));
            }
            Ok(SurfacePrincipal::Actor)
        },
    }
}

/// The identities that a new agent's initial local goal statement names.
pub struct InitialGoalStatement {
    pub project_id: u128,
    pub local_revision: u64,
    pub agent_principal_identity_id: u128,
    pub controller_identity_id: u128,
    pub envelope_agent: u128,
    pub envelope_controller: u128,
    pub supersedes_revision: Option<u64>,
}

/// The initial local goal of a provisioned agent is the first revision, for
/// this project, naming the proposed agent and its controller in the statement
/// and its envelope, and superseding nothing.
pub fn check_initial_local_goal(
    statement: &InitialGoalStatement,
    project_id: u128,
    principal: u128,
    controller: u128,
) -> (r: Result<(), AppError>)
    ensures
        r is Ok <==> (statement.project_id == project_id && statement.local_revision == 1
            && statement.agent_principal_identity_id == principal
            && statement.controller_identity_id == controller && statement.envelope_agent == principal
            && statement.envelope_controller == controller && statement.supersedes_revision is None),
        r matches Err(e) ==> e == AppError::BadRequest(BadRequestReason::InitialLocalGoalMismatch),
{
    if statement.project_id != project_id || statement.local_revision != 1
        || statement.agent_principal_identity_id != principal || statement.controller_identity_id != controller
        || statement.envelope_agent != principal || statement.envelope_controller != controller
        || statement.supersedes_revision.is_some()
    {
        return Err(AppError::BadRequest(BadRequestReason::InitialLocalGoalMismatch));
    }
    Ok(())
}

/// Where an initial local goal comes from.
#[derive(Clone, Copy, Debug, PartialEq, Eq, Structural)]
pub enum LocalGoalOrigin {
    ControllerPrompt,
    AdministratorCreation { approval_id: u128 },
}

/// The origin of an initial local goal: a responsibility means the
/// controller's own prompt, an administrator-creation approval means creation
/// by an administrator; exceptions and global mandates cannot create agents.
pub fn initial_goal_origin(authorization: &LocalCompilationAuthorization) -> (r: Result<LocalGoalOrigin, AppError>)
    ensures
        r == match *authorization {
            LocalCompilationAuthorization::Responsibility { .. } => Ok(LocalGoalOrigin::ControllerPrompt),
            LocalCompilationAuthorization::AdministratorCreation { approval_id } =>
                Ok(LocalGoalOrigin::AdministratorCreation { approval_id }),
            _ => Err(AppError::BadRequest(BadRequestReason::InitialAuthorizationUnavailable)),
        },
{
    match *authorization {
        LocalCompilationAuthorization::Responsibility { .. } => Ok(LocalGoalOrigin::ControllerPrompt),
        LocalCompilationAuthorization::AdministratorCreation { approval_id } =>
            Ok(LocalGoalOrigin::AdministratorCreation { approval_id }),
        _ => Err(AppError::BadRequest(BadRequestReason::InitialAuthorizationUnavailable)),
    }
}

/// An administrator-created agent needs the administrator's signed creation
/// approval (else forbidden); any other agent may not carry one. Answers
/// whether the approval must be validated.
pub fn creation_approval_applicability(
    authorization: &LocalCompilationAuthorization,
    has_approval: bool,
) -> (r: Result<bool, AppError>)
    ensures
        r == match *authorization {
            LocalCompilationAuthorization::AdministratorCreation { .. } =>
                if has_approval { Ok(true) } else { Err(AppError::Forbidden) },
            _ => if has_approval {
                Err(AppError::BadRequest(BadRequestReason::CreationApprovalNotApplicable))
            } else {
                Ok(false)
            },
        },
{
    match *authorization {
        LocalCompilationAuthorization::AdministratorCreation { .. } => {
            if has_approval { Ok(true) } else { Err(AppError::Forbidden) }
        },
        _ => {
            if has_approval {
                Err(AppError::BadRequest(BadRequestReason::CreationApprovalNotApplicable))
            } else {
                Ok(false)
            }
        },
    }
}

/// Whether two source lists are the same list.
pub fn same_sources(a: &[InformationSource], b: &[InformationSource]) -> (eq: bool)
    ensures
        eq == (a@ == b@),
{
    if a.len() != b.len() {
        return false;
    }
    let n = a.len();
    for i in 0..n
        invariant
            n == a@.len(),
            n == b@.len(),
            forall|j: int| 0 <= j < i ==> a@[j] == b@[j],
    {
        if a[i] != b[i] {
            return false;
        }
    }
    assert(a@ =~= b@);
    true
}

/// An interrogation answer must be an answer artifact for the same session,
/// grounded in exactly the sources that were dispatched.
pub fn check_interrogation_answer(
    answer: Option<(u128, &[InformationSource])>,
    interrogation_id: u128,
    dispatched_sources: &[InformationSource],
) -> (r: Result<(), AppError>)
    ensures
        r == match answer {
            None => Err(AppError::BadRequest(BadRequestReason::InterrogationRequiresAnswerArtifact)),
            Some((session, sources)) => if session != interrogation_id || sources@ != dispatched_sources@ {
                Err(AppError::Conflict)
            } else {
                Ok(())
            },
        },
{
    match answer {
        None => Err(AppError::BadRequest(BadRequestReason::InterrogationRequiresAnswerArtifact)),
        Some((session, sources)) => {
            if session != interrogation_id || !same_sources(sources, dispatched_sources) {
                Err(AppError::Conflict)
            } else {
                Ok(())
            }
        },
    }
}

/// What checking a compilation statement's three commitments answers: each
/// hex commitment is decoded in turn and compared with the hash that the
/// server computed (of the ciphertext, the compiler output and its envelope);
/// a commitment that is not 32 bytes of hex is refused as such, and the first
/// one that differs is a mismatch.
pub open spec fn artifact_commitments_result(
    ciphertext_hex: Seq<char>, ciphertext_hash: Seq<u8>,
    output_hex: Seq<char>, output_hash: Seq<u8>,
    envelope_hex: Seq<char>, envelope_hash: Seq<u8>,
) -> Result<(), AppError> {
    let mismatch = AppError::BadRequest(BadRequestReason::CompilerArtifactCommitmentMismatch);
    match crate::agent_tools::commitment_result(ciphertext_hex) {
        Err(e) => Err(e),
        Ok(c) => if c != ciphertext_hash { Err(mismatch) } else {
            match crate::agent_tools::commitment_result(output_hex) {
                Err(e) => Err(e),
                Ok(o) => if o != output_hash { Err(mismatch) } else {
                    match crate::agent_tools::commitment_result(envelope_hex) {
                        Err(e) => Err(e),
                        Ok(v) => if v != envelope_hash { Err(mismatch) } else { Ok(()) },
                    }
                },
            }
        },
    }
}

/// Checks a compilation statement's commitments against the server's hashes:
/// the SHA-256 of the serialized ciphertext (computed here, and given back),
/// and the hashes of the compiler output and its envelope.
pub fn check_artifact_commitments(
    ciphertext_hex: &str, ciphertext: &[u8],
    output_hex: &str, output_hash: &[u8],
    envelope_hex: &str, envelope_hash: &[u8],
) -> (r: Result<Vec<u8>, AppError>)
    ensures
        match r {
            Ok(h) => h@ == crate::codec::sha256_of(ciphertext@)
                && artifact_commitments_result(ciphertext_hex@, crate::codec::sha256_of(ciphertext@), output_hex@,
                    output_hash@, envelope_hex@, envelope_hash@) == Ok::<(), AppError>(()),
            Err(e) => artifact_commitments_result(ciphertext_hex@, crate::codec::sha256_of(ciphertext@), output_hex@,
                output_hash@, envelope_hex@, envelope_hash@) == Err::<(), AppError>(e),
        },
{
    let ciphertext_hash = crate::codec::sha256_digest(ciphertext);
    let c = decode_commitment(ciphertext_hex)?;
    if !crate::codec::bytes_equal(c.as_slice(), ciphertext_hash.as_slice()) {
        return Err(AppError::BadRequest(BadRequestReason::CompilerArtifactCommitmentMismatch));
    }
    let o = decode_commitment(output_hex)?;
    if !crate::codec::bytes_equal(o.as_slice(), output_hash) {
        return Err(AppError::BadRequest(BadRequestReason::CompilerArtifactCommitmentMismatch));
    }
    let v = decode_commitment(envelope_hex)?;
    if !crate::codec::bytes_equal(v.as_slice(), envelope_hash) {
        return Err(AppError::BadRequest(BadRequestReason::CompilerArtifactCommitmentMismatch));
    }
    Ok(ciphertext_hash)
}

/// A local-goal compilation that an agent's controller records must be for
/// this project and name the agent's principal and controller, in the
/// statement and in its envelope; anything else is forbidden.
pub fn check_goal_statement_binding(
    actor: u128,
    agent_principal: u128,
    agent_controller: u128,
    project_id: u128,
    statement: &InitialGoalStatement,
) -> (r: Result<(), AppError>)
    ensures
        r is Ok <==> (agent_controller == actor && statement.project_id == project_id
            && statement.agent_principal_identity_id == agent_principal
            && statement.controller_identity_id == agent_controller
            && statement.envelope_agent == agent_principal && statement.envelope_controller == agent_controller),
        r matches Err(e) ==> e == AppError::Forbidden,
{
    if agent_controller != actor || statement.project_id != project_id
        || statement.agent_principal_identity_id != agent_principal
        || statement.controller_identity_id != agent_controller
        || statement.envelope_agent != agent_principal || statement.envelope_controller != agent_controller
    {
        return Err(AppError::Forbidden);
    }
    Ok(())
}

/// A later local goal of an existing agent can only be authorized by a
/// responsibility (its controller's own prompt).
pub fn recorded_goal_origin(authorization: &LocalCompilationAuthorization) -> (r: Result<LocalGoalOrigin, AppError>)
    ensures
        r == match *authorization {
            LocalCompilationAuthorization::Responsibility { .. } => Ok(LocalGoalOrigin::ControllerPrompt),
            _ => Err(AppError::BadRequest(BadRequestReason::LocalGoalAuthorizationUnavailable)),
        },
{
    match *authorization {
        LocalCompilationAuthorization::Responsibility { .. } => Ok(LocalGoalOrigin::ControllerPrompt),
        _ => Err(AppError::BadRequest(BadRequestReason::LocalGoalAuthorizationUnavailable)),
    }
}

/// The revision that a new local-goal revision supersedes: every revision
/// after the first supersedes one (else a conflict), and the first supersedes
/// none.
pub fn superseded_revision(revision: u64, supersedes: Option<u64>) -> (r: Result<Option<u64>, AppError>)
    ensures
        r == if revision > 1 {
            match supersedes { Some(s) => Ok(Some(s)), None => Err(AppError::Conflict) }
        } else if supersedes is Some {
            Err(AppError::BadRequest(BadRequestReason::FirstRevisionSupersedes))
        } else {
            Ok(None)
        },
{
    if revision > 1 {
        match supersedes {
            Some(s) => Ok(Some(s)),
            None => Err(AppError::Conflict),
        }
    } else if supersedes.is_some() {
        Err(AppError::BadRequest(BadRequestReason::FirstRevisionSupersedes))
    } else {
        Ok(None)
    }
}

/// Provisioning an agent or activating its local goal is for the human who
/// controls it: an agent, or a human other than the controller, is forbidden.
pub fn require_controlling_human(actor_is_agent: bool, controller: u128, actor: u128) -> (r: Result<(), AppError>)
    ensures
        r is Ok <==> (!actor_is_agent && controller == actor),
        r matches Err(e) ==> e == AppError::Forbidden,
{
    if actor_is_agent || controller != actor { Err(AppError::Forbidden) } else { Ok(()) }
}

/// Submitting an invocation's output is for an agent's runner; a human is
/// forbidden.
pub fn require_agent(actor_is_agent: bool) -> (r: Result<(), AppError>)
    ensures
        r is Ok <==> actor_is_agent,
        r matches Err(e) ==> e == AppError::Forbidden,
{
    if actor_is_agent { Ok(()) } else { Err(AppError::Forbidden) }
}

/// The stored draft contract must be the local goal being activated, at the
/// requested revision, for the agent's principal and controller; otherwise a
/// conflict.
pub fn check_local_goal_identity(
    contract_id: u128,
    contract_revision: u64,
    contract_agent: u128,
    contract_controller: u128,
    local_goal_id: u128,
    revision: u64,
    agent_principal: u128,
    agent_controller: u128,
) -> (r: Result<(), AppError>)
    ensures
        r is Ok <==> (contract_id == local_goal_id && contract_revision == revision
            && contract_agent == agent_principal && contract_controller == agent_controller),
        r matches Err(e) ==> e == AppError::Conflict,
{
    if contract_id != local_goal_id || contract_revision != revision || contract_agent != agent_principal
        || contract_controller != agent_controller
    {
        Err(AppError::Conflict)
    } else {
        Ok(())
    }
}

/// The stored draft prompt must be the contract's serialized prompt, stored
/// with its SHA-256; otherwise a conflict. Gives back the prompt's hash.
pub fn check_stored_prompt(stored_prompt: &[u8], prompt_bytes: &[u8], stored_prompt_hash: &[u8])
    -> (r: Result<Vec<u8>, AppError>)
    ensures
        r is Ok <==> (stored_prompt@ == prompt_bytes@
            && stored_prompt_hash@ == crate::codec::sha256_of(prompt_bytes@)),
        match r {
            Ok(h) => h@ == crate::codec::sha256_of(prompt_bytes@),
            Err(e) => e == AppError::Conflict,
        },
{
    let expected = crate::codec::sha256_digest(prompt_bytes);
    if !crate::codec::bytes_equal(stored_prompt, prompt_bytes)
        || !crate::codec::bytes_equal(stored_prompt_hash, expected.as_slice())
    {
        return Err(AppError::Conflict);
    }
    Ok(expected)
}

/// A controller's signed approval of the final prompt of a local goal; the
/// commitments are hex as signed.
pub struct FinalPromptApprovalStatement {
    pub approval_id: u128,
    pub project_id: u128,
    pub draft_id: u128,
    pub agent_principal_identity_id: u128,
    pub controller_identity_id: u128,
    pub local_goal_id: u128,
    pub local_revision: u64,
    pub prompt_commitment_hex: String,
    pub ciphertext_commitment_hex: String,
    pub compilation_certificate_id: u128,
    pub structured_output_hash_hex: String,
    pub approval_identity_hash_hex: String,
    pub idempotency_key: u128,
}

/// What a final-prompt approval must bind: the project, prompt draft, agent
/// principal and controller, local goal and revision, compilation certificate,
/// and the compiler output hash, prompt commitment and ciphertext commitment.
pub struct FinalPromptApprovalExpectation {
    pub project_id: u128,
    pub draft_id: u128,
    pub agent_principal_identity_id: u128,
    pub controller_identity_id: u128,
    pub local_goal_id: u128,
    pub local_revision: u64,
    pub compilation_certificate_id: u128,
    pub output_hash: Vec<u8>,
    pub prompt_commitment: Vec<u8>,
    pub ciphertext_commitment: Vec<u8>,
}

/// What checking a final-prompt approval's binding answers: its identifying
/// fields must be the expected ones (else a conflict); then its structured
/// output hash, prompt commitment, ciphertext commitment and approval identity
/// hash are decoded in turn (a malformed one refused as such), each to equal
/// the expected value (else a conflict), the last the approval's identity hash.
pub open spec fn final_prompt_approval_result(
    st: FinalPromptApprovalStatement,
    expected: FinalPromptApprovalExpectation,
    identity_hash: Seq<u8>,
) -> Result<(), AppError> {
    if st.project_id != expected.project_id || st.draft_id != expected.draft_id
        || st.agent_principal_identity_id != expected.agent_principal_identity_id
        || st.controller_identity_id != expected.controller_identity_id
        || st.local_goal_id != expected.local_goal_id || st.local_revision != expected.local_revision
        || st.compilation_certificate_id != expected.compilation_certificate_id {
        Err(AppError::Conflict)
    } else {
        match crate::agent_tools::commitment_result(st.structured_output_hash_hex@) {
            Err(e) => Err(e),
            Ok(o) => if o != expected.output_hash@ { Err(AppError::Conflict) } else {
                match crate::agent_tools::commitment_result(st.prompt_commitment_hex@) {
                    Err(e) => Err(e),
                    Ok(pc) => if pc != expected.prompt_commitment@ { Err(AppError::Conflict) } else {
                        match crate::agent_tools::commitment_result(st.ciphertext_commitment_hex@) {
                            Err(e) => Err(e),
                            Ok(c) => if c != expected.ciphertext_commitment@ { Err(AppError::Conflict) } else {
                                match crate::agent_tools::commitment_result(st.approval_identity_hash_hex@) {
                                    Err(e) => Err(e),
                                    Ok(i) => if i != identity_hash { Err(AppError::Conflict) } else { Ok(()) },
                                }
                            },
                        }
                    },
                }
            },
        }
    }
}

/// Checks that a final-prompt approval binds exactly what it approves
/// (see `final_prompt_approval_result`); `identity_hash` is the approval's
/// identity hash, computed from its statement by the caller.
pub fn check_final_prompt_approval_binding(
    st: &FinalPromptApprovalStatement,
    expected: &FinalPromptApprovalExpectation,
    identity_hash: &[u8],
) -> (r: Result<(), AppError>)
    ensures
        r == final_prompt_approval_result(*st, *expected, identity_hash@),
{
    if st.project_id != expected.project_id || st.draft_id != expected.draft_id
        || st.agent_principal_identity_id != expected.agent_principal_identity_id
        || st.controller_identity_id != expected.controller_identity_id
        || st.local_goal_id != expected.local_goal_id || st.local_revision != expected.local_revision
        || st.compilation_certificate_id != expected.compilation_certificate_id
    {
        return Err(AppError::Conflict);
    }
    let o = decode_commitment(st.structured_output_hash_hex.as_str())?;
    if !crate::codec::bytes_equal(o.as_slice(), expected.output_hash.as_slice()) {
        return Err(AppError::Conflict);
    }
    let pc = decode_commitment(st.prompt_commitment_hex.as_str())?;
    if !crate::codec::bytes_equal(pc.as_slice(), expected.prompt_commitment.as_slice()) {
        return Err(AppError::Conflict);
    }
    let c = decode_commitment(st.ciphertext_commitment_hex.as_str())?;
    if !crate::codec::bytes_equal(c.as_slice(), expected.ciphertext_commitment.as_slice()) {
        return Err(AppError::Conflict);
    }
    let i = decode_commitment(st.approval_identity_hash_hex.as_str())?;
    if !crate::codec::bytes_equal(i.as_slice(), identity_hash) {
        return Err(AppError::Conflict);
    }
    Ok(())
}

/// The materialization snapshot of a cross-owner assignment must hold the
/// exact prompt and name the task that the assignment was routed for;
/// otherwise a conflict.
pub fn check_materialization_snapshot(exact_prompt: bool, snapshot_task_resource: u128, routed_task_resource: u128)
    -> (r: Result<(), AppError>)
    ensures
        r is Ok <==> (exact_prompt && snapshot_task_resource == routed_task_resource),
        r matches Err(e) ==> e == AppError::Conflict,
{
    if !exact_prompt || snapshot_task_resource != routed_task_resource { Err(AppError::Conflict) } else { Ok(()) }
}

/// A cross-owner assignment is materialized only while its task intent and
/// provenance are still projected and the kernel still routes it
/// automatically from the active obligation; otherwise a conflict.
pub fn check_materialization_route(projected: bool, route: CrossOwnerAssignmentRoute) -> (r: Result<(), AppError>)
    ensures
        r is Ok <==> (projected && route == CrossOwnerAssignmentRoute::AutomaticFromActiveObligation),
        r matches Err(e) ==> e == AppError::Conflict,
{
    if !projected {
        return Err(AppError::Conflict);
    }
    match route {
        CrossOwnerAssignmentRoute::AutomaticFromActiveObligation => Ok(()),
        _ => Err(AppError::Conflict),
    }
}

/// Domain separation of an agent's audit-log entry hashes.
pub const AGENT_AUDIT_CONTEXT: &'static str = "sprout-agent-audit-v1";

/// Domain separation of a user's governance audit-log entry hashes.
pub const USER_GOVERNANCE_AUDIT_CONTEXT: &'static str = "sprout-user-governance-audit-v1";

/// An identifier that may be absent, as hashed: its 16 bytes, or nothing.
pub open spec fn optional_id_bytes(id: Option<u128>) -> Seq<u8> {
    match id { Some(i) => crate::codec::uuid_bytes(i), None => Seq::empty() }
}

/// An optional byte string, as hashed: its bytes, or nothing.
pub open spec fn optional_bytes(b: Option<Seq<u8>>) -> Seq<u8> {
    match b { Some(v) => v, None => Seq::empty() }
}

/// The bytes hashed for an audit-log entry: the log's context, the project,
/// the subject (the agent, or the governed user), the optional related id (an
/// invocation, or an agent), the acting identity and device, the event kind,
/// the event's JSON facts and, after the first entry, the previous entry's
/// hash.
pub open spec fn audit_message(
    context: Seq<u8>,
    project_id: u128,
    subject_id: u128,
    related_id: Option<u128>,
    actor: u128,
    actor_device: u128,
    event_kind: Seq<u8>,
    facts_json: Seq<u8>,
    previous: Option<Seq<u8>>,
) -> Seq<u8> {
    context + crate::codec::uuid_bytes(project_id) + crate::codec::uuid_bytes(subject_id)
        + optional_id_bytes(related_id) + crate::codec::uuid_bytes(actor) + crate::codec::uuid_bytes(actor_device)
        + event_kind + facts_json + optional_bytes(previous)
}

fn audit_entry_hash(
    context: &[u8],
    project_id: u128,
    subject_id: u128,
    related_id: Option<u128>,
    actor: u128,
    actor_device: u128,
    event_kind: &str,
    facts_json: &[u8],
    previous: Option<&[u8]>,
) -> (hash: Vec<u8>)
    ensures
        hash@ == crate::codec::sha256_of(audit_message(context@, project_id, subject_id, related_id, actor,
            actor_device, event_kind.spec_bytes(), facts_json@, match previous { Some(p) => Some(p@), None => None })),
        hash@.len() == 32,
{
    let mut message: Vec<u8> = Vec::new();
    crate::codec::push_all(&mut message, context);
    crate::codec::push_be_bytes(&mut message, project_id, 16);
    crate::codec::push_be_bytes(&mut message, subject_id, 16);
    match related_id {
        Some(id) => crate::codec::push_be_bytes(&mut message, id, 16),
        None => {},
    }
    crate::codec::push_be_bytes(&mut message, actor, 16);
    crate::codec::push_be_bytes(&mut message, actor_device, 16);
    crate::codec::push_all(&mut message, event_kind.as_bytes());
    crate::codec::push_all(&mut message, facts_json);
    match previous {
        Some(p) => crate::codec::push_all(&mut message, p),
        None => {},
    }
    assert(message@ =~= audit_message(context@, project_id, subject_id, related_id, actor, actor_device,
        event_kind.spec_bytes(), facts_json@, match previous { Some(p) => Some(p@), None => None }));
    crate::codec::sha256_digest(message.as_slice())
}

/// The hash of a new entry of an agent's audit log, chained to the agent's
/// previous entry; `invocation_id` is the invocation the event concerns, if
/// any.
pub fn agent_audit_entry_hash(
    project_id: u128,
    agent_id: u128,
    invocation_id: Option<u128>,
    actor: u128,
    actor_device: u128,
    event_kind: &str,
    facts_json: &[u8],
    previous: Option<&[u8]>,
) -> (hash: Vec<u8>)
    ensures
        hash@ == crate::codec::sha256_of(audit_message(AGENT_AUDIT_CONTEXT.spec_bytes(), project_id, agent_id,
            invocation_id, actor, actor_device, event_kind.spec_bytes(), facts_json@,
            match previous { Some(p) => Some(p@), None => None })),
        hash@.len() == 32,
{
    audit_entry_hash(AGENT_AUDIT_CONTEXT.as_bytes(), project_id, agent_id, invocation_id, actor, actor_device,
        event_kind, facts_json, previous)
}

/// The hash of a new entry of a user's governance audit log, chained to the
/// user's previous entry; `agent_id` is the agent the event concerns, if any.
pub fn user_governance_audit_entry_hash(
    project_id: u128,
    subject_user_id: u128,
    agent_id: Option<u128>,
    actor: u128,
    actor_device: u128,
    event_kind: &str,
    facts_json: &[u8],
    previous: Option<&[u8]>,
) -> (hash: Vec<u8>)
    ensures
        hash@ == crate::codec::sha256_of(audit_message(USER_GOVERNANCE_AUDIT_CONTEXT.spec_bytes(), project_id,
            subject_user_id, agent_id, actor, actor_device, event_kind.spec_bytes(), facts_json@,
            match previous { Some(p) => Some(p@), None => None })),
        hash@.len() == 32,
{
    audit_entry_hash(USER_GOVERNANCE_AUDIT_CONTEXT.as_bytes(), project_id, subject_user_id, agent_id, actor,
        actor_device, event_kind, facts_json, previous)
}

/// How long a runner's claim on a model invocation lasts, in nanoseconds
/// (300 seconds).
pub const RUNNER_LEASE_NANOS: i128 = 300_000_000_000;

/// A runner's claim on a queued model invocation: the attempt it dispatches
/// (one after the stored attempt) and when its lease expires (`RUNNER_LEASE_NANOS`
/// after the dispatch).
pub fn model_invocation_claim(stored_attempt: i32, dispatched_at: i128) -> (r: (i32, i128))
    requires
        stored_attempt < i32::MAX,
        crate::agent_tools::instant_in_range(dispatched_at),
    ensures
        r.0 == stored_attempt + 1,
        r.1 == dispatched_at + RUNNER_LEASE_NANOS,
{
    (stored_attempt + 1, dispatched_at + RUNNER_LEASE_NANOS)
}

/// What the run history shows of how a work item got its authority.
#[derive(Clone, Copy, Debug, PartialEq, Eq, Structural)]
pub enum WorkAuthorityEvidence {
    /// More than one task-to-work link, or a first sighting that differs
    /// from the work item.
    Ambiguous,
    /// One task-to-work link: a possible human delegation, which is not
    /// supported as authority.
    PossibleUnsupportedHumanDelegation,
    /// Nothing that establishes the authority.
    Unknown,
    /// The work item was created when the sponsor initialized the run.
    RunInitialization { sponsor: u128 },
    /// The work item continues the contract from its parent.
    ContractContinuation { parent: u128 },
}

/// The first transition of the run history in which a work item appears.
pub struct FirstWorkSighting {
    /// Whether the work item as first recorded equals the current one in
    /// every identifying field.
    pub same_work: bool,
    pub transition_kind: String,
    pub state_version: i64,
    pub actor: Option<u128>,
}

/// The evidence of a work item's authority, from the number of task-to-work
/// causal links to it and its first sighting in the run history; anything
/// that does not establish an origin exactly fails closed (`Unknown`,
/// `Ambiguous` or `PossibleUnsupportedHumanDelegation`).
pub open spec fn work_authority_evidence_of(
    task_to_work_links: i64,
    first: Option<(bool, Seq<char>, i64, Option<u128>)>,
    work_parent: Option<u128>,
    work_has_source_comment: bool,
    run_sponsor: u128,
) -> WorkAuthorityEvidence {
    if task_to_work_links > 1 {
        WorkAuthorityEvidence::Ambiguous
    } else if task_to_work_links == 1 {
        WorkAuthorityEvidence::PossibleUnsupportedHumanDelegation
    } else {
        match first {
            None => WorkAuthorityEvidence::Unknown,
            Some((same_work, kind, version, actor)) => if !same_work {
                WorkAuthorityEvidence::Ambiguous
            } else {
                match work_parent {
                    None => if version == 1 && kind == "initialized"@ && actor == Some(run_sponsor) {
                        WorkAuthorityEvidence::RunInitialization { sponsor: run_sponsor }
                    } else {
                        WorkAuthorityEvidence::Unknown
                    },
                    Some(parent) => if version > 1 && !work_has_source_comment
                        && (kind == "frontier_refreshed"@ || kind == "work_succeeded"@ || kind == "work_failed"@) {
                        WorkAuthorityEvidence::ContractContinuation { parent }
                    } else {
                        WorkAuthorityEvidence::Unknown
                    },
                }
            },
        }
    }
}

/// A first sighting as the evidence reads it.
pub open spec fn sighting_view(s: FirstWorkSighting) -> (bool, Seq<char>, i64, Option<u128>) {
    (s.same_work, s.transition_kind@, s.state_version, s.actor)
}

/// Decides the evidence of a work item's authority (see
/// `work_authority_evidence_of`).
pub fn work_authority_evidence(
    task_to_work_links: i64,
    first: Option<&FirstWorkSighting>,
    work_parent: Option<u128>,
    work_has_source_comment: bool,
    run_sponsor: u128,
) -> (e: WorkAuthorityEvidence)
    ensures
        e == work_authority_evidence_of(task_to_work_links,
            match first { Some(s) => Some(sighting_view(*s)), None => None },
            work_parent, work_has_source_comment, run_sponsor),
{
    if task_to_work_links > 1 {
        return WorkAuthorityEvidence::Ambiguous;
    }
    if task_to_work_links == 1 {
        return WorkAuthorityEvidence::PossibleUnsupportedHumanDelegation;
    }
    let first = match first {
        None => return WorkAuthorityEvidence::Unknown,
        Some(f) => f,
    };
    if !first.same_work {
        return WorkAuthorityEvidence::Ambiguous;
    }
    let kind = first.transition_kind.as_str();
    match work_parent {
        None => if first.state_version == 1 && text_eq(kind, "initialized") && first.actor == Some(run_sponsor) {
            WorkAuthorityEvidence::RunInitialization { sponsor: run_sponsor }
        } else {
            WorkAuthorityEvidence::Unknown
        },
        Some(parent) => if first.state_version > 1 && !work_has_source_comment
            && (text_eq(kind, "frontier_refreshed") || text_eq(kind, "work_succeeded") || text_eq(kind, "work_failed")) {
            WorkAuthorityEvidence::ContractContinuation { parent }
        } else {
            WorkAuthorityEvidence::Unknown
        },
    }
}

/// What the submission route knows of one proposed effect when it checks it:
/// the resource and operation, whether the submitting actor may perform that
/// operation there, whether the information flow from the invocation's
/// sources to the resource's readers is allowed, the requested
/// materialization, and whether its info document lies on that resource.
pub struct EffectFacts {
    pub resource_id: u128,
    pub operation: ResourceOperation,
    pub actor_may_access: bool,
    pub information_flow_allowed: bool,
    pub materialization: Option<MaterializationKind>,
    pub document_on_resource: bool,
}

/// What checking one effect answers: outside the output's resources, the
/// authority envelope or the actor's access, forbidden; a disallowed
/// information flow, a governance violation; then the materialization must be
/// supported, need `edit_info`, and name a document on the resource.
pub open spec fn effect_result(
    output_resources: Seq<u128>,
    authority: Seq<(u128, ResourceOperation)>,
    e: EffectFacts,
) -> Result<(), AppError> {
    if !effect_within_authority(output_resources, authority, e.resource_id, e.operation) || !e.actor_may_access {
        Err(AppError::Forbidden)
    } else if !e.information_flow_allowed {
        Err(AppError::BadRequest(BadRequestReason::AgentGovernanceInvariantFailed))
    } else {
        match e.materialization {
            None => Err(AppError::BadRequest(BadRequestReason::UnsupportedMaterializer)),
            Some(MaterializationKind::ReplaceInfoDocument { .. }) => if e.operation != ResourceOperation::EditInfo {
                Err(AppError::BadRequest(BadRequestReason::MaterializationRequiresEditInfo))
            } else if !e.document_on_resource {
                Err(AppError::BadRequest(BadRequestReason::MaterializationResourceMismatch))
            } else {
                Ok(())
            },
        }
    }
}

/// What checking a submission's effects answers: the first effect, in the
/// order proposed, that fails its check gives the answer; if none fails, Ok.
pub open spec fn effects_result(
    output_resources: Seq<u128>,
    authority: Seq<(u128, ResourceOperation)>,
    effects: Seq<EffectFacts>,
) -> Result<(), AppError>
    decreases effects.len(),
{
    if effects.len() == 0 {
        Ok(())
    } else {
        match effect_result(output_resources, authority, effects[0]) {
            Err(e) => Err(e),
            Ok(()) => effects_result(output_resources, authority, effects.drop_first()),
        }
    }
}

/// Checks one proposed effect (see `effect_result`).
pub fn check_effect(output_resources: &[u128], authority: &[(u128, ResourceOperation)], e: &EffectFacts)
    -> (r: Result<(), AppError>)
    ensures
        r == effect_result(output_resources@, authority@, *e),
{
    if !check_effect_authority(output_resources, authority, e.resource_id, e.operation) || !e.actor_may_access {
        return Err(AppError::Forbidden);
    }
    if !e.information_flow_allowed {
        return Err(AppError::BadRequest(BadRequestReason::AgentGovernanceInvariantFailed));
    }
    check_effect_materialization(e.materialization, e.operation)?;
    if !e.document_on_resource {
        return Err(AppError::BadRequest(BadRequestReason::MaterializationResourceMismatch));
    }
    Ok(())
}

/// Checks every proposed effect of a submission in order; the first refusal
/// is the answer (see `effects_result`).
pub fn check_submission_effects(
    output_resources: &[u128],
    authority: &[(u128, ResourceOperation)],
    effects: &[EffectFacts],
) -> (r: Result<(), AppError>)
    ensures
        r == effects_result(output_resources@, authority@, effects@),
{
    let n = effects.len();
    assert(effects@.skip(0) =~= effects@);
    for i in 0..n
        invariant
            n == effects@.len(),
            effects_result(output_resources@, authority@, effects@)
                == effects_result(output_resources@, authority@, effects@.skip(i as int)),
    {
        let r = check_effect(output_resources, authority, &effects[i]);
        assert(effects@.skip(i as int).drop_first() =~= effects@.skip(i + 1));
        assert(effects@.skip(i as int)[0] == effects@[i as int]);
        if r.is_err() {
            return r;
        }
    }
    assert(effects@.skip(n as int) =~= Seq::<EffectFacts>::empty());
    Ok(())
}

/// The state of a stored local-goal revision.
#[derive(Clone, Copy, Debug, PartialEq, Eq, Structural)]
pub enum RevisionState {
    Draft,
    Active,
    Superseded,
}

/// A stored revision of an agent's local goal.
#[derive(Clone, Copy, Debug, PartialEq, Eq, Structural)]
pub struct StoredRevision {
    pub revision: u64,
    pub state: RevisionState,
}

/// Whether the stored revisions hold `revision` in `state`.
pub open spec fn holds_revision(rows: Seq<StoredRevision>, revision: u64, state: RevisionState) -> bool {
    exists|i: int| 0 <= i < rows.len() && (#[trigger] rows[i]).revision == revision && rows[i].state == state
}

/// Whether some stored revision is active.
pub open spec fn any_active(rows: Seq<StoredRevision>) -> bool {
    exists|i: int| 0 <= i < rows.len() && (#[trigger] rows[i]).state == RevisionState::Active
}

/// Each revision is stored once.
pub open spec fn revisions_unique(rows: Seq<StoredRevision>) -> bool {
    forall|i: int, j: int| 0 <= i < j < rows.len() ==> (#[trigger] rows[i]).revision != (#[trigger] rows[j]).revision
}

/// The revisions after activating `revision`: the superseded one (if any)
/// superseded, the activated one active, the others unchanged.
pub open spec fn activated_rows(rows: Seq<StoredRevision>, revision: u64, superseded: Option<u64>) -> Seq<StoredRevision> {
    rows.map_values(|r: StoredRevision|
        if superseded == Some(r.revision) {
            StoredRevision { revision: r.revision, state: RevisionState::Superseded }
        } else if r.revision == revision {
            StoredRevision { revision: r.revision, state: RevisionState::Active }
        } else {
            r
        })
}

/// What activating a local-goal revision does to the stored revisions: a
/// later revision supersedes the active revision it names (a conflict when it
/// names none, or that one is not active); a first revision needs no active
/// one; and the revision itself must be a draft. A refused activation changes
/// nothing.
pub open spec fn activation_result(rows: Seq<StoredRevision>, revision: u64, supersedes: Option<u64>)
    -> Result<Seq<StoredRevision>, AppError> {
    if revision > 1 {
        match supersedes {
            None => Err(AppError::Conflict),
            Some(s) => if !holds_revision(rows, s, RevisionState::Active) {
                Err(AppError::Conflict)
            } else if !holds_revision(rows, revision, RevisionState::Draft) {
                Err(AppError::Conflict)
            } else {
                Ok(activated_rows(rows, revision, Some(s)))
            },
        }
    } else if any_active(rows) {
        Err(AppError::Conflict)
    } else if !holds_revision(rows, revision, RevisionState::Draft) {
        Err(AppError::Conflict)
    } else {
        Ok(activated_rows(rows, revision, None))
    }
}

fn find_revision(rows: &Vec<StoredRevision>, revision: u64, state: RevisionState) -> (b: bool)
    ensures
        b == holds_revision(rows@, revision, state),
{
    let n = rows.len();
    for i in 0..n
        invariant
            n == rows@.len(),
            forall|k: int| 0 <= k < i ==> !((#[trigger] rows@[k]).revision == revision && rows@[k].state == state),
    {
        if rows[i].revision == revision && rows[i].state == state {
            return true;
        }
    }
    false
}

/// Activates a local-goal revision in the stored revisions (see
/// `activation_result`).
pub fn activate_revision(rows: &mut Vec<StoredRevision>, revision: u64, supersedes: Option<u64>)
    -> (r: Result<(), AppError>)
    ensures
        match activation_result(old(rows)@, revision, supersedes) {
            Ok(after) => r is Ok && final(rows)@ == after,
            Err(e) => r == Err::<(), AppError>(e) && final(rows)@ == old(rows)@,
        },
{
    let superseded = if revision > 1 {
        let s = match supersedes {
            None => return Err(AppError::Conflict),
            Some(s) => s,
        };
        if !find_revision(rows, s, RevisionState::Active) {
            return Err(AppError::Conflict);
        }
        Some(s)
    } else {
        let n = rows.len();
        for i in 0..n
            invariant
                n == rows@.len(),
                revision <= 1,
                rows@ == old(rows)@,
                forall|k: int| 0 <= k < i ==> (#[trigger] rows@[k]).state != RevisionState::Active,
        {
            if rows[i].state == RevisionState::Active {
                assert(any_active(rows@)) by { assert(rows@[i as int].state == RevisionState::Active); }
                return Err(AppError::Conflict);
            }
        }
        None
    };
    if !find_revision(rows, revision, RevisionState::Draft) {
        return Err(AppError::Conflict);
    }
    let ghost before = rows@;
    let n = rows.len();
    for i in 0..n
        invariant
            n == rows@.len(),
            before.len() == n,
            forall|k: int| 0 <= k < i ==> (#[trigger] rows@[k]) == activated_rows(before, revision, superseded)[k],
            forall|k: int| i <= k < n ==> (#[trigger] rows@[k]) == before[k],
    {
        let row = rows[i];
        let updated = if superseded == Some(row.revision) {
            StoredRevision { revision: row.revision, state: RevisionState::Superseded }
        } else if row.revision == revision {
            StoredRevision { revision: row.revision, state: RevisionState::Active }
        } else {
            row
        };
        rows.set(i, updated);
    }
    assert(rows@ =~= activated_rows(before, revision, superseded));
    Ok(())
}

/// Activation keeps one active revision: from stored revisions, each stored
/// once and at most one active, an accepted activation leaves exactly the
/// activated revision active, and the revision it supersedes superseded.
pub proof fn activation_leaves_one_active_revision(rows: Seq<StoredRevision>, revision: u64, supersedes: Option<u64>)
    requires
        revisions_unique(rows),
        forall|i: int, j: int| 0 <= i < rows.len() && 0 <= j < rows.len()
            && (#[trigger] rows[i]).state == RevisionState::Active && (#[trigger] rows[j]).state == RevisionState::Active
            ==> i == j,
    ensures
        activation_result(rows, revision, supersedes) matches Ok(after) ==> {
            &&& revisions_unique(after)
            &&& holds_revision(after, revision, RevisionState::Active)
            &&& forall|i: int| 0 <= i < after.len() && (#[trigger] after[i]).state == RevisionState::Active
                ==> after[i].revision == revision
            &&& (revision > 1 ==> (supersedes matches Some(s) && holds_revision(after, s, RevisionState::Superseded)))
        },
{
    if let Ok(after) = activation_result(rows, revision, supersedes) {
        let superseded = if revision > 1 { supersedes } else { None };
        assert(after == activated_rows(rows, revision, superseded));
        let d = choose|i: int| 0 <= i < rows.len() && (#[trigger] rows[i]).revision == revision
            && rows[i].state == RevisionState::Draft;
        assert(after[d].revision == revision);
        if revision > 1 {
            let s = supersedes.unwrap();
            let a = choose|i: int| 0 <= i < rows.len() && (#[trigger] rows[i]).revision == s
                && rows[i].state == RevisionState::Active;
            assert(after[a].revision == s && after[a].state == RevisionState::Superseded);
            assert forall|i: int| 0 <= i < after.len() && (#[trigger] after[i]).state == RevisionState::Active
                implies after[i].revision == revision by {
                if after[i].revision != revision && superseded != Some(rows[i].revision) {
                    assert(rows[i].state == RevisionState::Active);
                    assert(rows[a].state == RevisionState::Active);
                }
            }
        } else {
            assert forall|i: int| 0 <= i < after.len() && (#[trigger] after[i]).state == RevisionState::Active
                implies after[i].revision == revision by {
                if after[i].revision != revision {
                    assert(rows[i].state == RevisionState::Active);
                }
            }
        }
        assert(revisions_unique(after)) by {
            assert forall|i: int, j: int| 0 <= i < j < after.len() implies
                (#[trigger] after[i]).revision != (#[trigger] after[j]).revision by {
                assert(rows[i].revision != rows[j].revision);
            }
        }
    }
}

/// The laws of work-authority evidence. A work item with a parent, no
/// task-to-work link, and an unchanged first sighting at a state version
/// after the first, without a source comment, continues the contract from its
/// parent when it was first seen in a frontier refresh or in a work item's
/// success or failure. Conversely, a continuation (or a run initialization) is
/// only ever answered when all of its conditions hold: the decision fails
/// closed.
pub proof fn work_authority_evidence_laws(
    links: i64,
    same_work: bool,
    kind: Seq<char>,
    version: i64,
    actor: Option<u128>,
    parent: Option<u128>,
    source_comment: bool,
    sponsor: u128,
)
    ensures
        (links == 0 && same_work && version > 1 && !source_comment && parent is Some
            && (kind == "frontier_refreshed"@ || kind == "work_succeeded"@ || kind == "work_failed"@))
            ==> work_authority_evidence_of(links, Some((same_work, kind, version, actor)), parent, source_comment, sponsor)
                == (WorkAuthorityEvidence::ContractContinuation { parent: parent.unwrap() }),
        (links == 0 && same_work && version == 1 && kind == "initialized"@ && actor == Some(sponsor) && parent is None)
            ==> work_authority_evidence_of(links, Some((same_work, kind, version, actor)), parent, source_comment, sponsor)
                == (WorkAuthorityEvidence::RunInitialization { sponsor }),
        work_authority_evidence_of(links, Some((same_work, kind, version, actor)), parent, source_comment, sponsor)
            matches WorkAuthorityEvidence::ContractContinuation { parent: p } ==> {
                &&& links <= 0 && same_work && version > 1 && !source_comment && parent == Some(p)
                &&& (kind == "frontier_refreshed"@ || kind == "work_succeeded"@ || kind == "work_failed"@)
            },
        work_authority_evidence_of(links, Some((same_work, kind, version, actor)), parent, source_comment, sponsor)
            matches WorkAuthorityEvidence::RunInitialization { sponsor: s } ==> {
                &&& links <= 0 && same_work && version == 1 && kind == "initialized"@
                &&& actor == Some(sponsor) && s == sponsor && parent is None
            },
        links > 1 ==> work_authority_evidence_of(links, Some((same_work, kind, version, actor)), parent,
            source_comment, sponsor) == WorkAuthorityEvidence::Ambiguous,
        links == 1 ==> work_authority_evidence_of(links, Some((same_work, kind, version, actor)), parent,
            source_comment, sponsor) == WorkAuthorityEvidence::PossibleUnsupportedHumanDelegation,
        links <= 0 ==> work_authority_evidence_of(links, None, parent, source_comment, sponsor)
            == WorkAuthorityEvidence::Unknown,
{
}

/// The laws of activation over stored revisions: an accepted activation keeps
/// every row's revision, leaves every row other than the activated revision
/// and the one it supersedes exactly as it was, makes the activated revision
/// active and the superseded one superseded.
pub proof fn activation_touches_only_its_two_revisions(rows: Seq<StoredRevision>, revision: u64, supersedes: Option<u64>)
    ensures
        activation_result(rows, revision, supersedes) matches Ok(after) ==> {
            &&& after.len() == rows.len()
            &&& forall|i: int| 0 <= i < rows.len() ==> (#[trigger] after[i]).revision == rows[i].revision
            &&& forall|i: int| 0 <= i < rows.len() && rows[i].revision != revision
                && !(revision > 1 && supersedes == Some(rows[i].revision)) ==> #[trigger] after[i] == rows[i]
            &&& forall|i: int| 0 <= i < rows.len() && rows[i].revision == revision
                && !(revision > 1 && supersedes == Some(revision))
                ==> (#[trigger] after[i]).state == RevisionState::Active
            &&& forall|i: int| 0 <= i < rows.len() && revision > 1 && supersedes == Some(rows[i].revision)
                ==> (#[trigger] after[i]).state == RevisionState::Superseded
        },
{
}

/// A source's stored columns determine the source: two different sources
/// never share their kind, resource and record columns, so the record column
/// is the source's own record (never its resource).
pub proof fn source_columns_determine_the_source(a: InformationSource, b: InformationSource)
    ensures
        spec_source_columns(a) == spec_source_columns(b) ==> a == b,
{
    reveal_strlit("resource_body");
    reveal_strlit("comment");
    reveal_strlit("info_document");
    reveal_strlit("info_file");
    reveal_strlit("tool_output");
    reveal_strlit("proxy_transcript");
    reveal_strlit("event_history");
    reveal_strlit("provenance");
    let (ka, kb) = (spec_source_columns(a).0, spec_source_columns(b).0);
    if spec_source_columns(a) == spec_source_columns(b) {
        assert(ka.len() == kb.len() && ka[0] == kb[0] && ka[ka.len() - 1] == kb[kb.len() - 1]);
        assert(ka.len() < 6 || ka[5] == kb[5]);
    }
}

/// The laws of the compilation commitments: they are accepted exactly when
/// each of the three decodes to a 32-byte commitment equal to the server's
/// hash of the ciphertext, of the compiler output and of its envelope; a
/// well-formed commitment that differs from its hash is a mismatch.
pub proof fn artifact_commitments_laws(
    ciphertext_hex: Seq<char>, ciphertext_hash: Seq<u8>,
    output_hex: Seq<char>, output_hash: Seq<u8>,
    envelope_hex: Seq<char>, envelope_hash: Seq<u8>,
)
    ensures
        artifact_commitments_result(ciphertext_hex, ciphertext_hash, output_hex, output_hash, envelope_hex,
            envelope_hash) is Ok
            <==> (hex_decoding(ciphertext_hex) == Some(ciphertext_hash) && ciphertext_hash.len() == 32
                && hex_decoding(output_hex) == Some(output_hash) && output_hash.len() == 32
                && hex_decoding(envelope_hex) == Some(envelope_hash) && envelope_hash.len() == 32),
        (hex_decoding(ciphertext_hex) == Some(ciphertext_hash) && ciphertext_hash.len() == 32
            && (hex_decoding(output_hex) matches Some(o) && o.len() == 32 && o != output_hash))
            ==> artifact_commitments_result(ciphertext_hex, ciphertext_hash, output_hex, output_hash, envelope_hex,
                envelope_hash) == Err::<(), AppError>(AppError::BadRequest(BadRequestReason::CompilerArtifactCommitmentMismatch)),
{
}

/// The obligations whose discharge a condition mentions.
pub open spec fn condition_obligations(c: ContractCondition) -> Set<u128>
    decreases c,
{
    match c {
        ContractCondition::ObligationDone { obligation } => set![obligation],
        ContractCondition::All { left, right } => condition_obligations(*left).union(condition_obligations(*right)),
        ContractCondition::Any { left, right } => condition_obligations(*left).union(condition_obligations(*right)),
        ContractCondition::Neg { condition } => condition_obligations(*condition),
        _ => Set::empty(),
    }
}

/// A condition is authoritative for a cross-owner assignment exactly when it
/// mentions no comment author, no discharged obligation and no administrator
/// approval, whichever connectives join its parts: any such fact anywhere in
/// it (in either branch of an `All` or an `Any`) makes it not authoritative.
pub proof fn cross_owner_authority_is_task_facts_only(c: ContractCondition)
    ensures
        spec_cross_owner_authoritative(c) <==> (crate::agent_runs::condition_comment_authors(c).is_empty()
            && condition_obligations(c).is_empty() && crate::agent_runs::condition_approvals(c).is_empty()),
    decreases c,
{
    match c {
        ContractCondition::All { left, right } | ContractCondition::Any { left, right } => {
            cross_owner_authority_is_task_facts_only(*left);
            cross_owner_authority_is_task_facts_only(*right);
            lemma_union_empty(crate::agent_runs::condition_comment_authors(*left),
                crate::agent_runs::condition_comment_authors(*right));
            lemma_union_empty(condition_obligations(*left), condition_obligations(*right));
            lemma_union_empty(crate::agent_runs::condition_approvals(*left),
                crate::agent_runs::condition_approvals(*right));
        },
        ContractCondition::Neg { condition } => {
            cross_owner_authority_is_task_facts_only(*condition);
        },
        ContractCondition::CommentBy { author } => {
            assert(crate::agent_runs::condition_comment_authors(c).contains(author));
        },
        ContractCondition::ObligationDone { obligation } => {
            assert(condition_obligations(c).contains(obligation));
        },
        ContractCondition::AdministratorApproved { administrator, review_work_spec_ordinal } => {
            assert(crate::agent_runs::condition_approvals(c).contains((administrator, review_work_spec_ordinal)));
        },
        _ => {
            assert(crate::agent_runs::condition_comment_authors(c) =~= Set::empty());
            assert(condition_obligations(c) =~= Set::empty());
            assert(crate::agent_runs::condition_approvals(c) =~= Set::empty());
        },
    }
}

proof fn lemma_union_empty<A>(a: Set<A>, b: Set<A>)
    ensures
        a.union(b).is_empty() <==> (a.is_empty() && b.is_empty()),
{
    if !a.is_empty() {
        let x = a.choose();
        assert(a.contains(x));
        assert(a.union(b).contains(x));
    }
    if !b.is_empty() {
        let x = b.choose();
        assert(b.contains(x));
        assert(a.union(b).contains(x));
    }
    if a.is_empty() && b.is_empty() {
        assert(a.union(b) =~= Set::empty());
    }
}

/// A runner's signed statement about a failed model attempt: the request,
/// context and transport commitments are lower-case hex as signed, the
/// optional endpoint and execution-profile commitments hex to be decoded.
pub struct FailureObservationStatement {
    pub invocation_id: u128,
    pub attempt: u32,
    pub lease_id: u128,
    pub principal_identity_id: u128,
    pub exposed_sources: Vec<InformationSource>,
    pub has_output_commitment: bool,
    pub has_artifact_commitment: bool,
    pub request_commitment_hex: String,
    pub context_commitment_hex: String,
    pub transport_commitment_hex: String,
    pub endpoint_request_exact: bool,
    pub endpoint_request_commitment_hex: Option<String>,
    pub runtime_kind: Option<String>,
    pub execution_profile_commitment_hex: Option<String>,
    pub hidden_persistent_model_memory_available: bool,
    pub provider_status: String,
    pub observed_at: i128,
    pub signer_identity_id: u128,
    pub signer_device_id: u128,
    pub signer_device_key_version: u32,
}

/// The dispatch of the failed attempt, with the invocation's stored attempt.
pub struct FailureDispatch {
    pub invocation_id: u128,
    pub attempt: i32,
    pub lease_id: u128,
    pub runner_id: u128,
    pub runner_identity_id: u128,
    pub runner_device_id: u128,
    pub runner_key_version: i32,
    pub context_principal_identity_id: u128,
    pub sources: Vec<InformationSource>,
    pub request_commitment: Vec<u8>,
    pub context_commitment: Vec<u8>,
    pub transport_commitment: Vec<u8>,
    pub runtime_kind: String,
    pub execution_profile_commitment: Option<Vec<u8>>,
    pub dispatched_at: i128,
    pub lease_expires_at: i128,
}

/// What the failing runner projects about its request.
pub struct FailureProjection {
    pub failure_code: RunnerFailureCode,
    pub endpoint_request_exact: bool,
    pub endpoint_request_commitment: Option<Vec<u8>>,
    pub runtime_kind: Option<String>,
    pub execution_profile_commitment: Option<Vec<u8>>,
}

/// An optional byte string taken by its contents.
pub open spec fn opt_bytes(o: Option<Vec<u8>>) -> Option<Seq<u8>> {
    match o { Some(v) => Some(v@), None => None }
}

/// An optional text taken by its contents.
pub open spec fn opt_text(o: Option<String>) -> Option<Seq<char>> {
    match o { Some(v) => Some(v@), None => None }
}

/// Whether a signed failure observation, its optional commitments decoded
/// (`endpoint`, `profile`), matches, field for field, the dispatch it reports
/// on and what the runner projects, apart from the signer key version: the
/// same invocation, attempt, lease, principal and exposed sources; no output
/// or artifact; the dispatch's request, context and transport commitments in
/// lower-case hex; the same endpoint exactness, endpoint commitment, runtime
/// kind and execution profile; no hidden model memory; the failure code as
/// provider status; an observation time inside the lease; and the actor's
/// runner as both dispatcher and signer.
pub open spec fn failure_observation_matches(
    st: FailureObservationStatement,
    d: FailureDispatch,
    p: FailureProjection,
    endpoint: Option<Seq<u8>>,
    profile: Option<Seq<u8>>,
    runner_id: u128,
    runner_key_version: i32,
    actor: u128,
    actor_device: u128,
) -> bool {
    &&& st.invocation_id == d.invocation_id
    &&& st.attempt == d.attempt
    &&& st.lease_id == d.lease_id
    &&& st.principal_identity_id == d.context_principal_identity_id
    &&& st.exposed_sources@ == d.sources@
    &&& !st.has_output_commitment
    &&& !st.has_artifact_commitment
    &&& st.request_commitment_hex@ == crate::codec::hex_lower(d.request_commitment@)
    &&& st.context_commitment_hex@ == crate::codec::hex_lower(d.context_commitment@)
    &&& st.transport_commitment_hex@ == crate::codec::hex_lower(d.transport_commitment@)
    &&& st.endpoint_request_exact == p.endpoint_request_exact
    &&& endpoint == opt_bytes(p.endpoint_request_commitment)
    &&& opt_text(st.runtime_kind) == opt_text(p.runtime_kind)
    &&& profile == opt_bytes(p.execution_profile_commitment)
    &&& !st.hidden_persistent_model_memory_available
    &&& st.provider_status@ == runner_failure_code_name(p.failure_code)
    &&& d.dispatched_at <= st.observed_at < d.lease_expires_at
    &&& d.runner_id == runner_id
    &&& d.runner_identity_id == actor
    &&& d.runner_device_id == actor_device
    &&& d.runner_key_version == runner_key_version
    &&& st.signer_identity_id == actor
    &&& st.signer_device_id == actor_device
}

/// What checking a failure observation answers: a negative stored attempt is
/// an internal error; the endpoint and execution-profile commitments are
/// decoded (a malformed one refused as such); the runtime projection must
/// agree with the dispatch (with the endpoint witness when the failure code
/// requires it) and the projected execution profile must be the dispatched
/// one; then the observation must match and the signer key version must be
/// the runner's (one too large for an `i32` refused as such).
pub open spec fn failure_observation_result(
    st: FailureObservationStatement,
    d: FailureDispatch,
    p: FailureProjection,
    runner_id: u128,
    runner_key_version: i32,
    actor: u128,
    actor_device: u128,
) -> Result<(), AppError> {
    if d.attempt < 0 {
        Err(AppError::Internal)
    } else {
        match optional_commitment_result(opt_text(st.endpoint_request_commitment_hex)) {
            Err(e) => Err(e),
            Ok(endpoint) => match optional_commitment_result(opt_text(st.execution_profile_commitment_hex)) {
                Err(e) => Err(e),
                Ok(profile) => if !runtime_projection_consistent(d.runtime_kind@, p.endpoint_request_exact,
                    p.endpoint_request_commitment is Some, p.execution_profile_commitment is Some,
                    opt_text(p.runtime_kind), spec_requires_endpoint_request_witness(p.failure_code)) {
                    Err(AppError::Conflict)
                } else if opt_bytes(d.execution_profile_commitment) != opt_bytes(p.execution_profile_commitment) {
                    Err(AppError::Conflict)
                } else if !failure_observation_matches(st, d, p, endpoint, profile, runner_id, runner_key_version,
                    actor, actor_device) {
                    Err(AppError::Conflict)
                } else if st.signer_device_key_version > i32::MAX {
                    Err(AppError::BadRequest(BadRequestReason::NumericValueTooLarge))
                } else if st.signer_device_key_version != runner_key_version {
                    Err(AppError::Conflict)
                } else {
                    Ok(())
                },
            },
        }
    }
}

fn opt_bytes_eq(a: &Option<Vec<u8>>, b: &Option<Vec<u8>>) -> (eq: bool)
    ensures
        eq == (opt_bytes(*a) == opt_bytes(*b)),
{
    match (a, b) {
        (Some(x), Some(y)) => crate::codec::bytes_equal(x.as_slice(), y.as_slice()),
        (None, None) => true,
        _ => false,
    }
}

fn opt_text_eq(a: &Option<String>, b: &Option<String>) -> (eq: bool)
    ensures
        eq == (opt_text(*a) == opt_text(*b)),
{
    match (a, b) {
        (Some(x), Some(y)) => text_eq(x.as_str(), y.as_str()),
        (None, None) => true,
        _ => false,
    }
}

/// Checks a signed failure observation against its dispatch and the runner's
/// projection (see `failure_observation_result`).
pub fn check_failure_observation(
    st: &FailureObservationStatement,
    d: &FailureDispatch,
    p: &FailureProjection,
    runner_id: u128,
    runner_key_version: i32,
    actor: u128,
    actor_device: u128,
) -> (r: Result<(), AppError>)
    requires
        2 * d.request_commitment@.len() <= usize::MAX,
        2 * d.context_commitment@.len() <= usize::MAX,
        2 * d.transport_commitment@.len() <= usize::MAX,
    ensures
        r == failure_observation_result(*st, *d, *p, runner_id, runner_key_version, actor, actor_device),
{
    if d.attempt < 0 {
        return Err(AppError::Internal);
    }
    let endpoint = decode_optional_commitment(&st.endpoint_request_commitment_hex)?;
    let profile = decode_optional_commitment(&st.execution_profile_commitment_hex)?;
    check_runtime_projection(d.runtime_kind.as_str(), p.endpoint_request_exact,
        p.endpoint_request_commitment.is_some(), p.execution_profile_commitment.is_some(),
        opt_str_of(&p.runtime_kind), p.failure_code.requires_endpoint_request_witness())?;
    check_execution_profile_binding(opt_slice(&d.execution_profile_commitment),
        opt_slice(&p.execution_profile_commitment))?;
    let request_hex = crate::codec::hex_encode(d.request_commitment.as_slice());
    let context_hex = crate::codec::hex_encode(d.context_commitment.as_slice());
    let transport_hex = crate::codec::hex_encode(d.transport_commitment.as_slice());
    let status = p.failure_code.as_str();
    if st.invocation_id != d.invocation_id || st.attempt != d.attempt as u32 || st.lease_id != d.lease_id
        || st.principal_identity_id != d.context_principal_identity_id
        || !same_sources(st.exposed_sources.as_slice(), d.sources.as_slice())
        || st.has_output_commitment || st.has_artifact_commitment
        || !text_eq(st.request_commitment_hex.as_str(), request_hex.as_str())
        || !text_eq(st.context_commitment_hex.as_str(), context_hex.as_str())
        || !text_eq(st.transport_commitment_hex.as_str(), transport_hex.as_str())
        || st.endpoint_request_exact != p.endpoint_request_exact
        || !opt_bytes_eq(&endpoint, &p.endpoint_request_commitment)
        || !opt_text_eq(&st.runtime_kind, &p.runtime_kind)
        || !opt_bytes_eq(&profile, &p.execution_profile_commitment)
        || st.hidden_persistent_model_memory_available
        || !text_eq(st.provider_status.as_str(), status)
        || st.observed_at < d.dispatched_at || st.observed_at >= d.lease_expires_at
        || d.runner_id != runner_id || d.runner_identity_id != actor || d.runner_device_id != actor_device
        || d.runner_key_version != runner_key_version
        || st.signer_identity_id != actor || st.signer_device_id != actor_device
    {
        return Err(AppError::Conflict);
    }
    let version = to_i32(st.signer_device_key_version)?;
    if version != runner_key_version {
        return Err(AppError::Conflict);
    }
    Ok(())
}

/// A runner's signed observation of a successful model call, as submitted
/// with its output: the commitments are hex as signed.
pub struct SubmissionObservationStatement {
    pub invocation_id: u128,
    pub attempt: u32,
    pub lease_id: u128,
    pub principal_identity_id: u128,
    pub exposed_sources: Vec<InformationSource>,
    pub request_commitment_hex: String,
    pub context_commitment_hex: String,
    pub transport_commitment_hex: String,
    pub endpoint_request_exact: bool,
    pub endpoint_request_commitment_hex: Option<String>,
    pub runtime_kind: Option<String>,
    pub execution_profile_commitment_hex: Option<String>,
    pub output_commitment_hex: Option<String>,
    pub artifact_commitment_hex: Option<String>,
    pub hidden_persistent_model_memory_available: bool,
    pub provider_status: String,
    pub observed_at: i128,
    pub signer_identity_id: u128,
    pub signer_device_id: u128,
    pub signer_device_key_version: u32,
}

/// The dispatch of the attempt that a submission reports on.
pub struct SubmissionDispatch {
    pub invocation_id: u128,
    pub attempt: i32,
    pub lease_id: u128,
    pub context_principal_identity_id: u128,
    pub sources: Vec<InformationSource>,
    pub request_commitment: Vec<u8>,
    pub context_commitment: Vec<u8>,
    pub transport_commitment: Vec<u8>,
    pub runtime_kind: String,
    pub execution_profile_commitment: Option<Vec<u8>>,
    pub dispatched_at: i128,
    pub lease_expires_at: i128,
}

/// What the submitting runner projects: the endpoint exactness and
/// commitments and runtime of its request, and the server's hashes of the
/// output and artifact that it submits.
pub struct SubmissionProjection {
    pub endpoint_request_exact: bool,
    pub endpoint_request_commitment: Option<Vec<u8>>,
    pub runtime_kind: Option<String>,
    pub execution_profile_commitment: Option<Vec<u8>>,
    pub output_hash: Vec<u8>,
    pub artifact_hash: Vec<u8>,
}

/// Decoding an optional hex commitment: absent stays absent.
pub open spec fn optional_commitment_result(o: Option<Seq<char>>) -> Result<Option<Seq<u8>>, AppError> {
    match o {
        None => Ok(None),
        Some(h) => match crate::agent_tools::commitment_result(h) {
            Ok(b) => Ok(Some(b)),
            Err(e) => Err(e),
        },
    }
}

/// Decoding a hex commitment that a submission must carry: an absent one is
/// a conflict.
pub open spec fn required_commitment_result(o: Option<Seq<char>>) -> Result<Seq<u8>, AppError> {
    match o {
        None => Err(AppError::Conflict),
        Some(h) => crate::agent_tools::commitment_result(h),
    }
}

/// Whether a submission's observation, its commitments decoded, matches the
/// dispatch and the projection, apart from the signer key version: the same
/// invocation, attempt, lease, principal and exposed sources; the dispatch's
/// request, context and transport commitments; the projected endpoint
/// exactness and commitment, runtime kind and execution profile; the hashes of
/// the submitted output and artifact; no hidden model memory; a provider
/// status that is not blank and at most 128 bytes; an observation time inside
/// the lease; and the actor's own device as signer.
pub open spec fn submission_observation_matches(
    st: SubmissionObservationStatement,
    d: SubmissionDispatch,
    p: SubmissionProjection,
    decoded: (Seq<u8>, Seq<u8>, Seq<u8>, Option<Seq<u8>>, Option<Seq<u8>>, Seq<u8>, Seq<u8>),
    actor: u128,
    actor_device: u128,
) -> bool {
    &&& st.invocation_id == d.invocation_id
    &&& st.attempt == d.attempt
    &&& st.lease_id == d.lease_id
    &&& st.principal_identity_id == d.context_principal_identity_id
    &&& st.exposed_sources@ == d.sources@
    &&& decoded.0 == d.request_commitment@
    &&& decoded.1 == d.context_commitment@
    &&& decoded.2 == d.transport_commitment@
    &&& st.endpoint_request_exact == p.endpoint_request_exact
    &&& decoded.3 == opt_bytes(p.endpoint_request_commitment)
    &&& opt_text(st.runtime_kind) == opt_text(p.runtime_kind)
    &&& decoded.4 == opt_bytes(p.execution_profile_commitment)
    &&& decoded.5 == p.output_hash@
    &&& decoded.6 == p.artifact_hash@
    &&& !st.hidden_persistent_model_memory_available
    &&& !spec_is_blank(st.provider_status@)
    &&& vstd::utf8::encode_utf8(st.provider_status@).len() <= 128
    &&& d.dispatched_at <= st.observed_at < d.lease_expires_at
    &&& st.signer_identity_id == actor
    &&& st.signer_device_id == actor_device
}

/// What checking a submission's observation answers. Its seven commitments
/// are decoded in turn (request, context, transport, endpoint request,
/// execution profile, output, artifact), a malformed one refused as such and
/// a missing output or artifact commitment a conflict; then the runtime
/// projection must agree with the dispatch (with the endpoint witness), the
/// projected execution profile must be the dispatched one, the stored attempt
/// must not be negative (else an internal error), the observation must match,
/// and the signer key version must be the runner's.
pub open spec fn submission_observation_result(
    st: SubmissionObservationStatement,
    d: SubmissionDispatch,
    p: SubmissionProjection,
    runner_key_version: i32,
    actor: u128,
    actor_device: u128,
) -> Result<(), AppError> {
    match crate::agent_tools::commitment_result(st.request_commitment_hex@) {
        Err(e) => Err(e),
        Ok(request) => match crate::agent_tools::commitment_result(st.context_commitment_hex@) {
            Err(e) => Err(e),
            Ok(context) => match crate::agent_tools::commitment_result(st.transport_commitment_hex@) {
                Err(e) => Err(e),
                Ok(transport) => match optional_commitment_result(opt_text(st.endpoint_request_commitment_hex)) {
                    Err(e) => Err(e),
                    Ok(endpoint) => match optional_commitment_result(opt_text(st.execution_profile_commitment_hex)) {
                        Err(e) => Err(e),
                        Ok(profile) => match required_commitment_result(opt_text(st.output_commitment_hex)) {
                            Err(e) => Err(e),
                            Ok(output) => match required_commitment_result(opt_text(st.artifact_commitment_hex)) {
                                Err(e) => Err(e),
                                Ok(artifact) => if !runtime_projection_consistent(d.runtime_kind@,
                                    p.endpoint_request_exact, p.endpoint_request_commitment is Some,
                                    p.execution_profile_commitment is Some, opt_text(p.runtime_kind), true) {
                                    Err(AppError::Conflict)
                                } else if opt_bytes(d.execution_profile_commitment) != opt_bytes(p.execution_profile_commitment) {
                                    Err(AppError::Conflict)
                                } else if d.attempt < 0 {
                                    Err(AppError::Internal)
                                } else if !submission_observation_matches(st, d, p,
                                    (request, context, transport, endpoint, profile, output, artifact), actor, actor_device) {
                                    Err(AppError::Conflict)
                                } else if st.signer_device_key_version > i32::MAX {
                                    Err(AppError::BadRequest(BadRequestReason::NumericValueTooLarge))
                                } else if st.signer_device_key_version != runner_key_version {
                                    Err(AppError::Conflict)
                                } else {
                                    Ok(())
                                },
                            },
                        },
                    },
                },
            },
        },
    }
}

fn decode_optional_commitment(value: &Option<String>) -> (r: Result<Option<Vec<u8>>, AppError>)
    ensures
        match r {
            Ok(o) => optional_commitment_result(opt_text(*value)) == Ok::<Option<Seq<u8>>, AppError>(opt_bytes(o)),
            Err(e) => optional_commitment_result(opt_text(*value)) == Err::<Option<Seq<u8>>, AppError>(e),
        },
{
    match value {
        None => Ok(None),
        Some(h) => match decode_commitment(h.as_str()) {
            Ok(b) => Ok(Some(b)),
            Err(e) => Err(e),
        },
    }
}

fn decode_required_commitment(value: &Option<String>) -> (r: Result<Vec<u8>, AppError>)
    ensures
        bytes_of(r) == required_commitment_result(opt_text(*value)),
{
    match value {
        None => Err(AppError::Conflict),
        Some(h) => decode_commitment(h.as_str()),
    }
}

fn opt_slice(o: &Option<Vec<u8>>) -> (r: Option<&[u8]>)
    ensures
        match r { Some(s) => Some(s@), None => None } == opt_bytes(*o),
{
    match o {
        Some(v) => Some(v.as_slice()),
        None => None,
    }
}

fn opt_str_of(o: &Option<String>) -> (r: Option<&str>)
    ensures
        match r { Some(s) => Some(s@), None => None } == opt_text(*o),
{
    match o {
        Some(v) => Some(v.as_str()),
        None => None,
    }
}

/// Checks a submission's signed observation against its dispatch and the
/// runner's projection (see `submission_observation_result`).
pub fn check_submission_observation(
    st: &SubmissionObservationStatement,
    d: &SubmissionDispatch,
    p: &SubmissionProjection,
    runner_key_version: i32,
    actor: u128,
    actor_device: u128,
) -> (r: Result<(), AppError>)
    ensures
        r == submission_observation_result(*st, *d, *p, runner_key_version, actor, actor_device),
{
    let request = decode_commitment(st.request_commitment_hex.as_str())?;
    let context = decode_commitment(st.context_commitment_hex.as_str())?;
    let transport = decode_commitment(st.transport_commitment_hex.as_str())?;
    let endpoint = decode_optional_commitment(&st.endpoint_request_commitment_hex)?;
    let profile = decode_optional_commitment(&st.execution_profile_commitment_hex)?;
    let output = decode_required_commitment(&st.output_commitment_hex)?;
    let artifact = decode_required_commitment(&st.artifact_commitment_hex)?;
    check_runtime_projection(d.runtime_kind.as_str(), p.endpoint_request_exact,
        p.endpoint_request_commitment.is_some(), p.execution_profile_commitment.is_some(),
        opt_str_of(&p.runtime_kind), true)?;
    check_execution_profile_binding(opt_slice(&d.execution_profile_commitment),
        opt_slice(&p.execution_profile_commitment))?;
    if d.attempt < 0 {
        return Err(AppError::Internal);
    }
    if st.invocation_id != d.invocation_id || st.attempt != d.attempt as u32 || st.lease_id != d.lease_id
        || st.principal_identity_id != d.context_principal_identity_id
        || !same_sources(st.exposed_sources.as_slice(), d.sources.as_slice())
        || !crate::codec::bytes_equal(request.as_slice(), d.request_commitment.as_slice())
        || !crate::codec::bytes_equal(context.as_slice(), d.context_commitment.as_slice())
        || !crate::codec::bytes_equal(transport.as_slice(), d.transport_commitment.as_slice())
        || st.endpoint_request_exact != p.endpoint_request_exact
        || !opt_bytes_eq(&endpoint, &p.endpoint_request_commitment)
        || !opt_text_eq(&st.runtime_kind, &p.runtime_kind)
        || !opt_bytes_eq(&profile, &p.execution_profile_commitment)
        || !crate::codec::bytes_equal(output.as_slice(), p.output_hash.as_slice())
        || !crate::codec::bytes_equal(artifact.as_slice(), p.artifact_hash.as_slice())
        || st.hidden_persistent_model_memory_available
        || !provider_status_acceptable(st.provider_status.as_str())
        || st.observed_at < d.dispatched_at || st.observed_at >= d.lease_expires_at
        || st.signer_identity_id != actor || st.signer_device_id != actor_device
    {
        return Err(AppError::Conflict);
    }
    let version = to_i32(st.signer_device_key_version)?;
    if version != runner_key_version {
        return Err(AppError::Conflict);
    }
    Ok(())
}

/// What an accepted failure observation guarantees: the stored attempt is not
/// negative; the observation reports exactly the dispatched invocation,
/// attempt, lease, principal and sources, with no output or artifact; its
/// request, context and transport commitments are the dispatch's in
/// lower-case hex; it agrees with the projection on endpoint exactness,
/// endpoint commitment, runtime kind and execution profile, and that profile
/// is the dispatched one; it shows no hidden model memory, names the failure
/// code as provider status and was observed inside the lease; and the actor's
/// device dispatched the attempt and signed under the runner's key version.
/// A client-provider dispatch failing at the provider also carries the exact
/// endpoint request.
pub proof fn accepted_failure_observations_match(
    st: FailureObservationStatement,
    d: FailureDispatch,
    p: FailureProjection,
    runner_id: u128,
    runner_key_version: i32,
    actor: u128,
    actor_device: u128,
)
    ensures
        failure_observation_result(st, d, p, runner_id, runner_key_version, actor, actor_device) is Ok ==> {
            &&& d.attempt >= 0 && st.attempt == d.attempt
            &&& st.invocation_id == d.invocation_id && st.lease_id == d.lease_id
            &&& st.principal_identity_id == d.context_principal_identity_id
            &&& st.exposed_sources@ == d.sources@
            &&& !st.has_output_commitment && !st.has_artifact_commitment
            &&& st.request_commitment_hex@ == crate::codec::hex_lower(d.request_commitment@)
            &&& st.context_commitment_hex@ == crate::codec::hex_lower(d.context_commitment@)
            &&& st.transport_commitment_hex@ == crate::codec::hex_lower(d.transport_commitment@)
            &&& st.endpoint_request_exact == p.endpoint_request_exact
            &&& match st.endpoint_request_commitment_hex {
                None => p.endpoint_request_commitment is None,
                Some(h) => p.endpoint_request_commitment matches Some(c) && hex_decoding(h@) == Some(c@) && c@.len() == 32,
            }
            &&& match st.execution_profile_commitment_hex {
                None => p.execution_profile_commitment is None,
                Some(h) => p.execution_profile_commitment matches Some(c) && hex_decoding(h@) == Some(c@) && c@.len() == 32,
            }
            &&& opt_bytes(d.execution_profile_commitment) == opt_bytes(p.execution_profile_commitment)
            &&& opt_text(st.runtime_kind) == opt_text(p.runtime_kind)
            &&& !st.hidden_persistent_model_memory_available
            &&& st.provider_status@ == runner_failure_code_name(p.failure_code)
            &&& d.dispatched_at <= st.observed_at && st.observed_at < d.lease_expires_at
            &&& d.runner_id == runner_id && d.runner_identity_id == actor && d.runner_device_id == actor_device
            &&& d.runner_key_version == runner_key_version
            &&& st.signer_identity_id == actor && st.signer_device_id == actor_device
            &&& st.signer_device_key_version == runner_key_version
            &&& (d.runtime_kind@ == "client_provider_v1"@ && (p.failure_code == RunnerFailureCode::ProviderUnavailable
                || p.failure_code == RunnerFailureCode::ProviderTimeout
                || p.failure_code == RunnerFailureCode::InvalidStructuredOutput)
                ==> p.endpoint_request_exact && p.endpoint_request_commitment is Some)
        },
        d.attempt < 0 ==> failure_observation_result(st, d, p, runner_id, runner_key_version, actor, actor_device)
            == Err::<(), AppError>(AppError::Internal),
{
}

/// What an accepted submission observation guarantees: the stored attempt is
/// not negative; the observation reports exactly the dispatched invocation,
/// attempt, lease, principal and sources; its request, context and transport
/// commitments decode to the dispatch's, its output and artifact commitments
/// to the server's hashes of what was submitted, and its endpoint and
/// execution-profile commitments to the projected ones (the profile being the
/// dispatched one); it agrees on endpoint exactness and runtime kind, shows no
/// hidden model memory, has a provider status that is not blank and at most
/// 128 bytes, was observed inside the lease, and was signed by the actor's
/// device under the runner's key version. A client-provider dispatch always
/// carries the exact endpoint request.
pub proof fn accepted_submission_observations_match(
    st: SubmissionObservationStatement,
    d: SubmissionDispatch,
    p: SubmissionProjection,
    runner_key_version: i32,
    actor: u128,
    actor_device: u128,
)
    ensures
        submission_observation_result(st, d, p, runner_key_version, actor, actor_device) is Ok ==> {
            &&& d.attempt >= 0 && st.attempt == d.attempt
            &&& st.invocation_id == d.invocation_id && st.lease_id == d.lease_id
            &&& st.principal_identity_id == d.context_principal_identity_id
            &&& st.exposed_sources@ == d.sources@
            &&& hex_decoding(st.request_commitment_hex@) == Some(d.request_commitment@)
            &&& hex_decoding(st.context_commitment_hex@) == Some(d.context_commitment@)
            &&& hex_decoding(st.transport_commitment_hex@) == Some(d.transport_commitment@)
            &&& (st.output_commitment_hex matches Some(h) && hex_decoding(h@) == Some(p.output_hash@))
            &&& (st.artifact_commitment_hex matches Some(h) && hex_decoding(h@) == Some(p.artifact_hash@))
            &&& match st.endpoint_request_commitment_hex {
                None => p.endpoint_request_commitment is None,
                Some(h) => p.endpoint_request_commitment matches Some(c) && hex_decoding(h@) == Some(c@),
            }
            &&& match st.execution_profile_commitment_hex {
                None => p.execution_profile_commitment is None,
                Some(h) => p.execution_profile_commitment matches Some(c) && hex_decoding(h@) == Some(c@),
            }
            &&& opt_bytes(d.execution_profile_commitment) == opt_bytes(p.execution_profile_commitment)
            &&& st.endpoint_request_exact == p.endpoint_request_exact
            &&& opt_text(st.runtime_kind) == opt_text(p.runtime_kind)
            &&& !st.hidden_persistent_model_memory_available
            &&& !spec_is_blank(st.provider_status@)
            &&& vstd::utf8::encode_utf8(st.provider_status@).len() <= 128
            &&& d.dispatched_at <= st.observed_at && st.observed_at < d.lease_expires_at
            &&& st.signer_identity_id == actor && st.signer_device_id == actor_device
            &&& st.signer_device_key_version == runner_key_version
            &&& (d.runtime_kind@ == "client_provider_v1"@
                ==> p.endpoint_request_exact && p.endpoint_request_commitment is Some)
        },
{
}

/// What an accepted final-prompt approval guarantees: it names exactly the
/// expected project, draft, agent principal, controller, local goal and
/// revision, and compilation certificate, and its four commitments decode to
/// the expected output hash, prompt commitment, ciphertext commitment and the
/// approval's identity hash. Conversely an approval that binds all of these
/// is accepted.
pub proof fn final_prompt_approval_laws(
    st: FinalPromptApprovalStatement,
    expected: FinalPromptApprovalExpectation,
    identity_hash: Seq<u8>,
)
    ensures
        final_prompt_approval_result(st, expected, identity_hash) is Ok <==> {
            &&& st.project_id == expected.project_id && st.draft_id == expected.draft_id
            &&& st.agent_principal_identity_id == expected.agent_principal_identity_id
            &&& st.controller_identity_id == expected.controller_identity_id
            &&& st.local_goal_id == expected.local_goal_id && st.local_revision == expected.local_revision
            &&& st.compilation_certificate_id == expected.compilation_certificate_id
            &&& hex_decoding(st.structured_output_hash_hex@) == Some(expected.output_hash@)
                && expected.output_hash@.len() == 32
            &&& hex_decoding(st.prompt_commitment_hex@) == Some(expected.prompt_commitment@)
                && expected.prompt_commitment@.len() == 32
            &&& hex_decoding(st.ciphertext_commitment_hex@) == Some(expected.ciphertext_commitment@)
                && expected.ciphertext_commitment@.len() == 32
            &&& hex_decoding(st.approval_identity_hash_hex@) == Some(identity_hash) && identity_hash.len() == 32
        },
{
}

/// Effects are accepted exactly when each one is: its resource is among the
/// output's resources, the authority envelope grants its operation there, the
/// actor may perform it, the information flow is allowed, and it replaces an
/// info document, with `edit_info`, that lies on its resource.
pub proof fn accepted_effects_are_each_within_authority(
    output_resources: Seq<u128>,
    authority: Seq<(u128, ResourceOperation)>,
    effects: Seq<EffectFacts>,
)
    ensures
        effects_result(output_resources, authority, effects) is Ok <==> forall|i: int| 0 <= i < effects.len() ==> {
            &&& output_resources.contains((#[trigger] effects[i]).resource_id)
            &&& authority.contains((effects[i].resource_id, effects[i].operation))
            &&& effects[i].actor_may_access && effects[i].information_flow_allowed
            &&& effects[i].materialization is Some && effects[i].operation == ResourceOperation::EditInfo
            &&& effects[i].document_on_resource
        },
    decreases effects.len(),
{
    if effects.len() > 0 {
        accepted_effects_are_each_within_authority(output_resources, authority, effects.drop_first());
        let rest = effects.drop_first();
        assert forall|i: int| 0 < i < effects.len() implies #[trigger] effects[i] == rest[i - 1] by {}
        if effects_result(output_resources, authority, effects) is Ok {
            assert forall|i: int| 0 <= i < effects.len() implies {
                &&& output_resources.contains((#[trigger] effects[i]).resource_id)
                &&& authority.contains((effects[i].resource_id, effects[i].operation))
                &&& effects[i].actor_may_access && effects[i].information_flow_allowed
                &&& effects[i].materialization is Some && effects[i].operation == ResourceOperation::EditInfo
                &&& effects[i].document_on_resource
            } by {
                if i > 0 { assert(effects[i] == rest[i - 1]); }
            }
        } else if effect_result(output_resources, authority, effects[0]) is Ok {
            let j = choose|j: int| 0 <= j < rest.len() && !({
                &&& output_resources.contains((#[trigger] rest[j]).resource_id)
                &&& authority.contains((rest[j].resource_id, rest[j].operation))
                &&& rest[j].actor_may_access && rest[j].information_flow_allowed
                &&& rest[j].materialization is Some && rest[j].operation == ResourceOperation::EditInfo
                &&& rest[j].document_on_resource
            });
            assert(effects[j + 1] == rest[j]);
        } else {
            assert(effects[0] == effects[0]);
        }
    }
}

/// An accepted compiler pin is one of the two pinned compilers at version 1
/// with its pinned digest, that digest is the SHA-256 of the compiler's
/// protocol manifest, and the registry lists the build as enabled.
pub proof fn accepted_compilers_are_pinned_and_registered(
    task_kind: Seq<char>,
    compiler: CompilerIdentity,
    local_goal_manifest: Seq<u8>,
    responsibility_manifest: Seq<u8>,
    registered: bool,
)
    ensures
        pinned_compiler_result(task_kind, compiler, local_goal_manifest, responsibility_manifest, registered)
            matches Ok(digest) ==> {
            &&& registered
            &&& compiler.compiler_version == 1
            &&& hex_decoding(compiler.compiler_build_digest_hex@) == Some(digest)
            &&& (task_kind == "local_goal"@ && compiler.compiler_id@ == "sprout.local-goal.compiler"@
                    && digest == local_goal_compiler_digest()
                    && crate::codec::sha256_of(local_goal_manifest) == digest)
                || (task_kind == "responsibility"@ && compiler.compiler_id@ == "sprout.responsibility.compiler"@
                    && digest == responsibility_compiler_digest()
                    && crate::codec::sha256_of(responsibility_manifest) == digest)
        },
        !registered ==> pinned_compiler_result(task_kind, compiler, local_goal_manifest, responsibility_manifest,
            registered) is Err,
{
    reveal_strlit("local_goal");
    reveal_strlit("responsibility");
    assert("local_goal"@.len() != "responsibility"@.len());
    if pinned_compiler_result(task_kind, compiler, local_goal_manifest, responsibility_manifest, registered) is Ok {
        if task_kind == "local_goal"@ {
            assert(pinned_compiler_manifest(task_kind, local_goal_manifest, responsibility_manifest) == local_goal_manifest);
        } else {
            assert(pinned_compiler_manifest(task_kind, local_goal_manifest, responsibility_manifest)
                == responsibility_manifest);
        }
    }
}

/// An authorization's stored columns determine it: two different
/// authorizations never share their kind, record and revision columns, and
/// only an administrator creation has no revision.
pub proof fn authorization_columns_determine_the_authorization(a: LocalCompilationAuthorization, b: LocalCompilationAuthorization)
    ensures
        authorization_columns(a) == authorization_columns(b) ==> a == b,
        authorization_columns(a).2 is None <==> a is AdministratorCreation,
{
    reveal_strlit("responsibility");
    reveal_strlit("administrator_exception");
    reveal_strlit("global_mandate");
    reveal_strlit("administrator_creation");
    let (ka, kb) = (authorization_columns(a).0, authorization_columns(b).0);
    if authorization_columns(a) == authorization_columns(b) {
        assert(ka.len() == kb.len() && ka[0] == kb[0]);
    }
}

/// A runner's projection of a client-provider dispatch is consistent only
/// when it names that runtime and an execution profile, and, when the witness
/// is required, the exact endpoint request with its commitment; a legacy
/// dispatch is consistent only when nothing of the kind is projected. Both
/// are consistent whenever these hold.
pub proof fn runtime_projection_laws(
    exact: bool, has_endpoint: bool, has_profile: bool, projected: Option<Seq<char>>, witness: bool,
)
    ensures
        runtime_projection_consistent("client_provider_v1"@, exact, has_endpoint, has_profile, projected, witness)
            <==> (projected == Some("client_provider_v1"@) && has_profile && (witness ==> exact && has_endpoint)),
        runtime_projection_consistent("legacy_0031"@, exact, has_endpoint, has_profile, projected, witness)
            <==> (projected is None && !exact && !has_endpoint && !has_profile),
{
    reveal_strlit("client_provider_v1");
    reveal_strlit("legacy_0031");
    assert("client_provider_v1"@.len() != "legacy_0031"@.len());
}

/// A valid agent identity handle has 3 to 128 bytes, no whitespace, and is
/// its own lower-case form; a handle with whitespace or out of those bounds
/// is never valid.
pub proof fn identity_handle_laws(handle: &str)
    ensures
        identity_handle_valid(handle) ==> 3 <= handle.len() && handle.len() <= 128,
        identity_handle_valid(handle) ==> lowercase_of(handle@) == handle@,
        (exists|i: int| 0 <= i < handle@.len() && spec_is_whitespace(#[trigger] handle@[i]))
            ==> !identity_handle_valid(handle),
        (handle.len() < 3 || handle.len() > 128) ==> !identity_handle_valid(handle),
{
}

/// The tasks a condition mentions: a task-completion fact mentions its task,
/// a negation mentions what it negates, both sides of an `All` or an `Any`
/// count, and the other facts mention no task.
pub proof fn condition_task_laws(c: ContractCondition, t: u128)
    ensures
        condition_tasks(ContractCondition::TaskDone { task: t }) == set![t],
        condition_tasks(ContractCondition::Neg { condition: Box::new(c) }) == condition_tasks(c),
        forall|d: ContractCondition| condition_tasks(ContractCondition::All { left: Box::new(c), right: Box::new(d) })
            == #[trigger] condition_tasks(d).union(condition_tasks(c)),
        forall|d: ContractCondition| condition_tasks(ContractCondition::Any { left: Box::new(c), right: Box::new(d) })
            == #[trigger] condition_tasks(d).union(condition_tasks(c)),
        condition_tasks(ContractCondition::CommentBy { author: t }).is_empty(),
        condition_tasks(ContractCondition::ObligationDone { obligation: t }).is_empty(),
        condition_tasks(ContractCondition::Always).is_empty() && condition_tasks(ContractCondition::Never).is_empty(),
{
    assert forall|d: ContractCondition| condition_tasks(ContractCondition::All { left: Box::new(c), right: Box::new(d) })
        == #[trigger] condition_tasks(d).union(condition_tasks(c)) by {
        assert(condition_tasks(d).union(condition_tasks(c)) =~= condition_tasks(c).union(condition_tasks(d)));
    }
    assert forall|d: ContractCondition| condition_tasks(ContractCondition::Any { left: Box::new(c), right: Box::new(d) })
        == #[trigger] condition_tasks(d).union(condition_tasks(c)) by {
        assert(condition_tasks(d).union(condition_tasks(c)) =~= condition_tasks(c).union(condition_tasks(d)));
    }
}

} // verus!
