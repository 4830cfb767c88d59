//! Collaborative runs of goal contracts: creation, claims, work outcomes,
//! evidence, blockers and the persisted transition log.
use vstd::prelude::*;
use std::collections::HashSet;
use crate::agents::{ContractCondition, condition_tasks};
use crate::error::{AppError, BadRequestReason};

verus! {

broadcast use vstd::std_specs::hash::group_hash_axioms;

/// The aging step of the work scheduler.
pub const SCHEDULER_AGING_STEP: u64 = 1;

/// An intent that carries nothing: the routes that take it accept no facts,
/// statuses or eligibility claims from the caller.
pub struct EmptyIntent {}

/// Converts a `u64` (a revision or tick) to the stored `i64`.
pub fn to_i64(value: u64) -> (r: Result<i64, AppError>)
    ensures
        match r {
            Ok(v) => v == value,
            Err(e) => value > i64::MAX && e == AppError::BadRequest(BadRequestReason::NumericValueOutOfRange),
        },
{
    if value <= i64::MAX as u64 {
        Ok(value as i64)
    } else {
        Err(AppError::BadRequest(BadRequestReason::NumericValueOutOfRange))
    }
}

/// Reads back a stored non-negative `i64` (a version or tick); a negative one
/// is an internal error.
pub fn positive_u64(value: i64) -> (r: Result<u64, AppError>)
    ensures
        match r {
            Ok(v) => v == value,
            Err(e) => value < 0 && e == AppError::Internal,
        },
{
    if value >= 0 { Ok(value as u64) } else { Err(AppError::Internal) }
}

/// A value stored through `to_i64` reads back as itself.
pub proof fn stored_values_read_back(value: u64)
    ensures
        value <= i64::MAX ==> {
            let stored = value as i64;
            &&& stored >= 0
            &&& stored as u64 == value
        },
{
}

/// The runtime tick of a clock reading in whole seconds; a reading before the
/// epoch is an internal error.
pub fn timestamp_tick(seconds: i64) -> (r: Result<u64, AppError>)
    ensures
        match r {
            Ok(t) => t == seconds,
            Err(e) => seconds < 0 && e == AppError::Internal,
        },
{
    positive_u64(seconds)
}

/// The seconds of a tick as a timestamp; a tick beyond `i64::MAX` is an
/// internal error.
pub fn tick_seconds(tick: u64) -> (r: Result<i64, AppError>)
    ensures
        match r {
            Ok(s) => s == tick,
            Err(e) => tick > i64::MAX && e == AppError::Internal,
        },
{
    if tick <= i64::MAX as u64 { Ok(tick as i64) } else { Err(AppError::Internal) }
}

/// The version that a transition writes: one past the locked version; the
/// last version cannot advance.
pub fn next_state_version(state_version: i64) -> (r: Result<i64, AppError>)
    ensures
        match r {
            Ok(v) => v == state_version + 1,
            Err(e) => state_version == i64::MAX && e == AppError::Internal,
        },
{
    match state_version.checked_add(1) {
        Some(v) => Ok(v),
        None => Err(AppError::Internal),
    }
}

/// The status of a run's goal.
#[derive(Clone, Copy, Debug, PartialEq, Eq, Structural)]
pub enum GoalStatus {
    Active,
    Completed,
    Failed,
    Cancelled,
    Superseded,
}

/// The stored name of a goal status.
pub open spec fn goal_status_spec_name(status: GoalStatus) -> Seq<char> {
    match status {
        GoalStatus::Active => "active"@,
        GoalStatus::Completed => "completed"@,
        GoalStatus::Failed => "failed"@,
        GoalStatus::Cancelled => "cancelled"@,
        GoalStatus::Superseded => "superseded"@,
    }
}

pub fn goal_status_name(status: GoalStatus) -> (name: &'static str)
    ensures
        name@ == goal_status_spec_name(status),
{
    match status {
        GoalStatus::Active => "active",
        GoalStatus::Completed => "completed",
        GoalStatus::Failed => "failed",
        GoalStatus::Cancelled => "cancelled",
        GoalStatus::Superseded => "superseded",
    }
}

/// Distinct goal statuses are stored under distinct names.
pub proof fn goal_status_names_are_distinct(a: GoalStatus, b: GoalStatus)
    ensures
        goal_status_spec_name(a) == goal_status_spec_name(b) <==> a == b,
{
    reveal_strlit("active");
    reveal_strlit("completed");
    reveal_strlit("failed");
    reveal_strlit("cancelled");
    reveal_strlit("superseded");
    if goal_status_spec_name(a) == goal_status_spec_name(b) && a != b {
        let (x, y) = (goal_status_spec_name(a), goal_status_spec_name(b));
        assert(x.len() != y.len() || x[0] != y[0] || x[1] != y[1]);
    }
}

/// The status of a collaborative run.
#[derive(Clone, Copy, Debug, PartialEq, Eq, Structural)]
pub enum CollaborativeRunStatus {
    Running,
    Completed,
    Cancelled,
}

/// The stored name of a run status.
pub open spec fn run_status_spec_name(status: CollaborativeRunStatus) -> Seq<char> {
    match status {
        CollaborativeRunStatus::Running => "running"@,
        CollaborativeRunStatus::Completed => "completed"@,
        CollaborativeRunStatus::Cancelled => "cancelled"@,
    }
}

pub fn run_status_name(status: CollaborativeRunStatus) -> (name: &'static str)
    ensures
        name@ == run_status_spec_name(status),
{
    match status {
        CollaborativeRunStatus::Running => "running",
        CollaborativeRunStatus::Completed => "completed",
        CollaborativeRunStatus::Cancelled => "cancelled",
    }
}

/// Distinct run statuses are stored under distinct names.
pub proof fn run_status_names_are_distinct(a: CollaborativeRunStatus, b: CollaborativeRunStatus)
    ensures
        run_status_spec_name(a) == run_status_spec_name(b) <==> a == b,
{
    reveal_strlit("running");
    reveal_strlit("completed");
    reveal_strlit("cancelled");
    if run_status_spec_name(a) == run_status_spec_name(b) && a != b {
        let (x, y) = (run_status_spec_name(a), run_status_spec_name(b));
        assert(x.len() != y.len() || x[0] != y[0] || x[1] != y[1]);
    }
}

/// The status of a work claim.
#[derive(Clone, Copy, Debug, PartialEq, Eq, Structural)]
pub enum ClaimStatus {
    Active,
    Expired,
    Released,
}

/// The stored name of a claim status.
pub open spec fn claim_status_spec_name(status: ClaimStatus) -> Seq<char> {
    match status {
        ClaimStatus::Active => "active"@,
        ClaimStatus::Expired => "expired"@,
        ClaimStatus::Released => "released"@,
    }
}

pub fn claim_status_name(status: ClaimStatus) -> (name: &'static str)
    ensures
        name@ == claim_status_spec_name(status),
{
    match status {
        ClaimStatus::Active => "active",
        ClaimStatus::Expired => "expired",
        ClaimStatus::Released => "released",
    }
}

/// Distinct claim statuses are stored under distinct names.
pub proof fn claim_status_names_are_distinct(a: ClaimStatus, b: ClaimStatus)
    ensures
        claim_status_spec_name(a) == claim_status_spec_name(b) <==> a == b,
{
    reveal_strlit("active");
    reveal_strlit("expired");
    reveal_strlit("released");
    if claim_status_spec_name(a) == claim_status_spec_name(b) && a != b {
        let (x, y) = (claim_status_spec_name(a), claim_status_spec_name(b));
        assert(x[0] != y[0]);
    }
}

/// The status of a blocker.
#[derive(Clone, Copy, Debug, PartialEq, Eq, Structural)]
pub enum BlockerStatus {
    Waiting,
    Resolved,
    Failed,
    Cancelled,
}

/// The stored name of a blocker status.
pub open spec fn blocker_status_spec_name(status: BlockerStatus) -> Seq<char> {
    match status {
        BlockerStatus::Waiting => "waiting"@,
        BlockerStatus::Resolved => "resolved"@,
        BlockerStatus::Failed => "failed"@,
        BlockerStatus::Cancelled => "cancelled"@,
    }
}

pub fn blocker_status_name(status: BlockerStatus) -> (name: &'static str)
    ensures
        name@ == blocker_status_spec_name(status),
{
    match status {
        BlockerStatus::Waiting => "waiting",
        BlockerStatus::Resolved => "resolved",
        BlockerStatus::Failed => "failed",
        BlockerStatus::Cancelled => "cancelled",
    }
}

/// Distinct blocker statuses are stored under distinct names.
pub proof fn blocker_status_names_are_distinct(a: BlockerStatus, b: BlockerStatus)
    ensures
        blocker_status_spec_name(a) == blocker_status_spec_name(b) <==> a == b,
{
    reveal_strlit("waiting");
    reveal_strlit("resolved");
    reveal_strlit("failed");
    reveal_strlit("cancelled");
    if blocker_status_spec_name(a) == blocker_status_spec_name(b) && a != b {
        let (x, y) = (blocker_status_spec_name(a), blocker_status_spec_name(b));
        assert(x[0] != y[0]);
    }
}

/// How evidence is verified.
#[derive(Clone, Copy, Debug, PartialEq, Eq, Structural)]
pub enum EvidenceVerificationMode {
    Mechanical,
    SemanticJudgment,
}

pub fn evidence_verification_name(mode: EvidenceVerificationMode) -> (name: &'static str)
    ensures
        mode == EvidenceVerificationMode::Mechanical ==> name@ == "mechanical"@,
        mode == EvidenceVerificationMode::SemanticJudgment ==> name@ == "semantic_judgment"@,
{
    match mode {
        EvidenceVerificationMode::Mechanical => "mechanical",
        EvidenceVerificationMode::SemanticJudgment => "semantic_judgment",
    }
}

/// A request to resolve a blocker, naming the observation that resolves it.
#[derive(Clone, Copy, Debug, PartialEq, Eq, Structural)]
pub enum ResolveBlockerRequest {
    HumanTaskTerminal { observation_id: u128 },
    AdministratorDecision { observation_id: u128 },
    PrincipalResponse { observation_id: u128 },
    ExternalOutcome { observation_id: u128 },
}

/// The kind and id of the observation that a resolution names.
pub open spec fn resolution_observation(request: ResolveBlockerRequest) -> (Seq<char>, u128) {
    match request {
        ResolveBlockerRequest::HumanTaskTerminal { observation_id } => ("human_task_terminal"@, observation_id),
        ResolveBlockerRequest::AdministratorDecision { observation_id } => ("administrator_decision"@, observation_id),
        ResolveBlockerRequest::PrincipalResponse { observation_id } => ("principal_response"@, observation_id),
        ResolveBlockerRequest::ExternalOutcome { observation_id } => ("external_outcome"@, observation_id),
    }
}

impl ResolveBlockerRequest {
    pub fn observation(&self) -> (r: (&'static str, u128))
        ensures
            (r.0@, r.1) == resolution_observation(*self),
    {
        match *self {
            ResolveBlockerRequest::HumanTaskTerminal { observation_id } => ("human_task_terminal", observation_id),
            ResolveBlockerRequest::AdministratorDecision { observation_id } =>
                ("administrator_decision", observation_id),
            ResolveBlockerRequest::PrincipalResponse { observation_id } => ("principal_response", observation_id),
            ResolveBlockerRequest::ExternalOutcome { observation_id } => ("external_outcome", observation_id),
        }
    }
}

/// The observation by which the run kernel resolved a blocker.
#[derive(Clone, Copy, Debug, PartialEq, Eq, Structural)]
pub enum BlockerResolutionObservation {
    HumanTaskTerminal { task: u128 },
    AdministratorDecision { decision: u128 },
    PrincipalResponse { comment: u128 },
    ExternalOutcome { observation: u128 },
}

/// The kind and id of the record that a resolution observation refers to.
pub open spec fn observation_reference(o: BlockerResolutionObservation) -> (Seq<char>, u128) {
    match o {
        BlockerResolutionObservation::HumanTaskTerminal { task } => ("human_task_terminal"@, task),
        BlockerResolutionObservation::AdministratorDecision { decision } => ("administrator_decision"@, decision),
        BlockerResolutionObservation::PrincipalResponse { comment } => ("principal_response"@, comment),
        BlockerResolutionObservation::ExternalOutcome { observation } => ("external_outcome"@, observation),
    }
}

pub fn blocker_observation_reference(observation: &BlockerResolutionObservation) -> (r: (&'static str, u128))
    ensures
        (r.0@, r.1) == observation_reference(*observation),
{
    match *observation {
        BlockerResolutionObservation::HumanTaskTerminal { task } => ("human_task_terminal", task),
        BlockerResolutionObservation::AdministratorDecision { decision } => ("administrator_decision", decision),
        BlockerResolutionObservation::PrincipalResponse { comment } => ("principal_response", comment),
        BlockerResolutionObservation::ExternalOutcome { observation } => ("external_outcome", observation),
    }
}

/// A request and the kernel's observation of the same kind name their record
/// under the same kind.
pub proof fn resolution_kinds_agree(request: ResolveBlockerRequest, o: BlockerResolutionObservation, id: u128)
    ensures
        (request matches ResolveBlockerRequest::HumanTaskTerminal { .. }) && o == (BlockerResolutionObservation::HumanTaskTerminal { task: id })
            ==> resolution_observation(request).0 == observation_reference(o).0,
        (request matches ResolveBlockerRequest::AdministratorDecision { .. }) && o == (BlockerResolutionObservation::AdministratorDecision { decision: id })
            ==> resolution_observation(request).0 == observation_reference(o).0,
        (request matches ResolveBlockerRequest::PrincipalResponse { .. }) && o == (BlockerResolutionObservation::PrincipalResponse { comment: id })
            ==> resolution_observation(request).0 == observation_reference(o).0,
        (request matches ResolveBlockerRequest::ExternalOutcome { .. }) && o == (BlockerResolutionObservation::ExternalOutcome { observation: id })
            ==> resolution_observation(request).0 == observation_reference(o).0,
{
}

/// A transition that the run kernel refused is answered as a conflict.
pub fn domain_error() -> (e: AppError)
    ensures
        e == AppError::Conflict,
{
    AppError::Conflict
}

/// The transition kind that a claim request records: a claimed work item, or
/// only a refreshed frontier when nothing was claimable.
pub fn claim_transition_kind(claimed: bool) -> (kind: &'static str)
    ensures
        claimed ==> kind@ == "work_claimed"@,
        !claimed ==> kind@ == "frontier_refreshed"@,
{
    if claimed { "work_claimed" } else { "frontier_refreshed" }
}

/// The checks of a terminal work report before its outcome is looked up:
/// failed work cannot name a successful product outcome. Answers the
/// transition kind.
pub fn terminal_work_kind(succeeded: bool, names_outcome: bool) -> (r: Result<&'static str, AppError>)
    ensures
        match r {
            Ok(kind) => (succeeded || !names_outcome)
                && (succeeded ==> kind@ == "work_succeeded"@) && (!succeeded ==> kind@ == "work_failed"@),
            Err(e) => !succeeded && names_outcome
                && e == AppError::BadRequest(BadRequestReason::FailedWorkClaimsOutcome),
        },
{
    if !succeeded && names_outcome {
        return Err(AppError::BadRequest(BadRequestReason::FailedWorkClaimsOutcome));
    }
    Ok(if succeeded { "work_succeeded" } else { "work_failed" })
}

/// Where a run's contract comes from.
#[derive(Clone, Copy, Debug, PartialEq, Eq, Structural)]
pub enum RunContractSource {
    LocalGoal { id: u128, revision: u64 },
    GlobalContract { id: u128, revision: u64 },
}

/// The source columns of a run: the local goal and its revision, or the
/// global contract and its revision. A revision beyond `i64::MAX` is refused.
pub fn persisted_source(source: RunContractSource) -> (r: Result<(Option<u128>, Option<i64>, Option<u128>, Option<i64>), AppError>)
    ensures
        match source {
            RunContractSource::LocalGoal { id, revision } => match r {
                Ok(cols) => revision <= i64::MAX && cols == (Some(id), Some(revision as i64), None::<u128>, None::<i64>),
                Err(e) => revision > i64::MAX && e == AppError::BadRequest(BadRequestReason::NumericValueOutOfRange),
            },
            RunContractSource::GlobalContract { id, revision } => match r {
                Ok(cols) => revision <= i64::MAX && cols == (None::<u128>, None::<i64>, Some(id), Some(revision as i64)),
                Err(e) => revision > i64::MAX && e == AppError::BadRequest(BadRequestReason::NumericValueOutOfRange),
            },
        },
{
    match source {
        RunContractSource::LocalGoal { id, revision } => {
            let revision = to_i64(revision)?;
            Ok((Some(id), Some(revision), None, None))
        },
        RunContractSource::GlobalContract { id, revision } => {
            let revision = to_i64(revision)?;
            Ok((None, None, Some(id), Some(revision)))
        },
    }
}

/// Who may create a run: a human only; from a local goal, only its
/// controller; from a global contract, whoever may manage the project (which
/// the route then checks, answering `true` here).
pub fn run_creation_authority(
    actor_is_agent: bool,
    actor: u128,
    source_is_local: bool,
    controller: Option<u128>,
) -> (r: Result<bool, AppError>)
    ensures
        match r {
            Ok(needs_manage) => !actor_is_agent && if source_is_local {
                controller == Some(actor) && !needs_manage
            } else {
                needs_manage
            },
            Err(e) => e == AppError::Forbidden
                && (actor_is_agent || (source_is_local && controller != Some(actor))),
        },
{
    if actor_is_agent {
        return Err(AppError::Forbidden);
    }
    if source_is_local {
        match controller {
            Some(c) => if c == actor { Ok(false) } else { Err(AppError::Forbidden) },
            None => Err(AppError::Forbidden),
        }
    } else {
        Ok(true)
    }
}

/// How many claims a recovery pass released: the drop in active claims, added
/// to the running total without overflow.
pub fn recovered_claims(total: u64, active_before: usize, active_after: usize) -> (r: u64)
    ensures
        active_after < active_before ==> r == if total + (active_before - active_after) <= u64::MAX {
            (total + (active_before - active_after)) as u64
        } else {
            u64::MAX
        },
        active_after >= active_before ==> r == total,
{
    if active_after < active_before {
        let released = (active_before - active_after) as u64;
        total.saturating_add(released)
    } else {
        total
    }
}

/// A run's current-authority check: the actor must be a participant of the
/// run and still able to read its scope.
pub fn current_run_authority(is_participant: bool, scope_readable: bool) -> (r: Result<(), AppError>)
    ensures
        r is Ok <==> is_participant && scope_readable,
        r matches Err(e) ==> e == AppError::Forbidden,
{
    if !is_participant || !scope_readable { Err(AppError::Forbidden) } else { Ok(()) }
}

/// The collaborative-run routes that only a human may drive (refreshing the
/// frontier, completing the run): an agent is forbidden.
pub fn require_human(actor_is_agent: bool) -> (r: Result<(), AppError>)
    ensures
        r is Ok <==> !actor_is_agent,
        r matches Err(e) ==> e == AppError::Forbidden,
{
    if actor_is_agent { Err(AppError::Forbidden) } else { Ok(()) }
}

/// Runner-only routes: a human is forbidden, and so is an agent without an
/// active runner on its device.
pub fn require_active_runner(actor_is_agent: bool, has_active_runner: bool) -> (r: Result<(), AppError>)
    ensures
        r is Ok <==> actor_is_agent && has_active_runner,
        r matches Err(e) ==> e == AppError::Forbidden,
{
    if !actor_is_agent || !has_active_runner { Err(AppError::Forbidden) } else { Ok(()) }
}

// ---------------------------------------------------------------------------
// Fact references
// ---------------------------------------------------------------------------

/// Whether a sequence of identifiers is strictly increasing.
pub open spec fn strictly_increasing(s: Seq<u128>) -> bool {
    forall|i: int, j: int| 0 <= i < j < s.len() ==> s[i] < s[j]
}

/// Lexicographic order of (administrator, ordinal) pairs.
pub open spec fn pair_lt(a: (u128, u64), b: (u128, u64)) -> bool {
    a.0 < b.0 || (a.0 == b.0 && a.1 < b.1)
}

/// Whether a sequence of pairs is strictly increasing.
pub open spec fn pairs_strictly_increasing(s: Seq<(u128, u64)>) -> bool {
    forall|i: int, j: int| 0 <= i < j < s.len() ==> pair_lt(s[i], s[j])
}

/// Whether no element repeats.
pub open spec fn no_repeats<T>(s: Seq<T>) -> bool {
    forall|i: int, j: int| 0 <= i < j < s.len() ==> s[i] != s[j]
}

/// The identifiers of a set in increasing order (its canonical listing).
pub fn sorted_ids(ids: &[u128]) -> (r: Vec<u128>)
    requires
        no_repeats(ids@),
    ensures
        strictly_increasing(r@),
        r@.to_set() == ids@.to_set(),
        r@.len() == ids@.len(),
{
    let mut out: Vec<u128> = Vec::new();
    let n = ids.len();
    for k in 0..n
        invariant
            n == ids@.len(),
            no_repeats(ids@),
            strictly_increasing(out@),
            out@.to_set() == ids@.subrange(0, k as int).to_set(),
            out@.len() == k,
    {
        let x = ids[k];
        let mut pos: usize = 0;
        while pos < out.len() && out[pos] < x
            invariant
                pos <= out@.len(),
                forall|i: int| 0 <= i < pos ==> out@[i] < x,
            decreases out@.len() - pos,
        {
            pos += 1;
        }
        proof {
            assert(!ids@.subrange(0, k as int).contains(x)) by {
                if ids@.subrange(0, k as int).contains(x) {
                    let j = choose|j: int| 0 <= j < k && ids@.subrange(0, k as int)[j] == x;
                    assert(ids@[j] == ids@[k as int]);
                }
            }
            assert(!out@.to_set().contains(x));
            if pos < out@.len() {
                assert(!out@.contains(x));
                assert(out@[pos as int] != x);
            }
        }
        let ghost old_out = out@;
        out.insert(pos, x);
        proof {
            assert(out@ =~= old_out.subrange(0, pos as int).push(x) + old_out.subrange(pos as int, old_out.len() as int));
            assert forall|i: int, j: int| 0 <= i < j < out@.len() implies out@[i] < out@[j] by {
                if j < pos {
                } else if j == pos {
                } else if i < pos {
                    assert(old_out[i] < x);
                    if pos < old_out.len() {
                        assert(x < old_out[pos as int]);
                    }
                    assert(old_out[i] < old_out[j - 1] || j - 1 == pos || old_out[i] < x);
                } else if i == pos {
                    assert(x < old_out[pos as int]);
                } else {
                }
            }
            assert(ids@.subrange(0, k + 1) =~= ids@.subrange(0, k as int).push(x));
            assert(out@.to_set() =~= old_out.to_set().insert(x)) by {
                assert forall|y: u128| out@.to_set().contains(y) <==> old_out.to_set().insert(x).contains(y) by {
                    if out@.contains(y) {
                        let i = choose|i: int| 0 <= i < out@.len() && out@[i] == y;
                        if i < pos {
                            assert(old_out[i] == y);
                        } else if i > pos {
                            assert(old_out[i - 1] == y);
                        }
                    }
                    if old_out.contains(y) {
                        let i = choose|i: int| 0 <= i < old_out.len() && old_out[i] == y;
                        if i < pos {
                            assert(out@[i] == y);
                        } else {
                            assert(out@[i + 1] == y);
                        }
                    }
                    if y == x {
                        assert(out@[pos as int] == x);
                    }
                }
            }
            ids@.subrange(0, k as int).lemma_push_to_set_commute(x);
        }
    }
    assert(ids@.subrange(0, n as int) =~= ids@);
    out
}

/// The (administrator, ordinal) pairs of a set in lexicographic order.
pub fn sorted_pairs(ids: &[(u128, u64)]) -> (r: Vec<(u128, u64)>)
    requires
        no_repeats(ids@),
    ensures
        pairs_strictly_increasing(r@),
        r@.to_set() == ids@.to_set(),
        r@.len() == ids@.len(),
{
    let mut out: Vec<(u128, u64)> = Vec::new();
    let n = ids.len();
    for k in 0..n
        invariant
            n == ids@.len(),
            no_repeats(ids@),
            pairs_strictly_increasing(out@),
            out@.to_set() == ids@.subrange(0, k as int).to_set(),
            out@.len() == k,
    {
        let x = ids[k];
        let mut pos: usize = 0;
        while pos < out.len() && (out[pos].0 < x.0 || (out[pos].0 == x.0 && out[pos].1 < x.1))
            invariant
                pos <= out@.len(),
                forall|i: int| 0 <= i < pos ==> pair_lt(out@[i], x),
            decreases out@.len() - pos,
        {
            pos += 1;
        }
        proof {
            assert(!ids@.subrange(0, k as int).contains(x)) by {
                if ids@.subrange(0, k as int).contains(x) {
                    let j = choose|j: int| 0 <= j < k && ids@.subrange(0, k as int)[j] == x;
                    assert(ids@[j] == ids@[k as int]);
                }
            }
            assert(!out@.to_set().contains(x));
            if pos < out@.len() {
                assert(!out@.contains(x));
                assert(out@[pos as int] != x);
                assert(pair_lt(x, out@[pos as int]));
            }
        }
        let ghost old_out = out@;
        out.insert(pos, x);
        proof {
            assert(out@ =~= old_out.subrange(0, pos as int).push(x) + old_out.subrange(pos as int, old_out.len() as int));
            assert forall|i: int, j: int| 0 <= i < j < out@.len() implies pair_lt(out@[i], out@[j]) by {
                if j < pos {
                } else if j == pos {
                } else if i < pos {
                    assert(out@[i] == old_out[i] && out@[j] == old_out[j - 1]);
                    assert(pair_lt(old_out[i], old_out[j - 1]));
                } else if i == pos {
                    assert(out@[i] == x && out@[j] == old_out[j - 1]);
                    assert(pair_lt(x, old_out[pos as int]));
                    if j - 1 > pos {
                        assert(pair_lt(old_out[pos as int], old_out[j - 1]));
                    }
                } else {
                    assert(out@[i] == old_out[i - 1] && out@[j] == old_out[j - 1]);
                }
            }
            assert(ids@.subrange(0, k + 1) =~= ids@.subrange(0, k as int).push(x));
            assert(out@.to_set() =~= old_out.to_set().insert(x)) by {
                assert forall|y: (u128, u64)| out@.to_set().contains(y) <==> old_out.to_set().insert(x).contains(y) by {
                    if out@.contains(y) {
                        let i = choose|i: int| 0 <= i < out@.len() && out@[i] == y;
                        if i < pos {
                            assert(old_out[i] == y);
                        } else if i > pos {
                            assert(old_out[i - 1] == y);
                        }
                    }
                    if old_out.contains(y) {
                        let i = choose|i: int| 0 <= i < old_out.len() && old_out[i] == y;
                        if i < pos {
                            assert(out@[i] == y);
                        } else {
                            assert(out@[i + 1] == y);
                        }
                    }
                    if y == x {
                        assert(out@[pos as int] == x);
                    }
                }
            }
            ids@.subrange(0, k as int).lemma_push_to_set_commute(x);
        }
    }
    assert(ids@.subrange(0, n as int) =~= ids@);
    out
}

/// The authoritative facts of a run in their canonical order, as the
/// transition log hashes them.
pub struct AuthoritativeFactReferences {
    pub completed_tasks: Vec<u128>,
    pub discharged_obligations: Vec<u128>,
    pub comment_authors: Vec<u128>,
    pub administrator_approvals: Vec<(u128, u64)>,
}

/// Lists the fact sets of a run canonically: each set in increasing order,
/// approvals by administrator and then by review ordinal.
pub fn fact_references(
    completed_tasks: &[u128],
    discharged_obligations: &[u128],
    comment_authors: &[u128],
    administrator_approvals: &[(u128, u64)],
) -> (r: AuthoritativeFactReferences)
    requires
        no_repeats(completed_tasks@),
        no_repeats(discharged_obligations@),
        no_repeats(comment_authors@),
        no_repeats(administrator_approvals@),
    ensures
        strictly_increasing(r.completed_tasks@) && r.completed_tasks@.to_set() == completed_tasks@.to_set(),
        strictly_increasing(r.discharged_obligations@)
            && r.discharged_obligations@.to_set() == discharged_obligations@.to_set(),
        strictly_increasing(r.comment_authors@) && r.comment_authors@.to_set() == comment_authors@.to_set(),
        pairs_strictly_increasing(r.administrator_approvals@)
            && r.administrator_approvals@.to_set() == administrator_approvals@.to_set(),
{
    AuthoritativeFactReferences {
        completed_tasks: sorted_ids(completed_tasks),
        discharged_obligations: sorted_ids(discharged_obligations),
        comment_authors: sorted_ids(comment_authors),
        administrator_approvals: sorted_pairs(administrator_approvals),
    }
}

/// Two strictly increasing listings of the same set are the same listing: the
/// canonical order of a fact set does not depend on how the set was held.
pub proof fn canonical_listing_is_unique(a: Seq<u128>, b: Seq<u128>)
    requires
        strictly_increasing(a),
        strictly_increasing(b),
        a.to_set() == b.to_set(),
    ensures
        a == b,
    decreases a.len() + b.len(),
{
    if a.len() == 0 || b.len() == 0 {
        if a.len() > 0 {
            assert(a.to_set().contains(a[0]));
        }
        if b.len() > 0 {
            assert(b.to_set().contains(b[0]));
        }
        assert(a =~= b);
    } else {
        // the least elements agree
        assert(a.to_set().contains(a[0]) && b.to_set().contains(b[0]));
        let i = choose|i: int| 0 <= i < b.len() && b[i] == a[0];
        let j = choose|j: int| 0 <= j < a.len() && a[j] == b[0];
        assert(a[0] == b[0]) by {
            if i > 0 { assert(b[0] < b[i]); assert(a[j] < a[0] || j == 0); }
        }
        let (ta, tb) = (a.drop_first(), b.drop_first());
        assert(ta.to_set() =~= tb.to_set()) by {
            assert forall|x: u128| ta.to_set().contains(x) <==> tb.to_set().contains(x) by {
                if ta.contains(x) {
                    let k = choose|k: int| 0 <= k < ta.len() && ta[k] == x;
                    assert(a[k + 1] == x && a[0] < x);
                    assert(a.contains(x));
                    assert(a.to_set().contains(x));
                    assert(b.to_set().contains(x));
                    assert(b.contains(x));
                    let m = choose|m: int| 0 <= m < b.len() && b[m] == x;
                    assert(m != 0);
                    assert(tb[m - 1] == x);
                }
                if tb.contains(x) {
                    let k = choose|k: int| 0 <= k < tb.len() && tb[k] == x;
                    assert(b[k + 1] == x && b[0] < x);
                    assert(b.contains(x));
                    assert(b.to_set().contains(x));
                    assert(a.to_set().contains(x));
                    assert(a.contains(x));
                    let m = choose|m: int| 0 <= m < a.len() && a[m] == x;
                    assert(m != 0);
                    assert(ta[m - 1] == x);
                }
            }
        }
        canonical_listing_is_unique(ta, tb);
        assert(a =~= seq![a[0]] + ta);
        assert(b =~= seq![b[0]] + tb);
    }
}

/// The comment authors whose comments a condition mentions.
pub open spec fn condition_comment_authors(c: ContractCondition) -> Set<u128>
    decreases c,
{
    match c {
        ContractCondition::CommentBy { author } => set![author],
        ContractCondition::All { left, right } =>
            condition_comment_authors(*left).union(condition_comment_authors(*right)),
        ContractCondition::Any { left, right } =>
            condition_comment_authors(*left).union(condition_comment_authors(*right)),
        ContractCondition::Neg { condition } => condition_comment_authors(*condition),
        _ => Set::empty(),
    }
}

/// The administrator approvals that a condition mentions.
pub open spec fn condition_approvals(c: ContractCondition) -> Set<(u128, u64)>
    decreases c,
{
    match c {
        ContractCondition::AdministratorApproved { administrator, review_work_spec_ordinal } =>
            set![(administrator, review_work_spec_ordinal)],
        ContractCondition::All { left, right } => condition_approvals(*left).union(condition_approvals(*right)),
        ContractCondition::Any { left, right } => condition_approvals(*left).union(condition_approvals(*right)),
        ContractCondition::Neg { condition } => condition_approvals(*condition),
        _ => Set::empty(),
    }
}

/// Adds a pair to a repetition-free list unless it is already there.
fn insert_pair(pairs: &mut Vec<(u128, u64)>, pair: (u128, u64))
    requires
        no_repeats(old(pairs)@),
    ensures
        no_repeats(final(pairs)@),
        final(pairs)@.to_set() == old(pairs)@.to_set().insert(pair),
{
    let n = pairs.len();
    for i in 0..n
        invariant
            n == pairs@.len(),
            pairs@ == old(pairs)@,
            no_repeats(pairs@),
            forall|j: int| 0 <= j < i ==> pairs@[j] != pair,
    {
        if pairs[i].0 == pair.0 && pairs[i].1 == pair.1 {
            proof {
                assert(pairs@.to_set().contains(pair));
                assert(pairs@.to_set() =~= pairs@.to_set().insert(pair));
            }
            return;
        }
    }
    let ghost before = pairs@;
    pairs.push(pair);
    proof {
        before.lemma_push_to_set_commute(pair);
    }
}

/// Gathers the references of a condition: the tasks, comment authors and
/// administrator approvals whose facts it depends on.
pub fn collect_contract_references(
    condition: &ContractCondition,
    tasks: &mut HashSet<u128>,
    comments: &mut HashSet<u128>,
    approvals: &mut Vec<(u128, u64)>,
)
    requires
        no_repeats(old(approvals)@),
    ensures
        final(tasks)@ == old(tasks)@.union(condition_tasks(*condition)),
        final(comments)@ == old(comments)@.union(condition_comment_authors(*condition)),
        final(approvals)@.to_set() == old(approvals)@.to_set().union(condition_approvals(*condition)),
        no_repeats(final(approvals)@),
    decreases condition,
{
    match condition {
        ContractCondition::TaskDone { task } => {
            tasks.insert(*task);
            assert(final(tasks)@ =~= old(tasks)@.union(condition_tasks(*condition)));
            assert(final(comments)@ =~= old(comments)@.union(condition_comment_authors(*condition)));
            assert(final(approvals)@.to_set() =~= old(approvals)@.to_set().union(condition_approvals(*condition)));
        },
        ContractCondition::CommentBy { author } => {
            comments.insert(*author);
            assert(final(tasks)@ =~= old(tasks)@.union(condition_tasks(*condition)));
            assert(final(comments)@ =~= old(comments)@.union(condition_comment_authors(*condition)));
            assert(final(approvals)@.to_set() =~= old(approvals)@.to_set().union(condition_approvals(*condition)));
        },
        ContractCondition::AdministratorApproved { administrator, review_work_spec_ordinal } => {
            insert_pair(approvals, (*administrator, *review_work_spec_ordinal));
            assert(final(tasks)@ =~= old(tasks)@.union(condition_tasks(*condition)));
            assert(final(comments)@ =~= old(comments)@.union(condition_comment_authors(*condition)));
            assert(final(approvals)@.to_set() =~= old(approvals)@.to_set().union(condition_approvals(*condition)));
        },
        ContractCondition::All { left, right } | ContractCondition::Any { left, right } => {
            collect_contract_references(left, tasks, comments, approvals);
            collect_contract_references(right, tasks, comments, approvals);
            assert(final(tasks)@ =~= old(tasks)@.union(condition_tasks(*condition)));
            assert(final(comments)@ =~= old(comments)@.union(condition_comment_authors(*condition)));
            assert(final(approvals)@.to_set() =~= old(approvals)@.to_set().union(condition_approvals(*condition)));
        },
        ContractCondition::Neg { condition: inner } => {
            collect_contract_references(inner, tasks, comments, approvals);
        },
        _ => {
            assert(final(tasks)@ =~= old(tasks)@.union(condition_tasks(*condition)));
            assert(final(comments)@ =~= old(comments)@.union(condition_comment_authors(*condition)));
            assert(final(approvals)@.to_set() =~= old(approvals)@.to_set().union(condition_approvals(*condition)));
        },
    }
}

} // verus!
