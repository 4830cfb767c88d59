use std::collections::HashSet;

use sprout_routes::agent_runs::{
    blocker_observation_reference, blocker_status_name, claim_status_name, claim_transition_kind,
    collect_contract_references, current_run_authority, domain_error, evidence_verification_name,
    fact_references, goal_status_name, next_state_version, persisted_source, positive_u64,
    recovered_claims, require_active_runner, require_human, run_creation_authority,
    run_status_name, sorted_ids, sorted_pairs, terminal_work_kind, tick_seconds, timestamp_tick,
    to_i64, BlockerResolutionObservation, BlockerStatus, ClaimStatus, CollaborativeRunStatus,
    EmptyIntent, EvidenceVerificationMode, GoalStatus, ResolveBlockerRequest, RunContractSource,
    SCHEDULER_AGING_STEP,
};
use sprout_routes::agents::ContractCondition;
use sprout_routes::error::{AppError, BadRequestReason};

#[test]
fn stored_values_read_back() {
    for value in [0u64, 1, 42, i64::MAX as u64] {
        assert_eq!(positive_u64(to_i64(value).unwrap()).unwrap(), value);
        assert_eq!(timestamp_tick(tick_seconds(value).unwrap()).unwrap(), value);
    }
    assert_eq!(
        to_i64(i64::MAX as u64 + 1).unwrap_err(),
        AppError::BadRequest(BadRequestReason::NumericValueOutOfRange)
    );
    assert_eq!(positive_u64(-1).unwrap_err(), AppError::Internal);
    assert_eq!(timestamp_tick(-5).unwrap_err(), AppError::Internal);
    assert_eq!(tick_seconds(u64::MAX).unwrap_err(), AppError::Internal);
}

#[test]
fn state_versions_advance_by_one() {
    assert_eq!(next_state_version(0).unwrap(), 1);
    assert_eq!(next_state_version(i64::MAX).unwrap_err(), AppError::Internal);
    assert_eq!(SCHEDULER_AGING_STEP, 1);
    let _ = EmptyIntent {};
}

#[test]
fn status_names() {
    assert_eq!(goal_status_name(GoalStatus::Active), "active");
    assert_eq!(goal_status_name(GoalStatus::Completed), "completed");
    assert_eq!(goal_status_name(GoalStatus::Failed), "failed");
    assert_eq!(goal_status_name(GoalStatus::Cancelled), "cancelled");
    assert_eq!(goal_status_name(GoalStatus::Superseded), "superseded");
    assert_eq!(run_status_name(CollaborativeRunStatus::Running), "running");
    assert_eq!(run_status_name(CollaborativeRunStatus::Completed), "completed");
    assert_eq!(run_status_name(CollaborativeRunStatus::Cancelled), "cancelled");
    assert_eq!(claim_status_name(ClaimStatus::Active), "active");
    assert_eq!(claim_status_name(ClaimStatus::Expired), "expired");
    assert_eq!(claim_status_name(ClaimStatus::Released), "released");
    assert_eq!(blocker_status_name(BlockerStatus::Waiting), "waiting");
    assert_eq!(blocker_status_name(BlockerStatus::Resolved), "resolved");
    assert_eq!(blocker_status_name(BlockerStatus::Failed), "failed");
    assert_eq!(blocker_status_name(BlockerStatus::Cancelled), "cancelled");
    assert_eq!(evidence_verification_name(EvidenceVerificationMode::Mechanical), "mechanical");
    assert_eq!(evidence_verification_name(EvidenceVerificationMode::SemanticJudgment), "semantic_judgment");
}

#[test]
fn blocker_resolutions_name_their_observation() {
    assert_eq!(
        ResolveBlockerRequest::HumanTaskTerminal { observation_id: 1 }.observation(),
        ("human_task_terminal", 1)
    );
    assert_eq!(
        ResolveBlockerRequest::AdministratorDecision { observation_id: 2 }.observation(),
        ("administrator_decision", 2)
    );
    assert_eq!(ResolveBlockerRequest::PrincipalResponse { observation_id: 3 }.observation(), ("principal_response", 3));
    assert_eq!(ResolveBlockerRequest::ExternalOutcome { observation_id: 4 }.observation(), ("external_outcome", 4));
    assert_eq!(
        blocker_observation_reference(&BlockerResolutionObservation::HumanTaskTerminal { task: 1 }),
        ("human_task_terminal", 1)
    );
    assert_eq!(
        blocker_observation_reference(&BlockerResolutionObservation::AdministratorDecision { decision: 2 }),
        ("administrator_decision", 2)
    );
    assert_eq!(
        blocker_observation_reference(&BlockerResolutionObservation::PrincipalResponse { comment: 3 }),
        ("principal_response", 3)
    );
    assert_eq!(
        blocker_observation_reference(&BlockerResolutionObservation::ExternalOutcome { observation: 4 }),
        ("external_outcome", 4)
    );
    // a request and the kernel's observation of the same kind agree on the kind
    assert_eq!(
        ResolveBlockerRequest::PrincipalResponse { observation_id: 9 }.observation().0,
        blocker_observation_reference(&BlockerResolutionObservation::PrincipalResponse { comment: 9 }).0
    );
}

#[test]
fn transition_kinds() {
    assert_eq!(domain_error(), AppError::Conflict);
    assert_eq!(claim_transition_kind(true), "work_claimed");
    assert_eq!(claim_transition_kind(false), "frontier_refreshed");
    assert_eq!(terminal_work_kind(true, true).unwrap(), "work_succeeded");
    assert_eq!(terminal_work_kind(true, false).unwrap(), "work_succeeded");
    assert_eq!(terminal_work_kind(false, false).unwrap(), "work_failed");
    assert_eq!(
        terminal_work_kind(false, true).unwrap_err(),
        AppError::BadRequest(BadRequestReason::FailedWorkClaimsOutcome)
    );
}

#[test]
fn run_contract_sources_fill_one_pair_of_columns() {
    assert_eq!(
        persisted_source(RunContractSource::LocalGoal { id: 1, revision: 2 }).unwrap(),
        (Some(1), Some(2), None, None)
    );
    assert_eq!(
        persisted_source(RunContractSource::GlobalContract { id: 3, revision: 4 }).unwrap(),
        (None, None, Some(3), Some(4))
    );
    assert_eq!(
        persisted_source(RunContractSource::LocalGoal { id: 1, revision: u64::MAX }).unwrap_err(),
        AppError::BadRequest(BadRequestReason::NumericValueOutOfRange)
    );
}

#[test]
fn who_may_create_a_run() {
    assert_eq!(run_creation_authority(false, 1, true, Some(1)).unwrap(), false);
    assert_eq!(run_creation_authority(false, 1, false, None).unwrap(), true);
    assert_eq!(run_creation_authority(true, 1, true, Some(1)).unwrap_err(), AppError::Forbidden);
    assert_eq!(run_creation_authority(true, 1, false, None).unwrap_err(), AppError::Forbidden);
    assert_eq!(run_creation_authority(false, 1, true, Some(2)).unwrap_err(), AppError::Forbidden);
    assert_eq!(run_creation_authority(false, 1, true, None).unwrap_err(), AppError::Forbidden);
}

#[test]
fn recovered_claim_counts_saturate() {
    assert_eq!(recovered_claims(5, 3, 1), 7);
    assert_eq!(recovered_claims(5, 1, 3), 5);
    assert_eq!(recovered_claims(u64::MAX - 1, 5, 0), u64::MAX);
}

#[test]
fn run_participation() {
    assert!(current_run_authority(true, true).is_ok());
    assert_eq!(current_run_authority(true, false).unwrap_err(), AppError::Forbidden);
    assert_eq!(current_run_authority(false, true).unwrap_err(), AppError::Forbidden);
    assert!(require_human(false).is_ok());
    assert_eq!(require_human(true).unwrap_err(), AppError::Forbidden);
    assert!(require_active_runner(true, true).is_ok());
    assert_eq!(require_active_runner(true, false).unwrap_err(), AppError::Forbidden);
    assert_eq!(require_active_runner(false, true).unwrap_err(), AppError::Forbidden);
}

#[test]
fn fact_references_are_sorted_canonically() {
    assert_eq!(sorted_ids(&[5, 1, 3]), vec![1, 3, 5]);
    assert_eq!(sorted_ids(&[]), Vec::<u128>::new());
    assert_eq!(sorted_pairs(&[(2, 1), (1, 9), (2, 0)]), vec![(1, 9), (2, 0), (2, 1)]);
    let refs = fact_references(&[9, 2], &[4], &[u128::MAX, 0], &[(3, 3), (3, 1)]);
    assert_eq!(refs.completed_tasks, vec![2, 9]);
    assert_eq!(refs.discharged_obligations, vec![4]);
    assert_eq!(refs.comment_authors, vec![0, u128::MAX]);
    assert_eq!(refs.administrator_approvals, vec![(3, 1), (3, 3)]);
    // the listing does not depend on the order the facts came in
    let again = fact_references(&[2, 9], &[4], &[0, u128::MAX], &[(3, 1), (3, 3)]);
    assert_eq!(again.completed_tasks, refs.completed_tasks);
    assert_eq!(again.administrator_approvals, refs.administrator_approvals);
}

#[test]
fn contract_references_are_collected_once_each() {
    let condition = ContractCondition::All {
        left: Box::new(ContractCondition::AdministratorApproved { administrator: 1, review_work_spec_ordinal: 2 }),
        right: Box::new(ContractCondition::Any {
            left: Box::new(ContractCondition::CommentBy { author: 7 }),
            right: Box::new(ContractCondition::Neg {
                condition: Box::new(ContractCondition::All {
                    left: Box::new(ContractCondition::TaskDone { task: 3 }),
                    right: Box::new(ContractCondition::AdministratorApproved {
                        administrator: 1,
                        review_work_spec_ordinal: 2,
                    }),
                }),
            }),
        }),
    };
    let mut tasks = HashSet::new();
    let mut comments = HashSet::new();
    let mut approvals = vec![(5, 5)];
    collect_contract_references(&condition, &mut tasks, &mut comments, &mut approvals);
    assert_eq!(tasks, [3].into_iter().collect());
    assert_eq!(comments, [7].into_iter().collect());
    approvals.sort();
    assert_eq!(approvals, vec![(1, 2), (5, 5)]);
}
