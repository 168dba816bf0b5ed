use stutter::cgroup::TaskClass;
use stutter::cpu_affinity::{
    affinity_restore_result, cpu_affinity_handler_dry_run_token, cpu_affinity_rollback_path, profile_restore_result,
    AffinityRestoreCounts, CpuAffinityProfileAction, Profile, ProfileRestoreCounts, ProfileRule,
};
use stutter::error::{ActionBoundaryError, ActionError, ActionFailure, ActionSourceError, ActionTimeout, PhaseFailure};
use stutter::model::{ActionPhase, SafetyClass, TaskIdentity, TaskRestoreIdentity};
use stutter::restore::{tally_summary, TaskRestoreTally};
use stutter::rollback::RollbackHandlerError;
use stutter::token::RollbackToken;

fn profile(rules: Vec<ProfileRule>) -> Profile {
    Profile { name: "game".to_owned(), rules }
}

fn affinity_rule() -> ProfileRule {
    ProfileRule {
        affinity: Some("2-3".to_owned()),
        nice: None,
        ionice: None,
        match_class: vec![TaskClass::Game],
        match_comm: Vec::new(),
    }
}

fn profile_action(tree_pid: u32, rules: Vec<ProfileRule>, force: bool) -> CpuAffinityProfileAction {
    CpuAffinityProfileAction { tree_pid, profile: profile(rules), force_restore_overwrite: force }
}

#[test]
fn affinity_preflight_refuses_tid_zero_and_empty_profile() {
    let err = profile_action(0, vec![affinity_rule()], false).preflight_for_restore_path("/tmp/r.json", false).unwrap_err();
    assert_eq!(err, ActionBoundaryError::InvalidTargetTid { action_kind: "cpu_affinity_profile", tid: 0 });

    let err = profile_action(7, Vec::new(), false).preflight_for_restore_path("/tmp/r.json", false).unwrap_err();
    assert!(matches!(err, ActionBoundaryError::InvalidRequest { action_kind: "cpu_affinity_profile", ref reason }
        if reason == "profile 'game' has no rules"));
}

#[test]
fn affinity_preflight_warns_about_existing_restore_file_unless_forced() {
    let warnings = profile_action(7, vec![affinity_rule()], false).preflight_for_restore_path("/tmp/r.json", true).unwrap();
    assert_eq!(warnings.len(), 1);
    assert_eq!(warnings[0].message, "restore file already exists at /tmp/r.json; new affinity records will be merged");

    let forced = profile_action(7, vec![affinity_rule()], true).preflight_for_restore_path("/tmp/r.json", true).unwrap();
    assert!(forced.is_empty());
    let fresh = profile_action(7, vec![affinity_rule()], false).preflight_for_restore_path("/tmp/r.json", false).unwrap();
    assert!(fresh.is_empty());
}

#[test]
fn affinity_safety_class_rises_with_priority_rules() {
    assert_eq!(profile_action(7, vec![affinity_rule()], false).safety_class(), SafetyClass::ReversibleLowRisk);
    let nice_rule = ProfileRule { nice: Some(-5), ..affinity_rule() };
    assert_eq!(profile_action(7, vec![nice_rule], false).safety_class(), SafetyClass::ReversibleMediumRisk);
}

#[test]
fn affinity_rollback_takes_the_restore_path_of_its_own_tokens() {
    let token = RollbackToken::CpuAffinityRestoreFile { path: "/tmp/r.json".to_owned(), affected_tasks: 3 };
    assert_eq!(cpu_affinity_rollback_path(&token).unwrap(), "/tmp/r.json");
    assert!(cpu_affinity_rollback_path(&RollbackToken::NiceRestore { records: Vec::new() }).is_err());

    let preview = cpu_affinity_handler_dry_run_token(&token).unwrap();
    assert_eq!(preview.handler_id, "cpu-affinity-rollback");
    assert_eq!(preview.affected_tasks, 3);
    let err = cpu_affinity_handler_dry_run_token(&RollbackToken::NiceRestore { records: Vec::new() }).unwrap_err();
    assert!(matches!(err, ActionBoundaryError::UnsupportedRollbackToken { .. }));
}

#[test]
fn affinity_restore_results_report_counts() {
    let token = RollbackToken::CpuAffinityRestoreFile { path: "/tmp/r.json".to_owned(), affected_tasks: 3 };
    let r = profile_restore_result(
        &token,
        ProfileRestoreCounts { affinity: 2, nice: 1, ionice: 1, skipped_dead: 1, skipped_identity_mismatch: 2, errors: 0 },
    );
    assert_eq!(r.handler_id, "cpu-affinity-rollback");
    assert_eq!(r.restore_path, "/tmp/r.json");
    assert_eq!(r.restored, 4);
    assert_eq!(r.skipped_dead, 3);
    assert_eq!(r.messages, vec!["affinity=2 nice=1 ionice=1 skipped_dead=1 skipped_identity_mismatch=2 errors=0".to_owned()]);

    let r = affinity_restore_result(
        &token,
        AffinityRestoreCounts { restored: 5, skipped_dead: 1, skipped_identity_mismatch: 1, legacy_unverified: 1, errors: 0 },
    );
    assert_eq!(r.restored, 5);
    assert_eq!(r.skipped_dead, 3);
    assert_eq!(r.messages, vec!["restored=5 skipped_dead=1 skipped_identity_mismatch=1 legacy_unverified=1 errors=0".to_owned()]);
}

#[test]
fn phase_errors_keep_their_phase_and_text() {
    let source = ActionSourceError::Message("boom".to_owned());
    for (err, phase) in [
        (ActionError::preflight_error(source.clone()), ActionPhase::Preflight),
        (ActionError::dry_run_error(source.clone()), ActionPhase::DryRun),
        (ActionError::apply_error(source.clone()), ActionPhase::Apply),
    ] {
        assert_eq!(err.phase(), phase);
        assert!(err.timeout_details().is_none());
    }
    match ActionError::apply_error(source).into_failure() {
        ActionFailure::Phase(PhaseFailure::Apply { message }) => assert_eq!(message, "boom"),
        other => panic!("unexpected failure: {other:?}"),
    }
}

#[test]
fn rollback_errors_keep_action_errors_and_wrap_the_rest() {
    let inner = ActionError::policy_rejected("no");
    assert_eq!(ActionError::from_rollback_error(ActionSourceError::Action(inner.clone())), inner);
    let wrapped = ActionError::from_rollback_error(ActionSourceError::Message("disk gone".to_owned()));
    assert_eq!(wrapped.phase(), ActionPhase::Rollback);
}

#[test]
fn timeout_details_are_reported_for_timeouts_only() {
    let err = ActionError::timeout(ActionPhase::Verify, 1500, 1000);
    assert_eq!(
        err.timeout_details(),
        Some(ActionTimeout { phase: ActionPhase::Verify, elapsed_ms: 1500, timeout_ms: 1000 })
    );
}

#[test]
fn safety_classes_are_ordered_by_risk() {
    assert!(SafetyClass::ObserveOnly.at_most(SafetyClass::ReversibleLowRisk));
    assert!(SafetyClass::ReversibleMediumRisk.at_most(SafetyClass::ReversibleMediumRisk));
    assert!(!SafetyClass::HighRisk.at_most(SafetyClass::ReversibleMediumRisk));
}

#[test]
fn restore_identity_from_task_identity_keeps_known_fields() {
    let task = TaskIdentity { tid: 9, process_pid: Some(8), comm: Some("game".to_owned()), starttime_ticks: Some(77) };
    let identity = TaskRestoreIdentity::from_task_identity(&task);
    assert_eq!(identity.tid, 9);
    assert_eq!(identity.process_pid, Some(8));
    assert_eq!(identity.comm, Some("game".to_owned()));
    assert_eq!(identity.starttime_ticks, Some(77));
    assert_eq!(identity.exe, None);
}

#[test]
fn tally_summary_renames_counts() {
    let tally = TaskRestoreTally {
        restored: 2,
        skipped_dead: 1,
        skipped_identity_mismatch: 3,
        legacy_unverified: 0,
        errors: 4,
        messages: Vec::new(),
        failures: Vec::new(),
    };
    let summary = tally_summary(&tally);
    assert_eq!(summary.restored, 2);
    assert_eq!(summary.skipped_missing, 1);
    assert_eq!(summary.skipped_identity_mismatch, 3);
    assert_eq!(summary.failed, 4);
}

#[test]
fn handler_errors_expose_boundary_errors_only() {
    let boundary = ActionBoundaryError::InvalidTargetTid { action_kind: "nice", tid: 0 };
    let err = RollbackHandlerError::Boundary(boundary.clone());
    assert_eq!(err.as_boundary_error(), Some(&boundary));
    assert_eq!(RollbackHandlerError::Message("x".to_owned()).as_boundary_error(), None);
}
