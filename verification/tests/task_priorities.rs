use stutter::ioprio::{
    ioprio_handler_restore_token,
    ioprio_restore_token_result, ioprio_rollback_records, validate_ioprio_value, validate_policy_and_request,
    IoPrioAction, IoPrioClass, IoPrioObservation, IoPrioPolicy, IoPrioValue,
};
use stutter::model::{ActionId, IoPrioRestoreRecord, NiceRestoreRecord, SafetyClass, TaskIdentity, TaskRestoreIdentity};
use stutter::nice::{
    nice_handler_restore_token, nice_rollback_outcome, nice_rollback_records, validate_nice_request, NiceAction, NicePolicy,
};
use stutter::restore::{
    tally_task_restores, RestoreWriteError, TaskProcObservation, TaskRestoreEvent, TaskRestoreItem, TaskRestoreObservation,
};
use stutter::tasks::{identity_warnings, TaskObservation};
use stutter::token::RollbackToken;

fn target(tid: u32, comm: &str, starttime_ticks: u64) -> TaskIdentity {
    TaskIdentity {
        tid,
        process_pid: Some(tid),
        comm: Some(comm.to_owned()),
        starttime_ticks: Some(starttime_ticks),
    }
}

fn target_without_process_pid(tid: u32, comm: &str, starttime_ticks: u64) -> TaskIdentity {
    TaskIdentity {
        tid,
        process_pid: None,
        comm: Some(comm.to_owned()),
        starttime_ticks: Some(starttime_ticks),
    }
}

fn permissive_evidence_policy() -> IoPrioPolicy {
    IoPrioPolicy {
        allow_ioprio_changes: true,
        allow_realtime_class: false,
        allow_none_class: false,
        max_best_effort_level: 7,
        require_strong_block_io_evidence: true,
        strong_block_io_evidence: true,
    }
}

fn ioprio_action_for(tid: u32, ioprio: IoPrioValue) -> IoPrioAction {
    IoPrioAction {
        targets: vec![target(tid, "storage-worker", 12345)],
        ioprio,
        policy: permissive_evidence_policy(),
    }
}

fn nice_action_for(tid: u32, nice: i32) -> NiceAction {
    NiceAction {
        targets: vec![target(tid, "game-thread", 12345)],
        nice,
        policy: NicePolicy::default(),
    }
}

fn fake_stat_line(tid: u32, comm: &str, nice: i32, starttime_ticks: u64) -> String {
    let mut fields = vec!["0".to_owned(); 20];
    fields[0] = "S".to_owned();
    fields[16] = nice.to_string();
    fields[19] = starttime_ticks.to_string();

    format!("{tid} ({comm}) {}", fields.join(" "))
}

#[test]
fn tests_safety_class_is_reversible_medium_risk() {
    assert_eq!(
        ioprio_action_for(42, IoPrioValue::best_effort(6)).safety_class(),
        SafetyClass::ReversibleMediumRisk
    );
}

#[test]
fn action_id_and_description_include_requested_ioprio() {
    let action = ioprio_action_for(42, IoPrioValue::best_effort(6));

    assert_eq!(action.id(), ActionId::new("ioprio:set:best-effort:6:targets:1".to_owned()));
    assert_eq!(action.describe(), "set I/O priority best-effort:6 for task(s) [42]");
}

#[test]
fn identity_warnings_report_comm_mismatch_and_missing_process_pid() {
    let warnings = identity_warnings(
        &target_without_process_pid(42, "old-comm", 12345),
        &Some("new-comm".to_owned()),
    );

    assert!(warnings.iter().any(|warning| warning.message.contains("comm changed")));
    assert!(warnings.iter().any(|warning| warning.message.contains("no process_pid identity")));
}

#[test]
fn rollback_token_reports_affected_tasks() {
    let token = RollbackToken::IoPrioRestore {
        records: vec![
            IoPrioRestoreRecord::new(
                TaskRestoreIdentity::observed(1, None, Some("test".to_owned()), None, None),
                IoPrioValue::best_effort(4).encode().unwrap(),
            ),
            IoPrioRestoreRecord::new(
                TaskRestoreIdentity::observed(2, None, Some("test".to_owned()), None, None),
                IoPrioValue::idle().encode().unwrap(),
            ),
        ],
    };

    assert_eq!(token.affected_tasks(), 2);
    assert!(token.restore_path().is_none());
}

#[test]
fn ioprio_rollback_refuses_token_of_another_kind() {
    let err = ioprio_rollback_records(&RollbackToken::NiceRestore { records: Vec::new() })
        .unwrap_err()
        .message();

    assert!(err.contains("invalid rollback token"));
    assert!(err.contains("expected ioprio-restore"));
    assert!(err.contains("actual nice-restore"));
}

#[test]
fn ioprio_decode_round_trips_every_valid_value() {
    let mut values = vec![IoPrioValue::none(), IoPrioValue::idle()];
    for level in 0..=7 {
        values.push(IoPrioValue::best_effort(level));
        values.push(IoPrioValue::realtime(level));
    }
    for value in values {
        let encoded = value.encode().unwrap();
        assert_eq!(IoPrioValue::decode(encoded).unwrap(), value);
    }
}

#[test]
fn ioprio_decode_rejects_unknown_class() {
    let err = IoPrioValue::decode(5 << 13).unwrap_err().message();

    assert!(err.contains("5"));
}

#[test]
fn ioprio_labels_name_class_and_level() {
    assert_eq!(IoPrioValue::best_effort(6).label(), "best-effort:6");
    assert_eq!(IoPrioValue::idle().label(), "idle");
    assert_eq!(IoPrioClass::Realtime.label(), "realtime");
}

#[test]
fn ioprio_policy_refuses_changes_by_default() {
    let err = validate_policy_and_request(&IoPrioPolicy::default(), IoPrioValue::best_effort(4)).unwrap_err();

    assert!(err.message().contains("action_policy_denied"));
}

#[test]
fn ioprio_policy_refuses_realtime_unless_allowed() {
    let err = validate_policy_and_request(&permissive_evidence_policy(), IoPrioValue::realtime(1)).unwrap_err();

    assert!(err.message().contains("action_policy_denied"));
}

#[test]
fn ioprio_policy_refuses_best_effort_above_policy_maximum() {
    let policy = IoPrioPolicy {
        max_best_effort_level: 4,
        ..permissive_evidence_policy()
    };

    assert!(validate_policy_and_request(&policy, IoPrioValue::best_effort(5)).is_err());
    assert!(validate_policy_and_request(&policy, IoPrioValue::best_effort(4)).is_ok());
}

#[test]
fn ioprio_value_level_checks() {
    assert!(validate_ioprio_value(IoPrioValue::best_effort(7)).is_ok());
    assert!(validate_ioprio_value(IoPrioValue::best_effort(8)).is_err());
    assert!(validate_ioprio_value(IoPrioValue { class: IoPrioClass::Idle, level: Some(0) }).is_err());
}

#[test]
fn ioprio_dry_run_counts_targets_with_another_priority() {
    let action = ioprio_action_for(42, IoPrioValue::best_effort(6));
    let observations = vec![IoPrioObservation {
        task: TaskObservation {
            stat: Some(fake_stat_line(42, "storage-worker", 0, 12345)),
            comm: Some("storage-worker\n".to_owned()),
            exe: None,
        },
        current_ioprio: Some(IoPrioValue::best_effort(4).encode().unwrap()),
    }];

    let state = action
        .dry_run_with_policy(&permissive_evidence_policy(), "/proc", &observations)
        .unwrap();

    assert!(!state.applied);
    assert_eq!(state.pending_changes, 1);
    assert_eq!(state.checked_tasks, 1);
}

#[test]
fn ioprio_handler_reports_failed_writes_as_restore_failure() {
    let token = RollbackToken::IoPrioRestore { records: Vec::new() };
    let items = vec![TaskRestoreItem {
        tid: 42,
        original: 0,
        event: TaskRestoreEvent::WriteFailed {
            legacy: false,
            error: "permission denied".to_owned(),
        },
    }];
    let tally = tally_task_restores("ioprio", "I/O priority", &items);

    let err = ioprio_restore_token_result(&token, tally).unwrap_err();

    assert!(err.message().contains("failed to restore I/O priority"));
}

#[test]
fn nice_safety_class_is_reversible_medium_risk() {
    assert_eq!(nice_action_for(42, 5).safety_class(), SafetyClass::ReversibleMediumRisk);
}

#[test]
fn nice_action_id_and_description_include_requested_nice() {
    let action = nice_action_for(42, 7);

    assert_eq!(action.id(), ActionId::new("nice:set:7:targets:1".to_owned()));
    assert_eq!(action.describe(), "set nice=7 for task(s) [42]");
}

#[test]
fn tests_action_id_and_description_include_requested_nice() {
    let action = nice_action_for(42, 7);

    assert_eq!(action.id(), ActionId::new("nice:set:7:targets:1".to_owned()));
    assert_eq!(action.describe(), "set nice=7 for task(s) [42]");
}

fn nice_observations() -> Vec<TaskObservation> {
    vec![TaskObservation {
        stat: Some(fake_stat_line(42, "game-thread", 0, 12345)),
        comm: Some("game-thread\n".to_owned()),
        exe: None,
    }]
}

#[test]
fn nice_preflight_rejects_nice_outside_linux_range() {
    let err = nice_action_for(42, 20)
        .preflight_with_policy(&NicePolicy::default(), "/proc", &nice_observations())
        .unwrap_err()
        .message();

    assert!(err.contains("outside Linux nice range"));
}

#[test]
fn tests_preflight_rejects_nice_outside_linux_range() {
    assert!(validate_nice_request(&NicePolicy::default(), 20).is_err());
    assert!(validate_nice_request(&NicePolicy::default(), -21).is_err());
    assert!(validate_nice_request(&NicePolicy::default(), 19).is_ok());
    assert!(validate_nice_request(&NicePolicy::default(), -20).is_ok());
}

#[test]
fn tests_rollback_rejects_wrong_token_kind() {
    let token = RollbackToken::IoPrioRestore { records: Vec::new() };

    let err = nice_rollback_records(&token).unwrap_err().message();

    assert!(err.contains("invalid rollback token"));
    assert!(err.contains("expected nice-restore"));
    assert!(err.contains("actual ioprio-restore"));
}

#[test]
fn nice_rollback_token_reports_affected_tasks() {
    let token = RollbackToken::NiceRestore {
        records: vec![NiceRestoreRecord::new(
            TaskRestoreIdentity::observed(7, None, None, Some(1), None),
            3,
        )],
    };

    assert_eq!(token.affected_tasks(), 1);
    assert_eq!(token.kind(), "nice-restore");
}

#[test]
fn nice_rollback_reports_counts_when_a_write_failed() {
    let items = vec![
        TaskRestoreItem { tid: 1, original: 0, event: TaskRestoreEvent::Written { legacy: false } },
        TaskRestoreItem { tid: 2, original: 0, event: TaskRestoreEvent::Missing },
        TaskRestoreItem {
            tid: 3,
            original: 0,
            event: TaskRestoreEvent::WriteFailed { legacy: false, error: "denied".to_owned() },
        },
    ];
    let tally = tally_task_restores("nice", "nice", &items);

    assert_eq!(tally.restored, 1);
    assert_eq!(tally.skipped_dead, 1);
    assert_eq!(tally.errors, 1);
    let err = nice_rollback_outcome(&tally).unwrap_err().message();
    assert!(err.contains("failed=1"));
}

#[test]
fn nice_dry_run_counts_targets_with_another_value() {
    let state = nice_action_for(42, 5)
        .dry_run_with_policy(&NicePolicy::default(), "/proc", &nice_observations())
        .unwrap();

    assert!(!state.applied);
    assert_eq!(state.pending_changes, 1);
}

fn two_nice_observations() -> Vec<TaskObservation> {
    [(41, "first"), (42, "second")]
        .iter()
        .map(|(tid, comm)| TaskObservation {
            stat: Some(fake_stat_line(*tid, comm, 0, 12345)),
            comm: Some(format!("{comm}\n")),
            exe: None,
        })
        .collect()
}

fn two_task_nice_action(nice: i32) -> NiceAction {
    NiceAction {
        targets: vec![target(41, "first", 12345), target(42, "second", 12345)],
        nice,
        policy: NicePolicy::default(),
    }
}

#[test]
fn nice_apply_records_every_changed_task() {
    let token = two_task_nice_action(5)
        .apply_with_policy(&NicePolicy::default(), "/proc", &two_nice_observations(), &Vec::new())
        .unwrap();
    match token {
        RollbackToken::NiceRestore { records } => {
            assert_eq!(records.iter().map(|r| (r.tid, r.original_nice)).collect::<Vec<_>>(), vec![(41, 0), (42, 0)]);
        }
        other => panic!("unexpected rollback token: {other:?}"),
    }
}

#[test]
fn nice_apply_failure_returns_token_of_tasks_already_changed() {
    let writes = vec![None, Some("Operation not permitted (os error 1)".to_owned())];
    let err = two_task_nice_action(5)
        .apply_with_policy(&NicePolicy::default(), "/proc", &two_nice_observations(), &writes)
        .unwrap_err();
    assert_eq!(err.source.message(), "failed to set nice for tid=42: Operation not permitted (os error 1)");
    match err.rollback {
        Some(RollbackToken::NiceRestore { records }) => {
            assert_eq!(records.len(), 1);
            assert_eq!(records[0].tid, 41);
        }
        other => panic!("unexpected rollback token: {other:?}"),
    }

    let err = two_task_nice_action(5)
        .apply_with_policy(&NicePolicy::default(), "/proc", &two_nice_observations(), &vec![Some("denied".to_owned())])
        .unwrap_err();
    assert_eq!(err.source.message(), "failed to set nice for tid=41: denied");
    assert!(err.rollback.is_none());
}

#[test]
fn nice_apply_skips_tasks_that_already_have_the_value() {
    let token = two_task_nice_action(0)
        .apply_with_policy(&NicePolicy::default(), "/proc", &two_nice_observations(), &vec![Some("unused".to_owned())])
        .unwrap();
    assert_eq!(token, RollbackToken::NiceRestore { records: Vec::new() });
}

#[test]
fn ioprio_apply_records_original_priority_or_reports_failure() {
    let action = ioprio_action_for(42, IoPrioValue::best_effort(6));
    let original = IoPrioValue::best_effort(4).encode().unwrap();
    let observations = vec![IoPrioObservation {
        task: TaskObservation {
            stat: Some(fake_stat_line(42, "storage-worker", 0, 12345)),
            comm: Some("storage-worker\n".to_owned()),
            exe: None,
        },
        current_ioprio: Some(original),
    }];

    let token = action.apply_with_policy(&permissive_evidence_policy(), "/proc", &observations, &Vec::new()).unwrap();
    match token {
        RollbackToken::IoPrioRestore { records } => {
            assert_eq!(records.len(), 1);
            assert_eq!(records[0].tid, 42);
            assert_eq!(records[0].original_ioprio, original);
        }
        other => panic!("unexpected rollback token: {other:?}"),
    }

    let err = action
        .apply_with_policy(&permissive_evidence_policy(), "/proc", &observations, &vec![Some("denied".to_owned())])
        .unwrap_err();
    assert_eq!(err.source.message(), "failed to set I/O priority for tid=42: denied");
    assert!(err.rollback.is_none());
}

#[test]
fn nice_preflight_rejects_empty_targets() {
    let action = NiceAction { targets: Vec::new(), nice: 5, policy: NicePolicy::default() };

    let err = action
        .preflight_with_policy(&NicePolicy::default(), "/proc", &Vec::new())
        .unwrap_err()
        .message();

    assert!(err.contains("requires at least one target task"));
}

#[test]
fn tests_preflight_rejects_empty_targets() {
    let action = IoPrioAction {
        targets: Vec::new(),
        ioprio: IoPrioValue::best_effort(6),
        policy: permissive_evidence_policy(),
    };

    let err = action
        .preflight_with_policy(&permissive_evidence_policy(), "/proc", &Vec::new())
        .unwrap_err()
        .message();

    assert!(err.contains("requires at least one explicit target task"));
}

fn restore_record_identity(tid: u32, comm: &str) -> TaskRestoreIdentity {
    TaskRestoreIdentity::observed(tid, None, Some(comm.to_owned()), Some(12345), None)
}

fn live(tid: u32, comm: &str, write: Option<Result<(), RestoreWriteError>>) -> TaskRestoreObservation {
    TaskRestoreObservation {
        proc: TaskProcObservation { stat: Some(fake_stat_line(tid, comm, 0, 12345)), status_tgid: None, process_stat: None },
        write,
    }
}

fn gone() -> TaskRestoreObservation {
    TaskRestoreObservation {
        proc: TaskProcObservation { stat: None, status_tgid: None, process_stat: None },
        write: None,
    }
}

fn nice_token() -> RollbackToken {
    RollbackToken::NiceRestore {
        records: vec![
            NiceRestoreRecord::new(restore_record_identity(41, "first"), 0),
            NiceRestoreRecord::new(restore_record_identity(42, "second"), -5),
        ],
    }
}

#[test]
fn nice_rollback_restores_live_tasks_and_skips_exited_ones() {
    let obs = vec![live(41, "first", Some(Ok(()))), gone()];
    assert!(nice_action_for(41, 5).rollback_outcome(&nice_token(), &obs).is_ok());

    let result = nice_handler_restore_token(&nice_token(), &obs).unwrap();
    assert_eq!(result.handler_id, "nice-rollback");
    assert_eq!(result.restored, 1);
    assert_eq!(result.skipped_dead, 1);
    assert_eq!(result.errors, 0);
}

#[test]
fn nice_rollback_skips_reused_tid_without_writing() {
    // The task under tid 42 started at another time: its identity no longer matches.
    let reused = TaskRestoreObservation {
        proc: TaskProcObservation { stat: Some(fake_stat_line(42, "second", 0, 99999)), status_tgid: None, process_stat: None },
        write: Some(Err(RestoreWriteError::Io("must not be used".to_owned()))),
    };
    let result = nice_handler_restore_token(&nice_token(), &vec![live(41, "first", Some(Ok(()))), reused]).unwrap();
    assert_eq!(result.restored, 1);
    assert_eq!(result.skipped_identity_mismatch, 1);
    assert_eq!(result.errors, 0);
    assert_eq!(
        result.messages,
        vec!["nice restore identity mismatch for tid=42: starttime_ticks mismatch: expected=12345 actual=99999".to_owned()]
    );
}

#[test]
fn nice_rollback_reports_failed_write_after_visiting_every_record() {
    let obs = vec![live(41, "first", Some(Err(RestoreWriteError::PermissionDenied("denied".to_owned())))), live(42, "second", Some(Ok(())))];
    let err = nice_action_for(41, 5).rollback_outcome(&nice_token(), &obs).unwrap_err().message();
    assert!(err.contains("failed to rollback nice after attempting all records: restored=1"));
    assert!(err.contains("failed to restore original nice=0 for tid=41: denied"));

    let result = nice_handler_restore_token(&nice_token(), &obs).unwrap();
    assert_eq!(result.errors, 1);
    assert_eq!(result.restored, 1);

    let other = nice_handler_restore_token(&RollbackToken::IoPrioRestore { records: Vec::new() }, &Vec::new()).unwrap_err();
    assert_eq!(other.reason_code(), "action_unsupported_rollback_token");
}

#[test]
fn ioprio_rollback_fails_restore_on_failed_write() {
    let token = RollbackToken::IoPrioRestore {
        records: vec![IoPrioRestoreRecord::new(restore_record_identity(42, "storage-worker"), 16388)],
    };
    let ok = vec![live(42, "storage-worker", Some(Ok(())))];
    let result = ioprio_handler_restore_token(&token, &ok).unwrap();
    assert_eq!(result.handler_id, "ioprio-rollback");
    assert_eq!(result.restored, 1);
    let action = ioprio_action_for(42, IoPrioValue::best_effort(6));
    assert!(action.rollback_outcome(&token, &ok).is_ok());

    let failed = vec![live(42, "storage-worker", Some(Err(RestoreWriteError::Io("busy".to_owned()))))];
    let err = ioprio_handler_restore_token(&token, &failed).unwrap_err();
    assert_eq!(err.reason_code(), "action_restore_failed");
    assert!(err.message().contains("failed to restore original I/O priority=16388 for tid=42: busy"));
    assert!(action.rollback_outcome(&token, &failed).is_err());
}
