use stutter::cgroup::{
    cgroup_handler_result, cgroup_partial_token, cgroup_rollback_outcome, cgroup_rollback_parts, cpuset_restore_writes,
    resolve_original_cgroup,
    tally_cgroup_restores, validate_action_request, CgroupFileObservation, CgroupPlacementAction,
    CgroupPlacementPolicy, CgroupPlacementTarget, CgroupRestoreItem, CgroupTaskObservation, FileAccess, FileRead,
    TaskClass,
};
use stutter::cgroup_rollback::cgroup_handler_restore_token;
use stutter::cgroup_verify::CgroupVerifyObservation;
use stutter::runner::{ActionRun, ActionRunPolicy, ActionSource, RunEvent, RunOutcome, RunStage};
use stutter::model::{ActionId, ActionState, CgroupCpusetRestoreRecord, CgroupRestoreRecord, SafetyClass, TaskIdentity, TaskRestoreIdentity};
use stutter::restore::{
    classify_restore_write_error, restore_event, verify_task_identity, IoErrorKind, RestoreWriteError,
    TaskProcObservation, TaskRestoreObservation, WriteFailure,
};
use stutter::tasks::TaskObservation;
use stutter::token::RollbackToken;

const CGROUP_ROOT: &str = "/tmp/stutter-cgroup-root";
const PROC_ROOT: &str = "/tmp/stutter-proc-root";

fn target(tid: u32, comm: &str, starttime_ticks: u64) -> TaskIdentity {
    TaskIdentity {
        tid,
        process_pid: Some(tid),
        comm: Some(comm.to_owned()),
        starttime_ticks: Some(starttime_ticks),
    }
}

fn placement_target(tid: u32, comm: &str, class: TaskClass) -> CgroupPlacementTarget {
    CgroupPlacementTarget {
        identity: target(tid, comm, 12345),
        class,
    }
}

fn action_for(tid: u32) -> CgroupPlacementAction {
    CgroupPlacementAction {
        cgroup_root: CGROUP_ROOT.to_owned(),
        target_cgroup: "/stutter/game.slice".to_owned(),
        targets: vec![placement_target(tid, "game-thread", TaskClass::Game)],
        cpuset_cpus: Some("2-3".to_owned()),
        cpuset_mems: Some("0".to_owned()),
    }
}

fn fake_stat_line(tid: u32, comm: &str, starttime_ticks: u64) -> String {
    let mut fields = vec!["0".to_owned(); 20];
    fields[0] = "S".to_owned();
    fields[19] = starttime_ticks.to_string();

    format!("{tid} ({comm}) {}", fields.join(" "))
}

/// What procfs shows of a task: its stat line, comm and cgroup membership.
fn fake_task(tid: u32, comm: &str, starttime_ticks: u64, cgroup: &str) -> CgroupTaskObservation {
    CgroupTaskObservation {
        task: TaskObservation {
            stat: Some(fake_stat_line(tid, comm, starttime_ticks)),
            comm: Some(format!("{comm}\n")),
            exe: None,
        },
        cgroup_file: FileRead::Contents(format!("0::{cgroup}\n")),
    }
}

/// The target cgroup as the fixtures create it: a directory with writable files.
fn fake_cgroup_files() -> CgroupFileObservation {
    CgroupFileObservation {
        target_is_dir: true,
        procs: FileAccess::Writable,
        cpuset_cpus: FileAccess::Writable,
        cpuset_mems: FileAccess::Writable,
    }
}

#[test]
fn planning_safety_class_is_reversible_medium_risk() {
    assert_eq!(action_for(42).safety_class(), SafetyClass::ReversibleMediumRisk);
}

#[test]
fn planning_action_id_and_description_include_target_cgroup() {
    let action = action_for(42);

    assert_eq!(
        action.id(),
        ActionId::new("cgroup:place:/stutter/game.slice:targets:1".to_owned())
    );
    assert_eq!(action.describe(), "move task(s) [42] to cgroup /stutter/game.slice");
}

#[test]
fn planning_dry_run_counts_pending_move_and_cpuset_changes_without_mutating() {
    let observations = vec![fake_task(42, "game-thread", 12345, "/old.slice")];

    let state = action_for(42)
        .dry_run_with_policy(&CgroupPlacementPolicy::default(), PROC_ROOT, &fake_cgroup_files(), &observations)
        .unwrap();

    assert!(!state.applied);
    assert_eq!(state.checked_tasks, 1);
    assert_eq!(state.affected_tasks, 2);
    assert_eq!(state.pending_changes, 2);
}

#[test]
fn procfs_verify_reports_exited_task_as_warning_not_crash() {
    let observations = vec![CgroupVerifyObservation {
        task_exists: false,
        cgroup_file: FileRead::Unread,
    }];

    let state = action_for(42)
        .verify_with_policy(
            &CgroupPlacementPolicy::default(),
            PROC_ROOT,
            &observations,
            &FileRead::Contents("0-7\n".to_owned()),
            &FileRead::Contents("0\n".to_owned()),
        )
        .unwrap();

    assert!(!state.applied);
    assert_eq!(state.checked_tasks, 0);
    assert_eq!(state.affected_tasks, 0);
    assert!(state
        .warnings
        .iter()
        .any(|warning| warning.message.contains("exited before cgroup placement verify")));
}

#[test]
fn verify_counts_placed_task_and_matching_cpuset_as_applied() {
    let observations = vec![CgroupVerifyObservation {
        task_exists: true,
        cgroup_file: FileRead::Contents("0::/stutter/game.slice\n".to_owned()),
    }];

    let state = action_for(42)
        .verify_with_policy(
            &CgroupPlacementPolicy::default(),
            PROC_ROOT,
            &observations,
            &FileRead::Contents("2-3\n".to_owned()),
            &FileRead::Contents("0\n".to_owned()),
        )
        .unwrap();

    assert!(state.applied);
    assert_eq!(state.checked_tasks, 1);
    assert_eq!(state.pending_changes, 0);
    assert!(state.warnings.is_empty());
}

#[test]
fn verify_reports_unreadable_cpuset_file() {
    let observations = vec![CgroupVerifyObservation {
        task_exists: true,
        cgroup_file: FileRead::Contents("0::/stutter/game.slice\n".to_owned()),
    }];

    let err = action_for(42)
        .verify_with_policy(
            &CgroupPlacementPolicy::default(),
            PROC_ROOT,
            &observations,
            &FileRead::Failed("permission denied".to_owned()),
            &FileRead::Contents("0\n".to_owned()),
        )
        .unwrap_err()
        .message();

    assert_eq!(
        err,
        "failed to read /tmp/stutter-cgroup-root/stutter/game.slice/cpuset.cpus: failed to read /tmp/stutter-cgroup-root/stutter/game.slice/cpuset.cpus: permission denied"
    );
}

#[test]
fn rollback_cgroup_partial_token_keeps_cpuset_restore_state() {
    let cpuset = CgroupCpusetRestoreRecord {
        cgroup_path: "/stutter/game.slice".to_owned(),
        original_cpuset_cpus: Some("0-7".to_owned()),
        original_cpuset_mems: Some("0".to_owned()),
    };

    let token = cgroup_partial_token(Vec::new(), true, &Some(cpuset.clone()))
        .expect("cpuset mutation should produce a rollback token");

    let RollbackToken::CgroupRestore {
        records,
        cpuset: restored_cpuset,
    } = token
    else {
        panic!("expected cgroup rollback token");
    };
    assert!(records.is_empty());
    assert_eq!(restored_cpuset, Some(cpuset));
}

fn observed_record(tid: u32, comm: &str, starttime: Option<u64>, original: &str) -> CgroupRestoreRecord {
    CgroupRestoreRecord::new(
        TaskRestoreIdentity::observed(tid, None, Some(comm.to_owned()), starttime, None),
        original.to_owned(),
    )
}

#[test]
fn rollback_cgroup_restore_token_reports_affected_tasks_and_no_restore_path() {
    let token = RollbackToken::CgroupRestore {
        records: vec![
            observed_record(1, "test", None, "/a.slice"),
            observed_record(2, "test", None, "/b.slice"),
        ],
        cpuset: None,
    };

    assert_eq!(token.affected_tasks(), 2);
    assert!(token.restore_path().is_none());
}

/// Runs the cgroup rollback decisions over `records` as the action does: the identity
/// check from what procfs shows, then (where it allows) the write, whose failure comes
/// from `write_failure`. Returns the directory written for each restored record and the
/// rollback's outcome.
fn run_rollback(
    records: &[CgroupRestoreRecord],
    procfs: &dyn Fn(u32) -> TaskProcObservation,
    write_failure: &dyn Fn(&str) -> Option<WriteFailure>,
) -> (Vec<(u32, String)>, Result<(), String>) {
    let mut items = Vec::new();
    let mut written = Vec::new();
    for record in records {
        let status = verify_task_identity(&record.restore_identity(), &procfs(record.tid));
        let dir = resolve_original_cgroup(CGROUP_ROOT, &record.original_cgroup).unwrap();
        let write = match status {
            stutter::restore::RestoreIdentityStatus::Missing
            | stutter::restore::RestoreIdentityStatus::Mismatch { .. } => None,
            _ => Some(match write_failure(&dir) {
                None => {
                    written.push((record.tid, dir.clone()));
                    Ok(())
                }
                Some(f) => Err(classify_restore_write_error(f, true)),
            }),
        };
        let event = restore_event(status, write);
        items.push(CgroupRestoreItem {
            tid: record.tid,
            cgroup_dir: dir,
            event,
        });
    }
    let tally = tally_cgroup_restores(&items);
    let outcome = cgroup_rollback_outcome(&tally, None).map_err(|e| e.message());
    (written, outcome)
}

fn live_task(tid: u32, comm: &str, starttime: u64) -> TaskProcObservation {
    TaskProcObservation {
        stat: Some(fake_stat_line(tid, comm, starttime)),
        status_tgid: Some(Some(tid)),
        process_stat: None,
    }
}

fn gone_task() -> TaskProcObservation {
    TaskProcObservation {
        stat: None,
        status_tgid: None,
        process_stat: None,
    }
}

#[test]
fn rollback_rollback_skips_exited_tasks_cleanly() {
    let records = vec![observed_record(42, "test", None, "/old.slice")];

    let (written, outcome) = run_rollback(&records, &|_| gone_task(), &|_| None);

    assert!(outcome.is_ok());
    assert!(written.is_empty());
}

#[test]
fn rollback_rollback_skips_identity_mismatch_without_restoring_reused_tid() {
    let records = vec![observed_record(42, "game-thread", Some(12345), "/old.slice")];

    let (written, outcome) = run_rollback(&records, &|tid| live_task(tid, "other-thread", 99999), &|_| None);

    assert!(outcome.is_ok());
    assert!(written.is_empty());
}

#[test]
fn rollback_rollback_skips_dead_middle_task_and_restores_remaining_records() {
    let records = vec![
        observed_record(41, "first", Some(4100), "/old-first.slice"),
        observed_record(42, "second", Some(4200), "/old-second.slice"),
        observed_record(43, "third", Some(4300), "/old-third.slice"),
    ];
    let procfs = |tid: u32| match tid {
        41 => live_task(41, "first", 4100),
        43 => live_task(43, "third", 4300),
        _ => gone_task(),
    };

    let (written, outcome) = run_rollback(&records, &procfs, &|_| None);

    assert!(outcome.is_ok());
    assert_eq!(
        written,
        vec![
            (41, format!("{CGROUP_ROOT}/old-first.slice")),
            (43, format!("{CGROUP_ROOT}/old-third.slice")),
        ]
    );
}

#[test]
fn rollback_rollback_reports_real_write_failure_after_attempting_remaining_records() {
    let records = vec![
        observed_record(41, "first", Some(4100), "/missing-old.slice"),
        observed_record(43, "third", Some(4300), "/old-third.slice"),
    ];
    let procfs = |tid: u32| match tid {
        41 => live_task(41, "first", 4100),
        _ => live_task(43, "third", 4300),
    };
    let write_failure = |dir: &str| {
        if dir.ends_with("missing-old.slice") {
            Some(WriteFailure {
                io_kind: Some(IoErrorKind::NotFound),
                raw_os_error: Some(2),
                message: "No such file or directory (os error 2)".to_owned(),
            })
        } else {
            None
        }
    };

    let (written, outcome) = run_rollback(&records, &procfs, &write_failure);

    assert!(outcome.unwrap_err().contains("after attempting all records"));
    assert_eq!(written, vec![(43, format!("{CGROUP_ROOT}/old-third.slice"))]);
}

#[test]
fn rollback_rollback_rejects_wrong_token_kind() {
    let err = cgroup_rollback_parts(&RollbackToken::NiceRestore { records: Vec::new() })
        .unwrap_err()
        .message();

    assert!(err.contains("invalid rollback token"));
    assert!(err.contains("expected cgroup-restore"));
    assert!(err.contains("actual nice-restore"));
}

#[test]
fn validation_preflight_accepts_fake_nested_cgroup_files() {
    let observations = vec![fake_task(42, "game-thread", 12345, "/old.slice")];

    let warnings = action_for(42)
        .preflight_with_policy(&CgroupPlacementPolicy::default(), PROC_ROOT, &fake_cgroup_files(), &observations)
        .unwrap();

    assert!(warnings.is_empty());
}

#[test]
fn validation_preflight_rejects_missing_target_cgroup() {
    let observations = vec![fake_task(42, "game-thread", 12345, "/old.slice")];
    let files = CgroupFileObservation {
        target_is_dir: false,
        procs: FileAccess::Missing,
        cpuset_cpus: FileAccess::Missing,
        cpuset_mems: FileAccess::Missing,
    };

    let err = action_for(42)
        .preflight_with_policy(&CgroupPlacementPolicy::default(), PROC_ROOT, &files, &observations)
        .unwrap_err()
        .message();

    assert!(err.contains("action_missing_path"));
}

#[test]
fn validation_preflight_rejects_nested_cgroup_when_policy_disallows_it() {
    let observations = vec![fake_task(42, "game-thread", 12345, "/old.slice")];
    let policy = CgroupPlacementPolicy {
        allow_nested_cgroups: false,
        ..CgroupPlacementPolicy::default()
    };

    let err = action_for(42)
        .preflight_with_policy(&policy, PROC_ROOT, &fake_cgroup_files(), &observations)
        .unwrap_err()
        .message();

    assert!(err.contains("action_invalid_policy"));
}

#[test]
fn validation_preflight_rejects_cpuset_when_policy_disallows_it() {
    let observations = vec![fake_task(42, "game-thread", 12345, "/old.slice")];
    let policy = CgroupPlacementPolicy {
        allow_cpuset_changes: false,
        ..CgroupPlacementPolicy::default()
    };

    let err = action_for(42)
        .preflight_with_policy(&policy, PROC_ROOT, &fake_cgroup_files(), &observations)
        .unwrap_err()
        .message();

    assert!(err.contains("action_policy_denied"));
}

#[test]
fn validation_preflight_rejects_missing_cgroup_procs_permission_file() {
    let observations = vec![fake_task(42, "game-thread", 12345, "/old.slice")];
    let files = CgroupFileObservation {
        procs: FileAccess::Missing,
        ..fake_cgroup_files()
    };

    let err = action_for(42)
        .preflight_with_policy(&CgroupPlacementPolicy::default(), PROC_ROOT, &files, &observations)
        .unwrap_err()
        .message();

    assert!(err.contains("action_missing_path"));
}

#[test]
fn validation_preflight_rejects_system_critical_task_classes() {
    for class in [
        TaskClass::AudioRealtime,
        TaskClass::Input,
        TaskClass::KernelThread,
        TaskClass::IrqThread,
        TaskClass::Service,
        TaskClass::NetworkDaemon,
        TaskClass::StorageDaemon,
        TaskClass::Unknown,
    ] {
        let observations = vec![fake_task(42, "critical", 12345, "/old.slice")];
        let mut action = action_for(42);
        action.targets = vec![placement_target(42, "critical", class)];

        let err = action
            .preflight_with_policy(&CgroupPlacementPolicy::default(), PROC_ROOT, &fake_cgroup_files(), &observations)
            .unwrap_err()
            .message();

        assert!(err.contains("action_invalid_request"));
    }
}

#[test]
fn validation_preflight_rejects_starttime_mismatch() {
    let observations = vec![fake_task(42, "game-thread", 99999, "/old.slice")];

    let err = action_for(42)
        .preflight_with_policy(&CgroupPlacementPolicy::default(), PROC_ROOT, &fake_cgroup_files(), &observations)
        .unwrap_err()
        .message();

    assert!(err.contains("action_target_identity_mismatch"));
}

#[test]
fn validation_rejects_parent_traversal_in_target_cgroup() {
    let mut action = action_for(42);
    action.target_cgroup = "../bad".to_owned();

    let err = validate_action_request(&action, &CgroupPlacementPolicy::default())
        .unwrap_err()
        .message();

    assert!(err.contains("must not contain parent traversal"));
}

#[test]
fn validation_rejects_invalid_cpuset_values() {
    let mut action = action_for(42);
    action.cpuset_cpus = Some("0;rm -rf".to_owned());

    let err = validate_action_request(&action, &CgroupPlacementPolicy::default())
        .unwrap_err()
        .message();

    assert!(err.contains("cpuset.cpus contains invalid character"));
}

#[test]
fn classifies_missing_proc_task_not_found_as_missing_task() {
    let f = WriteFailure {
        io_kind: Some(IoErrorKind::NotFound),
        raw_os_error: None,
        message: "gone".to_owned(),
    };

    assert!(matches!(classify_restore_write_error(f, false), RestoreWriteError::MissingTask));
}

#[test]
fn classifies_esrch_as_missing_task_even_when_proc_entry_exists() {
    let f = WriteFailure {
        io_kind: Some(IoErrorKind::Other),
        raw_os_error: Some(libc::ESRCH),
        message: "No such process (os error 3)".to_owned(),
    };

    assert!(matches!(classify_restore_write_error(f, true), RestoreWriteError::MissingTask));
}

#[test]
fn classifies_permission_denied_as_real_failure_category() {
    let f = WriteFailure {
        io_kind: Some(IoErrorKind::PermissionDenied),
        raw_os_error: None,
        message: "not allowed".to_owned(),
    };

    assert!(matches!(
        classify_restore_write_error(f, false),
        RestoreWriteError::PermissionDenied(_)
    ));
}

#[test]
fn classifies_invalid_value_as_real_failure_category() {
    let f = WriteFailure {
        io_kind: Some(IoErrorKind::InvalidInput),
        raw_os_error: None,
        message: "bad value".to_owned(),
    };

    assert!(matches!(
        classify_restore_write_error(f, false),
        RestoreWriteError::InvalidValue(_)
    ));
}

#[test]
fn classifies_einval_as_invalid_value() {
    let f = WriteFailure {
        io_kind: Some(IoErrorKind::Other),
        raw_os_error: Some(libc::EINVAL),
        message: "Invalid argument (os error 22)".to_owned(),
    };

    assert!(matches!(
        classify_restore_write_error(f, true),
        RestoreWriteError::InvalidValue(_)
    ));
}

#[test]
fn preserves_not_found_as_io_when_proc_task_still_exists() {
    let f = WriteFailure {
        io_kind: Some(IoErrorKind::NotFound),
        raw_os_error: None,
        message: "missing cgroup".to_owned(),
    };

    assert!(matches!(classify_restore_write_error(f, true), RestoreWriteError::Io(_)));
}

fn two_task_action() -> CgroupPlacementAction {
    CgroupPlacementAction {
        targets: vec![
            placement_target(41, "first", TaskClass::Game),
            placement_target(42, "second", TaskClass::Game),
        ],
        ..action_for(41)
    }
}

fn two_task_observations() -> Vec<CgroupTaskObservation> {
    vec![fake_task(41, "first", 12345, "/old-first.slice"), fake_task(42, "second", 12345, "/old-second.slice")]
}

#[test]
fn cgroup_apply_restores_cpuset_cpus_when_cpuset_mems_write_fails() {
    let observations = vec![fake_task(42, "game-thread", 12345, "/old.slice")];
    // The second write (cpuset.mems) fails.
    let writes = vec![None, Some("Permission denied (os error 13)".to_owned())];

    let err = action_for(42)
        .apply_with_policy(
            &CgroupPlacementPolicy::default(),
            PROC_ROOT,
            &fake_cgroup_files(),
            &observations,
            Some("0-7".to_owned()),
            Some("0".to_owned()),
            &writes,
            Ok(()),
        )
        .unwrap_err();

    assert!(err.source.message().contains("cpuset.mems"));
    match err.rollback {
        Some(RollbackToken::CgroupRestore { records, cpuset: Some(cpuset) }) => {
            assert!(records.is_empty());
            assert_eq!(cpuset.cgroup_path, "/stutter/game.slice");
            assert_eq!(cpuset.original_cpuset_cpus, Some("0-7".to_owned()));
            assert_eq!(cpuset.original_cpuset_mems, Some("0".to_owned()));
        }
        other => panic!("unexpected rollback token: {other:?}"),
    }
}

#[test]
fn cgroup_apply_restores_moved_tasks_and_cpuset_when_second_task_move_fails() {
    // cpuset.cpus, cpuset.mems, the move of 41, then the move of 42 fails.
    let writes = vec![None, None, None, Some("No such process (os error 3)".to_owned())];

    let err = two_task_action()
        .apply_with_policy(
            &CgroupPlacementPolicy::default(),
            PROC_ROOT,
            &fake_cgroup_files(),
            &two_task_observations(),
            Some("0-7".to_owned()),
            Some("0".to_owned()),
            &writes,
            Ok(()),
        )
        .unwrap_err();

    assert_eq!(
        err.source.message(),
        format!("failed to move tid=42 to {CGROUP_ROOT}/stutter/game.slice: No such process (os error 3)")
    );
    match err.rollback {
        Some(RollbackToken::CgroupRestore { records, cpuset }) => {
            assert_eq!(records.len(), 1);
            assert_eq!(records[0].tid, 41);
            assert_eq!(records[0].original_cgroup, "/old-first.slice");
            assert!(cpuset.is_some());
        }
        other => panic!("unexpected rollback token: {other:?}"),
    }
}

#[test]
fn cgroup_apply_moves_every_task_and_keeps_cpuset_record() {
    let token = two_task_action()
        .apply_with_policy(
            &CgroupPlacementPolicy::default(),
            PROC_ROOT,
            &fake_cgroup_files(),
            &two_task_observations(),
            Some("0-7".to_owned()),
            Some("0".to_owned()),
            &Vec::new(),
            Ok(()),
        )
        .unwrap();

    match token {
        RollbackToken::CgroupRestore { records, cpuset: Some(cpuset) } => {
            assert_eq!(records.iter().map(|r| r.tid).collect::<Vec<_>>(), vec![41, 42]);
            assert_eq!(cpuset.original_cpuset_cpus, Some("0-7".to_owned()));
        }
        other => panic!("unexpected rollback token: {other:?}"),
    }
}

#[test]
fn cgroup_apply_failed_cpuset_cpus_write_changes_nothing() {
    let observations = vec![fake_task(42, "game-thread", 12345, "/old.slice")];
    let err = action_for(42)
        .apply_with_policy(
            &CgroupPlacementPolicy::default(),
            PROC_ROOT,
            &fake_cgroup_files(),
            &observations,
            Some("0-7".to_owned()),
            Some("0".to_owned()),
            &vec![Some("denied".to_owned())],
            Ok(()),
        )
        .unwrap_err();

    assert_eq!(err.source.message(), format!("failed to write {CGROUP_ROOT}/stutter/game.slice/cpuset.cpus: denied"));
    assert!(err.rollback.is_none());
}

#[test]
fn cgroup_apply_names_failed_partial_rollback() {
    let observations = vec![fake_task(42, "game-thread", 12345, "/old.slice")];
    let rollback = Err(stutter::error::ActionSourceError::Message("restore refused".to_owned()));
    let err = action_for(42)
        .apply_with_policy(
            &CgroupPlacementPolicy::default(),
            PROC_ROOT,
            &fake_cgroup_files(),
            &observations,
            Some("0-7".to_owned()),
            Some("0".to_owned()),
            &vec![None, Some("busy".to_owned())],
            rollback,
        )
        .unwrap_err();

    assert_eq!(
        err.source.message(),
        format!(
            "apply failed: failed to write {CGROUP_ROOT}/stutter/game.slice/cpuset.mems: busy; partial cgroup rollback failed: restore refused"
        )
    );
}

fn partial_cpuset_record() -> CgroupCpusetRestoreRecord {
    CgroupCpusetRestoreRecord {
        cgroup_path: "/stutter/game.slice".to_owned(),
        original_cpuset_cpus: Some("0-7".to_owned()),
        original_cpuset_mems: Some("0".to_owned()),
    }
}

fn assert_partial_token_keeps_cpuset(cpuset: CgroupCpusetRestoreRecord) {
    let token = cgroup_partial_token(Vec::new(), true, &Some(cpuset.clone()))
        .expect("cpuset mutation should produce a rollback token");
    let RollbackToken::CgroupRestore { records, cpuset: restored_cpuset } = token else {
        panic!("expected cgroup rollback token");
    };
    assert!(records.is_empty());
    assert_eq!(restored_cpuset, Some(cpuset));
}

#[test]
fn cgroup_cgroup_partial_token_keeps_cpuset_restore_state() {
    assert_partial_token_keeps_cpuset(partial_cpuset_record());
}

#[test]
fn tests_cgroup_partial_token_keeps_cpuset_restore_state() {
    assert_partial_token_keeps_cpuset(partial_cpuset_record());
}

fn two_record_token() -> RollbackToken {
    RollbackToken::CgroupRestore {
        records: vec![observed_record(1, "test", None, "/a.slice"), observed_record(2, "test", None, "/b.slice")],
        cpuset: None,
    }
}

#[test]
fn cgroup_cgroup_restore_token_reports_affected_tasks_and_no_restore_path() {
    let token = two_record_token();
    assert_eq!(token.affected_tasks(), 2);
    assert!(token.restore_path().is_none());
}

#[test]
fn tests_cgroup_restore_token_reports_affected_tasks_and_no_restore_path() {
    let token = two_record_token();
    assert_eq!(token.affected_tasks(), 2);
    assert!(token.restore_path().is_none());
}

#[test]
fn rollback_rollback_restores_cpuset_files_from_token() {
    let token = RollbackToken::CgroupRestore { records: Vec::new(), cpuset: Some(partial_cpuset_record()) };
    let (records, cpuset) = cgroup_rollback_parts(&token).unwrap();
    assert!(records.is_empty());

    let writes = cpuset_restore_writes(CGROUP_ROOT, cpuset.as_ref().unwrap()).unwrap();
    assert_eq!(
        writes,
        vec![
            (format!("{CGROUP_ROOT}/stutter/game.slice/cpuset.cpus"), "0-7".to_owned()),
            (format!("{CGROUP_ROOT}/stutter/game.slice/cpuset.mems"), "0".to_owned()),
        ]
    );
    assert!(cgroup_rollback_outcome(&tally_cgroup_restores(&Vec::new()), None).is_ok());
}

#[test]
fn apply_returns_unapplied_cpuset_rollback_when_cpuset_mems_write_fails() {
    let observations = vec![fake_task(42, "game-thread", 12345, "/old.slice")];
    let err = action_for(42)
        .apply_with_policy(
            &CgroupPlacementPolicy::default(),
            PROC_ROOT,
            &fake_cgroup_files(),
            &observations,
            Some("0-7".to_owned()),
            Some("0".to_owned()),
            &vec![None, Some("injected cgroup write failure".to_owned())],
            Ok(()),
        )
        .unwrap_err();

    assert!(err.source.message().contains("cpuset.mems"));
    let token = err.rollback.expect("cpuset mutation should return rollback token");
    let (records, cpuset) = cgroup_rollback_parts(&token).unwrap();
    assert!(records.is_empty());
    let writes = cpuset_restore_writes(CGROUP_ROOT, cpuset.as_ref().unwrap()).unwrap();
    assert_eq!(writes[0], (format!("{CGROUP_ROOT}/stutter/game.slice/cpuset.cpus"), "0-7".to_owned()));
    assert_eq!(writes[1], (format!("{CGROUP_ROOT}/stutter/game.slice/cpuset.mems"), "0".to_owned()));
}

#[test]
fn apply_returns_unapplied_task_and_cpuset_rollback_when_second_task_move_fails() {
    let err = two_task_action()
        .apply_with_policy(
            &CgroupPlacementPolicy::default(),
            PROC_ROOT,
            &fake_cgroup_files(),
            &two_task_observations(),
            Some("0-7".to_owned()),
            Some("0".to_owned()),
            &vec![None, None, None, Some("injected cgroup write failure".to_owned())],
            Ok(()),
        )
        .unwrap_err();

    assert!(err.source.message().contains("failed to move tid=42"));
    let token = err.rollback.expect("partial task move should return rollback token");
    let (records, cpuset) = cgroup_rollback_parts(&token).unwrap();
    assert_eq!(records.len(), 1);
    assert_eq!(
        resolve_original_cgroup(CGROUP_ROOT, &records[0].original_cgroup).unwrap(),
        format!("{CGROUP_ROOT}/old-first.slice")
    );
    let writes = cpuset_restore_writes(CGROUP_ROOT, cpuset.as_ref().unwrap()).unwrap();
    assert_eq!(writes[0].1, "0-7");
    assert_eq!(writes[1].1, "0");
}

#[test]
fn rollback_token_handler_restores_namespace_absolute_cgroup_path_under_root() {
    let record = observed_record(42, "game-thread", Some(12345), "/old.slice");
    assert_eq!(
        resolve_original_cgroup(CGROUP_ROOT, &record.original_cgroup).unwrap(),
        format!("{CGROUP_ROOT}/old.slice")
    );
    let token = RollbackToken::CgroupRestore { records: vec![record], cpuset: None };
    let obs = vec![seen(live_task(42, "game-thread", 12345), Some(Ok(())))];

    let result = cgroup_handler_restore_token(CGROUP_ROOT, &token, &obs, &Vec::new()).unwrap();
    assert_eq!(result.restored, 1);
}

#[test]
fn classifies_esrch_as_missing_task() {
    let f = WriteFailure {
        io_kind: Some(IoErrorKind::Other),
        raw_os_error: Some(libc::ESRCH),
        message: "No such process (os error 3)".to_owned(),
    };

    assert!(matches!(classify_restore_write_error(f, false), RestoreWriteError::MissingTask));
}

fn seen(proc: TaskProcObservation, write: Option<Result<(), RestoreWriteError>>) -> TaskRestoreObservation {
    TaskRestoreObservation { proc, write }
}

#[test]
fn cgroup_rollback_outcome_tallies_every_record() {
    let token = RollbackToken::CgroupRestore {
        records: vec![
            observed_record(41, "first", Some(4100), "/old-first.slice"),
            observed_record(42, "second", Some(4200), "/old-second.slice"),
            observed_record(43, "third", Some(4300), "/old-third.slice"),
        ],
        cpuset: None,
    };
    let obs = vec![
        seen(live_task(41, "first", 4100), Some(Ok(()))),
        seen(gone_task(), None),
        seen(live_task(43, "third", 4300), Some(Ok(()))),
    ];
    assert!(action_for(41).rollback_outcome(&token, &obs, &Vec::new()).is_ok());

    let failing = vec![
        seen(live_task(41, "first", 4100), Some(Err(RestoreWriteError::Io("busy".to_owned())))),
        seen(gone_task(), None),
        seen(live_task(43, "third", 4300), Some(Ok(()))),
    ];
    let err = action_for(41).rollback_outcome(&token, &failing, &Vec::new()).unwrap_err().message();
    assert_eq!(
        err,
        format!(
            "failed to rollback cgroup placement after attempting all records: restored=1 skipped_missing=1 skipped_identity_mismatch=0 failed=1 errors=tid=41 original_cgroup={CGROUP_ROOT}/old-first.slice error=busy"
        )
    );
}

#[test]
fn cgroup_rollback_stops_at_unresolvable_cgroup_and_reports_cpuset_failure() {
    let token = RollbackToken::CgroupRestore {
        records: vec![observed_record(41, "first", Some(4100), "/../escape.slice")],
        cpuset: None,
    };
    let err = action_for(41).rollback_outcome(&token, &Vec::new(), &Vec::new()).unwrap_err().message();
    assert!(err.starts_with("failed to resolve original cgroup path /../escape.slice: "));

    let cpuset_token = RollbackToken::CgroupRestore { records: Vec::new(), cpuset: Some(partial_cpuset_record()) };
    let err = action_for(41)
        .rollback_outcome(&cpuset_token, &Vec::new(), &vec![None, Some("denied".to_owned())])
        .unwrap_err()
        .message();
    assert!(err.ends_with(&format!("cpuset_restore_error={CGROUP_ROOT}/stutter/game.slice/cpuset.mems: denied")));

    let wrong = action_for(41).rollback_outcome(&RollbackToken::NiceRestore { records: Vec::new() }, &Vec::new(), &Vec::new());
    assert!(wrong.unwrap_err().message().contains("expected cgroup-restore"));
}

#[test]
fn cgroup_handler_restores_records_and_counts_cpuset_writes() {
    let token = RollbackToken::CgroupRestore {
        records: vec![observed_record(42, "game-thread", Some(12345), "/old.slice")],
        cpuset: Some(partial_cpuset_record()),
    };
    let obs = vec![seen(live_task(42, "game-thread", 12345), Some(Ok(())))];

    let result = cgroup_handler_restore_token(CGROUP_ROOT, &token, &obs, &vec![None, None]).unwrap();
    assert_eq!(result.handler_id, "cgroup-rollback");
    assert_eq!(result.restored, 3);

    let err = cgroup_handler_restore_token(CGROUP_ROOT, &token, &obs, &vec![Some("denied".to_owned())])
        .unwrap_err()
        .message();
    assert_eq!(
        err,
        format!("failed to rollback cgroup placement: failed to restore cgroup cpuset state: {CGROUP_ROOT}/stutter/game.slice/cpuset.cpus: denied")
    );
}

#[test]
fn cgroup_handler_stops_at_unresolvable_cgroup_of_a_written_record() {
    let token = RollbackToken::CgroupRestore {
        records: vec![observed_record(42, "game-thread", Some(12345), "/../escape.slice")],
        cpuset: Some(partial_cpuset_record()),
    };
    let obs = vec![seen(live_task(42, "game-thread", 12345), None)];

    let err = cgroup_handler_restore_token(CGROUP_ROOT, &token, &obs, &Vec::new()).unwrap_err().message();
    assert!(err.starts_with("failed to resolve original cgroup path /../escape.slice: "));
}

#[test]
fn cgroup_handler_skips_gone_task_without_resolving_its_cgroup() {
    let token = RollbackToken::CgroupRestore {
        records: vec![observed_record(42, "game-thread", Some(12345), "/../escape.slice")],
        cpuset: None,
    };
    let obs = vec![seen(gone_task(), None)];

    let result = cgroup_handler_restore_token(CGROUP_ROOT, &token, &obs, &Vec::new()).unwrap();
    assert_eq!(result.restored, 0);
    assert_eq!(result.skipped_dead, 1);
}

#[test]
fn cgroup_handler_rejects_other_token_kinds() {
    let token = RollbackToken::NiceRestore { records: Vec::new() };
    let err = cgroup_handler_restore_token(CGROUP_ROOT, &token, &Vec::new(), &Vec::new()).unwrap_err().message();
    assert!(err.starts_with("cgroup rollback handler does not support "));
    assert!(err.contains("NiceRestore"));
}

#[test]
fn audited_runner_rolls_back_cgroup_partial_failure_exactly_once() {
    let action = two_task_action();
    let apply_err = action
        .apply_with_policy(
            &CgroupPlacementPolicy::default(),
            PROC_ROOT,
            &fake_cgroup_files(),
            &two_task_observations(),
            Some("0-7".to_owned()),
            Some("0".to_owned()),
            &vec![None, None, None, Some("injected cgroup write failure".to_owned())],
            Ok(()),
        )
        .unwrap_err();
    let token = apply_err.rollback.clone().expect("partial task move should return rollback token");

    let policy = ActionRunPolicy::apply_medium_risk(ActionSource::Test, false);
    let mut run = ActionRun::start(&policy);
    let dry_state = ActionState {
        applied: false,
        affected_tasks: 2,
        checked_tasks: 2,
        pending_changes: 2,
        warnings: Vec::new(),
    };
    let mut events = vec![
        RunEvent::Preflight { result: Ok(0), elapsed_ms: 1 },
        RunEvent::PolicyChecked { result: Ok(()) },
        RunEvent::DryRun { result: Ok(dry_state), elapsed_ms: 2 },
        RunEvent::PolicyChecked { result: Ok(()) },
        RunEvent::Applied { result: Err((apply_err.source.message(), apply_err.rollback)) },
    ]
    .into_iter();

    let mut rollback_calls = 0;
    let mut rollback_result = None;
    let outcome = loop {
        let event = if run.stage == RunStage::Rollback {
            rollback_calls += 1;
            let obs = vec![seen(live_task(41, "first", 12345), Some(Ok(())))];
            let restored = action.rollback_outcome(&token, &obs, &vec![None, None]);
            rollback_result = Some(restored.clone());
            RunEvent::RolledBack { result: restored.map_err(|e| e.message()) }
        } else {
            events.next().expect("the run asked for a stage the test does not run")
        };
        match run.step(event) {
            RunOutcome::Continue => {}
            RunOutcome::Finished(result) => break result,
        }
    };

    let err = outcome.unwrap_err().human_message();
    assert!(
        err.contains("partial rollback attempted"),
        "expected audited runner to reach the partial-apply rollback path, got: {err}"
    );
    assert_eq!(rollback_calls, 1);
    assert!(rollback_result.unwrap().is_ok());
    let (records, cpuset) = cgroup_rollback_parts(&token).unwrap();
    let writes = cpuset_restore_writes(CGROUP_ROOT, cpuset.as_ref().unwrap()).unwrap();
    assert_eq!(writes[0], (format!("{CGROUP_ROOT}/stutter/game.slice/cpuset.cpus"), "0-7".to_owned()));
    assert_eq!(writes[1], (format!("{CGROUP_ROOT}/stutter/game.slice/cpuset.mems"), "0".to_owned()));
    assert_eq!(
        resolve_original_cgroup(CGROUP_ROOT, &records[0].original_cgroup).unwrap(),
        format!("{CGROUP_ROOT}/old-first.slice")
    );
}
