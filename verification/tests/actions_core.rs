use stutter::cgroup::{cgroup_fs_path, TaskClass};
use stutter::cpu_affinity::{CpuAffinityProfileAction, Profile, ProfileRule};
use stutter::error::{ActionError, ActionFailure, RollbackOutcome, ScopeLimitExceeded};
use stutter::factory::default_action_factory_registry;
use stutter::ioprio::{IoPrioClass, IoPrioValue, IOPRIO_CLASS_SHIFT};
use stutter::model::{ActionId, ActionPhase, CpuPowerRestoreRecord, GpuPowerRestoreRecord, IrqAffinityRestoreRecord, SafetyClass};
use stutter::procfs::{parse_stat_nice_and_starttime, parse_stat_starttime};
use stutter::restore::RestoreSummary;
use stutter::token::RollbackToken;

fn profile(name: &str) -> Profile {
    Profile {
        name: name.to_owned(),
        rules: vec![ProfileRule {
            affinity: Some("0".to_owned()),
            nice: None,
            ionice: None,
            match_class: vec![TaskClass::Game],
            match_comm: Vec::new(),
        }],
    }
}

fn affinity_action() -> CpuAffinityProfileAction {
    CpuAffinityProfileAction {
        tree_pid: u32::MAX,
        profile: profile("test-profile"),
        force_restore_overwrite: false,
    }
}

#[test]
fn cgroup_fs_path_rejects_parent_traversal_in_token_paths() {
    let cgroup_root = "/tmp/stutter-cgroup-token-traversal";

    let err = cgroup_fs_path(cgroup_root, "/old.slice/../escape.slice")
        .unwrap_err()
        .message();

    assert!(err.contains("parent traversal"));
}

#[test]
fn safety_class_is_reversible_low_risk() {
    assert_eq!(affinity_action().safety_class(), SafetyClass::ReversibleLowRisk);
}

#[test]
fn action_id_includes_profile_name() {
    assert_eq!(
        affinity_action().id(),
        ActionId::new("cpu-affinity-profile:test-profile".to_owned())
    );
}

#[test]
fn descriptor_can_mark_persistent_effect() {
    let descriptor = affinity_action().descriptor_with_persistent_effect(true);

    assert!(descriptor.persistent_effect);
    assert_eq!(descriptor.action_kind, "cpu_affinity_profile");
}

#[test]
fn cpu_power_restore_token_reports_affected_records_and_no_restore_path() {
    let token = RollbackToken::CpuPowerRestore {
        records: vec![
            CpuPowerRestoreRecord {
                path: "/sys/devices/system/cpu/cpu0/cpufreq/scaling_governor".to_owned(),
                original_value: "schedutil".to_owned(),
            },
            CpuPowerRestoreRecord {
                path: "/sys/devices/system/cpu/cpu0/cpufreq/energy_performance_preference".to_owned(),
                original_value: "balance_performance".to_owned(),
            },
        ],
    };

    assert_eq!(token.affected_tasks(), 2);
    assert!(token.restore_path().is_none());
}

#[test]
fn constructors_build_structured_failures() {
    let err = ActionError::verify_rollback_completed("verify intentional failure");
    assert!(matches!(
        err.failure(),
        ActionFailure::Rollback(RollbackOutcome::VerifyRollbackCompleted {
            verify_error
        }) if verify_error == "verify intentional failure"
    ));
    assert_eq!(err.phase(), ActionPhase::Verify);
    assert_eq!(err.category(), "verify_failure_rollback_completed");
    assert_eq!(
        err.human_message(),
        "verify failed; rollback completed: verify intentional failure"
    );

    let err = ActionError::scope_limit_exceeded(8, 3);
    assert!(matches!(
        err.failure(),
        ActionFailure::ScopeLimitExceeded(ScopeLimitExceeded {
            affected_tasks: 8,
            max_affected_tasks: 3,
        })
    ));
    assert_eq!(err.phase(), ActionPhase::DryRun);
    assert_eq!(err.category(), "scope_limit_exceeded");
    assert_eq!(
        err.human_message(),
        "dry run affected 8 task(s), exceeding scope limit 3"
    );
}

#[test]
fn default_factory_registry_covers_concrete_candidate_families() {
    let families = default_action_factory_registry().families();

    for family in [
        "cpu_affinity_profile",
        "nice",
        "ionice",
        "uclamp",
        "cgroup_placement",
        "irq_affinity",
        "cpu_power",
        "gpu_power",
        "vm_knob",
    ] {
        assert!(
            families.contains(&family),
            "missing action factory for {family}"
        );
    }
}

#[test]
fn gpu_power_restore_token_reports_affected_records_and_no_restore_path() {
    let token = RollbackToken::GpuPowerRestore {
        records: vec![
            GpuPowerRestoreRecord {
                path: "/sys/class/drm/card0/device/power_dpm_force_performance_level".to_owned(),
                original_value: "auto".to_owned(),
            },
            GpuPowerRestoreRecord {
                path: "/sys/class/drm/card0/device/pp_power_profile_mode".to_owned(),
                original_value: "BOOTUP_DEFAULT".to_owned(),
            },
        ],
    };

    assert_eq!(token.affected_tasks(), 2);
    assert!(token.restore_path().is_none());
}

#[test]
fn encodes_and_decodes_best_effort_ioprio() {
    let value = IoPrioValue::best_effort(4);
    let encoded = value.encode().unwrap();

    assert_eq!(encoded, (2 << IOPRIO_CLASS_SHIFT) | 4);
    assert_eq!(IoPrioValue::decode(encoded).unwrap(), value);
}

#[test]
fn encodes_and_decodes_idle_ioprio() {
    let value = IoPrioValue::idle();
    let encoded = value.encode().unwrap();

    assert_eq!(encoded, 3 << IOPRIO_CLASS_SHIFT);
    assert_eq!(IoPrioValue::decode(encoded).unwrap(), value);
}

#[test]
fn rejects_invalid_level_for_idle_class() {
    let err = IoPrioValue {
        class: IoPrioClass::Idle,
        level: Some(1),
    }
    .encode()
    .unwrap_err()
    .message();

    assert!(err.contains("must not specify a level"));
}

#[test]
fn rejects_missing_level_for_best_effort_class() {
    let err = IoPrioValue {
        class: IoPrioClass::BestEffort,
        level: None,
    }
    .encode()
    .unwrap_err()
    .message();

    assert!(err.contains("requires level 0..=7"));
}

#[test]
fn rejects_level_above_seven() {
    let err = IoPrioValue::best_effort(8).encode().unwrap_err().message();

    assert!(err.contains("outside range 0..=7"));
}

fn fake_stat_line(tid: u32, comm: &str, nice: i32, starttime_ticks: u64) -> String {
    let mut fields = vec!["0".to_owned(); 20];
    fields[0] = "S".to_owned();
    fields[16] = nice.to_string();
    fields[19] = starttime_ticks.to_string();

    format!("{tid} ({comm}) {}", fields.join(" "))
}

#[test]
fn parses_starttime_from_proc_stat() {
    let stat = fake_stat_line(42, "storage-worker", 0, 98765);

    let parsed = parse_stat_starttime(&stat).unwrap();

    assert_eq!(parsed, 98765);
}

fn irq_token() -> RollbackToken {
    RollbackToken::IrqAffinityRestore {
        records: vec![
            IrqAffinityRestoreRecord {
                irq: 44,
                device_hint: "amdgpu".to_owned(),
                original_smp_affinity: "00000001".to_owned(),
            },
            IrqAffinityRestoreRecord {
                irq: 45,
                device_hint: "nvme".to_owned(),
                original_smp_affinity: "00000002".to_owned(),
            },
        ],
    }
}

#[test]
fn irq_affinity_irq_affinity_restore_token_reports_affected_records_and_no_restore_path() {
    let token = irq_token();

    assert_eq!(token.affected_tasks(), 2);
    assert!(token.restore_path().is_none());
}

#[test]
fn tests_irq_affinity_restore_token_reports_affected_records_and_no_restore_path() {
    let token = irq_token();

    assert_eq!(token.affected_tasks(), 2);
    assert!(token.restore_path().is_none());
}

#[test]
fn nice_parses_nice_and_starttime_from_proc_stat() {
    let stat = fake_stat_line(42, "game-thread", 5, 98765);

    let parsed = parse_stat_nice_and_starttime(&stat).unwrap();

    assert_eq!(parsed, (5, 98765));
}

#[test]
fn tests_parses_nice_and_starttime_from_proc_stat() {
    let stat = fake_stat_line(42, "game-thread", 5, 98765);

    let parsed = parse_stat_nice_and_starttime(&stat).unwrap();

    assert_eq!(parsed, (5, 98765));
}

#[test]
fn restore_summary_tracks_best_effort_outcome_counts() {
    let mut summary = RestoreSummary::default();
    summary.record_restored();
    summary.record_missing();
    summary.record_identity_mismatch();
    summary.record_failure();

    assert_eq!(
        summary,
        RestoreSummary {
            restored: 1,
            skipped_missing: 1,
            skipped_identity_mismatch: 1,
            failed: 1,
        }
    );
    assert!(summary.has_failures());
}
