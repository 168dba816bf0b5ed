use stutter::cgroup::{FileAccess, FileRead};
use stutter::cpu_power::{
    cpu_handler_restore_token, cpu_power_rollback_records, sorted_unique_cpus, validate_cpu_power_request, BatteryPolicy, CpuFreqObservation,
    CpuPowerAction, CpuPowerPolicy, SysfsFileObservation,
};
use stutter::factory::{
    default_action_factory_registry, ActionFactory, ActionFactoryRegistry, BuiltAction, CandidateAction,
};
use stutter::gpu_power::{
    validate_drm_card_name, validate_gpu_power_request, GpuDeviceObservation, GpuPowerAction, GpuPowerMode,
    GpuPowerPolicy,
};
use stutter::irq_affinity::{
    irq_handler_restore_token, normalize_affinity, validate_affinity_value, IrqAffinityAction, IrqAffinityEvidence,
    IrqAffinityPolicy, IrqAffinityRisk, IrqObservation, IrqRollbackObservation,
};
use stutter::model::{ActionId, ActionState, IrqAffinityRestoreRecord, SafetyClass};
use stutter::runner::{ActionRun, ActionRunPolicy, ActionSource, RunEvent, RunOutcome, RunStage};
use stutter::sysfs::{ApplyWrite, PowerSupplyEntry, PowerSupplyObservation, SysfsRestoreItem, SysfsRestoreOutcome};
use stutter::token::RollbackToken;

fn on_ac() -> PowerSupplyObservation {
    PowerSupplyObservation::Entries(vec![PowerSupplyEntry {
        supply_type: FileRead::Contents("Mains\n".to_owned()),
        online: FileRead::Contents("1\n".to_owned()),
        status: FileRead::Unread,
    }])
}

fn on_battery() -> PowerSupplyObservation {
    PowerSupplyObservation::Entries(vec![PowerSupplyEntry {
        supply_type: FileRead::Contents("Battery\n".to_owned()),
        online: FileRead::Unread,
        status: FileRead::Contents("Discharging\n".to_owned()),
    }])
}

fn cpu_action() -> CpuPowerAction {
    CpuPowerAction {
        sysfs_root: "/sys".to_owned(),
        cpus: vec![0, 1],
        scaling_governor: Some("performance".to_owned()),
        energy_performance_preference: Some("performance".to_owned()),
    }
}

fn cpu_policy(cpus: &[u32]) -> CpuPowerPolicy {
    CpuPowerPolicy {
        allow_cpu_power_changes: true,
        allowed_cpus: cpus.iter().copied().collect(),
        allow_governor_changes: true,
        allow_epp_changes: true,
        battery_policy: BatteryPolicy::Never,
        explicit_battery_override: false,
    }
}

fn file(contents: &str) -> SysfsFileObservation {
    SysfsFileObservation {
        access: FileAccess::Writable,
        contents: FileRead::Contents(format!("{contents}\n")),
    }
}

fn cpufreq(cpu: u32, governor: &str, epp: &str) -> CpuFreqObservation {
    CpuFreqObservation {
        cpu,
        dir_exists: true,
        scaling_governor: file(governor),
        energy_performance_preference: file(epp),
    }
}

#[test]
fn cpu_power_safety_class_follows_governor_change() {
    assert_eq!(cpu_action().safety_class(), SafetyClass::HighRisk);
    let epp_only = CpuPowerAction {
        scaling_governor: None,
        ..cpu_action()
    };
    assert_eq!(epp_only.safety_class(), SafetyClass::ReversibleMediumRisk);
}

#[test]
fn cpu_power_id_and_description_name_cpus_and_values() {
    let action = cpu_action();

    assert_eq!(
        action.id(),
        ActionId::new("cpu-power:set:cpus=0,1:governor=performance:epp=performance".to_owned())
    );
    assert_eq!(
        action.describe(),
        "set CPU power values for CPU(s) [0,1]: scaling_governor=performance, energy_performance_preference=performance"
    );
}

#[test]
fn cpu_power_sorted_unique_cpus_orders_and_dedups() {
    assert_eq!(sorted_unique_cpus(&vec![3, 1, 3, 0, 1]), vec![0, 1, 3]);
    assert_eq!(sorted_unique_cpus(&Vec::new()), Vec::<u32>::new());
}

#[test]
fn cpu_power_request_refusals() {
    let default_err = validate_cpu_power_request(&cpu_action(), &CpuPowerPolicy::default(), &on_ac()).unwrap_err();
    assert!(default_err.message().contains("action_policy_denied"));

    let empty = CpuPowerAction {
        cpus: Vec::new(),
        ..cpu_action()
    };
    let err = validate_cpu_power_request(&empty, &cpu_policy(&[0, 1]), &on_ac()).unwrap_err();
    assert!(err.message().contains("action_missing_explicit_targets"));

    let no_knobs = CpuPowerAction {
        scaling_governor: None,
        energy_performance_preference: None,
        ..cpu_action()
    };
    let err = validate_cpu_power_request(&no_knobs, &cpu_policy(&[0, 1]), &on_ac()).unwrap_err();
    assert!(err.message().contains("action_invalid_request"));

    let err = validate_cpu_power_request(&cpu_action(), &cpu_policy(&[]), &on_ac()).unwrap_err();
    assert!(err.message().contains("action_policy_denied"));

    let bad_value = CpuPowerAction {
        scaling_governor: Some("perf ormance".to_owned()),
        ..cpu_action()
    };
    let err = validate_cpu_power_request(&bad_value, &cpu_policy(&[0, 1]), &on_ac()).unwrap_err();
    assert!(err.message().contains("action_invalid_value"));

    let err = validate_cpu_power_request(&cpu_action(), &cpu_policy(&[0, 1]), &on_battery()).unwrap_err();
    assert!(err.message().contains("action_policy_denied"));

    let battery_override = CpuPowerPolicy {
        battery_policy: BatteryPolicy::AllowWithExplicitConfig,
        explicit_battery_override: true,
        ..cpu_policy(&[0, 1])
    };
    assert!(validate_cpu_power_request(&cpu_action(), &battery_override, &on_battery()).is_ok());
    assert!(validate_cpu_power_request(&cpu_action(), &cpu_policy(&[0, 1]), &on_ac()).is_ok());
}

#[test]
fn cpu_power_preflight_refuses_cpu_outside_allowlist_and_missing_files() {
    let observations = vec![cpufreq(0, "schedutil", "balance"), cpufreq(1, "schedutil", "balance")];
    let err = cpu_action()
        .preflight_with_policy(&cpu_policy(&[0]), &on_ac(), &observations)
        .unwrap_err();
    assert!(err.message().contains("action_policy_denied"));

    let missing = vec![cpufreq(0, "schedutil", "balance")];
    let err = cpu_action()
        .preflight_with_policy(&cpu_policy(&[0, 1]), &on_ac(), &missing)
        .unwrap_err();
    assert!(err.message().contains("action_missing_path"));
}

#[test]
fn cpu_power_rollback_refuses_token_of_another_kind() {
    let err = cpu_power_rollback_records(&RollbackToken::NiceRestore { records: Vec::new() })
        .unwrap_err()
        .message();

    assert!(err.contains("invalid rollback token"));
    assert!(err.contains("expected cpu-power-restore"));
    assert!(err.contains("actual nice-restore"));
}

#[test]
fn cpu_power_dry_run_counts_files_that_differ() {
    let observations = vec![cpufreq(0, "schedutil", "performance"), cpufreq(1, "performance", "performance")];

    let state = cpu_action()
        .dry_run_with_policy(&cpu_policy(&[0, 1]), &on_ac(), &observations)
        .unwrap();

    assert!(!state.applied);
    assert_eq!(state.checked_tasks, 4);
    assert_eq!(state.pending_changes, 1);
}

#[test]
fn cpu_power_verify_reports_applied_when_every_file_matches() {
    let observations = vec![cpufreq(0, "schedutil", "balance"), cpufreq(1, "schedutil", "balance")];
    let current = vec![FileRead::Contents("performance\n".to_owned()); 4];

    let state = cpu_action()
        .verify_with_policy(&cpu_policy(&[0, 1]), &on_ac(), &observations, &current)
        .unwrap();

    assert!(state.applied);
    assert_eq!(state.pending_changes, 0);
}

#[test]
fn cpu_power_handler_restores_every_record_or_reports_failures() {
    let token = RollbackToken::CpuPowerRestore { records: Vec::new() };
    let ok = cpu_handler_restore_token(&token, &Vec::new()).unwrap();
    assert_eq!(ok.handler_id, "cpu-power-rollback");
    assert_eq!(ok.restored, 0);

    let items = vec![SysfsRestoreItem {
        path: "/sys/devices/system/cpu/cpu0/cpufreq/scaling_governor".to_owned(),
        original_value: "schedutil".to_owned(),
        outcome: SysfsRestoreOutcome::WriteFailed {
            error: "denied".to_owned(),
        },
    }];
    let err = cpu_handler_restore_token(&token, &items).unwrap_err().message();
    assert!(err.starts_with("failed to rollback CPU power values: "));

    let other = cpu_handler_restore_token(&RollbackToken::NiceRestore { records: Vec::new() }, &Vec::new())
        .unwrap_err()
        .message();
    assert!(other.starts_with("CPU power rollback handler does not support "));
}

fn gpu_action() -> GpuPowerAction {
    GpuPowerAction {
        sysfs_root: "/sys".to_owned(),
        drm_card: "card0".to_owned(),
        power_dpm_force_performance_level: Some("high".to_owned()),
        pp_power_profile_mode: None,
    }
}

fn gpu_policy() -> GpuPowerPolicy {
    GpuPowerPolicy {
        allow_gpu_power_changes: true,
        mode: GpuPowerMode::ManualApply,
        allowed_drm_cards: vec!["card0".to_owned()],
        allow_force_performance_level: true,
        allow_power_profile_mode: true,
        ..GpuPowerPolicy::default()
    }
}

#[test]
fn gpu_power_card_names_are_checked() {
    assert!(validate_drm_card_name("card0").is_ok());
    assert!(validate_drm_card_name("card").is_err());
    assert!(validate_drm_card_name(" card0").is_err());
    assert!(validate_drm_card_name("renderD128").is_err());
}

#[test]
fn gpu_power_request_refusals() {
    let err = validate_gpu_power_request(&gpu_action(), &GpuPowerPolicy::default(), &on_ac()).unwrap_err();
    assert!(err.message().contains("action_policy_denied"));

    let other_card = GpuPowerAction {
        drm_card: "card1".to_owned(),
        ..gpu_action()
    };
    assert!(validate_gpu_power_request(&other_card, &gpu_policy(), &on_ac()).is_err());
    assert!(validate_gpu_power_request(&gpu_action(), &gpu_policy(), &on_ac()).is_ok());
}

#[test]
fn gpu_power_verify_counts_files_that_do_not_hold_the_request() {
    let dev = GpuDeviceObservation {
        dir_exists: true,
        power_dpm_force_performance_level: file("auto"),
        pp_power_profile_mode: file("0 BOOTUP_DEFAULT"),
    };

    let state = gpu_action()
        .verify_with_policy(&gpu_policy(), &on_ac(), &dev, &vec![FileRead::Contents("auto\n".to_owned())])
        .unwrap();
    assert!(!state.applied);
    assert_eq!(state.pending_changes, 1);

    let state = gpu_action()
        .verify_with_policy(&gpu_policy(), &on_ac(), &dev, &vec![FileRead::Contents("high\n".to_owned())])
        .unwrap();
    assert!(state.applied);

    let err = gpu_action()
        .verify_with_policy(&gpu_policy(), &on_ac(), &dev, &Vec::new())
        .unwrap_err()
        .message();
    assert!(err.starts_with("failed to verify /sys/class/drm/card0/device/power_dpm_force_performance_level"));
}

fn irq_evidence(irq: u32, device_hint: &str) -> IrqAffinityEvidence {
    IrqAffinityEvidence {
        strong_irq_evidence: true,
        stable_irq_identity: true,
        known_device_mapping: true,
        observed_irq: Some(irq),
        observed_device_hint: Some(device_hint.to_owned()),
        reason: "fake test evidence shows IRQ storm tied to mapped device".to_owned(),
    }
}

fn irq_policy() -> IrqAffinityPolicy {
    IrqAffinityPolicy {
        allow_irq_affinity_changes: true,
        ..IrqAffinityPolicy::default()
    }
}

fn irq_action() -> IrqAffinityAction {
    IrqAffinityAction {
        irq: 44,
        device_hint: "amdgpu".to_owned(),
        smp_affinity: "00000002".to_owned(),
        risk: IrqAffinityRisk::ReversibleMediumRisk,
        evidence: irq_evidence(44, "amdgpu"),
        irq_root: "/tmp/irq".to_owned(),
    }
}

fn irq_obs(device_hint: &str, affinity: &str) -> IrqObservation {
    IrqObservation {
        dir_exists: true,
        smp_affinity: file(affinity),
        actions: FileRead::Contents(format!("{device_hint}\n")),
        name: FileRead::Unread,
    }
}

#[test]
fn irq_affinity_id_and_description() {
    let action = irq_action();
    assert_eq!(action.describe(), "set IRQ 44 (amdgpu) smp_affinity to 00000002");
    assert_eq!(action.safety_class(), SafetyClass::ReversibleMediumRisk);
}

#[test]
fn irq_affinity_preflight_accepts_stable_irq_with_strong_evidence() {
    let warnings = irq_action().preflight_with_policy(&irq_policy(), &irq_obs("amdgpu", "00000001")).unwrap();
    assert!(warnings.is_empty());
}

#[test]
fn irq_affinity_preflight_refusals() {
    let obs = irq_obs("amdgpu", "00000001");
    let err = irq_action().preflight_with_policy(&IrqAffinityPolicy::default(), &obs).unwrap_err();
    assert!(err.message().contains("action_policy_denied"));

    let mut weak = irq_action();
    weak.evidence.strong_irq_evidence = false;
    assert!(weak.preflight_with_policy(&irq_policy(), &obs).unwrap_err().message().contains("action_policy_denied"));

    let mut mismatch = irq_action();
    mismatch.evidence.observed_irq = Some(45);
    assert!(mismatch
        .preflight_with_policy(&irq_policy(), &obs)
        .unwrap_err()
        .message()
        .contains("action_invalid_request"));

    let err = irq_action().preflight_with_policy(&irq_policy(), &irq_obs("nvme", "00000001")).unwrap_err();
    assert!(err.message().contains("action_invalid_request"));

    let mut high = irq_action();
    high.risk = IrqAffinityRisk::HighRisk;
    assert!(high.preflight_with_policy(&irq_policy(), &obs).unwrap_err().message().contains("action_policy_denied"));

    let mut critical = irq_action();
    critical.device_hint = "timer".to_owned();
    critical.evidence = irq_evidence(44, "timer");
    assert!(critical
        .preflight_with_policy(&irq_policy(), &irq_obs("timer", "00000001"))
        .unwrap_err()
        .message()
        .contains("action_invalid_request"));

    let mut bad_mask = irq_action();
    bad_mask.smp_affinity = "not-a-mask".to_owned();
    assert!(bad_mask
        .preflight_with_policy(&irq_policy(), &obs)
        .unwrap_err()
        .message()
        .contains("action_invalid_value"));
}

#[test]
fn irq_affinity_masks_are_checked_and_normalized() {
    assert!(validate_affinity_value("00000001,00000002").is_ok());
    assert!(validate_affinity_value("").is_err());
    assert!(validate_affinity_value("0x1").is_err());
    assert_eq!(normalize_affinity("00000000,00000002"), "0,2");
    assert_eq!(normalize_affinity(" 000000FF \n"), "ff");
}

#[test]
fn irq_affinity_dry_run_counts_pending_change() {
    let state = irq_action().dry_run_with_policy(&irq_policy(), &irq_obs("amdgpu", "00000001")).unwrap();
    assert!(!state.applied);
    assert_eq!(state.pending_changes, 1);
}

fn vanished() -> IrqRollbackObservation {
    IrqRollbackObservation {
        dir_exists: false,
        actions: FileRead::Unread,
        name: FileRead::Unread,
        write_error: None,
        read_back: FileRead::Unread,
    }
}

#[test]
fn irq_handler_skips_changed_irqs_and_restores_the_rest() {
    let token = RollbackToken::IrqAffinityRestore {
        records: vec![
            IrqAffinityRestoreRecord {
                irq: 44,
                device_hint: "amdgpu".to_owned(),
                original_smp_affinity: "00000001".to_owned(),
            },
            IrqAffinityRestoreRecord {
                irq: 45,
                device_hint: "nvme".to_owned(),
                original_smp_affinity: "00000002".to_owned(),
            },
            IrqAffinityRestoreRecord {
                irq: 46,
                device_hint: "xhci".to_owned(),
                original_smp_affinity: "00000004".to_owned(),
            },
        ],
    };
    let obs = vec![
        IrqRollbackObservation {
            dir_exists: true,
            actions: FileRead::Contents("amdgpu\n".to_owned()),
            ..vanished()
        },
        vanished(),
        IrqRollbackObservation {
            dir_exists: true,
            actions: FileRead::Contents("ahci\n".to_owned()),
            ..vanished()
        },
    ];

    let result = irq_handler_restore_token(&token, &obs).unwrap();

    assert_eq!(result.restored, 1);
    assert_eq!(result.skipped_dead, 2);
    assert_eq!(result.messages[0], "IRQ 45 directory disappeared");
    assert_eq!(result.messages[1], "IRQ 46 device mapping changed: expected \"xhci\", actual \"ahci\"");
}

#[test]
fn irq_handler_stops_at_failed_write() {
    let token = RollbackToken::IrqAffinityRestore {
        records: vec![IrqAffinityRestoreRecord {
            irq: 44,
            device_hint: "amdgpu".to_owned(),
            original_smp_affinity: "00000001".to_owned(),
        }],
    };
    let obs = vec![IrqRollbackObservation {
        dir_exists: true,
        actions: FileRead::Contents("amdgpu\n".to_owned()),
        write_error: Some("denied".to_owned()),
        ..vanished()
    }];

    let err = irq_handler_restore_token(&token, &obs).unwrap_err().message();

    assert_eq!(
        err,
        "failed to restore IRQ 44 smp_affinity via /proc/irq/44/smp_affinity: failed to write 00000001 to /proc/irq/44/smp_affinity: denied"
    );
}

#[test]
fn default_registry_builds_each_plan_with_its_family_factory() {
    let registry = default_action_factory_registry();

    let built = registry.build(CandidateAction::CpuPower(cpu_action())).unwrap();
    match built {
        BuiltAction::CpuPower { action, policy } => {
            assert_eq!(action.cpus, vec![0, 1]);
            assert!(policy.allow_cpu_power_changes);
            assert_eq!(policy.allowed_cpus, std::collections::BTreeSet::from([0, 1]));
            assert!(policy.allow_governor_changes);
            assert!(policy.allow_epp_changes);
        }
        _ => panic!("expected a CPU power action"),
    }

    let built = registry.build(CandidateAction::GpuPower(gpu_action())).unwrap();
    match built {
        BuiltAction::GpuPower { policy, .. } => {
            assert_eq!(policy.mode, GpuPowerMode::ManualApply);
            assert_eq!(policy.allowed_drm_cards, vec!["card0".to_owned()]);
            assert!(policy.allow_force_performance_level);
            assert!(!policy.allow_power_profile_mode);
        }
        _ => panic!("expected a GPU power action"),
    }

    let built = registry.build(CandidateAction::IrqAffinity(irq_action())).unwrap();
    match built {
        BuiltAction::IrqAffinity { policy, .. } => {
            assert!(policy.allow_irq_affinity_changes);
            assert!(!policy.allow_high_risk_devices);
        }
        _ => panic!("expected an IRQ affinity action"),
    }
}

#[test]
fn registry_without_the_family_refuses_the_plan() {
    let mut registry = ActionFactoryRegistry::default();
    registry.register(ActionFactory::Nice);

    let err = registry.build(CandidateAction::CpuPower(cpu_action())).err().unwrap();

    assert_eq!(
        err.human_message(),
        "preflight failed: no action factory registered for candidate family cpu_power"
    );
}

#[test]
fn factory_of_another_family_reports_a_mismatch() {
    let err = ActionFactory::Nice.build(CandidateAction::CpuPower(cpu_action())).err().unwrap();

    assert!(err.human_message().contains("candidate family mismatch"));
}

fn state(pending: usize) -> ActionState {
    ActionState {
        applied: pending == 0,
        affected_tasks: 1,
        checked_tasks: 1,
        pending_changes: pending,
        warnings: Vec::new(),
    }
}

#[test]
fn preview_run_never_reaches_apply() {
    let policy = ActionRunPolicy::dry_run(ActionSource::Test);
    let mut run = ActionRun::start(&policy);

    assert!(matches!(run.step(RunEvent::Preflight { result: Ok(0), elapsed_ms: 1 }), RunOutcome::Continue));
    assert_eq!(run.stage, RunStage::DryRunPolicy);
    assert!(matches!(run.step(RunEvent::PolicyChecked { result: Ok(()) }), RunOutcome::Continue));
    assert_eq!(run.stage, RunStage::DryRun);
    let out = run.step(RunEvent::DryRun { result: Ok(state(1)), elapsed_ms: 2 });
    assert!(matches!(out, RunOutcome::Finished(Ok(_))));
    assert_eq!(run.stage, RunStage::Done);
}

#[test]
fn scope_limit_stops_run_before_apply() {
    let policy = ActionRunPolicy::apply_low_risk(ActionSource::Test, false).with_max_affected_tasks(0);
    let mut run = ActionRun::start(&policy);

    run.step(RunEvent::Preflight { result: Ok(0), elapsed_ms: 1 });
    run.step(RunEvent::PolicyChecked { result: Ok(()) });
    let out = run.step(RunEvent::DryRun { result: Ok(state(1)), elapsed_ms: 2 });

    match out {
        RunOutcome::Finished(Err(e)) => assert_eq!(e.category(), "scope_limit_exceeded"),
        _ => panic!("expected a scope limit failure"),
    }
    assert_eq!(run.stage, RunStage::Done);
}

#[test]
fn failed_verify_rolls_back_once() {
    let policy = ActionRunPolicy::apply_low_risk(ActionSource::Test, false);
    let mut run = ActionRun::start(&policy);
    let token = RollbackToken::SysfsRestore {
        path: "/sys/x".to_owned(),
        original_value: "1".to_owned(),
    };

    run.step(RunEvent::Preflight { result: Ok(0), elapsed_ms: 1 });
    run.step(RunEvent::PolicyChecked { result: Ok(()) });
    run.step(RunEvent::DryRun { result: Ok(state(1)), elapsed_ms: 2 });
    run.step(RunEvent::PolicyChecked { result: Ok(()) });
    assert_eq!(run.stage, RunStage::Apply);
    run.step(RunEvent::Applied { result: Ok(token) });
    assert_eq!(run.stage, RunStage::AfterApplyHook);
    run.step(RunEvent::AfterApplyHook { result: Ok(()), elapsed_ms: 3 });
    assert_eq!(run.stage, RunStage::Verify);
    run.step(RunEvent::Verified { result: Err("verify intentional failure".to_owned()), elapsed_ms: 4 });
    assert_eq!(run.stage, RunStage::Rollback);
    run.step(RunEvent::RolledBack { result: Ok(()) });
    assert!(run.rolled_back);
    assert_eq!(run.stage, RunStage::AfterRollbackHook);
    let out = run.step(RunEvent::AfterRollbackHook { result: Ok(()) });
    match out {
        RunOutcome::Finished(Err(e)) => assert_eq!(
            e.human_message(),
            "verify failed; rollback completed: verify intentional failure"
        ),
        _ => panic!("expected a rolled back verify failure"),
    }
}

fn read_back(value: &str) -> ApplyWrite {
    ApplyWrite::ReadBack(FileRead::Contents(format!("{value}\n")))
}

#[test]
fn apply_with_test_policy_writes_verifies_and_saves_every_original_value() {
    let observations = vec![
        cpufreq(0, "schedutil", "balance_performance"),
        cpufreq(1, "schedutil", "balance_performance"),
    ];
    let writes = vec![read_back("performance"); 4];

    let token = cpu_action()
        .apply_with_policy(&cpu_policy(&[0, 1]), &on_ac(), &observations, &writes, &Vec::new())
        .unwrap();

    match token {
        RollbackToken::CpuPowerRestore { records } => {
            assert_eq!(records.len(), 4);
            assert!(records
                .iter()
                .any(|record| record.path.ends_with("scaling_governor") && record.original_value == "schedutil"));
            assert!(records.iter().any(|record| {
                record.path.ends_with("energy_performance_preference") && record.original_value == "balance_performance"
            }));
        }
        other => panic!("unexpected rollback token: {other:?}"),
    }
}

#[test]
fn cpu_power_apply_skips_files_that_already_hold_the_request() {
    // Only cpu0's governor differs, so the single write outcome belongs to it.
    let observations = vec![cpufreq(0, "schedutil", "performance"), cpufreq(1, "performance", "performance")];
    let token = cpu_action()
        .apply_with_policy(&cpu_policy(&[0, 1]), &on_ac(), &observations, &vec![read_back("performance")], &Vec::new())
        .unwrap();
    match token {
        RollbackToken::CpuPowerRestore { records } => {
            assert_eq!(records.len(), 4);
            assert_eq!(records[0].path, "/sys/devices/system/cpu/cpu0/cpufreq/scaling_governor");
            assert_eq!(records[0].original_value, "schedutil");
            assert_eq!(records[3].original_value, "performance");
        }
        other => panic!("unexpected rollback token: {other:?}"),
    }
}

#[test]
fn cpu_power_apply_reports_write_read_and_mismatch_failures() {
    let observations = vec![cpufreq(0, "schedutil", "performance"), cpufreq(1, "performance", "performance")];
    let action = cpu_action();
    let policy = cpu_policy(&[0, 1]);
    let path = "/sys/devices/system/cpu/cpu0/cpufreq/scaling_governor";

    let failed = vec![ApplyWrite::WriteFailed { error: "denied".to_owned() }];
    let err = action.apply_with_policy(&policy, &on_ac(), &observations, &failed, &Vec::new()).unwrap_err();
    assert_eq!(err.message(), format!("failed to write {path}: denied"));

    let unreadable = vec![ApplyWrite::ReadBack(FileRead::Failed("gone".to_owned()))];
    let err = action.apply_with_policy(&policy, &on_ac(), &observations, &unreadable, &Vec::new()).unwrap_err();
    assert_eq!(err.message(), format!("failed to verify write to {path}: failed to read {path}: gone"));

    let other = vec![read_back("powersave")];
    let err = action.apply_with_policy(&policy, &on_ac(), &observations, &other, &Vec::new()).unwrap_err();
    assert_eq!(
        err.message(),
        format!("CPU power write verification failed for {path}: requested=\"performance\" actual=\"powersave\"")
    );

    let rollback = vec![SysfsRestoreItem {
        path: path.to_owned(),
        original_value: "schedutil".to_owned(),
        outcome: SysfsRestoreOutcome::WriteFailed { error: "busy".to_owned() },
    }];
    let err = action.apply_with_policy(&policy, &on_ac(), &observations, &other, &rollback).unwrap_err();
    assert!(err.message().starts_with("failed to rollback CPU power values: "));
}

fn gpu_full_action() -> GpuPowerAction {
    GpuPowerAction {
        pp_power_profile_mode: Some("3D_FULL_SCREEN".to_owned()),
        ..gpu_action()
    }
}

fn gpu_device(level: &str, profile: &str) -> GpuDeviceObservation {
    GpuDeviceObservation {
        dir_exists: true,
        power_dpm_force_performance_level: file(level),
        pp_power_profile_mode: file(profile),
    }
}

#[test]
fn apply_with_manual_policy_writes_verifies_and_saves_every_original_value() {
    let writes = vec![read_back("high"), read_back("3D_FULL_SCREEN")];
    let token = gpu_full_action()
        .apply_with_policy(&gpu_policy(), &on_ac(), &gpu_device("auto", "BOOTUP_DEFAULT"), &writes, &Vec::new())
        .unwrap();

    match token {
        RollbackToken::GpuPowerRestore { records } => {
            assert_eq!(records.len(), 2);
            assert!(records.iter().any(|record| {
                record.path.ends_with("power_dpm_force_performance_level") && record.original_value == "auto"
            }));
            assert!(records
                .iter()
                .any(|record| record.path.ends_with("pp_power_profile_mode") && record.original_value == "BOOTUP_DEFAULT"));
        }
        other => panic!("unexpected rollback token: {other:?}"),
    }
}

#[test]
fn apply_rejects_suggest_only_policy() {
    let policy = GpuPowerPolicy {
        mode: GpuPowerMode::SuggestOnly,
        ..gpu_policy()
    };
    let err = gpu_full_action()
        .apply_with_policy(&policy, &on_ac(), &gpu_device("auto", "BOOTUP_DEFAULT"), &Vec::new(), &Vec::new())
        .unwrap_err()
        .message();
    assert!(err.contains("GPU power action is suggest-only"));
}

#[test]
fn gpu_power_apply_mismatch_is_a_restore_failure() {
    let writes = vec![read_back("low")];
    let err = gpu_full_action()
        .apply_with_policy(&gpu_policy(), &on_ac(), &gpu_device("auto", "BOOTUP_DEFAULT"), &writes, &Vec::new())
        .unwrap_err()
        .message();
    assert!(err.contains("GPU power write verification failed for /sys/class/drm/card0/device/power_dpm_force_performance_level"));
    assert!(err.contains("requested=\"high\" actual=\"low\""));
}

#[test]
fn irq_affinity_apply_writes_affinity_verifies_and_saves_original() {
    let token = irq_action()
        .apply_with_policy(&irq_policy(), &irq_obs("amdgpu", "00000001"), &read_back("00000002"))
        .unwrap();

    match token {
        RollbackToken::IrqAffinityRestore { records } => {
            assert_eq!(records.len(), 1);
            assert_eq!(records[0].irq, 44);
            assert_eq!(records[0].device_hint, "amdgpu");
            assert_eq!(records[0].original_smp_affinity, "00000001");
        }
        other => panic!("unexpected rollback token: {other:?}"),
    }
}

#[test]
fn irq_affinity_apply_reports_failed_write_and_other_mask() {
    let action = irq_action();
    let obs = irq_obs("amdgpu", "00000001");
    let err = action
        .apply_with_policy(&irq_policy(), &obs, &ApplyWrite::WriteFailed { error: "denied".to_owned() })
        .unwrap_err()
        .message();
    assert_eq!(err, "failed to write IRQ 44 smp_affinity: denied");

    let err = action.apply_with_policy(&irq_policy(), &obs, &read_back("00000004")).unwrap_err().message();
    assert!(err.contains("IRQ 44 smp_affinity verification failed: requested=00000002 actual=00000004"));

    // Nothing is written when the mask already matches, so the write outcome is ignored.
    let same = irq_obs("amdgpu", "00000002");
    let token = action
        .apply_with_policy(&irq_policy(), &same, &ApplyWrite::WriteFailed { error: "unused".to_owned() })
        .unwrap();
    assert!(matches!(token, RollbackToken::IrqAffinityRestore { .. }));
}
