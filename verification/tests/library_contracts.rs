use stutter::cgroup::{cgroup_fs_path, normalize_cgroup_path, read_proc_cgroup_path, validate_cpuset_value, FileRead};
use stutter::cpu_power::{cpu_handler_restore_token, validate_cpu_power_request, BatteryPolicy, CpuPowerAction, CpuPowerPolicy};
use stutter::error::{ActionBoundaryError, ActionError};
use stutter::model::{ActionId, ActionPhase, ActionPreflightReport, ActionWarning, SafetyClass};
use stutter::procfs::{parse_stat_nice_and_starttime, parse_stat_starttime};
use stutter::restore::parse_status_tgid;
use stutter::runner::{preflight_audit_message, ActionRunPolicy, ActionSource, DaemonMode};
use stutter::sysfs::{is_on_battery, PowerSupplyEntry, PowerSupplyObservation};
use stutter::token::RollbackToken;

#[test]
fn normalizing_a_normal_form_keeps_it() {
    let once = normalize_cgroup_path("stutter//game.slice/./").unwrap();
    assert_eq!(once, "/stutter/game.slice");
    assert_eq!(normalize_cgroup_path(&once).unwrap(), once);
    assert_eq!(normalize_cgroup_path("/").unwrap(), "/");
    assert!(normalize_cgroup_path("/a/../b").is_err());
}

#[test]
fn cgroup_fs_path_joins_namespace_paths_under_root() {
    assert_eq!(
        cgroup_fs_path("/sys/fs/cgroup", "/old.slice").unwrap(),
        "/sys/fs/cgroup/old.slice"
    );
    assert_eq!(
        cgroup_fs_path("/sys/fs/cgroup", "/sys/fs/cgroup/old.slice").unwrap(),
        "/sys/fs/cgroup/old.slice"
    );
}

#[test]
fn proc_cgroup_file_names_its_longest_path() {
    assert_eq!(
        read_proc_cgroup_path("12:cpu:/a\n0::/stutter/game.slice\n").unwrap(),
        "/stutter/game.slice"
    );
    assert!(read_proc_cgroup_path("0::\n").is_err());
}

#[test]
fn cpuset_values_are_checked() {
    assert!(validate_cpuset_value("cpuset.cpus", "0-3,8").is_ok());
    assert!(validate_cpuset_value("cpuset.cpus", "").is_err());
    let err = validate_cpuset_value("cpuset.cpus", "0;rm").unwrap_err();
    assert!(err.message().contains("cpuset.cpus contains invalid character"));
}

#[test]
fn stat_lines_with_parentheses_in_comm_parse() {
    let mut fields = vec!["0".to_owned(); 20];
    fields[0] = "S".to_owned();
    fields[16] = "-5".to_owned();
    fields[19] = "777".to_owned();
    let stat = format!("42 (odd) name)) {}", fields.join(" "));

    assert_eq!(parse_stat_starttime(&stat), Some(777));
    assert_eq!(parse_stat_nice_and_starttime(&stat), Some((-5, 777)));
    assert_eq!(parse_stat_starttime("42 no-parenthesis 1 2 3"), None);
}

#[test]
fn status_tgid_is_the_first_parsable_tgid_line() {
    assert_eq!(parse_status_tgid("Name:\tgame\nTgid:\t4100\nPid:\t4101\n"), Some(4100));
    assert_eq!(parse_status_tgid("Name:\tgame\nPid:\t4101\n"), None);
    assert_eq!(parse_status_tgid("Tgid:\tx\nTgid:  12 \n"), Some(12));
}

#[test]
fn battery_is_detected_from_power_supply_entries() {
    assert_eq!(is_on_battery("/sys/class/power_supply", &PowerSupplyObservation::Absent).unwrap(), false);
    let on_ac = PowerSupplyObservation::Entries(vec![
        PowerSupplyEntry {
            supply_type: FileRead::Contents("Mains\n".to_owned()),
            online: FileRead::Contents("1\n".to_owned()),
            status: FileRead::Unread,
        },
        PowerSupplyEntry {
            supply_type: FileRead::Contents("Battery\n".to_owned()),
            online: FileRead::Unread,
            status: FileRead::Contents("Discharging\n".to_owned()),
        },
    ]);
    assert_eq!(is_on_battery("/sys/class/power_supply", &on_ac).unwrap(), false);
    let on_battery = PowerSupplyObservation::Entries(vec![PowerSupplyEntry {
        supply_type: FileRead::Contents("Battery\n".to_owned()),
        online: FileRead::Unread,
        status: FileRead::Contents("Discharging\n".to_owned()),
    }]);
    assert_eq!(is_on_battery("/sys/class/power_supply", &on_battery).unwrap(), true);
    let failed = PowerSupplyObservation::ListFailed { error: "denied".to_owned() };
    assert_eq!(
        is_on_battery("/sys/class/power_supply", &failed).unwrap_err().message(),
        "failed to read /sys/class/power_supply: denied"
    );
}

#[test]
fn invalid_sysfs_value_names_the_character() {
    let action = CpuPowerAction {
        sysfs_root: "/sys".to_owned(),
        cpus: vec![0],
        scaling_governor: Some("perf mode".to_owned()),
        energy_performance_preference: None,
    };
    let policy = CpuPowerPolicy {
        allow_cpu_power_changes: true,
        allowed_cpus: std::collections::BTreeSet::from([0]),
        allow_governor_changes: true,
        allow_epp_changes: false,
        battery_policy: BatteryPolicy::Never,
        explicit_battery_override: false,
    };

    let err = validate_cpu_power_request(&action, &policy, &PowerSupplyObservation::Absent).unwrap_err();

    assert_eq!(
        err.message(),
        "action_invalid_value: cpu_power field scaling_governor: scaling_governor value contains invalid character ' '"
    );
}

#[test]
fn cpu_power_handler_names_the_refused_token() {
    let token = RollbackToken::NiceRestore { records: Vec::new() };

    let err = cpu_handler_restore_token(&token, &Vec::new()).unwrap_err().message();

    assert!(err.starts_with("CPU power rollback handler does not support NiceRestore"));
}

#[test]
fn error_categories_and_phases() {
    let cases = vec![
        (ActionError::preflight("p"), ActionPhase::Preflight, "preflight_failure", "preflight failed: p"),
        (ActionError::dry_run("d"), ActionPhase::DryRun, "dry_run_failure", "dry run failed: d"),
        (ActionError::apply("a"), ActionPhase::Apply, "apply_failure", "apply failed: a"),
        (ActionError::verify("v"), ActionPhase::Verify, "verify_failure", "verify failed: v"),
        (ActionError::rollback("r"), ActionPhase::Rollback, "rollback_failure", "rollback failed: r"),
        (
            ActionError::policy_rejected("policy denied action"),
            ActionPhase::Preflight,
            "policy_rejected",
            "policy rejected: policy denied action",
        ),
    ];
    for (err, phase, category, text) in cases {
        assert_eq!(err.phase(), phase);
        assert_eq!(err.category(), category);
        assert_eq!(err.human_message(), text);
    }
}

#[test]
fn invalid_rollback_token_error_names_both_kinds() {
    let err = ActionError::invalid_rollback_token("nice-restore", "ioprio-restore");

    assert_eq!(err.phase(), ActionPhase::Rollback);
    assert_eq!(err.category(), "invalid_rollback_token");
    assert_eq!(
        err.human_message(),
        "invalid rollback token: expected nice-restore, actual ioprio-restore"
    );
}

#[test]
fn boundary_errors_carry_reason_codes() {
    let err = ActionBoundaryError::MissingExplicitTargets { action_kind: "uclamp" };
    assert_eq!(err.reason_code(), "action_missing_explicit_targets");
    assert_eq!(
        err.message(),
        "action_missing_explicit_targets: uclamp requires at least one explicit target"
    );
    let failure = err.to_failure(ActionPhase::DryRun);
    assert_eq!(failure.reason_code, "action_missing_explicit_targets");
    assert_eq!(failure.action_kind, "uclamp");
}

#[test]
fn preflight_report_keeps_warnings_or_blockers() {
    let id = ActionId::new("test-action".to_owned());
    let passed = ActionPreflightReport::from_preflight_result(
        id.clone(),
        Ok(vec![ActionWarning::new("soft warning".to_owned())]),
    );
    assert!(!passed.is_blocked());
    assert_eq!(passed.warnings.len(), 1);

    let blocked = ActionPreflightReport::from_preflight_result(id, Err("policy rejected".to_owned()));
    assert!(blocked.is_blocked());
    assert_eq!(blocked.blocker_messages(), "policy rejected");
}

#[test]
fn run_policy_follows_safety_class() {
    let low = ActionRunPolicy::for_action(SafetyClass::ReversibleLowRisk, false, ActionSource::Cli);
    assert_eq!(low.mode, DaemonMode::ApplyLowRisk);
    let high = ActionRunPolicy::for_action(SafetyClass::HighRisk, false, ActionSource::Cli);
    assert_eq!(high.mode, DaemonMode::ApplyMediumRisk);
    let preview = ActionRunPolicy::for_action(SafetyClass::HighRisk, true, ActionSource::Cli);
    assert!(preview.dry_run);
    assert_eq!(preview.mode, DaemonMode::Suggest);
    assert_eq!(
        ActionRunPolicy::dry_run(ActionSource::Daemon).with_max_total_duration(250).max_total_duration_ms,
        Some(250)
    );
}

#[test]
fn preflight_audit_message_counts_warnings() {
    assert_eq!(preflight_audit_message(0), "preflight successful");
    assert_eq!(preflight_audit_message(1), "preflight successful with 1 warning");
    assert_eq!(preflight_audit_message(3), "preflight successful with 3 warnings");
}

#[test]
fn action_preflight_report_preserves_success_warnings() {
    let report = ActionPreflightReport::from_preflight_result(
        ActionId::new("test-action".to_owned()),
        Ok(vec![ActionWarning { message: "soft warning".to_owned() }]),
    );

    assert_eq!(report.action_id.as_str(), "test-action");
    assert!(!report.is_blocked());
    assert_eq!(report.warnings.len(), 1);
    assert!(report.blocker_messages().is_empty());
}

#[test]
fn action_preflight_report_converts_errors_to_blockers() {
    let report = ActionPreflightReport::from_preflight_result(
        ActionId::new("test-action".to_owned()),
        Err("policy rejected".to_owned()),
    );

    assert!(report.is_blocked());
    assert!(report.warnings.is_empty());
    assert_eq!(report.blocker_messages(), "policy rejected");
}
