//! GPU power: setting a DRM card's forced performance level and power profile, with the
//! policy that decides which cards and files may change and whether writes are made.
use vstd::prelude::*;

use crate::cgroup::{FileAccess, FileRead};
use crate::cpu_power::{value_or_keep, optional_value_label, SysfsFileObservation, power_supply_dir, power_supply_root};
use crate::error::{
    is_invalid_request, is_invalid_value, is_policy_denied, is_unsupported_value, is_wrong_token_for,
    ActionBoundaryError, ActionError, ActionSourceError,
};
use crate::model::{ActionId, ActionState, ActionWarning, GpuPowerRestoreRecord, SafetyClass};
use crate::rollback::{is_token_preview, is_unsupported_token, token_handler_dry_run, token_restore_result, RollbackPreview, RollbackResult};
use crate::sysfs::{
    apply_write_at, is_on_battery, lemma_plain_value_is_clean, on_battery, opt_text_eq, read_trimmed,
    sysfs_restore_failures, sysfs_value_error, sysfs_value_problem, ApplyWrite, PowerSupplyObservation, SysfsRestoreItem,
};
use crate::text::{
    cat, cat3, cat4, debug_quote, debug_quoted, is_digit_char, join, join_path, join_strings, path_join,
    str_eq, trim, trim_text, views,
};
use crate::token::{token_kind, RollbackToken};

verus! {

/// Whether the action only suggests, or may write when asked to.
#[derive(Debug, Clone, Copy, PartialEq, Eq, Structural)]
pub enum GpuPowerMode {
    SuggestOnly,
    ManualApply,
}

/// Whether GPU power changes may be made while on battery.
#[derive(Debug, Clone, Copy, PartialEq, Eq, Structural)]
pub enum GpuBatteryPolicy {
    Never,
    AllowWithExplicitConfig,
}

/// What a GPU power request is allowed: the cards it may touch and the files it may write.
#[derive(Debug, Clone, PartialEq, Eq)]
pub struct GpuPowerPolicy {
    pub allow_gpu_power_changes: bool,
    pub mode: GpuPowerMode,
    pub allowed_drm_cards: Vec<String>,
    pub allow_force_performance_level: bool,
    pub allow_power_profile_mode: bool,
    pub battery_policy: GpuBatteryPolicy,
    pub explicit_battery_override: bool,
}

impl Default for GpuPowerPolicy {
    /// Nothing allowed, suggest-only.
    fn default() -> (r: Self)
        ensures
            !r.allow_gpu_power_changes,
            r.mode == GpuPowerMode::SuggestOnly,
            r.allowed_drm_cards@.len() == 0,
            !r.allow_force_performance_level,
            !r.allow_power_profile_mode,
            r.battery_policy == GpuBatteryPolicy::Never,
            !r.explicit_battery_override,
    {
        GpuPowerPolicy {
            allow_gpu_power_changes: false,
            mode: GpuPowerMode::SuggestOnly,
            allowed_drm_cards: Vec::new(),
            allow_force_performance_level: false,
            allow_power_profile_mode: false,
            battery_policy: GpuBatteryPolicy::Never,
            explicit_battery_override: false,
        }
    }
}

/// A request to set a DRM card's forced performance level and/or power profile.
#[derive(Debug, Clone)]
pub struct GpuPowerAction {
    pub sysfs_root: String,
    pub drm_card: String,
    pub power_dpm_force_performance_level: Option<String>,
    pub pp_power_profile_mode: Option<String>,
}

/// Why a DRM card name is refused, if it is: it must be `card` followed by digits,
/// without surrounding whitespace.
pub open spec fn card_name_error(card: Seq<char>) -> Option<Seq<char>> {
    if trim(card).len() == 0 {
        Some("DRM card name must not be empty"@)
    } else if trim(card) != card {
        Some("DRM card name must not contain leading or trailing whitespace"@)
    } else if !(card.len() >= 4 && card.take(4) == "card"@) {
        Some("DRM card name must start with card"@)
    } else if card.len() == 4 || exists|i: int| 4 <= i < card.len() && !is_digit_char(#[trigger] card[i]) {
        Some("DRM card name must be card followed by digits"@)
    } else {
        None
    }
}

/// Checks a DRM card name.
pub fn validate_drm_card_name(card: &str) -> (r: Result<(), ActionBoundaryError>)
    ensures
        card_name_error(card@) is None <==> r is Ok,
        r matches Err(e) ==> is_invalid_value(e, "gpu_power"@, "drm_card"@, card_name_error(card@)->0),
{
    proof {
        reveal_strlit("card");
    }
    let t = trim_text(card);
    if t.unicode_len() == 0 {
        return Err(ActionBoundaryError::InvalidValue {
            action_kind: "gpu_power",
            field: "drm_card".to_owned(),
            reason: "DRM card name must not be empty".to_owned(),
        });
    }
    if !str_eq(t.as_str(), card) {
        return Err(ActionBoundaryError::InvalidValue {
            action_kind: "gpu_power",
            field: "drm_card".to_owned(),
            reason: "DRM card name must not contain leading or trailing whitespace".to_owned(),
        });
    }
    let n = card.unicode_len();
    let starts = n >= 4 && card.get_char(0) == 'c' && card.get_char(1) == 'a' && card.get_char(2) == 'r'
        && card.get_char(3) == 'd';
    assert(starts == (card@.len() >= 4 && card@.take(4) == "card"@)) by {
        if card@.len() >= 4 && card@.take(4) == "card"@ {
            assert(card@.take(4)[0] == card@[0]);
            assert(card@.take(4)[1] == card@[1]);
            assert(card@.take(4)[2] == card@[2]);
            assert(card@.take(4)[3] == card@[3]);
        }
        if starts {
            assert(card@.take(4) =~= "card"@);
        }
    }
    if !starts {
        return Err(ActionBoundaryError::InvalidValue {
            action_kind: "gpu_power",
            field: "drm_card".to_owned(),
            reason: "DRM card name must start with card".to_owned(),
        });
    }
    let mut ok = n > 4;
    let mut i: usize = 4;
    while i < n
        invariant
            n == card@.len(),
            4 <= i <= n,
            ok == (n > 4 && forall|j: int| 4 <= j < i ==> is_digit_char(#[trigger] card@[j])),
        decreases n - i,
    {
        let c = card.get_char(i);
        if !('0' <= c && c <= '9') {
            ok = false;
        }
        i = i + 1;
    }
    if !ok {
        return Err(ActionBoundaryError::InvalidValue {
            action_kind: "gpu_power",
            field: "drm_card".to_owned(),
            reason: "DRM card name must be card followed by digits".to_owned(),
        });
    }
    Ok(())
}

/// The performance levels the driver accepts.
pub open spec fn is_dpm_level(v: Seq<char>) -> bool {
    v == "auto"@ || v == "low"@ || v == "high"@ || v == "manual"@ || v == "profile_standard"@ || v
        == "profile_min_sclk"@ || v == "profile_min_mclk"@ || v == "profile_peak"@
}

/// Every performance level the driver documents (auto, low, high, manual and the four
/// profile levels) is a well-formed value that the check accepts.
pub proof fn documented_dpm_levels_are_accepted(v: Seq<char>)
    requires
        v == "auto"@ || v == "low"@ || v == "high"@ || v == "manual"@ || v == "profile_standard"@
            || v == "profile_min_sclk"@ || v == "profile_min_mclk"@ || v == "profile_peak"@,
    ensures
        sysfs_value_error("power_dpm_force_performance_level"@, v, true) is None,
        is_dpm_level(v),
{
    reveal_strlit("auto");
    reveal_strlit("low");
    reveal_strlit("high");
    reveal_strlit("manual");
    reveal_strlit("profile_standard");
    reveal_strlit("profile_min_sclk");
    reveal_strlit("profile_min_mclk");
    reveal_strlit("profile_peak");
    lemma_plain_value_is_clean("power_dpm_force_performance_level"@, v, true);
}

/// Checks a forced performance level: a well-formed value among the known levels.
pub fn validate_dpm_force_performance_level(value: &str) -> (r: Result<(), ActionBoundaryError>)
    ensures
        (value@ == "auto"@ || value@ == "low"@ || value@ == "high"@ || value@ == "manual"@ || value@
            == "profile_standard"@ || value@ == "profile_min_sclk"@ || value@ == "profile_min_mclk"@ || value@
            == "profile_peak"@) <==> r is Ok,
        (sysfs_value_error("power_dpm_force_performance_level"@, value@, true) is None && is_dpm_level(value@))
            <==> r is Ok,
        r matches Err(e) ==> match sysfs_value_error("power_dpm_force_performance_level"@, value@, true) {
            Some(reason) => is_invalid_value(e, "gpu_power"@, "power_dpm_force_performance_level"@, reason),
            None => is_unsupported_value(e, "gpu_power"@, "power_dpm_force_performance_level"@, value@),
        },
{
    proof {
        if value@ == "auto"@ || value@ == "low"@ || value@ == "high"@ || value@ == "manual"@ || value@
            == "profile_standard"@ || value@ == "profile_min_sclk"@ || value@ == "profile_min_mclk"@ || value@
            == "profile_peak"@ {
            documented_dpm_levels_are_accepted(value@);
        }
    }
    match sysfs_value_problem("power_dpm_force_performance_level", value, true) {
        Some(reason) => {
            return Err(ActionBoundaryError::InvalidValue {
                action_kind: "gpu_power",
                field: "power_dpm_force_performance_level".to_owned(),
                reason,
            });
        },
        None => {},
    }
    if str_eq(value, "auto") || str_eq(value, "low") || str_eq(value, "high") || str_eq(value, "manual")
        || str_eq(value, "profile_standard") || str_eq(value, "profile_min_sclk") || str_eq(
        value,
        "profile_min_mclk",
    ) || str_eq(value, "profile_peak") {
        Ok(())
    } else {
        Err(ActionBoundaryError::UnsupportedValue {
            action_kind: "gpu_power",
            field: "power_dpm_force_performance_level",
            value: value.to_owned(),
        })
    }
}

/// Checks a power profile value.
pub fn validate_power_profile_mode(value: &str) -> (r: Result<(), ActionBoundaryError>)
    ensures
        sysfs_value_error("pp_power_profile_mode"@, value@, true) is None <==> r is Ok,
        r matches Err(e) ==> is_invalid_value(
            e,
            "gpu_power"@,
            "pp_power_profile_mode"@,
            sysfs_value_error("pp_power_profile_mode"@, value@, true)->0,
        ),
{
    match sysfs_value_problem("pp_power_profile_mode", value, true) {
        Some(reason) => Err(ActionBoundaryError::InvalidValue {
            action_kind: "gpu_power",
            field: "pp_power_profile_mode".to_owned(),
            reason,
        }),
        None => Ok(()),
    }
}

/// Whether `v` holds a text equal to `s`.
pub open spec fn holds_text(v: Seq<String>, s: Seq<char>) -> bool {
    exists|i: int| 0 <= i < v.len() && #[trigger] v[i]@ == s
}

fn contains_text(v: &Vec<String>, s: &str) -> (r: bool)
    ensures
        r == holds_text(v@, s@),
{
    let mut i: usize = 0;
    while i < v.len()
        invariant
            0 <= i <= v@.len(),
            forall|j: int| 0 <= j < i ==> #[trigger] v@[j]@ != s@,
        decreases v@.len() - i,
    {
        if str_eq(v[i].as_str(), s) {
            assert(v@[i as int]@ == s@);
            return true;
        }
        i = i + 1;
    }
    false
}

/// Whether `policy` and the battery state admit the request `a`.
pub open spec fn gpu_request_passes(a: GpuPowerAction, policy: GpuPowerPolicy, power: PowerSupplyObservation) -> bool {
    &&& policy.allow_gpu_power_changes
    &&& card_name_error(a.drm_card@) is None
    &&& (a.power_dpm_force_performance_level is Some || a.pp_power_profile_mode is Some)
    &&& policy.allowed_drm_cards@.len() > 0
    &&& holds_text(policy.allowed_drm_cards@, a.drm_card@)
    &&& (a.power_dpm_force_performance_level is Some ==> policy.allow_force_performance_level)
    &&& (a.pp_power_profile_mode is Some ==> policy.allow_power_profile_mode)
    &&& (a.power_dpm_force_performance_level matches Some(l) ==> (sysfs_value_error(
        "power_dpm_force_performance_level"@,
        l@,
        true,
    ) is None && is_dpm_level(l@)))
    &&& (a.pp_power_profile_mode matches Some(p) ==> sysfs_value_error("pp_power_profile_mode"@, p@, true) is None)
    &&& match power {
        PowerSupplyObservation::Absent => true,
        PowerSupplyObservation::Entries(v) => !on_battery(v@) || (policy.battery_policy
            == GpuBatteryPolicy::AllowWithExplicitConfig && policy.explicit_battery_override),
        _ => false,
    }
}

/// `e` is the refusal of a request that does not pass, in check order.
pub open spec fn gpu_request_refusal(
    a: GpuPowerAction,
    policy: GpuPowerPolicy,
    power: PowerSupplyObservation,
    e: ActionSourceError,
) -> bool {
    if !policy.allow_gpu_power_changes {
        e matches ActionSourceError::Boundary(b) && is_policy_denied(b, "gpu_power"@, "allow_gpu_power_changes"@)
    } else if card_name_error(a.drm_card@) is Some {
        e matches ActionSourceError::Boundary(b) && is_invalid_value(b, "gpu_power"@, "drm_card"@, card_name_error(a.drm_card@)->0)
    } else if a.power_dpm_force_performance_level is None && a.pp_power_profile_mode is None {
        e matches ActionSourceError::Boundary(b) && is_invalid_request(
            b,
            "gpu_power"@,
            "GPU power action requires power_dpm_force_performance_level, pp_power_profile_mode, or both"@,
        )
    } else if policy.allowed_drm_cards@.len() == 0 {
        e matches ActionSourceError::Boundary(b) && is_policy_denied(b, "gpu_power"@, "allowed_drm_cards_non_empty"@)
    } else if !holds_text(policy.allowed_drm_cards@, a.drm_card@) {
        e matches ActionSourceError::Boundary(b) && is_policy_denied(b, "gpu_power"@, "allowed_drm_cards_contains_target"@)
    } else if a.power_dpm_force_performance_level is Some && !policy.allow_force_performance_level {
        e matches ActionSourceError::Boundary(b) && is_policy_denied(b, "gpu_power"@, "allow_force_performance_level"@)
    } else if a.pp_power_profile_mode is Some && !policy.allow_power_profile_mode {
        e matches ActionSourceError::Boundary(b) && is_policy_denied(b, "gpu_power"@, "allow_power_profile_mode"@)
    } else if a.power_dpm_force_performance_level matches Some(l) && !(sysfs_value_error(
        "power_dpm_force_performance_level"@,
        l@,
        true,
    ) is None && is_dpm_level(l@)) {
        let l = a.power_dpm_force_performance_level->0;
        e matches ActionSourceError::Boundary(b) && match sysfs_value_error("power_dpm_force_performance_level"@, l@, true) {
            Some(reason) => is_invalid_value(b, "gpu_power"@, "power_dpm_force_performance_level"@, reason),
            None => is_unsupported_value(b, "gpu_power"@, "power_dpm_force_performance_level"@, l@),
        }
    } else if a.pp_power_profile_mode matches Some(p) && sysfs_value_error("pp_power_profile_mode"@, p@, true) is Some {
        e matches ActionSourceError::Boundary(b) && is_invalid_value(
            b,
            "gpu_power"@,
            "pp_power_profile_mode"@,
            sysfs_value_error("pp_power_profile_mode"@, a.pp_power_profile_mode->0@, true)->0,
        )
    } else {
        match power {
            PowerSupplyObservation::ListFailed { error } => e matches ActionSourceError::Message(m) && m@
                == "failed to read "@ + power_supply_dir(a.sysfs_root@) + ": "@ + error@,
            PowerSupplyObservation::EntryFailed { error } => e matches ActionSourceError::Message(m) && m@
                == "failed to read entry under "@ + power_supply_dir(a.sysfs_root@) + ": "@ + error@,
            _ => e matches ActionSourceError::Boundary(b) && if policy.battery_policy == GpuBatteryPolicy::Never {
                is_policy_denied(b, "gpu_power"@, "battery_policy_allow"@)
            } else {
                is_policy_denied(b, "gpu_power"@, "explicit_battery_override"@)
            },
        }
    }
}

/// Checks the request `action` against `policy` and the battery state.
pub fn validate_gpu_power_request(
    action: &GpuPowerAction,
    policy: &GpuPowerPolicy,
    power: &PowerSupplyObservation,
) -> (r: Result<(), ActionSourceError>)
    ensures
        gpu_request_passes(*action, *policy, *power) <==> r is Ok,
        r matches Err(e) ==> gpu_request_refusal(*action, *policy, *power, e),
{
    if !policy.allow_gpu_power_changes {
        return Err(ActionSourceError::Boundary(ActionBoundaryError::PolicyDenied { action_kind: "gpu_power", requirement: "allow_gpu_power_changes" }));
    }
    match validate_drm_card_name(action.drm_card.as_str()) {
        Err(b) => return Err(ActionSourceError::Boundary(b)),
        Ok(()) => {},
    }
    if action.power_dpm_force_performance_level.is_none() && action.pp_power_profile_mode.is_none() {
        return Err(ActionSourceError::Boundary(ActionBoundaryError::InvalidRequest {
            action_kind: "gpu_power",
            reason: "GPU power action requires power_dpm_force_performance_level, pp_power_profile_mode, or both".to_owned(),
        }));
    }
    if policy.allowed_drm_cards.len() == 0 {
        return Err(ActionSourceError::Boundary(ActionBoundaryError::PolicyDenied { action_kind: "gpu_power", requirement: "allowed_drm_cards_non_empty" }));
    }
    if !contains_text(&policy.allowed_drm_cards, action.drm_card.as_str()) {
        return Err(ActionSourceError::Boundary(ActionBoundaryError::PolicyDenied { action_kind: "gpu_power", requirement: "allowed_drm_cards_contains_target" }));
    }
    if action.power_dpm_force_performance_level.is_some() && !policy.allow_force_performance_level {
        return Err(ActionSourceError::Boundary(ActionBoundaryError::PolicyDenied { action_kind: "gpu_power", requirement: "allow_force_performance_level" }));
    }
    if action.pp_power_profile_mode.is_some() && !policy.allow_power_profile_mode {
        return Err(ActionSourceError::Boundary(ActionBoundaryError::PolicyDenied { action_kind: "gpu_power", requirement: "allow_power_profile_mode" }));
    }
    match &action.power_dpm_force_performance_level {
        Some(l) => match validate_dpm_force_performance_level(l.as_str()) {
            Err(b) => return Err(ActionSourceError::Boundary(b)),
            Ok(()) => {},
        },
        None => {},
    }
    match &action.pp_power_profile_mode {
        Some(p) => match validate_power_profile_mode(p.as_str()) {
            Err(b) => return Err(ActionSourceError::Boundary(b)),
            Ok(()) => {},
        },
        None => {},
    }
    let root = power_supply_root(action.sysfs_root.as_str());
    let battery = match is_on_battery(root.as_str(), power) {
        Ok(b) => b,
        Err(e) => return Err(e),
    };
    if battery {
        match policy.battery_policy {
            GpuBatteryPolicy::Never => {
                return Err(ActionSourceError::Boundary(ActionBoundaryError::PolicyDenied { action_kind: "gpu_power", requirement: "battery_policy_allow" }));
            },
            GpuBatteryPolicy::AllowWithExplicitConfig => {
                if !policy.explicit_battery_override {
                    return Err(ActionSourceError::Boundary(ActionBoundaryError::PolicyDenied { action_kind: "gpu_power", requirement: "explicit_battery_override" }));
                }
            },
        }
    }
    Ok(())
}

/// Writes are made only in manual-apply mode.
pub fn validate_manual_apply_policy(policy: &GpuPowerPolicy) -> (r: Result<(), ActionBoundaryError>)
    ensures
        (policy.mode == GpuPowerMode::ManualApply) <==> r is Ok,
        r matches Err(e) ==> is_invalid_request(
            e,
            "gpu_power"@,
            "GPU power action is suggest-only; set policy mode to ManualApply for explicit manual writes"@,
        ),
{
    match policy.mode {
        GpuPowerMode::ManualApply => Ok(()),
        GpuPowerMode::SuggestOnly => Err(ActionBoundaryError::InvalidRequest {
            action_kind: "gpu_power",
            reason: "GPU power action is suggest-only; set policy mode to ManualApply for explicit manual writes".to_owned(),
        }),
    }
}

/// What sysfs shows of the card's device directory.
#[derive(Debug, Clone, PartialEq, Eq)]
pub struct GpuDeviceObservation {
    pub dir_exists: bool,
    pub power_dpm_force_performance_level: SysfsFileObservation,
    pub pp_power_profile_mode: SysfsFileObservation,
}

/// A file a GPU power request writes: its path, the value requested and the value now.
#[derive(Debug, Clone, PartialEq, Eq)]
pub struct GpuPowerTargetFile {
    pub path: String,
    pub requested_value: String,
    pub original_value: String,
}

impl GpuPowerTargetFile {
    /// Whether applying writes this file: it does not hold the requested value yet.
    pub fn needs_write(&self) -> (r: bool)
        ensures
            r == (self.original_value@ != self.requested_value@),
    {
        !str_eq(self.original_value.as_str(), self.requested_value.as_str())
    }
}

/// The view of a target file: path, requested and original value.
pub open spec fn gpu_file_view(f: GpuPowerTargetFile) -> (Seq<char>, Seq<char>, Seq<char>) {
    (f.path@, f.requested_value@, f.original_value@)
}

/// The card's device directory under a sysfs root.
pub open spec fn device_dir(root: Seq<char>, card: Seq<char>) -> Seq<char> {
    join_path(join_path(join_path(root, "class/drm"@), card), "device"@)
}

/// Whether a GPU file can be written and was read.
pub open spec fn gpu_file_passes(f: SysfsFileObservation) -> bool {
    f.access == FileAccess::Writable && f.contents is Contents
}

/// `e` is the error of a GPU file that does not pass.
pub open spec fn gpu_file_failure(path: Seq<char>, f: SysfsFileObservation, e: ActionSourceError) -> bool {
    match f.access {
        FileAccess::Missing => e matches ActionSourceError::Boundary(ActionBoundaryError::MissingPath { action_kind, path: p })
            && action_kind@ == "gpu_power"@ && p@ == path,
        FileAccess::NotWritable { error } => e matches ActionSourceError::Message(m) && m@
            == "required GPU power sysfs file is not writable: "@ + path + ": "@ + error@,
        FileAccess::Writable => e matches ActionSourceError::Message(m) && m@ == match f.contents {
            FileRead::Failed(x) => "failed to read "@ + path + ": "@ + x@,
            _ => "failed to read "@ + path + ": "@,
        },
    }
}

/// One GPU target file: checked writable, then read.
fn read_gpu_target_file(path: &str, f: &SysfsFileObservation, requested: &String) -> (r: Result<GpuPowerTargetFile, ActionSourceError>)
    ensures
        gpu_file_passes(*f) <==> r is Ok,
        r matches Err(e) ==> gpu_file_failure(path@, *f, e),
        r matches Ok(t) ==> gpu_file_view(t) == (path@, requested@, trim(f.contents->Contents_0@)),
{
    match &f.access {
        FileAccess::Missing => return Err(ActionSourceError::Boundary(ActionBoundaryError::MissingPath { action_kind: "gpu_power", path: path.to_owned() })),
        FileAccess::NotWritable { error } => {
            let mut m = cat3("required GPU power sysfs file is not writable: ", path, ": ");
            m.append(error.as_str());
            return Err(ActionSourceError::Message(m));
        },
        FileAccess::Writable => {},
    }
    match read_trimmed(path, &f.contents) {
        Ok(v) => Ok(GpuPowerTargetFile { path: path.to_owned(), requested_value: requested.clone(), original_value: v }),
        Err(e) => Err(e),
    }
}

/// Whether the device directory and the files the request writes pass.
pub open spec fn gpu_files_pass(a: GpuPowerAction, dev: GpuDeviceObservation) -> bool {
    &&& dev.dir_exists
    &&& (a.power_dpm_force_performance_level is Some ==> gpu_file_passes(dev.power_dpm_force_performance_level))
    &&& (a.pp_power_profile_mode is Some ==> gpu_file_passes(dev.pp_power_profile_mode))
}

/// Whether the request, the battery state and the device pass.
pub open spec fn gpu_collect_passes(a: GpuPowerAction, policy: GpuPowerPolicy, power: PowerSupplyObservation, dev: GpuDeviceObservation) -> bool {
    gpu_request_passes(a, policy, power) && gpu_files_pass(a, dev)
}

/// `e` is the failure of a collection that did not pass.
pub open spec fn gpu_collect_failure(
    a: GpuPowerAction,
    policy: GpuPowerPolicy,
    power: PowerSupplyObservation,
    dev: GpuDeviceObservation,
    e: ActionSourceError,
) -> bool {
    let dir = device_dir(a.sysfs_root@, a.drm_card@);
    if !gpu_request_passes(a, policy, power) {
        gpu_request_refusal(a, policy, power, e)
    } else if !dev.dir_exists {
        e matches ActionSourceError::Boundary(ActionBoundaryError::MissingPath { action_kind, path }) && action_kind@
            == "gpu_power"@ && path@ == dir
    } else if a.power_dpm_force_performance_level is Some && !gpu_file_passes(dev.power_dpm_force_performance_level) {
        gpu_file_failure(join_path(dir, "power_dpm_force_performance_level"@), dev.power_dpm_force_performance_level, e)
    } else {
        gpu_file_failure(join_path(dir, "pp_power_profile_mode"@), dev.pp_power_profile_mode, e)
    }
}

/// The files a passing request writes: the level file, then the profile file, each
/// where the request sets it.
pub open spec fn gpu_files_of(a: GpuPowerAction, dev: GpuDeviceObservation) -> Seq<(Seq<char>, Seq<char>, Seq<char>)> {
    let dir = device_dir(a.sysfs_root@, a.drm_card@);
    let l: Seq<(Seq<char>, Seq<char>, Seq<char>)> = match a.power_dpm_force_performance_level {
        Some(v) => seq![(join_path(dir, "power_dpm_force_performance_level"@), v@, trim(dev.power_dpm_force_performance_level.contents->Contents_0@))],
        None => Seq::empty(),
    };
    let p: Seq<(Seq<char>, Seq<char>, Seq<char>)> = match a.pp_power_profile_mode {
        Some(v) => seq![(join_path(dir, "pp_power_profile_mode"@), v@, trim(dev.pp_power_profile_mode.contents->Contents_0@))],
        None => Seq::empty(),
    };
    l + p
}

/// How many files hold a value other than the one requested.
pub open spec fn gpu_differing(v: Seq<(Seq<char>, Seq<char>, Seq<char>)>) -> nat
    decreases v.len(),
{
    if v.len() == 0 {
        0
    } else {
        gpu_differing(v.drop_last()) + if v.last().2 != v.last().1 {
            1nat
        } else {
            0nat
        }
    }
}

fn count_gpu_differing(files: &Vec<GpuPowerTargetFile>) -> (r: usize)
    ensures
        r == gpu_differing(files@.map_values(|f: GpuPowerTargetFile| gpu_file_view(f))),
        r <= files@.len(),
{
    let ghost v = files@.map_values(|f: GpuPowerTargetFile| gpu_file_view(f));
    let mut n: usize = 0;
    let mut i: usize = 0;
    assert(v.take(0) =~= Seq::<(Seq<char>, Seq<char>, Seq<char>)>::empty());
    while i < files.len()
        invariant
            0 <= i <= files@.len(),
            v == files@.map_values(|f: GpuPowerTargetFile| gpu_file_view(f)),
            n == gpu_differing(v.take(i as int)),
            n <= i,
        decreases files@.len() - i,
    {
        assert(v.take(i + 1).drop_last() =~= v.take(i as int));
        assert(v.take(i + 1).last() == gpu_file_view(files@[i as int]));
        if !str_eq(files[i].original_value.as_str(), files[i].requested_value.as_str()) {
            n = n + 1;
        }
        i = i + 1;
    }
    assert(v.take(files@.len() as int) =~= v);
    n
}

impl GpuPowerAction {
    /// The files the request writes, after checking the request, the policy, the battery
    /// state and the device directory.
    pub fn collect_target_files(
        &self,
        policy: &GpuPowerPolicy,
        power: &PowerSupplyObservation,
        dev: &GpuDeviceObservation,
    ) -> (r: Result<Vec<GpuPowerTargetFile>, ActionSourceError>)
        ensures
            r is Ok <==> gpu_collect_passes(*self, *policy, *power, *dev),
            r matches Err(e) ==> gpu_collect_failure(*self, *policy, *power, *dev, e),
            r matches Ok(v) ==> v@.map_values(|f: GpuPowerTargetFile| gpu_file_view(f)) == gpu_files_of(*self, *dev),
    {
        proof {
            reveal_strlit("power_dpm_force_performance_level");
            reveal_strlit("pp_power_profile_mode");
        }
        match validate_gpu_power_request(self, policy, power) {
            Err(e) => return Err(e),
            Ok(()) => {},
        }
        let drm = path_join(self.sysfs_root.as_str(), "class/drm");
        let card = path_join(drm.as_str(), self.drm_card.as_str());
        let dir = path_join(card.as_str(), "device");
        if !dev.dir_exists {
            return Err(ActionSourceError::Boundary(ActionBoundaryError::MissingPath { action_kind: "gpu_power", path: dir }));
        }
        let mut files: Vec<GpuPowerTargetFile> = Vec::new();
        match &self.power_dpm_force_performance_level {
            Some(l) => {
                let path = path_join(dir.as_str(), "power_dpm_force_performance_level");
                match read_gpu_target_file(path.as_str(), &dev.power_dpm_force_performance_level, l) {
                    Ok(f) => files.push(f),
                    Err(e) => return Err(e),
                }
            },
            None => {},
        }
        match &self.pp_power_profile_mode {
            Some(p) => {
                let path = path_join(dir.as_str(), "pp_power_profile_mode");
                match read_gpu_target_file(path.as_str(), &dev.pp_power_profile_mode, p) {
                    Ok(f) => files.push(f),
                    Err(e) => return Err(e),
                }
            },
            None => {},
        }
        assert(files@.map_values(|f: GpuPowerTargetFile| gpu_file_view(f)) =~= gpu_files_of(*self, *dev));
        Ok(files)
    }

    /// The preflight under `policy`: the standing high-risk warning, a suggest-only
    /// warning in that mode, and a warning when every file already holds its value.
    pub fn preflight_with_policy(
        &self,
        policy: &GpuPowerPolicy,
        power: &PowerSupplyObservation,
        dev: &GpuDeviceObservation,
    ) -> (r: Result<Vec<ActionWarning>, ActionSourceError>)
        ensures
            r is Ok <==> gpu_collect_passes(*self, *policy, *power, *dev),
            r matches Err(e) ==> gpu_collect_failure(*self, *policy, *power, *dev, e),
            r matches Ok(w) ==> {
                let a: Seq<Seq<char>> = seq!["GPU power/performance profile changes are high risk and should remain manual/suggest-only until heavily validated"@];
                let b: Seq<Seq<char>> = if policy.mode == GpuPowerMode::SuggestOnly {
                    seq!["policy is suggest-only; no writes will be performed by dry-run/preflight"@]
                } else {
                    Seq::empty()
                };
                let c: Seq<Seq<char>> = if gpu_differing(gpu_files_of(*self, *dev)) == 0 {
                    seq!["all GPU power sysfs files already have requested values"@]
                } else {
                    Seq::empty()
                };
                w@.map_values(|x: ActionWarning| x.message@) == a + b + c
            },
    {
        let files = match self.collect_target_files(policy, power, dev) {
            Ok(f) => f,
            Err(e) => return Err(e),
        };
        let mut warnings: Vec<ActionWarning> = Vec::new();
        warnings.push(ActionWarning {
            message: "GPU power/performance profile changes are high risk and should remain manual/suggest-only until heavily validated".to_owned(),
        });
        let ghost w1 = warnings@;
        match policy.mode {
            GpuPowerMode::SuggestOnly => {
                warnings.push(ActionWarning { message: "policy is suggest-only; no writes will be performed by dry-run/preflight".to_owned() });
            },
            GpuPowerMode::ManualApply => {},
        }
        let ghost w2 = warnings@;
        if count_gpu_differing(&files) == 0 {
            warnings.push(ActionWarning { message: "all GPU power sysfs files already have requested values".to_owned() });
        }
        assert(warnings@.map_values(|x: ActionWarning| x.message@) =~= seq!["GPU power/performance profile changes are high risk and should remain manual/suggest-only until heavily validated"@]
            + (if policy.mode == GpuPowerMode::SuggestOnly {
                seq!["policy is suggest-only; no writes will be performed by dry-run/preflight"@]
            } else {
                Seq::empty()
            }) + (if gpu_differing(gpu_files_of(*self, *dev)) == 0 {
                seq!["all GPU power sysfs files already have requested values"@]
            } else {
                Seq::empty()
            }));
        Ok(warnings)
    }

    /// The dry run under `policy`: how many files would change, with a dry-run warning.
    pub fn dry_run_with_policy(
        &self,
        policy: &GpuPowerPolicy,
        power: &PowerSupplyObservation,
        dev: &GpuDeviceObservation,
    ) -> (r: Result<ActionState, ActionSourceError>)
        ensures
            r is Ok <==> gpu_collect_passes(*self, *policy, *power, *dev),
            r matches Err(e) ==> gpu_collect_failure(*self, *policy, *power, *dev, e),
            r matches Ok(st) ==> !st.applied && st.pending_changes == gpu_differing(gpu_files_of(*self, *dev))
                && st.affected_tasks == st.pending_changes && st.checked_tasks == gpu_files_of(*self, *dev).len()
                && st.warnings@.len() == 1 && st.warnings@[0].message@
                == "GPU power action dry-run only; no sysfs writes performed"@,
    {
        let files = match self.collect_target_files(policy, power, dev) {
            Ok(f) => f,
            Err(e) => return Err(e),
        };
        let pending = count_gpu_differing(&files);
        let mut warnings: Vec<ActionWarning> = Vec::new();
        warnings.push(ActionWarning { message: "GPU power action dry-run only; no sysfs writes performed".to_owned() });
        Ok(ActionState { applied: false, affected_tasks: pending, checked_tasks: files.len(), pending_changes: pending, warnings })
    }
}

/// What a target file holds now, read in verify: `Unread` past the end.
pub open spec fn gpu_current_at(current: Seq<FileRead>, i: int) -> FileRead {
    if 0 <= i < current.len() {
        current[i]
    } else {
        FileRead::Unread
    }
}

/// The pending count over the first `n` target files, given what each holds now, or the
/// first read failure's text.
pub open spec fn gpu_verify_upto(
    files: Seq<(Seq<char>, Seq<char>, Seq<char>)>,
    current: Seq<FileRead>,
    n: int,
) -> Result<nat, Seq<char>>
    decreases n,
{
    if n <= 0 {
        Ok(0)
    } else {
        match gpu_verify_upto(files, current, n - 1) {
            Err(m) => Err(m),
            Ok(p) => {
                let path = files[n - 1].0;
                let ctx = "failed to verify "@ + path + ": failed to read "@ + path + ": "@;
                match gpu_current_at(current, n - 1) {
                    FileRead::Contents(c) => Ok(if trim(c@) != files[n - 1].1 { p + 1 } else { p }),
                    FileRead::Failed(e) => Err(ctx + e@),
                    FileRead::Unread => Err(ctx),
                }
            },
        }
    }
}

proof fn lemma_gpu_verify_bound(files: Seq<(Seq<char>, Seq<char>, Seq<char>)>, current: Seq<FileRead>, n: int)
    requires
        0 <= n,
    ensures
        gpu_verify_upto(files, current, n) matches Ok(p) ==> p <= n,
    decreases n,
{
    if n > 0 {
        lemma_gpu_verify_bound(files, current, n - 1);
    }
}

proof fn lemma_gpu_verify_err_stays(files: Seq<(Seq<char>, Seq<char>, Seq<char>)>, current: Seq<FileRead>, k: int, n: int)
    requires
        0 <= k <= n,
        gpu_verify_upto(files, current, k) is Err,
    ensures
        gpu_verify_upto(files, current, n) == gpu_verify_upto(files, current, k),
    decreases n - k,
{
    if k < n {
        lemma_gpu_verify_err_stays(files, current, k, n - 1);
    }
}

impl GpuPowerAction {
    /// The verify phase under `policy`, given what each target file (in order) holds now:
    /// applied when there are files and each holds its requested value.
    pub fn verify_with_policy(
        &self,
        policy: &GpuPowerPolicy,
        power: &PowerSupplyObservation,
        dev: &GpuDeviceObservation,
        current: &Vec<FileRead>,
    ) -> (r: Result<ActionState, ActionSourceError>)
        ensures
            !gpu_collect_passes(*self, *policy, *power, *dev) ==> (r matches Err(e) && gpu_collect_failure(
                *self,
                *policy,
                *power,
                *dev,
                e,
            )),
            gpu_collect_passes(*self, *policy, *power, *dev) ==> {
                let files = gpu_files_of(*self, *dev);
                match gpu_verify_upto(files, current@, files.len() as int) {
                    Err(m) => r matches Err(ActionSourceError::Message(x)) && x@ == m,
                    Ok(p) => r matches Ok(st) && {
                        &&& st.applied == (files.len() > 0 && p == 0)
                        &&& st.pending_changes == p
                        &&& st.affected_tasks == files.len()
                        &&& st.checked_tasks == files.len()
                        &&& st.warnings@.len() == 0
                    },
                }
            },
    {
        let files = match self.collect_target_files(policy, power, dev) {
            Ok(f) => f,
            Err(e) => return Err(e),
        };
        let ghost v = files@.map_values(|f: GpuPowerTargetFile| gpu_file_view(f));
        let mut pending: usize = 0;
        let mut i: usize = 0;
        while i < files.len()
            invariant
                0 <= i <= files@.len(),
                v == files@.map_values(|f: GpuPowerTargetFile| gpu_file_view(f)),
                v == gpu_files_of(*self, *dev),
                gpu_collect_passes(*self, *policy, *power, *dev),
                gpu_verify_upto(v, current@, i as int) == Ok::<nat, Seq<char>>(pending as nat),
            decreases files@.len() - i,
        {
            proof {
                lemma_gpu_verify_bound(v, current@, i as int);
                assert(v[i as int] == gpu_file_view(files@[i as int]));
            }
            let path = files[i].path.as_str();
            let unread = FileRead::Unread;
            let f = if i < current.len() {
                &current[i]
            } else {
                &unread
            };
            match f {
                FileRead::Contents(c) => {
                    let t = trim_text(c.as_str());
                    if !str_eq(t.as_str(), files[i].requested_value.as_str()) {
                        pending = pending + 1;
                    }
                },
                FileRead::Failed(e) => {
                    let mut m = cat4("failed to verify ", path, ": failed to read ", path);
                    m.append(": ");
                    m.append(e.as_str());
                    proof {
                        lemma_gpu_verify_err_stays(v, current@, i + 1, v.len() as int);
                    }
                    return Err(ActionSourceError::Message(m));
                },
                FileRead::Unread => {
                    let mut m = cat4("failed to verify ", path, ": failed to read ", path);
                    m.append(": ");
                    proof {
                        lemma_gpu_verify_err_stays(v, current@, i + 1, v.len() as int);
                    }
                    return Err(ActionSourceError::Message(m));
                },
            }
            i = i + 1;
        }
        Ok(ActionState {
            applied: files.len() > 0 && pending == 0,
            affected_tasks: files.len(),
            checked_tasks: files.len(),
            pending_changes: pending,
            warnings: Vec::new(),
        })
    }
}

/// The outcome of restoring GPU power files (latest first): a restore failure naming
/// each file that did not come back.
pub fn gpu_power_rollback_outcome(items: &Vec<SysfsRestoreItem>) -> (r: Result<(), ActionBoundaryError>)
    ensures
        sysfs_restore_failures(items@).len() == 0 <==> r is Ok,
        r matches Err(e) ==> (e matches ActionBoundaryError::RestoreFailed { action_kind, message }
            && action_kind@ == "gpu_power"@ && message@ == "failed to rollback GPU power values: "@ + join(
            sysfs_restore_failures(items@),
            "; "@,
        )),
{
    let failures = crate::sysfs::sysfs_restore_failure_list(items);
    if failures.len() == 0 {
        return Ok(());
    }
    let joined = join_strings(&failures, "; ");
    let m = cat("failed to rollback GPU power values: ", joined.as_str());
    Err(ActionBoundaryError::restore_failed("gpu_power", m.as_str()))
}

/// The records a GPU power rollback restores; a token of another kind is refused.
pub fn gpu_power_rollback_records(token: &RollbackToken) -> (r: Result<&Vec<GpuPowerRestoreRecord>, ActionSourceError>)
    ensures
        match *token {
            RollbackToken::GpuPowerRestore { records } => r == Ok::<&Vec<GpuPowerRestoreRecord>, ActionSourceError>(&records),
            _ => r matches Err(e) && is_wrong_token_for(e, "gpu-power-restore"@, *token),
        },
{
    match token.as_gpu_power_restore() {
        Some(records) => Ok(records),
        None => Err(ActionSourceError::Action(ActionError::invalid_rollback_token_kind(token.kind_error("gpu-power-restore")))),
    }
}

/// What the GPU power rollback handler previews: its own tokens only.
pub fn gpu_handler_dry_run_token(token: &RollbackToken) -> (r: Result<RollbackPreview, ActionBoundaryError>)
    ensures
        token_kind(*token) != "gpu-power-restore"@ ==> (r matches Err(e) && is_unsupported_token(
            e,
            "gpu-power-rollback",
            "gpu-power-restore",
            token_kind(*token),
        )),
        token_kind(*token) == "gpu-power-restore"@ ==> (r matches Ok(p) && is_token_preview(
            p,
            "gpu-power-rollback",
            "gpu-power-restore"@,
            *token,
        )),
{
    token_handler_dry_run("gpu-power-rollback", "gpu-power-restore", token)
}

impl GpuPowerAction {
    /// The action's identifier: `gpu-power:set:card=<card>:dpm=<level>:profile=<profile>`.
    pub fn id(&self) -> (r: ActionId)
        ensures
            r.id@ == "gpu-power:set:card="@ + self.drm_card@ + ":dpm="@ + value_or_keep(
                self.power_dpm_force_performance_level,
            ) + ":profile="@ + value_or_keep(self.pp_power_profile_mode),
    {
        let l = optional_value_label(&self.power_dpm_force_performance_level);
        let p = optional_value_label(&self.pp_power_profile_mode);
        let mut id = cat4("gpu-power:set:card=", self.drm_card.as_str(), ":dpm=", l.as_str());
        id.append(":profile=");
        id.append(p.as_str());
        ActionId::new(id)
    }

    /// A description naming the card and the values set.
    pub fn describe(&self) -> (r: String)
        ensures
            r@ == "set GPU power values for "@ + self.drm_card@ + ": power_dpm_force_performance_level="@
                + value_or_keep(self.power_dpm_force_performance_level) + ", pp_power_profile_mode="@
                + value_or_keep(self.pp_power_profile_mode),
    {
        let l = optional_value_label(&self.power_dpm_force_performance_level);
        let p = optional_value_label(&self.pp_power_profile_mode);
        let mut s = cat4("set GPU power values for ", self.drm_card.as_str(), ": power_dpm_force_performance_level=", l.as_str());
        s.append(", pp_power_profile_mode=");
        s.append(p.as_str());
        s
    }

    /// Changing only the power profile is medium risk; forcing a level is high risk.
    pub fn safety_class(&self) -> (r: SafetyClass)
        ensures
            r == (if self.pp_power_profile_mode is Some && self.power_dpm_force_performance_level is None {
                SafetyClass::ReversibleMediumRisk
            } else {
                SafetyClass::HighRisk
            }),
    {
        if self.pp_power_profile_mode.is_some() && self.power_dpm_force_performance_level.is_none() {
            SafetyClass::ReversibleMediumRisk
        } else {
            SafetyClass::HighRisk
        }
    }

    /// What applying under `policy` writes: the files, in order, with their values now;
    /// only in manual-apply mode.
    pub fn apply_plan_with_policy(
        &self,
        policy: &GpuPowerPolicy,
        power: &PowerSupplyObservation,
        dev: &GpuDeviceObservation,
    ) -> (r: Result<Vec<GpuPowerTargetFile>, ActionSourceError>)
        ensures
            policy.mode != GpuPowerMode::ManualApply ==> (r matches Err(ActionSourceError::Boundary(b)) && is_invalid_request(
                b,
                "gpu_power"@,
                "GPU power action is suggest-only; set policy mode to ManualApply for explicit manual writes"@,
            )),
            policy.mode == GpuPowerMode::ManualApply ==> {
                &&& r is Ok <==> gpu_collect_passes(*self, *policy, *power, *dev)
                &&& r matches Err(e) ==> gpu_collect_failure(*self, *policy, *power, *dev, e)
                &&& r matches Ok(v) ==> v@.map_values(|f: GpuPowerTargetFile| gpu_file_view(f)) == gpu_files_of(*self, *dev)
            },
    {
        match validate_manual_apply_policy(policy) {
            Err(b) => return Err(ActionSourceError::Boundary(b)),
            Ok(()) => {},
        }
        self.collect_target_files(policy, power, dev)
    }
}

/// Checks a GPU power write by what the file holds afterwards: a failed read fails the
/// apply, a value other than the one requested fails it as a restore failure.
pub fn check_gpu_power_write(path: &str, requested: &str, after: &FileRead) -> (r: Result<(), ActionSourceError>)
    ensures
        (after matches FileRead::Contents(c) && trim(c@) == requested@) <==> r is Ok,
        r matches Err(e) ==> match *after {
            FileRead::Contents(c) => e matches ActionSourceError::Boundary(ActionBoundaryError::RestoreFailed { action_kind, message })
                && action_kind@ == "gpu_power"@ && message@ == "GPU power write verification failed for "@ + path@
                + ": requested="@ + debug_quoted(requested@) + " actual="@ + debug_quoted(trim(c@)),
            FileRead::Failed(x) => e matches ActionSourceError::Message(m) && m@ == "failed to verify write to "@ + path@
                + ": failed to read "@ + path@ + ": "@ + x@,
            FileRead::Unread => e matches ActionSourceError::Message(m) && m@ == "failed to verify write to "@ + path@
                + ": failed to read "@ + path@ + ": "@,
        },
{
    match after {
        FileRead::Contents(c) => {
            let actual = trim_text(c.as_str());
            if str_eq(actual.as_str(), requested) {
                Ok(())
            } else {
                let rq = debug_quote(requested);
                let ac = debug_quote(actual.as_str());
                let mut m = cat3("GPU power write verification failed for ", path, ": requested=");
                m.append(rq.as_str());
                m.append(" actual=");
                m.append(ac.as_str());
                Err(ActionSourceError::Boundary(ActionBoundaryError::restore_failed("gpu_power", m.as_str())))
            }
        },
        FileRead::Failed(x) => {
            let mut m = cat4("failed to verify write to ", path, ": failed to read ", path);
            m.append(": ");
            m.append(x.as_str());
            Err(ActionSourceError::Message(m))
        },
        FileRead::Unread => {
            let mut m = cat4("failed to verify write to ", path, ": failed to read ", path);
            m.append(": ");
            Err(ActionSourceError::Message(m))
        },
    }
}


/// What the GPU power rollback handler's restore of `token` comes to, given how each of
/// its files came back (latest first): every record restored, or the restore failure
/// naming each file that did not come back.
pub fn gpu_handler_restore_token(token: &RollbackToken, items: &Vec<SysfsRestoreItem>) -> (r: Result<
    RollbackResult,
    ActionSourceError,
>)
    ensures
        match *token {
            RollbackToken::GpuPowerRestore { records } => {
                &&& sysfs_restore_failures(items@).len() == 0 <==> r is Ok
                &&& r matches Ok(res) ==> res.handler_id == "gpu-power-rollback" && res.restore_path@ == Seq::<
                    char,
                >::empty() && res.restored == records@.len() && res.skipped_dead == 0 && res.errors == 0
                    && res.messages@.len() == 0
                &&& r matches Err(e) ==> (e matches ActionSourceError::Boundary(
                    ActionBoundaryError::RestoreFailed { action_kind, message },
                ) && action_kind@ == "gpu_power"@ && message@ == "failed to rollback GPU power values: "@ + join(
                    sysfs_restore_failures(items@),
                    "; "@,
                ))
            },
            _ => r matches Err(ActionSourceError::Boundary(e)) && is_unsupported_token(
                e,
                "gpu-power-rollback",
                "gpu-power-restore",
                token_kind(*token),
            ),
        },
{
    let records = match token.as_gpu_power_restore() {
        Some(r) => r,
        None => return Err(
            ActionSourceError::Boundary(
                ActionBoundaryError::unsupported_rollback_token("gpu-power-rollback", "gpu-power-restore", token.kind()),
            ),
        ),
    };
    match gpu_power_rollback_outcome(items) {
        Ok(()) => Ok(token_restore_result("gpu-power-rollback", token, records.len(), 0, Vec::new())),
        Err(e) => Err(ActionSourceError::Boundary(e)),
    }
}


/// The restore records of the target files: one for each, with its value now.
pub fn gpu_power_restore_records(files: &Vec<GpuPowerTargetFile>) -> (r: Vec<GpuPowerRestoreRecord>)
    ensures
        gpu_records_of_files(r@, files@.map_values(|f: GpuPowerTargetFile| gpu_file_view(f))),
{
    let ghost v = files@.map_values(|f: GpuPowerTargetFile| gpu_file_view(f));
    let mut out: Vec<GpuPowerRestoreRecord> = Vec::new();
    let mut i: usize = 0;
    while i < files.len()
        invariant
            0 <= i <= files@.len(),
            v == files@.map_values(|f: GpuPowerTargetFile| gpu_file_view(f)),
            out@.len() == i,
            forall|k: int| 0 <= k < i ==> #[trigger] out@[k].path@ == v[k].0 && out@[k].original_value@ == v[k].2,
        decreases files@.len() - i,
    {
        assert(v[i as int] == gpu_file_view(files@[i as int]));
        out.push(GpuPowerRestoreRecord { path: files[i].path.clone(), original_value: files[i].original_value.clone() });
        i = i + 1;
    }
    out
}

/// The restore records name the files in order, each with the value it held before.
pub open spec fn gpu_records_of_files(records: Seq<GpuPowerRestoreRecord>, files: Seq<(Seq<char>, Seq<char>, Seq<char>)>) -> bool {
    &&& records.len() == files.len()
    &&& forall|i: int|
        0 <= i < files.len() ==> #[trigger] records[i].path@ == files[i].0 && records[i].original_value@ == files[i].2
}

/// How many of the first `n` files need a write (their value differs from the request).
pub open spec fn gpu_writes_before(files: Seq<(Seq<char>, Seq<char>, Seq<char>)>, n: int) -> nat
    decreases n,
{
    if n <= 0 {
        0
    } else {
        gpu_writes_before(files, n - 1) + if files[n - 1].2 != files[n - 1].1 {
            1nat
        } else {
            0nat
        }
    }
}

/// How a GPU power apply fails: as a restore failure of the action (`true`) or with a
/// plain message (`false`), and the text.
pub open spec fn gpu_apply_step(
    f: (Seq<char>, Seq<char>, Seq<char>),
    w: ApplyWrite,
    rollback_failures: Seq<Seq<char>>,
) -> Option<(bool, Seq<char>)> {
    let path = f.0;
    let requested = f.1;
    match w {
        ApplyWrite::WriteFailed { error } => Some((false, "failed to write "@ + path + ": "@ + error@)),
        ApplyWrite::ReadBack(after) => match after {
            FileRead::Contents(c) => if trim(c@) == requested {
                None
            } else if rollback_failures.len() > 0 {
                Some((true, "failed to rollback GPU power values: "@ + join(rollback_failures, "; "@)))
            } else {
                Some((true, "GPU power write verification failed for "@ + path + ": requested="@ + debug_quoted(requested)
                    + " actual="@ + debug_quoted(trim(c@))))
            },
            FileRead::Failed(x) => Some((false, "failed to verify write to "@ + path + ": failed to read "@ + path + ": "@ + x@)),
            FileRead::Unread => Some((false, "failed to verify write to "@ + path + ": failed to read "@ + path + ": "@)),
        },
    }
}

/// The first failure over the first `n` files, the `k`th write going to the `k`th file
/// that needs one.
pub open spec fn gpu_apply_upto(
    files: Seq<(Seq<char>, Seq<char>, Seq<char>)>,
    writes: Seq<ApplyWrite>,
    rollback_failures: Seq<Seq<char>>,
    n: int,
) -> Option<(bool, Seq<char>)>
    decreases n,
{
    if n <= 0 {
        None
    } else {
        match gpu_apply_upto(files, writes, rollback_failures, n - 1) {
            Some(m) => Some(m),
            None => if files[n - 1].2 != files[n - 1].1 {
                gpu_apply_step(files[n - 1], apply_write_at(writes, gpu_writes_before(files, n - 1) as int), rollback_failures)
            } else {
                None
            },
        }
    }
}

/// `e` is the apply failure `(restore, text)` describes.
pub open spec fn is_gpu_apply_failure(e: ActionSourceError, f: (bool, Seq<char>)) -> bool {
    if f.0 {
        e matches ActionSourceError::Boundary(ActionBoundaryError::RestoreFailed { action_kind, message })
            && action_kind@ == "gpu_power"@ && message@ == f.1
    } else {
        e matches ActionSourceError::Message(m) && m@ == f.1
    }
}

/// The dry run and the apply agree: the apply makes one write for each file the dry run
/// counts as pending, and no other.
pub proof fn lemma_gpu_apply_writes_dry_run_pending(files: Seq<(Seq<char>, Seq<char>, Seq<char>)>)
    ensures
        gpu_writes_before(files, files.len() as int) == gpu_differing(files),
    decreases files.len(),
{
    if files.len() > 0 {
        let n = files.len() as int;
        lemma_gpu_apply_writes_dry_run_pending(files.drop_last());
        lemma_gpu_writes_before_prefix(files, files.drop_last(), n - 1);
    }
}

/// The writes before the `n`th file depend only on the files before it.
proof fn lemma_gpu_writes_before_prefix(
    files: Seq<(Seq<char>, Seq<char>, Seq<char>)>,
    prefix: Seq<(Seq<char>, Seq<char>, Seq<char>)>,
    n: int,
)
    requires
        0 <= n <= prefix.len() <= files.len(),
        forall|i: int| 0 <= i < prefix.len() ==> #[trigger] prefix[i] == files[i],
    ensures
        gpu_writes_before(files, n) == gpu_writes_before(prefix, n),
    decreases n,
{
    if n > 0 {
        lemma_gpu_writes_before_prefix(files, prefix, n - 1);
    }
}

proof fn lemma_gpu_apply_fail_stays(
    files: Seq<(Seq<char>, Seq<char>, Seq<char>)>,
    writes: Seq<ApplyWrite>,
    rollback_failures: Seq<Seq<char>>,
    k: int,
    n: int,
)
    requires
        0 <= k <= n,
        gpu_apply_upto(files, writes, rollback_failures, k) is Some,
    ensures
        gpu_apply_upto(files, writes, rollback_failures, n) == gpu_apply_upto(files, writes, rollback_failures, k),
    decreases n - k,
{
    if k < n {
        lemma_gpu_apply_fail_stays(files, writes, rollback_failures, k, n - 1);
    }
}

impl GpuPowerAction {
    /// The apply under `policy`, in manual-apply mode only: every target file is recorded
    /// with its value now; each one that differs is written, and the `k`th entry of
    /// `writes` tells how the `k`th such write went. A write that reads back another
    /// value rolls back what was recorded so far, and `rollback` tells (latest first) how
    /// that went. The token restores every recorded file.
    pub fn apply_with_policy(
        &self,
        policy: &GpuPowerPolicy,
        power: &PowerSupplyObservation,
        dev: &GpuDeviceObservation,
        writes: &Vec<ApplyWrite>,
        rollback: &Vec<SysfsRestoreItem>,
    ) -> (r: Result<RollbackToken, ActionSourceError>)
        ensures
            policy.mode != GpuPowerMode::ManualApply ==> (r matches Err(ActionSourceError::Boundary(b)) && is_invalid_request(
                b,
                "gpu_power"@,
                "GPU power action is suggest-only; set policy mode to ManualApply for explicit manual writes"@,
            )),
            policy.mode == GpuPowerMode::ManualApply && !gpu_collect_passes(*self, *policy, *power, *dev) ==> (r matches Err(e)
                && gpu_collect_failure(*self, *policy, *power, *dev, e)),
            policy.mode == GpuPowerMode::ManualApply && gpu_collect_passes(*self, *policy, *power, *dev) ==> {
                let files = gpu_files_of(*self, *dev);
                match gpu_apply_upto(files, writes@, sysfs_restore_failures(rollback@), files.len() as int) {
                    Some(f) => r matches Err(e) && is_gpu_apply_failure(e, f),
                    None => r matches Ok(RollbackToken::GpuPowerRestore { records }) && gpu_records_of_files(records@, files),
                }
            },
    {
        let files = match self.apply_plan_with_policy(policy, power, dev) {
            Ok(f) => f,
            Err(e) => return Err(e),
        };
        let ghost v = files@.map_values(|f: GpuPowerTargetFile| gpu_file_view(f));
        let ghost rb = sysfs_restore_failures(rollback@);
        let mut k: usize = 0;
        let mut i: usize = 0;
        while i < files.len()
            invariant
                0 <= i <= files@.len(),
                v == files@.map_values(|f: GpuPowerTargetFile| gpu_file_view(f)),
                v == gpu_files_of(*self, *dev),
                policy.mode == GpuPowerMode::ManualApply,
                gpu_collect_passes(*self, *policy, *power, *dev),
                rb == sysfs_restore_failures(rollback@),
                gpu_apply_upto(v, writes@, rb, i as int) is None,
                k == gpu_writes_before(v, i as int),
                k <= i,
            decreases files@.len() - i,
        {
            proof {
                assert(v[i as int] == gpu_file_view(files@[i as int]));
            }
            let f = &files[i];
            if f.needs_write() {
                let unread = ApplyWrite::ReadBack(FileRead::Unread);
                let w = if k < writes.len() {
                    &writes[k]
                } else {
                    &unread
                };
                assert(*w == apply_write_at(writes@, k as int));
                match w {
                    ApplyWrite::WriteFailed { error } => {
                        let mut m = cat3("failed to write ", f.path.as_str(), ": ");
                        m.append(error.as_str());
                        proof {
                            lemma_gpu_apply_fail_stays(v, writes@, rb, i + 1, v.len() as int);
                        }
                        return Err(ActionSourceError::Message(m));
                    },
                    ApplyWrite::ReadBack(after) => match check_gpu_power_write(
                        f.path.as_str(),
                        f.requested_value.as_str(),
                        after,
                    ) {
                        Ok(()) => {},
                        Err(e) => {
                            proof {
                                lemma_gpu_apply_fail_stays(v, writes@, rb, i + 1, v.len() as int);
                            }
                            let is_value = match after {
                                FileRead::Contents(_) => true,
                                _ => false,
                            };
                            if is_value {
                                match gpu_power_rollback_outcome(rollback) {
                                    Err(re) => return Err(ActionSourceError::Boundary(re)),
                                    Ok(()) => return Err(e),
                                }
                            }
                            return Err(e);
                        },
                    },
                }
                k = k + 1;
            }
            i = i + 1;
        }
        let records = gpu_power_restore_records(&files);
        Ok(RollbackToken::GpuPowerRestore { records })
    }
}

} // verus!
