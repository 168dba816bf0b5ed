//! CPU power: setting the cpufreq governor and energy-performance preference of
//! explicit CPUs, with the policy that decides which CPUs and files may change.
use std::collections::BTreeSet;

use vstd::prelude::*;

use crate::cgroup::{FileAccess, FileRead};
use crate::error::{
    is_invalid_request, is_invalid_value, is_missing_targets, is_policy_denied, is_wrong_token_for, ActionBoundaryError,
    ActionError, ActionSourceError,
};
use crate::model::{ActionId, ActionState, ActionWarning, CpuPowerRestoreRecord, SafetyClass};
use crate::sysfs::{
    apply_write_at, is_on_battery, on_battery, opt_text_eq, read_trimmed, sysfs_restore_failures,
    sysfs_value_error, sysfs_value_problem, ApplyWrite, PowerSupplyObservation, SysfsRestoreItem,
};
use crate::text::{
    cat, cat3, cat4, debug_quote, debug_quoted, decimal, decimal_list, join, join_path, join_strings,
    join_u64s, path_join, str_eq, trim, u64_to_string, views,
};
use crate::token::{token_debug_text, RollbackToken};
use crate::rollback::{is_token_preview, token_dry_run_preview, token_restore_result, RollbackPreview, RollbackResult};

verus! {

/// Whether changes may be made while the machine runs on battery.
#[derive(Debug, Clone, Copy, PartialEq, Eq, Structural)]
pub enum BatteryPolicy {
    Never,
    AllowWithExplicitConfig,
}

/// What a CPU power request is allowed: the CPUs it may touch and the files it may write.
#[derive(Debug, Clone, PartialEq, Eq)]
pub struct CpuPowerPolicy {
    pub allow_cpu_power_changes: bool,
    pub allowed_cpus: BTreeSet<u32>,
    pub allow_governor_changes: bool,
    pub allow_epp_changes: bool,
    pub battery_policy: BatteryPolicy,
    pub explicit_battery_override: bool,
}

impl Default for CpuPowerPolicy {
    /// Nothing allowed.
    fn default() -> (r: Self)
        ensures
            !r.allow_cpu_power_changes,
            r.allowed_cpus@ == Set::<u32>::empty(),
            !r.allow_governor_changes,
            !r.allow_epp_changes,
            r.battery_policy == BatteryPolicy::Never,
            !r.explicit_battery_override,
    {
        CpuPowerPolicy {
            allow_cpu_power_changes: false,
            allowed_cpus: BTreeSet::new(),
            allow_governor_changes: false,
            allow_epp_changes: false,
            battery_policy: BatteryPolicy::Never,
            explicit_battery_override: false,
        }
    }
}

/// A request to set the governor and/or energy-performance preference of CPUs.
#[derive(Debug, Clone)]
pub struct CpuPowerAction {
    pub sysfs_root: String,
    pub cpus: Vec<u32>,
    pub scaling_governor: Option<String>,
    pub energy_performance_preference: Option<String>,
}

/// `x` placed into the ascending list `acc` of distinct values (kept once).
pub open spec fn insert_sorted(acc: Seq<u32>, x: u32) -> Seq<u32>
    decreases acc.len(),
{
    if acc.len() == 0 {
        seq![x]
    } else if x < acc[0] {
        seq![x] + acc
    } else if x == acc[0] {
        acc
    } else {
        seq![acc[0]] + insert_sorted(acc.drop_first(), x)
    }
}

/// The distinct values of `s` in ascending order.
pub open spec fn sort_unique(s: Seq<u32>) -> Seq<u32>
    decreases s.len(),
{
    if s.len() == 0 {
        Seq::empty()
    } else {
        insert_sorted(sort_unique(s.drop_last()), s.last())
    }
}

/// Whether `s` is strictly ascending.
pub open spec fn strictly_ascending(s: Seq<u32>) -> bool {
    forall|i: int, j: int| 0 <= i < j < s.len() ==> s[i] < s[j]
}

proof fn lemma_insert_sorted(acc: Seq<u32>, x: u32)
    requires
        strictly_ascending(acc),
    ensures
        strictly_ascending(insert_sorted(acc, x)),
        insert_sorted(acc, x).to_set() == acc.to_set().insert(x),
        insert_sorted(acc, x).len() > 0,
        insert_sorted(acc, x)[0] == (if acc.len() > 0 && acc[0] < x { acc[0] } else { x }),
    decreases acc.len(),
{
    if acc.len() == 0 {
        assert(seq![x].to_set() =~= Set::<u32>::empty().insert(x)) by {
            assert(seq![x].to_set().contains(x) == (seq![x][0] == x));
        }
        assert(acc.to_set() =~= Set::<u32>::empty());
    } else if x < acc[0] {
        let r = seq![x] + acc;
        assert forall|i: int, j: int| 0 <= i < j < r.len() implies r[i] < r[j] by {
            if i > 0 {
                assert(r[i] == acc[i - 1] && r[j] == acc[j - 1]);
            } else {
                assert(r[j] == acc[j - 1]);
                assert(acc[0] <= acc[j - 1]) by {
                    if j - 1 > 0 {
                        assert(acc[0] < acc[j - 1]);
                    }
                }
            }
        }
        assert(r.to_set() =~= acc.to_set().insert(x)) by {
            assert forall|y: u32| r.to_set().contains(y) <==> acc.to_set().insert(x).contains(y) by {
                if r.to_set().contains(y) {
                    let k = choose|k: int| 0 <= k < r.len() && r[k] == y;
                    if k > 0 {
                        assert(acc[k - 1] == y);
                    }
                }
                if acc.to_set().contains(y) {
                    let k = choose|k: int| 0 <= k < acc.len() && acc[k] == y;
                    assert(r[k + 1] == y);
                }
                if y == x {
                    assert(r[0] == y);
                }
            }
        }
    } else if x == acc[0] {
        assert(acc.to_set() =~= acc.to_set().insert(x)) by {
            assert(acc.to_set().contains(acc[0]));
        }
    } else {
        let tail = acc.drop_first();
        assert(strictly_ascending(tail)) by {
            assert forall|i: int, j: int| 0 <= i < j < tail.len() implies tail[i] < tail[j] by {
                assert(tail[i] == acc[i + 1] && tail[j] == acc[j + 1]);
            }
        }
        lemma_insert_sorted(tail, x);
        let it = insert_sorted(tail, x);
        let r = seq![acc[0]] + it;
        assert forall|i: int, j: int| 0 <= i < j < r.len() implies r[i] < r[j] by {
            if i > 0 {
                assert(r[i] == it[i - 1] && r[j] == it[j - 1]);
            } else {
                assert(r[j] == it[j - 1]);
                assert(it.to_set().contains(it[j - 1]));
                assert(tail.to_set().insert(x).contains(it[j - 1]));
                if it[j - 1] != x {
                    let k = choose|k: int| 0 <= k < tail.len() && tail[k] == it[j - 1];
                    assert(acc[k + 1] == tail[k]);
                }
            }
        }
        assert(r.to_set() =~= acc.to_set().insert(x)) by {
            assert forall|y: u32| r.to_set().contains(y) <==> acc.to_set().insert(x).contains(y) by {
                if r.to_set().contains(y) {
                    let k = choose|k: int| 0 <= k < r.len() && r[k] == y;
                    if k > 0 {
                        assert(it.to_set().contains(it[k - 1]));
                        if y != x {
                            let m = choose|m: int| 0 <= m < tail.len() && tail[m] == y;
                            assert(acc[m + 1] == y);
                        }
                    }
                }
                if acc.to_set().contains(y) {
                    let k = choose|k: int| 0 <= k < acc.len() && acc[k] == y;
                    if k == 0 {
                        assert(r[0] == y);
                    } else {
                        assert(tail[k - 1] == y);
                        assert(tail.to_set().contains(y));
                        assert(it.to_set().contains(y));
                        let m = choose|m: int| 0 <= m < it.len() && it[m] == y;
                        assert(r[m + 1] == y);
                    }
                }
                if y == x {
                    assert(it.to_set().contains(x));
                    let m = choose|m: int| 0 <= m < it.len() && it[m] == x;
                    assert(r[m + 1] == y);
                }
            }
        }
    }
}

/// The CPUs of a request, sorted and deduplicated, hold each requested CPU exactly once,
/// in strictly ascending order.
pub proof fn lemma_sort_unique(s: Seq<u32>)
    ensures
        strictly_ascending(sort_unique(s)),
        sort_unique(s).to_set() == s.to_set(),
    decreases s.len(),
{
    if s.len() == 0 {
        assert(sort_unique(s).to_set() =~= s.to_set());
    } else {
        lemma_sort_unique(s.drop_last());
        lemma_insert_sorted(sort_unique(s.drop_last()), s.last());
        assert(s.to_set() =~= s.drop_last().to_set().insert(s.last())) by {
            assert forall|y: u32| s.to_set().contains(y) <==> s.drop_last().to_set().insert(s.last()).contains(y) by {
                if s.to_set().contains(y) {
                    let k = choose|k: int| 0 <= k < s.len() && s[k] == y;
                    if k < s.len() - 1 {
                        assert(s.drop_last()[k] == y);
                    }
                }
                if s.drop_last().to_set().contains(y) {
                    let k = choose|k: int| 0 <= k < s.drop_last().len() && s.drop_last()[k] == y;
                    assert(s[k] == y);
                }
                if y == s.last() {
                    assert(s[s.len() - 1] == y);
                }
            }
        }
    }
}

/// `x` placed into the ascending list `acc`.
fn insert_cpu(acc: &mut Vec<u32>, x: u32)
    ensures
        final(acc)@ == insert_sorted(old(acc)@, x),
{
    let ghost orig = acc@;
    let mut i: usize = 0;
    assert(orig.skip(0) =~= orig);
    assert(orig.take(0) + insert_sorted(orig, x) =~= insert_sorted(orig, x));
    while i < acc.len() && acc[i] < x
        invariant
            acc@ == orig,
            0 <= i <= acc@.len(),
            forall|j: int| 0 <= j < i ==> acc@[j] < x,
            insert_sorted(orig, x) == orig.take(i as int) + insert_sorted(orig.skip(i as int), x),
        decreases acc@.len() - i,
    {
        proof {
            let rest = orig.skip(i as int);
            assert(rest[0] == orig[i as int]);
            assert(rest.drop_first() =~= orig.skip(i + 1));
            assert(orig.take(i + 1) =~= orig.take(i as int) + seq![orig[i as int]]);
        }
        i = i + 1;
    }
    if i < acc.len() && acc[i] == x {
        assert(orig.take(i as int) + orig.skip(i as int) =~= orig);
        return;
    }
    proof {
        assert(orig.take(i as int) + (seq![x] + orig.skip(i as int)) =~= orig.take(i as int) + insert_sorted(
            orig.skip(i as int),
            x,
        ));
    }
    acc.insert(i, x);
    assert(acc@ =~= orig.take(i as int) + (seq![x] + orig.skip(i as int)));
}

/// The distinct CPUs of a request, in ascending order.
pub fn sorted_unique_cpus(cpus: &Vec<u32>) -> (r: Vec<u32>)
    ensures
        r@ == sort_unique(cpus@),
{
    let mut out: Vec<u32> = Vec::new();
    let mut i: usize = 0;
    assert(cpus@.take(0) =~= Seq::<u32>::empty());
    while i < cpus.len()
        invariant
            0 <= i <= cpus@.len(),
            out@ == sort_unique(cpus@.take(i as int)),
        decreases cpus@.len() - i,
    {
        proof {
            assert(cpus@.take(i + 1).drop_last() =~= cpus@.take(i as int));
        }
        insert_cpu(&mut out, cpus[i]);
        i = i + 1;
    }
    assert(cpus@.take(cpus@.len() as int) =~= cpus@);
    out
}

/// The widened values of CPU numbers.
pub open spec fn wide(s: Seq<u32>) -> Seq<u64> {
    s.map_values(|c: u32| c as u64)
}

/// The CPU list label: the distinct CPUs in ascending order, joined with `,`.
pub open spec fn cpu_list_text(cpus: Seq<u32>) -> Seq<char> {
    decimal_list(wide(sort_unique(cpus)), ","@)
}

/// The label of a request's CPUs.
pub fn cpu_list_label(cpus: &Vec<u32>) -> (r: String)
    ensures
        r@ == cpu_list_text(cpus@),
{
    let sorted = sorted_unique_cpus(cpus);
    let mut w: Vec<u64> = Vec::new();
    let mut i: usize = 0;
    while i < sorted.len()
        invariant
            0 <= i <= sorted@.len(),
            w@ =~= wide(sorted@).take(i as int),
        decreases sorted@.len() - i,
    {
        w.push(sorted[i] as u64);
        assert(wide(sorted@).take(i + 1) =~= wide(sorted@).take(i as int).push(sorted@[i as int] as u64));
        i = i + 1;
    }
    assert(wide(sorted@).take(sorted@.len() as int) =~= wide(sorted@));
    join_u64s(&w, ",")
}

/// A value, or `keep` when none is requested.
pub open spec fn value_or_keep(v: Option<String>) -> Seq<char> {
    match v {
        Some(s) => s@,
        None => "keep"@,
    }
}

/// A value, or `keep` when none is requested.
pub fn optional_value_label(value: &Option<String>) -> (r: String)
    ensures
        r@ == value_or_keep(*value),
{
    match value {
        Some(v) => v.clone(),
        None => "keep".to_owned(),
    }
}

impl CpuPowerAction {
    /// The action's identifier: `cpu-power:set:cpus=<list>:governor=<g>:epp=<e>`.
    pub fn id(&self) -> (r: ActionId)
        ensures
            r.id@ == "cpu-power:set:cpus="@ + cpu_list_text(self.cpus@) + ":governor="@ + value_or_keep(
                self.scaling_governor,
            ) + ":epp="@ + value_or_keep(self.energy_performance_preference),
    {
        let list = cpu_list_label(&self.cpus);
        let g = optional_value_label(&self.scaling_governor);
        let e = optional_value_label(&self.energy_performance_preference);
        let mut id = cat4("cpu-power:set:cpus=", list.as_str(), ":governor=", g.as_str());
        id.append(":epp=");
        id.append(e.as_str());
        ActionId::new(id)
    }

    /// A description naming the CPUs and the values set.
    pub fn describe(&self) -> (r: String)
        ensures
            r@ == "set CPU power values for CPU(s) ["@ + cpu_list_text(self.cpus@) + "]: scaling_governor="@
                + value_or_keep(self.scaling_governor) + ", energy_performance_preference="@ + value_or_keep(
                self.energy_performance_preference,
            ),
    {
        let list = cpu_list_label(&self.cpus);
        let g = optional_value_label(&self.scaling_governor);
        let e = optional_value_label(&self.energy_performance_preference);
        let mut s = cat4("set CPU power values for CPU(s) [", list.as_str(), "]: scaling_governor=", g.as_str());
        s.append(", energy_performance_preference=");
        s.append(e.as_str());
        s
    }

    /// Changing only the energy-performance preference is medium risk; a governor change
    /// is high risk.
    pub fn safety_class(&self) -> (r: SafetyClass)
        ensures
            r == (if self.energy_performance_preference is Some && self.scaling_governor is None {
                SafetyClass::ReversibleMediumRisk
            } else {
                SafetyClass::HighRisk
            }),
    {
        if self.energy_performance_preference.is_some() && self.scaling_governor.is_none() {
            SafetyClass::ReversibleMediumRisk
        } else {
            SafetyClass::HighRisk
        }
    }
}

/// The power supply class directory under a sysfs root.
pub open spec fn power_supply_dir(root: Seq<char>) -> Seq<char> {
    join_path(root, "class/power_supply"@)
}

/// The power supply class directory under a sysfs root.
pub fn power_supply_root(sysfs_root: &str) -> (r: String)
    ensures
        r@ == power_supply_dir(sysfs_root@),
{
    path_join(sysfs_root, "class/power_supply")
}

/// Whether `policy` and the battery state admit the request `a` (before any CPU is read).
pub open spec fn cpu_request_passes(a: CpuPowerAction, policy: CpuPowerPolicy, power: PowerSupplyObservation) -> bool {
    &&& policy.allow_cpu_power_changes
    &&& a.cpus.len() > 0
    &&& (a.scaling_governor is Some || a.energy_performance_preference is Some)
    &&& !policy.allowed_cpus@.is_empty()
    &&& (a.scaling_governor is Some ==> policy.allow_governor_changes)
    &&& (a.energy_performance_preference is Some ==> policy.allow_epp_changes)
    &&& (a.scaling_governor matches Some(g) ==> sysfs_value_error("scaling_governor"@, g@, false) is None)
    &&& (a.energy_performance_preference matches Some(e) ==> sysfs_value_error(
        "energy_performance_preference"@,
        e@,
        false,
    ) is None)
    &&& match power {
        PowerSupplyObservation::Absent => true,
        PowerSupplyObservation::Entries(v) => !on_battery(v@) || (policy.battery_policy
            == BatteryPolicy::AllowWithExplicitConfig && policy.explicit_battery_override),
        _ => false,
    }
}

/// A request that passes has CPU power changes allowed, names CPUs and at least one
/// value, and asks only for the kinds of write the policy allows.
pub proof fn cpu_request_meets_policy(a: CpuPowerAction, policy: CpuPowerPolicy, power: PowerSupplyObservation)
    requires
        cpu_request_passes(a, policy, power),
    ensures
        policy.allow_cpu_power_changes,
        a.cpus@.len() > 0,
        !policy.allowed_cpus@.is_empty(),
        a.scaling_governor is Some || a.energy_performance_preference is Some,
        a.scaling_governor is Some ==> policy.allow_governor_changes,
        a.energy_performance_preference is Some ==> policy.allow_epp_changes,
{
}

/// `e` is the refusal of a request that does not pass, in check order.
pub open spec fn cpu_request_refusal(
    a: CpuPowerAction,
    policy: CpuPowerPolicy,
    power: PowerSupplyObservation,
    e: ActionSourceError,
) -> bool {
    if !policy.allow_cpu_power_changes {
        e matches ActionSourceError::Boundary(b) && is_policy_denied(b, "cpu_power"@, "allow_cpu_power_changes"@)
    } else if a.cpus.len() == 0 {
        e matches ActionSourceError::Boundary(b) && is_missing_targets(b, "cpu_power"@)
    } else if a.scaling_governor is None && a.energy_performance_preference is None {
        e matches ActionSourceError::Boundary(b) && is_invalid_request(
            b,
            "cpu_power"@,
            "CPU power action requires scaling_governor, energy_performance_preference, or both"@,
        )
    } else if policy.allowed_cpus@.is_empty() {
        e matches ActionSourceError::Boundary(b) && is_policy_denied(b, "cpu_power"@, "allowed_cpus_non_empty"@)
    } else if a.scaling_governor is Some && !policy.allow_governor_changes {
        e matches ActionSourceError::Boundary(b) && is_policy_denied(b, "cpu_power"@, "allow_governor_changes"@)
    } else if a.energy_performance_preference is Some && !policy.allow_epp_changes {
        e matches ActionSourceError::Boundary(b) && is_policy_denied(b, "cpu_power"@, "allow_epp_changes"@)
    } else if a.scaling_governor matches Some(g) && sysfs_value_error("scaling_governor"@, g@, false) is Some {
        e matches ActionSourceError::Boundary(b) && is_invalid_value(
            b,
            "cpu_power"@,
            "scaling_governor"@,
            sysfs_value_error("scaling_governor"@, a.scaling_governor->0@, false)->0,
        )
    } else if a.energy_performance_preference matches Some(x) && sysfs_value_error(
        "energy_performance_preference"@,
        x@,
        false,
    ) is Some {
        e matches ActionSourceError::Boundary(b) && is_invalid_value(
            b,
            "cpu_power"@,
            "energy_performance_preference"@,
            sysfs_value_error("energy_performance_preference"@, a.energy_performance_preference->0@, false)->0,
        )
    } else {
        match power {
            PowerSupplyObservation::ListFailed { error } => e matches ActionSourceError::Message(m) && m@
                == "failed to read "@ + power_supply_dir(a.sysfs_root@) + ": "@ + error@,
            PowerSupplyObservation::EntryFailed { error } => e matches ActionSourceError::Message(m) && m@
                == "failed to read entry under "@ + power_supply_dir(a.sysfs_root@) + ": "@ + error@,
            _ => e matches ActionSourceError::Boundary(b) && if policy.battery_policy == BatteryPolicy::Never {
                is_policy_denied(b, "cpu_power"@, "battery_policy_allow"@)
            } else {
                is_policy_denied(b, "cpu_power"@, "explicit_battery_override"@)
            },
        }
    }
}

/// Checks the request `action` against `policy` and the battery state.
pub fn validate_cpu_power_request(
    action: &CpuPowerAction,
    policy: &CpuPowerPolicy,
    power: &PowerSupplyObservation,
) -> (r: Result<(), ActionSourceError>)
    ensures
        cpu_request_passes(*action, *policy, *power) <==> r is Ok,
        r matches Err(e) ==> cpu_request_refusal(*action, *policy, *power, e),
        r is Ok ==> policy.allow_cpu_power_changes && action.cpus@.len() > 0 && !policy.allowed_cpus@.is_empty(),
        r is Ok ==> (action.scaling_governor is Some || action.energy_performance_preference is Some),
        r is Ok ==> (action.scaling_governor is Some ==> policy.allow_governor_changes),
        r is Ok ==> (action.energy_performance_preference is Some ==> policy.allow_epp_changes),
        r is Ok <==> (policy.allow_cpu_power_changes && action.cpus@.len() > 0 && !policy.allowed_cpus@.is_empty()
            && (action.scaling_governor is Some || action.energy_performance_preference is Some) && (
        action.scaling_governor is Some ==> policy.allow_governor_changes) && (
        action.energy_performance_preference is Some ==> policy.allow_epp_changes) && (
        action.scaling_governor matches Some(g) ==> sysfs_value_error("scaling_governor"@, g@, false) is None) && (
        action.energy_performance_preference matches Some(e) ==> sysfs_value_error(
            "energy_performance_preference"@,
            e@,
            false,
        ) is None) && match *power {
            PowerSupplyObservation::Absent => true,
            PowerSupplyObservation::Entries(v) => !on_battery(v@) || (policy.battery_policy
                == BatteryPolicy::AllowWithExplicitConfig && policy.explicit_battery_override),
            _ => false,
        }),
{
    if !policy.allow_cpu_power_changes {
        return Err(
            ActionSourceError::Boundary(
                ActionBoundaryError::PolicyDenied { action_kind: "cpu_power", requirement: "allow_cpu_power_changes" },
            ),
        );
    }
    if action.cpus.len() == 0 {
        return Err(ActionSourceError::Boundary(ActionBoundaryError::MissingExplicitTargets { action_kind: "cpu_power" }));
    }
    if action.scaling_governor.is_none() && action.energy_performance_preference.is_none() {
        return Err(
            ActionSourceError::Boundary(
                ActionBoundaryError::InvalidRequest {
                    action_kind: "cpu_power",
                    reason: "CPU power action requires scaling_governor, energy_performance_preference, or both".to_owned(),
                },
            ),
        );
    }
    if policy.allowed_cpus.is_empty() {
        return Err(
            ActionSourceError::Boundary(
                ActionBoundaryError::PolicyDenied { action_kind: "cpu_power", requirement: "allowed_cpus_non_empty" },
            ),
        );
    }
    if action.scaling_governor.is_some() && !policy.allow_governor_changes {
        return Err(
            ActionSourceError::Boundary(
                ActionBoundaryError::PolicyDenied { action_kind: "cpu_power", requirement: "allow_governor_changes" },
            ),
        );
    }
    if action.energy_performance_preference.is_some() && !policy.allow_epp_changes {
        return Err(
            ActionSourceError::Boundary(
                ActionBoundaryError::PolicyDenied { action_kind: "cpu_power", requirement: "allow_epp_changes" },
            ),
        );
    }
    match &action.scaling_governor {
        Some(g) => match sysfs_value_problem("scaling_governor", g.as_str(), false) {
            Some(m) => return Err(
                ActionSourceError::Boundary(
                    ActionBoundaryError::InvalidValue {
                        action_kind: "cpu_power",
                        field: "scaling_governor".to_owned(),
                        reason: m,
                    },
                ),
            ),
            None => {},
        },
        None => {},
    }
    match &action.energy_performance_preference {
        Some(e) => match sysfs_value_problem("energy_performance_preference", e.as_str(), false) {
            Some(m) => return Err(
                ActionSourceError::Boundary(
                    ActionBoundaryError::InvalidValue {
                        action_kind: "cpu_power",
                        field: "energy_performance_preference".to_owned(),
                        reason: m,
                    },
                ),
            ),
            None => {},
        },
        None => {},
    }
    let root = power_supply_root(action.sysfs_root.as_str());
    let battery = match is_on_battery(root.as_str(), power) {
        Ok(b) => b,
        Err(e) => return Err(e),
    };
    if battery {
        match policy.battery_policy {
            BatteryPolicy::Never => {
                return Err(
                    ActionSourceError::Boundary(
                        ActionBoundaryError::PolicyDenied { action_kind: "cpu_power", requirement: "battery_policy_allow" },
                    ),
                );
            },
            BatteryPolicy::AllowWithExplicitConfig => {
                if !policy.explicit_battery_override {
                    return Err(
                        ActionSourceError::Boundary(
                            ActionBoundaryError::PolicyDenied {
                                action_kind: "cpu_power",
                                requirement: "explicit_battery_override",
                            },
                        ),
                    );
                }
            },
        }
    }
    Ok(())
}

/// How a sysfs file was found: whether it can be written, and what it holds.
#[derive(Debug, Clone, PartialEq, Eq)]
pub struct SysfsFileObservation {
    pub access: FileAccess,
    pub contents: FileRead,
}

/// What sysfs shows of one CPU's cpufreq directory.
#[derive(Debug, Clone, PartialEq, Eq)]
pub struct CpuFreqObservation {
    pub cpu: u32,
    pub dir_exists: bool,
    pub scaling_governor: SysfsFileObservation,
    pub energy_performance_preference: SysfsFileObservation,
}

/// A file a CPU power request writes: its CPU, path, the value requested and the value
/// it holds now.
#[derive(Debug, Clone, PartialEq, Eq)]
pub struct CpuPowerTargetFile {
    pub cpu: u32,
    pub path: String,
    pub requested_value: String,
    pub original_value: String,
}

impl CpuPowerTargetFile {
    /// Whether applying writes this file: it does not hold the requested value yet.
    pub fn needs_write(&self) -> (r: bool)
        ensures
            r == (self.original_value@ != self.requested_value@),
    {
        !str_eq(self.original_value.as_str(), self.requested_value.as_str())
    }
}

/// The observation of CPU `cpu`: the first one handed in for it, or one of a missing
/// directory.
pub open spec fn cpufreq_for(obs: Seq<CpuFreqObservation>, cpu: u32) -> Option<CpuFreqObservation> {
    if exists|i: int| 0 <= i < obs.len() && #[trigger] obs[i].cpu == cpu {
        let i = choose|i: int| 0 <= i < obs.len() && obs[i].cpu == cpu && forall|j: int| 0 <= j < i ==> #[trigger] obs[j].cpu != cpu;
        Some(obs[i])
    } else {
        None
    }
}

/// The cpufreq directory of CPU `cpu` under a sysfs root.
pub open spec fn cpufreq_dir(root: Seq<char>, cpu: u32) -> Seq<char> {
    join_path(join_path(join_path(root, "devices/system/cpu"@), "cpu"@ + decimal(cpu as nat)), "cpufreq"@)
}

/// Whether a file can be written and was read.
pub open spec fn file_passes(f: SysfsFileObservation) -> bool {
    f.access == FileAccess::Writable && f.contents is Contents
}

/// `e` is the error of a file that does not pass.
pub open spec fn cpu_file_failure(path: Seq<char>, f: SysfsFileObservation, e: ActionSourceError) -> bool {
    match f.access {
        FileAccess::Missing => e matches ActionSourceError::Boundary(ActionBoundaryError::MissingPath { action_kind, path: p })
            && action_kind@ == "cpu_power"@ && p@ == path,
        FileAccess::NotWritable { error } => e matches ActionSourceError::Message(m) && m@
            == "required CPU power sysfs file is not writable: "@ + path + ": "@ + error@,
        FileAccess::Writable => e matches ActionSourceError::Message(m) && m@ == match f.contents {
            FileRead::Failed(x) => "failed to read "@ + path + ": "@ + x@,
            _ => "failed to read "@ + path + ": "@,
        },
    }
}

/// Whether CPU `cpu` yields its files.
pub open spec fn cpu_passes(a: CpuPowerAction, policy: CpuPowerPolicy, obs: Seq<CpuFreqObservation>, cpu: u32) -> bool {
    &&& policy.allowed_cpus@.contains(cpu)
    &&& cpufreq_for(obs, cpu) matches Some(o)
    &&& o.dir_exists
    &&& (a.scaling_governor is Some ==> file_passes(o.scaling_governor))
    &&& (a.energy_performance_preference is Some ==> file_passes(o.energy_performance_preference))
}

/// `e` is the error of a CPU that does not pass, in check order.
pub open spec fn cpu_failure(a: CpuPowerAction, policy: CpuPowerPolicy, obs: Seq<CpuFreqObservation>, cpu: u32, e: ActionSourceError) -> bool {
    let dir = cpufreq_dir(a.sysfs_root@, cpu);
    if !policy.allowed_cpus@.contains(cpu) {
        e matches ActionSourceError::Boundary(b) && is_policy_denied(b, "cpu_power"@, "allowed_cpus_contains_target"@)
    } else if !(cpufreq_for(obs, cpu) matches Some(o) && o.dir_exists) {
        e matches ActionSourceError::Boundary(ActionBoundaryError::MissingPath { action_kind, path }) && action_kind@
            == "cpu_power"@ && path@ == dir
    } else if a.scaling_governor is Some && !file_passes(cpufreq_for(obs, cpu)->0.scaling_governor) {
        cpu_file_failure(join_path(dir, "scaling_governor"@), cpufreq_for(obs, cpu)->0.scaling_governor, e)
    } else {
        cpu_file_failure(
            join_path(dir, "energy_performance_preference"@),
            cpufreq_for(obs, cpu)->0.energy_performance_preference,
            e,
        )
    }
}

/// The view of a target file: CPU, path, requested and original value.
pub open spec fn file_view(f: CpuPowerTargetFile) -> (u32, Seq<char>, Seq<char>, Seq<char>) {
    (f.cpu, f.path@, f.requested_value@, f.original_value@)
}

/// The files a passing CPU yields: its governor file, then its preference file, each
/// where the request sets it.
pub open spec fn cpu_files(a: CpuPowerAction, obs: Seq<CpuFreqObservation>, cpu: u32) -> Seq<(u32, Seq<char>, Seq<char>, Seq<char>)> {
    let dir = cpufreq_dir(a.sysfs_root@, cpu);
    let o = cpufreq_for(obs, cpu)->0;
    let g: Seq<(u32, Seq<char>, Seq<char>, Seq<char>)> = match a.scaling_governor {
        Some(v) => seq![(cpu, join_path(dir, "scaling_governor"@), v@, trim(o.scaling_governor.contents->Contents_0@))],
        None => Seq::empty(),
    };
    let e: Seq<(u32, Seq<char>, Seq<char>, Seq<char>)> = match a.energy_performance_preference {
        Some(v) => seq![(cpu, join_path(dir, "energy_performance_preference"@), v@, trim(o.energy_performance_preference.contents->Contents_0@))],
        None => Seq::empty(),
    };
    g + e
}

/// The files of the first `n` CPUs of `cpus`, in order.
pub open spec fn files_upto(a: CpuPowerAction, obs: Seq<CpuFreqObservation>, cpus: Seq<u32>, n: int) -> Seq<(u32, Seq<char>, Seq<char>, Seq<char>)>
    decreases n,
{
    if n <= 0 {
        Seq::empty()
    } else {
        files_upto(a, obs, cpus, n - 1) + cpu_files(a, obs, cpus[n - 1])
    }
}

/// Whether every requested CPU passes.
pub open spec fn all_cpus_pass(a: CpuPowerAction, policy: CpuPowerPolicy, obs: Seq<CpuFreqObservation>) -> bool {
    forall|i: int| 0 <= i < sort_unique(a.cpus@).len() ==> #[trigger] cpu_passes(a, policy, obs, sort_unique(a.cpus@)[i])
}

/// Whether the request, the battery state and every CPU pass.
pub open spec fn cpu_collect_passes(
    a: CpuPowerAction,
    policy: CpuPowerPolicy,
    power: PowerSupplyObservation,
    obs: Seq<CpuFreqObservation>,
) -> bool {
    cpu_request_passes(a, policy, power) && all_cpus_pass(a, policy, obs)
}

/// `e` is the error of a collection that did not pass: the request's refusal, or the
/// first failing CPU's error (CPUs in ascending order).
pub open spec fn cpu_collect_failure(
    a: CpuPowerAction,
    policy: CpuPowerPolicy,
    power: PowerSupplyObservation,
    obs: Seq<CpuFreqObservation>,
    e: ActionSourceError,
) -> bool {
    if !cpu_request_passes(a, policy, power) {
        cpu_request_refusal(a, policy, power, e)
    } else {
        exists|i: int|
            #![trigger sort_unique(a.cpus@)[i]]
            0 <= i < sort_unique(a.cpus@).len() && (forall|j: int|
                0 <= j < i ==> #[trigger] cpu_passes(a, policy, obs, sort_unique(a.cpus@)[j])) && !cpu_passes(
                a,
                policy,
                obs,
                sort_unique(a.cpus@)[i],
            ) && cpu_failure(a, policy, obs, sort_unique(a.cpus@)[i], e)
    }
}

/// The observation handed in for CPU `cpu`, if any.
fn find_cpufreq(obs: &Vec<CpuFreqObservation>, cpu: u32) -> (r: Option<&CpuFreqObservation>)
    ensures
        match cpufreq_for(obs@, cpu) {
            Some(o) => r == Some(&o),
            None => r is None,
        },
{
    let mut i: usize = 0;
    while i < obs.len()
        invariant
            0 <= i <= obs@.len(),
            forall|j: int| 0 <= j < i ==> #[trigger] obs@[j].cpu != cpu,
        decreases obs@.len() - i,
    {
        if obs[i].cpu == cpu {
            proof {
                let k = choose|k: int| 0 <= k < obs@.len() && obs@[k].cpu == cpu && forall|j: int| 0 <= j < k ==> #[trigger] obs@[j].cpu != cpu;
                assert(obs@[i as int].cpu == cpu);
                if k < i {
                    assert(obs@[k].cpu != cpu);
                } else if k > i {
                    assert(obs@[i as int].cpu != cpu);
                }
            }
            return Some(&obs[i]);
        }
        i = i + 1;
    }
    None
}

/// Whether `v` holds `x`.
/// CPU numbers compare as the integers they are, so a set of them behaves as a set.
proof fn lemma_cpu_numbers_ordered()
    ensures
        vstd::laws_cmp::obeys_cmp::<u32>(),
{
    broadcast use vstd::laws_cmp::group_laws_cmp;

}

/// Whether the set holds CPU `x`.
fn allows_cpu(cpus: &BTreeSet<u32>, x: u32) -> (r: bool)
    ensures
        r == cpus@.contains(x),
{
    proof {
        broadcast use vstd::std_specs::btree::group_btree_axioms;

        lemma_cpu_numbers_ordered();
    }
    cpus.contains(&x)
}

/// The set of the CPUs listed.
pub fn cpu_set(cpus: &Vec<u32>) -> (r: BTreeSet<u32>)
    ensures
        r@ == cpus@.to_set(),
{
    proof {
        lemma_cpu_numbers_ordered();
    }
    let mut set: BTreeSet<u32> = BTreeSet::new();
    let mut i: usize = 0;
    while i < cpus.len()
        invariant
            0 <= i <= cpus@.len(),
            forall|x: u32| #[trigger] set@.contains(x) <==> exists|j: int| 0 <= j < i && cpus@[j] == x,
        decreases cpus@.len() - i,
    {
        proof {
            lemma_cpu_numbers_ordered();
        }
        set.insert(cpus[i]);
        proof {
            assert forall|x: u32| #[trigger] set@.contains(x) <==> exists|j: int| 0 <= j < i + 1 && cpus@[j] == x by {
                if x == cpus@[i as int] {
                    assert(0 <= i < i + 1 && cpus@[i as int] == x);
                }
                if exists|j: int| 0 <= j < i + 1 && cpus@[j] == x {
                    let j = choose|j: int| 0 <= j < i + 1 && cpus@[j] == x;
                    if j < i {
                        assert(exists|j2: int| 0 <= j2 < i && cpus@[j2] == x);
                    }
                }
            }
        }
        i = i + 1;
    }
    proof {
        assert forall|x: u32| set@.contains(x) <==> cpus@.to_set().contains(x) by {
            if cpus@.contains(x) {
                let j = choose|j: int| 0 <= j < cpus@.len() && cpus@[j] == x;
                assert(exists|j2: int| 0 <= j2 < i && cpus@[j2] == x);
            }
        }
        assert(set@ =~= cpus@.to_set());
    }
    set
}

/// One target file: checked writable, then read.
fn read_cpu_target_file(cpu: u32, path: &str, f: &SysfsFileObservation, requested: &String) -> (r: Result<
    CpuPowerTargetFile,
    ActionSourceError,
>)
    ensures
        file_passes(*f) <==> r is Ok,
        r matches Err(e) ==> cpu_file_failure(path@, *f, e),
        r matches Ok(t) ==> file_view(t) == (cpu, path@, requested@, trim(f.contents->Contents_0@)),
{
    match &f.access {
        FileAccess::Missing => return Err(
            ActionSourceError::Boundary(ActionBoundaryError::MissingPath { action_kind: "cpu_power", path: path.to_owned() }),
        ),
        FileAccess::NotWritable { error } => {
            let mut m = cat3("required CPU power sysfs file is not writable: ", path, ": ");
            m.append(error.as_str());
            return Err(ActionSourceError::Message(m));
        },
        FileAccess::Writable => {},
    }
    match read_trimmed(path, &f.contents) {
        Ok(v) => Ok(CpuPowerTargetFile { cpu, path: path.to_owned(), requested_value: requested.clone(), original_value: v }),
        Err(e) => Err(e),
    }
}

/// The files of one CPU, or its error.
fn cpu_target_files(
    a: &CpuPowerAction,
    policy: &CpuPowerPolicy,
    obs: &Vec<CpuFreqObservation>,
    cpu: u32,
) -> (r: Result<Vec<CpuPowerTargetFile>, ActionSourceError>)
    ensures
        cpu_passes(*a, *policy, obs@, cpu) <==> r is Ok,
        r matches Err(e) ==> cpu_failure(*a, *policy, obs@, cpu, e),
        r matches Ok(v) ==> v@.map_values(|f: CpuPowerTargetFile| file_view(f)) == cpu_files(*a, obs@, cpu),
{
    proof {
        reveal_strlit("scaling_governor");
        reveal_strlit("energy_performance_preference");
    }
    let c = u64_to_string(cpu as u64);
    if !allows_cpu(&policy.allowed_cpus, cpu) {
        return Err(
            ActionSourceError::Boundary(
                ActionBoundaryError::PolicyDenied { action_kind: "cpu_power", requirement: "allowed_cpus_contains_target" },
            ),
        );
    }
    let base = path_join(a.sysfs_root.as_str(), "devices/system/cpu");
    let name = cat("cpu", c.as_str());
    let cpu_dir = path_join(base.as_str(), name.as_str());
    let dir = path_join(cpu_dir.as_str(), "cpufreq");
    let o = match find_cpufreq(obs, cpu) {
        Some(o) => o,
        None => {
            return Err(ActionSourceError::Boundary(ActionBoundaryError::MissingPath { action_kind: "cpu_power", path: dir }));
        },
    };
    if !o.dir_exists {
        return Err(ActionSourceError::Boundary(ActionBoundaryError::MissingPath { action_kind: "cpu_power", path: dir }));
    }
    let mut files: Vec<CpuPowerTargetFile> = Vec::new();
    match &a.scaling_governor {
        Some(g) => {
            let path = path_join(dir.as_str(), "scaling_governor");
            match read_cpu_target_file(cpu, path.as_str(), &o.scaling_governor, g) {
                Ok(f) => files.push(f),
                Err(e) => return Err(e),
            }
        },
        None => {},
    }
    let ghost mid = files@;
    match &a.energy_performance_preference {
        Some(e) => {
            let path = path_join(dir.as_str(), "energy_performance_preference");
            match read_cpu_target_file(cpu, path.as_str(), &o.energy_performance_preference, e) {
                Ok(f) => files.push(f),
                Err(x) => return Err(x),
            }
        },
        None => {},
    }
    assert(files@.map_values(|f: CpuPowerTargetFile| file_view(f)) =~= cpu_files(*a, obs@, cpu));
    Ok(files)
}

impl CpuPowerAction {
    /// The files the request writes, CPU by CPU in ascending order, after checking the
    /// request, the policy and the battery state.
    pub fn collect_target_files(
        &self,
        policy: &CpuPowerPolicy,
        power: &PowerSupplyObservation,
        observations: &Vec<CpuFreqObservation>,
    ) -> (r: Result<Vec<CpuPowerTargetFile>, ActionSourceError>)
        ensures
            r is Ok <==> cpu_collect_passes(*self, *policy, *power, observations@),
            r matches Err(e) ==> cpu_collect_failure(*self, *policy, *power, observations@, e),
            r matches Ok(v) ==> v@.map_values(|f: CpuPowerTargetFile| file_view(f)) == files_upto(
                *self,
                observations@,
                sort_unique(self.cpus@),
                sort_unique(self.cpus@).len() as int,
            ),
    {
        match validate_cpu_power_request(self, policy, power) {
            Err(e) => return Err(e),
            Ok(()) => {},
        }
        let cpus = sorted_unique_cpus(&self.cpus);
        let mut files: Vec<CpuPowerTargetFile> = Vec::new();
        let mut i: usize = 0;
        while i < cpus.len()
            invariant
                0 <= i <= cpus@.len(),
                cpus@ == sort_unique(self.cpus@),
                cpu_request_passes(*self, *policy, *power),
                forall|j: int| 0 <= j < i ==> #[trigger] cpu_passes(*self, *policy, observations@, cpus@[j]),
                files@.map_values(|f: CpuPowerTargetFile| file_view(f)) == files_upto(*self, observations@, cpus@, i as int),
            decreases cpus@.len() - i,
        {
            match cpu_target_files(self, policy, observations, cpus[i]) {
                Ok(more) => {
                    let ghost before = files@;
                    let mut k: usize = 0;
                    while k < more.len()
                        invariant
                            0 <= k <= more@.len(),
                            files@.map_values(|f: CpuPowerTargetFile| file_view(f)) =~= before.map_values(|f: CpuPowerTargetFile| file_view(f))
                                + more@.map_values(|f: CpuPowerTargetFile| file_view(f)).take(k as int),
                        decreases more@.len() - k,
                    {
                        let f = &more[k];
                        let ghost prev = files@;
                        let copy = CpuPowerTargetFile {
                            cpu: f.cpu,
                            path: f.path.clone(),
                            requested_value: f.requested_value.clone(),
                            original_value: f.original_value.clone(),
                        };
                        assert(file_view(copy) == file_view(more@[k as int]));
                        files.push(copy);
                        assert(files@.map_values(|f: CpuPowerTargetFile| file_view(f)) =~= prev.map_values(|f: CpuPowerTargetFile| file_view(f)).push(file_view(more@[k as int])));
                        assert(more@.map_values(|f: CpuPowerTargetFile| file_view(f)).take(k + 1) =~= more@.map_values(|f: CpuPowerTargetFile| file_view(f)).take(k as int).push(file_view(more@[k as int])));
                        k = k + 1;
                    }
                    assert(more@.map_values(|f: CpuPowerTargetFile| file_view(f)).take(more@.len() as int) =~= more@.map_values(|f: CpuPowerTargetFile| file_view(f)));
                },
                Err(e) => {
                    proof {
                        let k = i as int;
                        assert(0 <= k < sort_unique(self.cpus@).len() && (forall|j: int|
                            0 <= j < k ==> #[trigger] cpu_passes(*self, *policy, observations@, sort_unique(self.cpus@)[j]))
                            && !cpu_passes(*self, *policy, observations@, sort_unique(self.cpus@)[k])
                            && cpu_failure(*self, *policy, observations@, sort_unique(self.cpus@)[k], e));
                    }
                    return Err(e);
                },
            }
            i = i + 1;
        }
        Ok(files)
    }
}

/// How many files hold a value other than the one requested.
pub open spec fn differing(v: Seq<(u32, Seq<char>, Seq<char>, Seq<char>)>) -> nat
    decreases v.len(),
{
    if v.len() == 0 {
        0
    } else {
        differing(v.drop_last()) + if v.last().3 != v.last().2 {
            1nat
        } else {
            0nat
        }
    }
}

/// How many of the target files hold a value other than the one requested.
pub fn count_differing(files: &Vec<CpuPowerTargetFile>) -> (r: usize)
    ensures
        r == differing(files@.map_values(|f: CpuPowerTargetFile| file_view(f))),
        r <= files@.len(),
{
    let ghost v = files@.map_values(|f: CpuPowerTargetFile| file_view(f));
    let mut n: usize = 0;
    let mut i: usize = 0;
    assert(v.take(0) =~= Seq::<(u32, Seq<char>, Seq<char>, Seq<char>)>::empty());
    while i < files.len()
        invariant
            0 <= i <= files@.len(),
            v == files@.map_values(|f: CpuPowerTargetFile| file_view(f)),
            n == differing(v.take(i as int)),
            n <= i,
        decreases files@.len() - i,
    {
        assert(v.take(i + 1).drop_last() =~= v.take(i as int));
        assert(v.take(i + 1).last() == file_view(files@[i as int]));
        if !str_eq(files[i].original_value.as_str(), files[i].requested_value.as_str()) {
            n = n + 1;
        }
        i = i + 1;
    }
    assert(v.take(files@.len() as int) =~= v);
    n
}

/// The files the request writes, for the observations handed in.
pub open spec fn target_files_of(a: CpuPowerAction, obs: Seq<CpuFreqObservation>) -> Seq<(u32, Seq<char>, Seq<char>, Seq<char>)> {
    files_upto(a, obs, sort_unique(a.cpus@), sort_unique(a.cpus@).len() as int)
}

impl CpuPowerAction {
    /// The preflight under `policy`: a warning when every file already holds its value.
    pub fn preflight_with_policy(
        &self,
        policy: &CpuPowerPolicy,
        power: &PowerSupplyObservation,
        observations: &Vec<CpuFreqObservation>,
    ) -> (r: Result<Vec<ActionWarning>, ActionSourceError>)
        ensures
            r is Ok <==> cpu_collect_passes(*self, *policy, *power, observations@),
            r matches Err(e) ==> cpu_collect_failure(*self, *policy, *power, observations@, e),
            r matches Ok(w) ==> if differing(target_files_of(*self, observations@)) == 0 {
                w@.len() == 1 && w@[0].message@ == "all CPU power sysfs files already have requested values"@
            } else {
                w@.len() == 0
            },
    {
        let files = match self.collect_target_files(policy, power, observations) {
            Ok(f) => f,
            Err(e) => return Err(e),
        };
        let mut warnings: Vec<ActionWarning> = Vec::new();
        if count_differing(&files) == 0 {
            warnings.push(ActionWarning { message: "all CPU power sysfs files already have requested values".to_owned() });
        }
        Ok(warnings)
    }

    /// The dry run under `policy`: how many files would change.
    pub fn dry_run_with_policy(
        &self,
        policy: &CpuPowerPolicy,
        power: &PowerSupplyObservation,
        observations: &Vec<CpuFreqObservation>,
    ) -> (r: Result<ActionState, ActionSourceError>)
        ensures
            r is Ok <==> cpu_collect_passes(*self, *policy, *power, observations@),
            r matches Err(e) ==> cpu_collect_failure(*self, *policy, *power, observations@, e),
            r matches Ok(st) ==> !st.applied && st.pending_changes == differing(target_files_of(*self, observations@))
                && st.affected_tasks == st.pending_changes && st.checked_tasks == target_files_of(*self, observations@).len()
                && st.warnings@.len() == 0,
    {
        let files = match self.collect_target_files(policy, power, observations) {
            Ok(f) => f,
            Err(e) => return Err(e),
        };
        let pending = count_differing(&files);
        Ok(ActionState { applied: false, affected_tasks: pending, checked_tasks: files.len(), pending_changes: pending, warnings: Vec::new() })
    }

    /// The verify phase under `policy`, given what each target file (in order) holds now:
    /// applied when there are files and each holds its requested value.
    pub fn verify_with_policy(
        &self,
        policy: &CpuPowerPolicy,
        power: &PowerSupplyObservation,
        observations: &Vec<CpuFreqObservation>,
        current: &Vec<FileRead>,
    ) -> (r: Result<ActionState, ActionSourceError>)
        ensures
            !cpu_collect_passes(*self, *policy, *power, observations@) ==> (r matches Err(e) && cpu_collect_failure(
                *self,
                *policy,
                *power,
                observations@,
                e,
            )),
            cpu_collect_passes(*self, *policy, *power, observations@) ==> {
                let files = target_files_of(*self, observations@);
                match cpu_verify_upto(files, current@, files.len() as int) {
                    Err(m) => r matches Err(ActionSourceError::Message(x)) && x@ == m,
                    Ok(p) => r matches Ok(st) && {
                        &&& st.applied == (files.len() > 0 && p == 0)
                        &&& st.pending_changes == p
                        &&& st.affected_tasks == files.len()
                        &&& st.checked_tasks == files.len()
                        &&& st.warnings@.len() == 0
                    },
                }
            },
    {
        let files = match self.collect_target_files(policy, power, observations) {
            Ok(f) => f,
            Err(e) => return Err(e),
        };
        let ghost v = files@.map_values(|f: CpuPowerTargetFile| file_view(f));
        let mut pending: usize = 0;
        let mut i: usize = 0;
        while i < files.len()
            invariant
                0 <= i <= files@.len(),
                v == files@.map_values(|f: CpuPowerTargetFile| file_view(f)),
                v == target_files_of(*self, observations@),
                cpu_collect_passes(*self, *policy, *power, observations@),
                cpu_verify_upto(v, current@, i as int) == Ok::<nat, Seq<char>>(pending as nat),
            decreases files@.len() - i,
        {
            proof {
                lemma_cpu_verify_bound(v, current@, i as int);
                assert(v[i as int] == file_view(files@[i as int]));
            }
            let unread = FileRead::Unread;
            let f = if i < current.len() {
                &current[i]
            } else {
                &unread
            };
            match f {
                FileRead::Contents(c) => {
                    let t = crate::text::trim_text(c.as_str());
                    if !str_eq(t.as_str(), files[i].requested_value.as_str()) {
                        pending = pending + 1;
                    }
                },
                FileRead::Failed(e) => {
                    proof {
                        lemma_cpu_verify_err_stays(v, current@, i + 1, v.len() as int);
                    }
                    return Err(ActionSourceError::Message(failed_verify_text(files[i].path.as_str(), e.as_str())));
                },
                FileRead::Unread => {
                    proof {
                        lemma_cpu_verify_err_stays(v, current@, i + 1, v.len() as int);
                        reveal_strlit("");
                    }
                    let m = failed_verify_text(files[i].path.as_str(), "");
                    assert(m@ =~= "failed to verify "@ + files@[i as int].path@ + ": failed to read "@ + files@[i as int].path@ + ": "@);
                    return Err(ActionSourceError::Message(m));
                },
            }
            i = i + 1;
        }
        Ok(ActionState {
            applied: files.len() > 0 && pending == 0,
            affected_tasks: files.len(),
            checked_tasks: files.len(),
            pending_changes: pending,
            warnings: Vec::new(),
        })
    }
}

/// What a target file holds now, read in verify: `Unread` past the end.
pub open spec fn cpu_current_at(current: Seq<FileRead>, i: int) -> FileRead {
    if 0 <= i < current.len() {
        current[i]
    } else {
        FileRead::Unread
    }
}

/// The pending count over the first `n` target files, given what each holds now, or the
/// first read failure's text.
pub open spec fn cpu_verify_upto(
    files: Seq<(u32, Seq<char>, Seq<char>, Seq<char>)>,
    current: Seq<FileRead>,
    n: int,
) -> Result<nat, Seq<char>>
    decreases n,
{
    if n <= 0 {
        Ok(0)
    } else {
        match cpu_verify_upto(files, current, n - 1) {
            Err(m) => Err(m),
            Ok(p) => {
                let path = files[n - 1].1;
                let ctx = "failed to verify "@ + path + ": failed to read "@ + path + ": "@;
                match cpu_current_at(current, n - 1) {
                    FileRead::Contents(c) => Ok(if trim(c@) != files[n - 1].2 { p + 1 } else { p }),
                    FileRead::Failed(e) => Err(ctx + e@),
                    FileRead::Unread => Err(ctx),
                }
            },
        }
    }
}

proof fn lemma_cpu_verify_bound(files: Seq<(u32, Seq<char>, Seq<char>, Seq<char>)>, current: Seq<FileRead>, n: int)
    requires
        0 <= n,
    ensures
        cpu_verify_upto(files, current, n) matches Ok(p) ==> p <= n,
    decreases n,
{
    if n > 0 {
        lemma_cpu_verify_bound(files, current, n - 1);
    }
}

proof fn lemma_cpu_verify_err_stays(
    files: Seq<(u32, Seq<char>, Seq<char>, Seq<char>)>,
    current: Seq<FileRead>,
    k: int,
    n: int,
)
    requires
        0 <= k <= n,
        cpu_verify_upto(files, current, k) is Err,
    ensures
        cpu_verify_upto(files, current, n) == cpu_verify_upto(files, current, k),
    decreases n - k,
{
    if k < n {
        lemma_cpu_verify_err_stays(files, current, k, n - 1);
    }
}

/// "failed to verify P: failed to read P: E".
fn failed_verify_text(path: &str, error: &str) -> (r: String)
    ensures
        r@ == "failed to verify "@ + path@ + ": failed to read "@ + path@ + ": "@ + error@,
{
    let mut m = cat4("failed to verify ", path, ": failed to read ", path);
    m.append(": ");
    m.append(error);
    m
}

/// The restore records of the target files: one for each, with its value now.
pub fn cpu_power_restore_records(files: &Vec<CpuPowerTargetFile>) -> (r: Vec<CpuPowerRestoreRecord>)
    ensures
        r@.len() == files@.len(),
        forall|i: int| 0 <= i < r@.len() ==> #[trigger] r@[i].path == files@[i].path && r@[i].original_value
            == files@[i].original_value,
{
    let mut out: Vec<CpuPowerRestoreRecord> = Vec::new();
    let mut i: usize = 0;
    while i < files.len()
        invariant
            0 <= i <= files@.len(),
            out@.len() == i,
            forall|k: int| 0 <= k < i ==> #[trigger] out@[k].path == files@[k].path && out@[k].original_value
                == files@[k].original_value,
        decreases files@.len() - i,
    {
        out.push(CpuPowerRestoreRecord { path: files[i].path.clone(), original_value: files[i].original_value.clone() });
        i = i + 1;
    }
    out
}

/// Checks a write by what the file holds afterwards: a failed read, or a value other than
/// the one requested, fails the apply.
pub fn check_cpu_power_write(path: &str, requested: &str, after: &FileRead) -> (r: Result<(), ActionSourceError>)
    ensures
        (after matches FileRead::Contents(c) && trim(c@) == requested@) <==> r is Ok,
        r matches Err(e) ==> (e matches ActionSourceError::Message(m) && m@ == match *after {
            FileRead::Contents(c) => "CPU power write verification failed for "@ + path@ + ": requested="@
                + debug_quoted(requested@) + " actual="@ + debug_quoted(trim(c@)),
            FileRead::Failed(x) => "failed to verify write to "@ + path@ + ": failed to read "@ + path@ + ": "@ + x@,
            FileRead::Unread => "failed to verify write to "@ + path@ + ": failed to read "@ + path@ + ": "@,
        }),
{
    match after {
        FileRead::Contents(c) => {
            let actual = crate::text::trim_text(c.as_str());
            if str_eq(actual.as_str(), requested) {
                Ok(())
            } else {
                let rq = debug_quote(requested);
                let ac = debug_quote(actual.as_str());
                let mut m = cat3("CPU power write verification failed for ", path, ": requested=");
                m.append(rq.as_str());
                m.append(" actual=");
                m.append(ac.as_str());
                Err(ActionSourceError::Message(m))
            }
        },
        FileRead::Failed(x) => {
            let mut m = cat4("failed to verify write to ", path, ": failed to read ", path);
            m.append(": ");
            m.append(x.as_str());
            Err(ActionSourceError::Message(m))
        },
        FileRead::Unread => {
            let mut m = cat4("failed to verify write to ", path, ": failed to read ", path);
            m.append(": ");
            Err(ActionSourceError::Message(m))
        },
    }
}

/// How many of the first `n` files need a write (their value differs from the request).
pub open spec fn writes_before(files: Seq<(u32, Seq<char>, Seq<char>, Seq<char>)>, n: int) -> nat
    decreases n,
{
    if n <= 0 {
        0
    } else {
        writes_before(files, n - 1) + if files[n - 1].3 != files[n - 1].2 {
            1nat
        } else {
            0nat
        }
    }
}

/// What a write of file `f` comes to: `None` when it holds the request afterwards, else
/// the failure's text (a read-back of another value rolls back what was written, and the
/// rollback's failure, where there is one, is what is reported).
pub open spec fn cpu_apply_step(
    f: (u32, Seq<char>, Seq<char>, Seq<char>),
    w: ApplyWrite,
    rollback_failures: Seq<Seq<char>>,
) -> Option<Seq<char>> {
    let path = f.1;
    let requested = f.2;
    match w {
        ApplyWrite::WriteFailed { error } => Some("failed to write "@ + path + ": "@ + error@),
        ApplyWrite::ReadBack(after) => match after {
            FileRead::Contents(c) => if trim(c@) == requested {
                None
            } else if rollback_failures.len() > 0 {
                Some("failed to rollback CPU power values: "@ + join(rollback_failures, "; "@))
            } else {
                Some("CPU power write verification failed for "@ + path + ": requested="@ + debug_quoted(requested)
                    + " actual="@ + debug_quoted(trim(c@)))
            },
            FileRead::Failed(x) => Some("failed to verify write to "@ + path + ": failed to read "@ + path + ": "@ + x@),
            FileRead::Unread => Some("failed to verify write to "@ + path + ": failed to read "@ + path + ": "@),
        },
    }
}

/// The first failure over the first `n` files, the `k`th write going to the `k`th file
/// that needs one.
pub open spec fn cpu_apply_upto(
    files: Seq<(u32, Seq<char>, Seq<char>, Seq<char>)>,
    writes: Seq<ApplyWrite>,
    rollback_failures: Seq<Seq<char>>,
    n: int,
) -> Option<Seq<char>>
    decreases n,
{
    if n <= 0 {
        None
    } else {
        match cpu_apply_upto(files, writes, rollback_failures, n - 1) {
            Some(m) => Some(m),
            None => if files[n - 1].3 != files[n - 1].2 {
                cpu_apply_step(files[n - 1], apply_write_at(writes, writes_before(files, n - 1) as int), rollback_failures)
            } else {
                None
            },
        }
    }
}

proof fn lemma_writes_before_bound(files: Seq<(u32, Seq<char>, Seq<char>, Seq<char>)>, n: int)
    requires
        0 <= n,
    ensures
        writes_before(files, n) <= n,
    decreases n,
{
    if n > 0 {
        lemma_writes_before_bound(files, n - 1);
    }
}

/// The dry run and the apply agree: the apply makes one write for each file the dry run
/// counts as pending, and no other.
pub proof fn lemma_apply_writes_dry_run_pending(files: Seq<(u32, Seq<char>, Seq<char>, Seq<char>)>)
    ensures
        writes_before(files, files.len() as int) == differing(files),
    decreases files.len(),
{
    if files.len() > 0 {
        let n = files.len() as int;
        lemma_apply_writes_dry_run_pending(files.drop_last());
        lemma_writes_before_prefix(files, files.drop_last(), n - 1);
    }
}

/// The writes before the `n`th file depend only on the files before it.
proof fn lemma_writes_before_prefix(
    files: Seq<(u32, Seq<char>, Seq<char>, Seq<char>)>,
    prefix: Seq<(u32, Seq<char>, Seq<char>, Seq<char>)>,
    n: int,
)
    requires
        0 <= n <= prefix.len() <= files.len(),
        forall|i: int| 0 <= i < prefix.len() ==> #[trigger] prefix[i] == files[i],
    ensures
        writes_before(files, n) == writes_before(prefix, n),
    decreases n,
{
    if n > 0 {
        lemma_writes_before_prefix(files, prefix, n - 1);
    }
}

proof fn lemma_cpu_apply_fail_stays(
    files: Seq<(u32, Seq<char>, Seq<char>, Seq<char>)>,
    writes: Seq<ApplyWrite>,
    rollback_failures: Seq<Seq<char>>,
    k: int,
    n: int,
)
    requires
        0 <= k <= n,
        cpu_apply_upto(files, writes, rollback_failures, k) is Some,
    ensures
        cpu_apply_upto(files, writes, rollback_failures, n) == cpu_apply_upto(files, writes, rollback_failures, k),
    decreases n - k,
{
    if k < n {
        lemma_cpu_apply_fail_stays(files, writes, rollback_failures, k, n - 1);
    }
}

/// The restore records name the files in order, each with the value it held before.
pub open spec fn records_of_files(
    records: Seq<CpuPowerRestoreRecord>,
    files: Seq<(u32, Seq<char>, Seq<char>, Seq<char>)>,
) -> bool {
    &&& records.len() == files.len()
    &&& forall|i: int|
        0 <= i < files.len() ==> #[trigger] records[i].path@ == files[i].1 && records[i].original_value@ == files[i].3
}

impl CpuPowerAction {
    /// The apply under `policy`: every target file is recorded with its value now; each
    /// one that differs is written, and the `k`th entry of `writes` tells how the `k`th
    /// such write went. A write that reads back another value rolls back what was
    /// recorded so far, and `rollback` tells (latest first) how that went. The token
    /// restores every recorded file.
    pub fn apply_with_policy(
        &self,
        policy: &CpuPowerPolicy,
        power: &PowerSupplyObservation,
        observations: &Vec<CpuFreqObservation>,
        writes: &Vec<ApplyWrite>,
        rollback: &Vec<SysfsRestoreItem>,
    ) -> (r: Result<RollbackToken, ActionSourceError>)
        ensures
            !cpu_collect_passes(*self, *policy, *power, observations@) ==> (r matches Err(e) && cpu_collect_failure(
                *self,
                *policy,
                *power,
                observations@,
                e,
            )),
            cpu_collect_passes(*self, *policy, *power, observations@) ==> {
                let files = target_files_of(*self, observations@);
                match cpu_apply_upto(files, writes@, sysfs_restore_failures(rollback@), files.len() as int) {
                    Some(m) => r matches Err(ActionSourceError::Message(x)) && x@ == m,
                    None => r matches Ok(RollbackToken::CpuPowerRestore { records }) && records_of_files(records@, files),
                }
            },
    {
        let files = match self.collect_target_files(policy, power, observations) {
            Ok(f) => f,
            Err(e) => return Err(e),
        };
        let ghost v = files@.map_values(|f: CpuPowerTargetFile| file_view(f));
        let ghost rb = sysfs_restore_failures(rollback@);
        let mut k: usize = 0;
        let mut i: usize = 0;
        while i < files.len()
            invariant
                0 <= i <= files@.len(),
                v == files@.map_values(|f: CpuPowerTargetFile| file_view(f)),
                v == target_files_of(*self, observations@),
                cpu_collect_passes(*self, *policy, *power, observations@),
                rb == sysfs_restore_failures(rollback@),
                cpu_apply_upto(v, writes@, rb, i as int) is None,
                k == writes_before(v, i as int),
                k <= i,
            decreases files@.len() - i,
        {
            proof {
                assert(v[i as int] == file_view(files@[i as int]));
            }
            let f = &files[i];
            if f.needs_write() {
                let unread = ApplyWrite::ReadBack(FileRead::Unread);
                let w = if k < writes.len() {
                    &writes[k]
                } else {
                    &unread
                };
                assert(*w == apply_write_at(writes@, k as int));
                match w {
                    ApplyWrite::WriteFailed { error } => {
                        let mut m = cat3("failed to write ", f.path.as_str(), ": ");
                        m.append(error.as_str());
                        proof {
                            lemma_cpu_apply_fail_stays(v, writes@, rb, i + 1, v.len() as int);
                        }
                        return Err(ActionSourceError::Message(m));
                    },
                    ApplyWrite::ReadBack(after) => match check_cpu_power_write(
                        f.path.as_str(),
                        f.requested_value.as_str(),
                        after,
                    ) {
                        Ok(()) => {},
                        Err(e) => {
                            proof {
                                lemma_cpu_apply_fail_stays(v, writes@, rb, i + 1, v.len() as int);
                            }
                            let is_value = match after {
                                FileRead::Contents(_) => true,
                                _ => false,
                            };
                            if is_value {
                                match cpu_power_rollback_outcome(rollback) {
                                    Err(re) => return Err(re),
                                    Ok(()) => return Err(e),
                                }
                            }
                            return Err(e);
                        },
                    },
                }
                k = k + 1;
            }
            i = i + 1;
        }
        let records = cpu_power_restore_records(&files);
        proof {
            assert forall|j: int| 0 <= j < v.len() implies #[trigger] records@[j].path@ == v[j].1
                && records@[j].original_value@ == v[j].3 by {
                assert(v[j] == file_view(files@[j]));
                assert(records@[j].path == files@[j].path);
            }
        }
        Ok(RollbackToken::CpuPowerRestore { records })
    }
}

/// The records a CPU power rollback restores; a token of another kind is refused.
pub fn cpu_power_rollback_records(token: &RollbackToken) -> (r: Result<&Vec<CpuPowerRestoreRecord>, ActionSourceError>)
    ensures
        match *token {
            RollbackToken::CpuPowerRestore { records } => r == Ok::<&Vec<CpuPowerRestoreRecord>, ActionSourceError>(&records),
            _ => r matches Err(e) && is_wrong_token_for(e, "cpu-power-restore"@, *token),
        },
{
    match token.as_cpu_power_restore() {
        Some(records) => Ok(records),
        None => Err(
            ActionSourceError::Action(ActionError::invalid_rollback_token_kind(token.kind_error("cpu-power-restore"))),
        ),
    }
}

/// The outcome of restoring CPU power files (latest first): a failure naming each file
/// that did not come back.
pub fn cpu_power_rollback_outcome(items: &Vec<SysfsRestoreItem>) -> (r: Result<(), ActionSourceError>)
    ensures
        sysfs_restore_failures(items@).len() == 0 <==> r is Ok,
        r matches Err(e) ==> (e matches ActionSourceError::Message(m) && m@ == "failed to rollback CPU power values: "@
            + join(sysfs_restore_failures(items@), "; "@)),
{
    let failures = crate::sysfs::sysfs_restore_failure_list(items);
    if failures.len() == 0 {
        return Ok(());
    }
    let joined = join_strings(&failures, "; ");
    Err(ActionSourceError::Message(cat("failed to rollback CPU power values: ", joined.as_str())))
}


/// The start of the CPU power handler's refusal of another kind of token; the token's
/// debug rendering follows.
pub open spec fn unsupported_prefix() -> Seq<char> {
    "CPU power rollback handler does not support "@
}

/// What the CPU power rollback handler's restore of `token` comes to, given how each of
/// its files came back (latest first): every record restored, or the failure naming
/// each file that did not come back.
pub fn cpu_handler_restore_token(token: &RollbackToken, items: &Vec<SysfsRestoreItem>) -> (r: Result<
    RollbackResult,
    ActionSourceError,
>)
    ensures
        match *token {
            RollbackToken::CpuPowerRestore { records } => {
                &&& sysfs_restore_failures(items@).len() == 0 <==> r is Ok
                &&& r matches Ok(res) ==> res.handler_id == "cpu-power-rollback" && res.restore_path@ == Seq::<
                    char,
                >::empty() && res.restored == records@.len() && res.skipped_dead == 0 && res.errors == 0
                    && res.messages@.len() == 0
                &&& r matches Err(e) ==> (e matches ActionSourceError::Message(m) && m@
                    == "failed to rollback CPU power values: "@ + join(sysfs_restore_failures(items@), "; "@))
            },
            _ => r matches Err(ActionSourceError::Message(m)) && m@.len() >= unsupported_prefix().len()
                && m@.subrange(0, unsupported_prefix().len() as int) == unsupported_prefix(),
        },
{
    let records = match token.as_cpu_power_restore() {
        Some(r) => r,
        None => {
            let d = token_debug_text(token);
            return Err(ActionSourceError::Message(cat("CPU power rollback handler does not support ", d.as_str())));
        },
    };
    match cpu_power_rollback_outcome(items) {
        Ok(()) => Ok(token_restore_result("cpu-power-rollback", token, records.len(), 0, Vec::new())),
        Err(e) => Err(e),
    }
}

/// What the CPU power rollback handler previews: its own tokens, as what restoring them
/// would do; a token of another kind is refused, naming the token.
pub fn cpu_handler_dry_run_token(token: &RollbackToken) -> (r: Result<RollbackPreview, ActionSourceError>)
    ensures
        match *token {
            RollbackToken::CpuPowerRestore { .. } => r matches Ok(p) && is_token_preview(
                p,
                "cpu-power-rollback",
                "cpu-power-restore"@,
                *token,
            ),
            _ => r matches Err(ActionSourceError::Message(m)) && m@.len() >= unsupported_prefix().len()
                && m@.subrange(0, unsupported_prefix().len() as int) == unsupported_prefix(),
        },
{
    match token {
        RollbackToken::CpuPowerRestore { .. } => Ok(token_dry_run_preview("cpu-power-rollback", token, "cpu-power-restore")),
        _ => {
            let d = token_debug_text(token);
            Err(ActionSourceError::Message(cat("CPU power rollback handler does not support ", d.as_str())))
        },
    }
}

} // verus!
