//! Shared action lifecycle types: phases, safety classes, warnings, blockers,
//! states, task identities and the restore records that rollback tokens carry.
use vstd::prelude::*;

use crate::text::{join, join_strings, views};

verus! {

/// The phases an action goes through.
#[derive(Debug, Clone, Copy, PartialEq, Eq, Structural)]
pub enum ActionPhase {
    Preflight,
    DryRun,
    Apply,
    Verify,
    Rollback,
    EmergencyRollback,
}

/// The snake-case label of a phase.
pub open spec fn phase_label(p: ActionPhase) -> Seq<char> {
    match p {
        ActionPhase::Preflight => "preflight"@,
        ActionPhase::DryRun => "dry_run"@,
        ActionPhase::Apply => "apply"@,
        ActionPhase::Verify => "verify"@,
        ActionPhase::Rollback => "rollback"@,
        ActionPhase::EmergencyRollback => "emergency_rollback"@,
    }
}

impl ActionPhase {
    /// The snake-case label of the phase.
    pub fn as_str(self) -> (r: &'static str)
        ensures
            r@ == phase_label(self),
    {
        proof {
            reveal_strlit("preflight");
            reveal_strlit("dry_run");
            reveal_strlit("apply");
            reveal_strlit("verify");
            reveal_strlit("rollback");
            reveal_strlit("emergency_rollback");
        }
        match self {
            ActionPhase::Preflight => "preflight",
            ActionPhase::DryRun => "dry_run",
            ActionPhase::Apply => "apply",
            ActionPhase::Verify => "verify",
            ActionPhase::Rollback => "rollback",
            ActionPhase::EmergencyRollback => "emergency_rollback",
        }
    }
}

/// How risky an action is; the variants are ordered from least to most risky.
#[derive(Debug, Clone, Copy, PartialEq, Eq, PartialOrd, Ord, Hash, Structural)]
pub enum SafetyClass {
    ObserveOnly,
    ReversibleLowRisk,
    ReversibleMediumRisk,
    HighRisk,
}

/// Position of a safety class in the risk order.
pub open spec fn safety_rank(c: SafetyClass) -> int {
    match c {
        SafetyClass::ObserveOnly => 0,
        SafetyClass::ReversibleLowRisk => 1,
        SafetyClass::ReversibleMediumRisk => 2,
        SafetyClass::HighRisk => 3,
    }
}

impl Default for SafetyClass {
    fn default() -> (r: Self)
        ensures
            r == SafetyClass::ObserveOnly,
    {
        SafetyClass::ObserveOnly
    }
}

impl SafetyClass {
    /// Whether `self` is at most as risky as `other`.
    pub fn at_most(self, other: SafetyClass) -> (r: bool)
        ensures
            r == (safety_rank(self) <= safety_rank(other)),
    {
        let a: u8 = match self {
            SafetyClass::ObserveOnly => 0,
            SafetyClass::ReversibleLowRisk => 1,
            SafetyClass::ReversibleMediumRisk => 2,
            SafetyClass::HighRisk => 3,
        };
        let b: u8 = match other {
            SafetyClass::ObserveOnly => 0,
            SafetyClass::ReversibleLowRisk => 1,
            SafetyClass::ReversibleMediumRisk => 2,
            SafetyClass::HighRisk => 3,
        };
        a <= b
    }
}

/// The identifier of an action.
#[derive(Debug, Clone, PartialEq, Eq, Hash)]
pub struct ActionId {
    pub id: String,
}

impl ActionId {
    /// An identifier holding `id`.
    pub fn new(id: String) -> (r: Self)
        ensures
            r.id == id,
    {
        ActionId { id }
    }

    /// The identifier's text.
    pub fn as_str(&self) -> (r: &str)
        ensures
            r@ == self.id@,
    {
        self.id.as_str()
    }
}

/// A non-fatal finding reported alongside a successful phase.
#[derive(Debug, Clone, PartialEq, Eq)]
pub struct ActionWarning {
    pub message: String,
}

impl ActionWarning {
    /// A warning with the given text.
    pub fn new(message: String) -> (r: Self)
        ensures
            r.message == message,
    {
        ActionWarning { message }
    }
}

/// A finding that stops an action before it mutates anything.
#[derive(Debug, Clone, PartialEq, Eq)]
pub struct ActionBlocker {
    pub message: String,
}

impl ActionBlocker {
    /// A blocker with the given text.
    pub fn new(message: &str) -> (r: Self)
        ensures
            r.message@ == message@,
    {
        ActionBlocker { message: message.to_owned() }
    }
}

/// The messages of a list of blockers.
pub open spec fn blocker_texts(b: Seq<ActionBlocker>) -> Seq<Seq<char>> {
    b.map_values(|x: ActionBlocker| x.message@)
}

/// The result of a preflight, as a report: either blockers or warnings.
#[derive(Debug, Clone)]
pub struct ActionPreflightReport {
    pub action_id: ActionId,
    pub blockers: Vec<ActionBlocker>,
    pub warnings: Vec<ActionWarning>,
}

impl ActionPreflightReport {
    /// A report of a preflight that passed with `warnings`.
    pub fn passed(action_id: ActionId, warnings: Vec<ActionWarning>) -> (r: Self)
        ensures
            r.action_id == action_id,
            r.blockers@.len() == 0,
            r.warnings@ == warnings@,
    {
        ActionPreflightReport { action_id, blockers: Vec::new(), warnings }
    }

    /// A report of a preflight that was blocked by `blocker`.
    pub fn blocked(action_id: ActionId, blocker: &str) -> (r: Self)
        ensures
            r.action_id == action_id,
            r.blockers@.len() == 1,
            r.blockers@[0].message@ == blocker@,
            r.warnings@.len() == 0,
    {
        let mut blockers = Vec::new();
        blockers.push(ActionBlocker::new(blocker));
        ActionPreflightReport { action_id, blockers, warnings: Vec::new() }
    }

    /// A report from a preflight's outcome: its warnings, or its error text as the one blocker.
    pub fn from_preflight_result(action_id: ActionId, result: Result<Vec<ActionWarning>, String>) -> (r:
        Self)
        ensures
            r.action_id == action_id,
            match result {
                Ok(w) => r.blockers@.len() == 0 && r.warnings@ == w@,
                Err(e) => r.blockers@.len() == 1 && r.blockers@[0].message@ == e@
                    && r.warnings@.len() == 0,
            },
    {
        match result {
            Ok(warnings) => Self::passed(action_id, warnings),
            Err(err) => Self::blocked(action_id, err.as_str()),
        }
    }

    /// Whether the report holds any blocker.
    pub fn is_blocked(&self) -> (r: bool)
        ensures
            r == (self.blockers@.len() > 0),
    {
        self.blockers.len() > 0
    }

    /// The blockers' messages joined with `"; "`.
    pub fn blocker_messages(&self) -> (r: String)
        ensures
            r@ == join(blocker_texts(self.blockers@), "; "@),
    {
        let mut texts: Vec<String> = Vec::new();
        let mut i: usize = 0;
        while i < self.blockers.len()
            invariant
                0 <= i <= self.blockers@.len(),
                views(texts@) =~= blocker_texts(self.blockers@).take(i as int),
            decreases self.blockers@.len() - i,
        {
            let ghost prev = texts@;
            texts.push(self.blockers[i].message.clone());
            proof {
                assert(views(texts@) =~= views(prev).push(self.blockers@[i as int].message@));
                assert(blocker_texts(self.blockers@).take(i + 1) =~= blocker_texts(
                    self.blockers@,
                ).take(i as int).push(self.blockers@[i as int].message@));
            }
            i = i + 1;
        }
        assert(blocker_texts(self.blockers@).take(self.blockers@.len() as int) =~= blocker_texts(
            self.blockers@,
        ));
        join_strings(&texts, "; ")
    }
}

/// What a phase observed or changed.
#[derive(Debug, Clone)]
pub struct ActionState {
    pub applied: bool,
    pub affected_tasks: usize,
    pub checked_tasks: usize,
    pub pending_changes: usize,
    pub warnings: Vec<ActionWarning>,
}

/// A task as a request names it.
#[derive(Debug, Clone, PartialEq, Eq)]
pub struct TaskIdentity {
    pub tid: u32,
    pub process_pid: Option<u32>,
    pub comm: Option<String>,
    pub starttime_ticks: Option<u64>,
}

/// An exact copy of an optional string.
pub fn copy_opt_string(o: &Option<String>) -> (r: Option<String>)
    ensures
        r == *o,
{
    match o {
        Some(s) => Some(s.clone()),
        None => None,
    }
}

/// A task as a restore record names it, with what is known to tell a reused tid apart.
#[derive(Debug, Clone, PartialEq, Eq)]
pub struct TaskRestoreIdentity {
    pub tid: u32,
    pub process_pid: Option<u32>,
    pub starttime_ticks: Option<u64>,
    pub comm: Option<String>,
    pub exe: Option<String>,
    pub process_starttime_ticks: Option<u64>,
}

impl TaskRestoreIdentity {
    /// An exact copy.
    pub fn duplicate(&self) -> (r: Self)
        ensures
            r == *self,
    {
        TaskRestoreIdentity {
            tid: self.tid,
            process_pid: self.process_pid,
            starttime_ticks: self.starttime_ticks,
            comm: copy_opt_string(&self.comm),
            exe: copy_opt_string(&self.exe),
            process_starttime_ticks: self.process_starttime_ticks,
        }
    }

    /// The restore identity of a requested task; it has no exe and no process start time.
    pub fn from_task_identity(task: &TaskIdentity) -> (r: Self)
        ensures
            r.tid == task.tid,
            r.process_pid == task.process_pid,
            r.starttime_ticks == task.starttime_ticks,
            r.comm == task.comm,
            r.exe is None,
            r.process_starttime_ticks is None,
    {
        TaskRestoreIdentity {
            tid: task.tid,
            process_pid: task.process_pid,
            starttime_ticks: task.starttime_ticks,
            comm: copy_opt_string(&task.comm),
            exe: None,
            process_starttime_ticks: None,
        }
    }

    /// The restore identity of a task as it was observed.
    pub fn observed(
        tid: u32,
        process_pid: Option<u32>,
        comm: Option<String>,
        starttime_ticks: Option<u64>,
        exe: Option<String>,
    ) -> (r: Self)
        ensures
            r == (TaskRestoreIdentity {
                tid,
                process_pid,
                starttime_ticks,
                comm,
                exe,
                process_starttime_ticks: None,
            }),
    {
        TaskRestoreIdentity { tid, process_pid, starttime_ticks, comm, exe, process_starttime_ticks: None }
    }

    /// The identity a record written before identities were kept stands for: the tid alone.
    pub fn legacy(tid: u32) -> (r: Self)
        ensures
            r == legacy_identity(tid),
    {
        TaskRestoreIdentity {
            tid,
            process_pid: None,
            starttime_ticks: None,
            comm: None,
            exe: None,
            process_starttime_ticks: None,
        }
    }
}

/// The identity that stands for a bare tid.
pub open spec fn legacy_identity(tid: u32) -> TaskRestoreIdentity {
    TaskRestoreIdentity {
        tid,
        process_pid: None,
        starttime_ticks: None,
        comm: None,
        exe: None,
        process_starttime_ticks: None,
    }
}

/// The tid a record restores: that of its identity when it has one, else its own field.
pub open spec fn record_tid(tid: u32, identity: Option<TaskRestoreIdentity>) -> u32 {
    match identity {
        Some(i) => i.tid,
        None => tid,
    }
}

/// The identity a record restores: its identity when it has one, else the legacy one.
pub open spec fn record_identity(tid: u32, identity: Option<TaskRestoreIdentity>) -> TaskRestoreIdentity {
    match identity {
        Some(i) => i,
        None => legacy_identity(tid),
    }
}

fn identity_tid(tid: u32, identity: &Option<TaskRestoreIdentity>) -> (r: u32)
    ensures
        r == record_tid(tid, *identity),
{
    match identity {
        Some(i) => i.tid,
        None => tid,
    }
}

fn identity_or_legacy(tid: u32, identity: &Option<TaskRestoreIdentity>) -> (r: TaskRestoreIdentity)
    ensures
        r == record_identity(tid, *identity),
{
    match identity {
        Some(i) => i.duplicate(),
        None => TaskRestoreIdentity::legacy(tid),
    }
}

/// The nice value a task had before a change.
#[derive(Debug, Clone, PartialEq, Eq)]
pub struct NiceRestoreRecord {
    pub tid: u32,
    pub original_nice: i32,
    pub identity: Option<TaskRestoreIdentity>,
}

impl NiceRestoreRecord {
    /// A record for `identity`, whose tid it also keeps.
    pub fn new(identity: TaskRestoreIdentity, original_nice: i32) -> (r: Self)
        ensures
            r.tid == identity.tid,
            r.original_nice == original_nice,
            r.identity == Some(identity),
    {
        NiceRestoreRecord { tid: identity.tid, original_nice, identity: Some(identity) }
    }

    /// The tid to restore.
    pub fn tid(&self) -> (r: u32)
        ensures
            r == record_tid(self.tid, self.identity),
    {
        identity_tid(self.tid, &self.identity)
    }

    /// The identity to check before restoring.
    pub fn restore_identity(&self) -> (r: TaskRestoreIdentity)
        ensures
            r == record_identity(self.tid, self.identity),
    {
        identity_or_legacy(self.tid, &self.identity)
    }
}

/// The utilization clamps a task had before a change.
#[derive(Debug, Clone, PartialEq, Eq)]
pub struct UclampRestoreRecord {
    pub tid: u32,
    pub original_util_min: u32,
    pub original_util_max: u32,
    pub identity: Option<TaskRestoreIdentity>,
}

impl UclampRestoreRecord {
    /// A record for `identity`, whose tid it also keeps.
    pub fn new(identity: TaskRestoreIdentity, original_util_min: u32, original_util_max: u32) -> (r:
        Self)
        ensures
            r.tid == identity.tid,
            r.original_util_min == original_util_min,
            r.original_util_max == original_util_max,
            r.identity == Some(identity),
    {
        UclampRestoreRecord {
            tid: identity.tid,
            original_util_min,
            original_util_max,
            identity: Some(identity),
        }
    }

    /// The tid to restore.
    pub fn tid(&self) -> (r: u32)
        ensures
            r == record_tid(self.tid, self.identity),
    {
        identity_tid(self.tid, &self.identity)
    }

    /// The identity to check before restoring.
    pub fn restore_identity(&self) -> (r: TaskRestoreIdentity)
        ensures
            r == record_identity(self.tid, self.identity),
    {
        identity_or_legacy(self.tid, &self.identity)
    }
}

/// The I/O priority a task had before a change (Linux encoding).
#[derive(Debug, Clone, PartialEq, Eq)]
pub struct IoPrioRestoreRecord {
    pub tid: u32,
    pub original_ioprio: i32,
    pub identity: Option<TaskRestoreIdentity>,
}

impl IoPrioRestoreRecord {
    /// A record for `identity`, whose tid it also keeps.
    pub fn new(identity: TaskRestoreIdentity, original_ioprio: i32) -> (r: Self)
        ensures
            r.tid == identity.tid,
            r.original_ioprio == original_ioprio,
            r.identity == Some(identity),
    {
        IoPrioRestoreRecord { tid: identity.tid, original_ioprio, identity: Some(identity) }
    }

    /// The tid to restore.
    pub fn tid(&self) -> (r: u32)
        ensures
            r == record_tid(self.tid, self.identity),
    {
        identity_tid(self.tid, &self.identity)
    }

    /// The identity to check before restoring.
    pub fn restore_identity(&self) -> (r: TaskRestoreIdentity)
        ensures
            r == record_identity(self.tid, self.identity),
    {
        identity_or_legacy(self.tid, &self.identity)
    }
}

/// The cgroup a task was in before a move.
#[derive(Debug, Clone, PartialEq, Eq)]
pub struct CgroupRestoreRecord {
    pub tid: u32,
    pub original_cgroup: String,
    pub identity: Option<TaskRestoreIdentity>,
}

impl CgroupRestoreRecord {
    /// A record for `identity`, whose tid it also keeps.
    pub fn new(identity: TaskRestoreIdentity, original_cgroup: String) -> (r: Self)
        ensures
            r.tid == identity.tid,
            r.original_cgroup == original_cgroup,
            r.identity == Some(identity),
    {
        CgroupRestoreRecord { tid: identity.tid, original_cgroup, identity: Some(identity) }
    }

    /// The tid to restore.
    pub fn tid(&self) -> (r: u32)
        ensures
            r == record_tid(self.tid, self.identity),
    {
        identity_tid(self.tid, &self.identity)
    }

    /// The identity to check before restoring.
    pub fn restore_identity(&self) -> (r: TaskRestoreIdentity)
        ensures
            r == record_identity(self.tid, self.identity),
    {
        identity_or_legacy(self.tid, &self.identity)
    }
}

/// The smp_affinity an IRQ had before a change.
#[derive(Debug, Clone, PartialEq, Eq)]
pub struct IrqAffinityRestoreRecord {
    pub irq: u32,
    pub device_hint: String,
    pub original_smp_affinity: String,
}

/// The value a VM sysctl file had before a change.
#[derive(Debug, Clone, PartialEq, Eq)]
pub struct VmKnobRestoreRecord {
    pub path: String,
    pub original_value: String,
}

/// The value a GPU power sysfs file had before a change.
#[derive(Debug, Clone, PartialEq, Eq)]
pub struct GpuPowerRestoreRecord {
    pub path: String,
    pub original_value: String,
}

/// The value a CPU power sysfs file had before a change.
#[derive(Debug, Clone, PartialEq, Eq)]
pub struct CpuPowerRestoreRecord {
    pub path: String,
    pub original_value: String,
}

/// The cpuset files of a cgroup before a change (`None`: the file did not exist).
#[derive(Debug, Clone, PartialEq, Eq)]
pub struct CgroupCpusetRestoreRecord {
    pub cgroup_path: String,
    pub original_cpuset_cpus: Option<String>,
    pub original_cpuset_mems: Option<String>,
}

} // verus!
