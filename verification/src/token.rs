//! Rollback tokens: what an applied action hands back so that it can be undone.
use vstd::prelude::*;

use crate::model::{
    CgroupCpusetRestoreRecord, CgroupRestoreRecord, CpuPowerRestoreRecord, GpuPowerRestoreRecord,
    IoPrioRestoreRecord, IrqAffinityRestoreRecord, NiceRestoreRecord, UclampRestoreRecord,
    VmKnobRestoreRecord,
};
use crate::text::cat4;

verus! {

/// The restore state an applied action returns.
#[derive(Debug, Clone, PartialEq, Eq)]
pub enum RollbackToken {
    CpuAffinityRestoreFile { path: String, affected_tasks: usize },
    NiceRestore { records: Vec<NiceRestoreRecord> },
    IoPrioRestore { records: Vec<IoPrioRestoreRecord> },
    UclampRestore { records: Vec<UclampRestoreRecord> },
    CgroupRestore { records: Vec<CgroupRestoreRecord>, cpuset: Option<CgroupCpusetRestoreRecord> },
    IrqAffinityRestore { records: Vec<IrqAffinityRestoreRecord> },
    CpuPowerRestore { records: Vec<CpuPowerRestoreRecord> },
    GpuPowerRestore { records: Vec<GpuPowerRestoreRecord> },
    VmKnobRestore { records: Vec<VmKnobRestoreRecord> },
    SysfsRestore { path: String, original_value: String },
}

/// The kind label of a token.
pub open spec fn token_kind(t: RollbackToken) -> Seq<char> {
    match t {
        RollbackToken::CpuAffinityRestoreFile { .. } => "cpu-affinity-restore-file"@,
        RollbackToken::NiceRestore { .. } => "nice-restore"@,
        RollbackToken::IoPrioRestore { .. } => "ioprio-restore"@,
        RollbackToken::UclampRestore { .. } => "uclamp-restore"@,
        RollbackToken::CgroupRestore { .. } => "cgroup-restore"@,
        RollbackToken::IrqAffinityRestore { .. } => "irq-affinity-restore"@,
        RollbackToken::CpuPowerRestore { .. } => "cpu-power-restore"@,
        RollbackToken::GpuPowerRestore { .. } => "gpu-power-restore"@,
        RollbackToken::VmKnobRestore { .. } => "vm-knob-restore"@,
        RollbackToken::SysfsRestore { .. } => "sysfs-restore"@,
    }
}

/// How many tasks or items a token restores: its record count, the count a restore
/// file was written with, or one for a single sysfs file.
pub open spec fn token_affected(t: RollbackToken) -> nat {
    match t {
        RollbackToken::CpuAffinityRestoreFile { affected_tasks, .. } => affected_tasks as nat,
        RollbackToken::NiceRestore { records } => records@.len(),
        RollbackToken::IoPrioRestore { records } => records@.len(),
        RollbackToken::UclampRestore { records } => records@.len(),
        RollbackToken::CgroupRestore { records, .. } => records@.len(),
        RollbackToken::IrqAffinityRestore { records } => records@.len(),
        RollbackToken::CpuPowerRestore { records } => records@.len(),
        RollbackToken::GpuPowerRestore { records } => records@.len(),
        RollbackToken::VmKnobRestore { records } => records@.len(),
        RollbackToken::SysfsRestore { .. } => 1,
    }
}

/// The file a token restores from, where it names one.
pub open spec fn token_path(t: RollbackToken) -> Option<Seq<char>> {
    match t {
        RollbackToken::CpuAffinityRestoreFile { path, .. } => Some(path@),
        RollbackToken::SysfsRestore { path, .. } => Some(path@),
        _ => None,
    }
}

/// A token of kind `actual` where `expected` was needed.
#[derive(Debug, Clone, Copy, PartialEq, Eq)]
pub struct RollbackTokenKindError {
    pub expected: &'static str,
    pub actual: &'static str,
}

/// The text a token-kind error displays.
pub open spec fn kind_error_text(k: RollbackTokenKindError) -> Seq<char> {
    "rollback token kind mismatch: expected "@ + k.expected@ + ", actual "@ + k.actual@
}

impl RollbackTokenKindError {
    /// The kind that was needed.
    pub fn expected(&self) -> (r: &'static str)
        ensures
            r == self.expected,
    {
        self.expected
    }

    /// The kind that was given.
    pub fn actual(&self) -> (r: &'static str)
        ensures
            r == self.actual,
    {
        self.actual
    }

    /// The text the error displays.
    pub fn message(&self) -> (r: String)
        ensures
            r@ == kind_error_text(*self),
    {
        cat4("rollback token kind mismatch: expected ", self.expected, ", actual ", self.actual)
    }
}

impl RollbackToken {
    /// The token's kind label.
    pub fn kind(&self) -> (r: &'static str)
        ensures
            r@ == token_kind(*self),
    {
        match self {
            RollbackToken::CpuAffinityRestoreFile { .. } => "cpu-affinity-restore-file",
            RollbackToken::NiceRestore { .. } => "nice-restore",
            RollbackToken::IoPrioRestore { .. } => "ioprio-restore",
            RollbackToken::UclampRestore { .. } => "uclamp-restore",
            RollbackToken::CgroupRestore { .. } => "cgroup-restore",
            RollbackToken::IrqAffinityRestore { .. } => "irq-affinity-restore",
            RollbackToken::CpuPowerRestore { .. } => "cpu-power-restore",
            RollbackToken::GpuPowerRestore { .. } => "gpu-power-restore",
            RollbackToken::VmKnobRestore { .. } => "vm-knob-restore",
            RollbackToken::SysfsRestore { .. } => "sysfs-restore",
        }
    }

    /// The error for handing this token where a token of kind `expected` was needed.
    pub fn kind_error(&self, expected: &'static str) -> (r: RollbackTokenKindError)
        ensures
            r.expected == expected,
            r.actual@ == token_kind(*self),
    {
        RollbackTokenKindError { expected, actual: self.kind() }
    }

    /// How many tasks or items the token restores.
    pub fn affected_tasks(&self) -> (r: usize)
        ensures
            r == token_affected(*self),
    {
        match self {
            RollbackToken::CpuAffinityRestoreFile { affected_tasks, .. } => *affected_tasks,
            RollbackToken::NiceRestore { records } => records.len(),
            RollbackToken::IoPrioRestore { records } => records.len(),
            RollbackToken::UclampRestore { records } => records.len(),
            RollbackToken::CgroupRestore { records, .. } => records.len(),
            RollbackToken::IrqAffinityRestore { records } => records.len(),
            RollbackToken::CpuPowerRestore { records } => records.len(),
            RollbackToken::GpuPowerRestore { records } => records.len(),
            RollbackToken::VmKnobRestore { records } => records.len(),
            RollbackToken::SysfsRestore { .. } => 1,
        }
    }

    /// The file the token restores from, where it names one.
    pub fn restore_path(&self) -> (r: Option<&String>)
        ensures
            match r {
                Some(p) => token_path(*self) == Some(p@),
                None => token_path(*self) is None,
            },
    {
        match self {
            RollbackToken::CpuAffinityRestoreFile { path, .. } => Some(path),
            RollbackToken::SysfsRestore { path, .. } => Some(path),
            _ => None,
        }
    }

    /// The restore file and its task count, for a CPU affinity token.
    pub fn as_cpu_affinity_restore_file(&self) -> (r: Option<(&String, usize)>)
        ensures
            match *self {
                RollbackToken::CpuAffinityRestoreFile { path, affected_tasks } => r == Some(
                    (&path, affected_tasks),
                ),
                _ => r is None,
            },
    {
        match self {
            RollbackToken::CpuAffinityRestoreFile { path, affected_tasks } => Some((path, *affected_tasks)),
            _ => None,
        }
    }

    /// The records of a nice token.
    pub fn as_nice_restore(&self) -> (r: Option<&Vec<NiceRestoreRecord>>)
        ensures
            match *self {
                RollbackToken::NiceRestore { records } => r == Some(&records),
                _ => r is None,
            },
    {
        match self {
            RollbackToken::NiceRestore { records } => Some(records),
            _ => None,
        }
    }

    /// The records of an I/O priority token.
    pub fn as_ioprio_restore(&self) -> (r: Option<&Vec<IoPrioRestoreRecord>>)
        ensures
            match *self {
                RollbackToken::IoPrioRestore { records } => r == Some(&records),
                _ => r is None,
            },
    {
        match self {
            RollbackToken::IoPrioRestore { records } => Some(records),
            _ => None,
        }
    }

    /// The records of an IRQ affinity token.
    pub fn as_irq_affinity_restore(&self) -> (r: Option<&Vec<IrqAffinityRestoreRecord>>)
        ensures
            match *self {
                RollbackToken::IrqAffinityRestore { records } => r == Some(&records),
                _ => r is None,
            },
    {
        match self {
            RollbackToken::IrqAffinityRestore { records } => Some(records),
            _ => None,
        }
    }

    /// The records of a GPU power token.
    pub fn as_gpu_power_restore(&self) -> (r: Option<&Vec<GpuPowerRestoreRecord>>)
        ensures
            match *self {
                RollbackToken::GpuPowerRestore { records } => r == Some(&records),
                _ => r is None,
            },
    {
        match self {
            RollbackToken::GpuPowerRestore { records } => Some(records),
            _ => None,
        }
    }

    /// The records of a CPU power token.
    pub fn as_cpu_power_restore(&self) -> (r: Option<&Vec<CpuPowerRestoreRecord>>)
        ensures
            match *self {
                RollbackToken::CpuPowerRestore { records } => r == Some(&records),
                _ => r is None,
            },
    {
        match self {
            RollbackToken::CpuPowerRestore { records } => Some(records),
            _ => None,
        }
    }
}


/// `format!("{t:?}")`: the `Debug` rendering of a token, as the derived impl writes it.
/// Nothing is stated of the text.
#[verifier::external_body]
pub(crate) fn token_debug_text(t: &RollbackToken) -> String {
    format!("{t:?}")
}

} // verus!
