//! Checks shared by the per-task actions: a requested target against what procfs
//! shows of it, and the warnings a changed command name or a missing process id raise.
use vstd::prelude::*;

use crate::error::{ActionBoundaryError, ActionSourceError};
use crate::model::{ActionWarning, TaskIdentity};
use crate::procfs::{parse_stat_starttime, stat_starttime};
use crate::text::{cat, debug_quote, debug_quoted, decimal, join_path, path_join, trim, trim_text,
    u64_to_string};

verus! {

/// What procfs shows of a requested task: its stat line, command and exe link
/// (`None` where unreadable).
#[derive(Debug, Clone, PartialEq, Eq)]
pub struct TaskObservation {
    pub stat: Option<String>,
    pub comm: Option<String>,
    pub exe: Option<String>,
}

/// A requested task as it was found.
#[derive(Debug, Clone, PartialEq, Eq)]
pub struct ObservedTask {
    pub tid: u32,
    pub process_pid: Option<u32>,
    pub comm: Option<String>,
    pub starttime_ticks: Option<u64>,
    pub exe: Option<String>,
}

/// The path of a file of a task's procfs directory.
pub open spec fn task_file_path(proc_root: Seq<char>, tid: u32, file: Seq<char>) -> Seq<char> {
    join_path(join_path(proc_root, decimal(tid as nat)), file)
}

/// The path of `file` in the procfs directory of `tid`.
pub fn task_file(proc_root: &str, tid: u32, file: &str) -> (r: String)
    ensures
        r@ == task_file_path(proc_root@, tid, file@),
{
    let t = u64_to_string(tid as u64);
    let dir = path_join(proc_root, t.as_str());
    path_join(dir.as_str(), file)
}

/// A command name as read: trimmed, and absent when empty.
pub open spec fn comm_value(raw: Option<String>) -> Option<Seq<char>> {
    match raw {
        Some(c) => if trim(c@).len() > 0 {
            Some(trim(c@))
        } else {
            None
        },
        None => None,
    }
}

/// A command name as read: trimmed, and absent when empty.
pub fn normalize_comm(raw: &Option<String>) -> (r: Option<String>)
    ensures
        match r {
            Some(c) => comm_value(*raw) == Some(c@),
            None => comm_value(*raw) is None,
        },
{
    match raw {
        Some(c) => {
            let t = trim_text(c.as_str());
            if t.unicode_len() > 0 {
                Some(t)
            } else {
                None
            }
        },
        None => None,
    }
}

/// Whether a requested target passes the check against its observation: a nonzero
/// tid, a readable stat line with a start time, and a matching recorded start time.
pub open spec fn target_passes(target: TaskIdentity, obs: TaskObservation) -> bool {
    &&& target.tid != 0
    &&& obs.stat matches Some(stat)
    &&& stat_starttime(stat@) matches Some(actual)
    &&& match target.starttime_ticks {
        Some(expected) => expected == actual,
        None => true,
    }
}

/// `e` is the error the check of a failing target reports.
pub open spec fn target_failure(
    action_kind: &'static str,
    proc_root: Seq<char>,
    target: TaskIdentity,
    obs: TaskObservation,
    e: ActionSourceError,
) -> bool {
    if target.tid == 0 {
        e == ActionSourceError::Boundary(ActionBoundaryError::InvalidTargetTid { action_kind, tid: 0 })
    } else {
        match obs.stat {
            None => e matches ActionSourceError::Message(m) && m@
                == "target task does not exist or stat is unreadable: "@ + task_file_path(
                proc_root,
                target.tid,
                "stat"@,
            ),
            Some(stat) => match stat_starttime(stat@) {
                None => e matches ActionSourceError::Message(m) && m@
                    == "failed to parse starttime from "@ + task_file_path(
                    proc_root,
                    target.tid,
                    "stat"@,
                ),
                Some(actual) => e == ActionSourceError::Boundary(
                    ActionBoundaryError::TargetIdentityMismatch {
                        action_kind,
                        tid: target.tid,
                        expected_starttime: target.starttime_ticks->0,
                        actual_starttime: actual,
                    },
                ),
            },
        }
    }
}

/// `t` is what a passing target is observed as: the request's tid and process id,
/// the start time read, the trimmed command name and the exe link.
pub open spec fn observed_as(target: TaskIdentity, obs: TaskObservation, t: ObservedTask) -> bool {
    &&& t.tid == target.tid
    &&& t.process_pid == target.process_pid
    &&& t.starttime_ticks == stat_starttime(obs.stat->0@)
    &&& t.exe == obs.exe
    &&& match t.comm {
        Some(c) => comm_value(obs.comm) == Some(c@),
        None => comm_value(obs.comm) is None,
    }
}

/// The outcome of checking a target against its observation.
pub open spec fn target_check_ok(
    action_kind: &'static str,
    proc_root: Seq<char>,
    target: TaskIdentity,
    obs: TaskObservation,
    r: Result<ObservedTask, ActionSourceError>,
) -> bool {
    if target_passes(target, obs) {
        r matches Ok(t) && observed_as(target, obs, t)
    } else {
        r matches Err(e) && target_failure(action_kind, proc_root, target, obs, e)
    }
}

/// Checks a requested target against what procfs shows: a tid of zero is refused, the
/// task must exist with a readable start time, and a recorded start time must match.
pub fn check_task_target(
    action_kind: &'static str,
    proc_root: &str,
    target: &TaskIdentity,
    obs: &TaskObservation,
) -> (r: Result<ObservedTask, ActionSourceError>)
    ensures
        target_check_ok(action_kind, proc_root@, *target, *obs, r),
{
    proof {
        reveal_strlit("stat");
    }
    if target.tid == 0 {
        return Err(
            ActionSourceError::Boundary(ActionBoundaryError::InvalidTargetTid { action_kind, tid: 0 }),
        );
    }
    let stat = match &obs.stat {
        None => {
            let path = task_file(proc_root, target.tid, "stat");
            return Err(
                ActionSourceError::Message(
                    cat("target task does not exist or stat is unreadable: ", path.as_str()),
                ),
            );
        },
        Some(s) => s,
    };
    let actual = match parse_stat_starttime(stat.as_str()) {
        None => {
            let path = task_file(proc_root, target.tid, "stat");
            return Err(
                ActionSourceError::Message(cat("failed to parse starttime from ", path.as_str())),
            );
        },
        Some(a) => a,
    };
    match target.starttime_ticks {
        Some(expected) => {
            if expected != actual {
                return Err(
                    ActionSourceError::Boundary(
                        ActionBoundaryError::TargetIdentityMismatch {
                            action_kind,
                            tid: target.tid,
                            expected_starttime: expected,
                            actual_starttime: actual,
                        },
                    ),
                );
            }
        },
        None => {},
    }
    Ok(
        ObservedTask {
            tid: target.tid,
            process_pid: target.process_pid,
            comm: normalize_comm(&obs.comm),
            starttime_ticks: Some(actual),
            exe: crate::model::copy_opt_string(&obs.exe),
        },
    )
}

/// The warning for a command name that changed since the request.
pub open spec fn comm_changed_text(tid: u32, expected: Seq<char>, actual: Seq<char>) -> Seq<char> {
    "target tid="@ + decimal(tid as nat) + " comm changed from "@ + debug_quoted(expected) + " to "@
        + debug_quoted(actual) + "; continuing because starttime matched or was not provided"@
}

/// The warning for a target without a process id.
pub open spec fn no_process_pid_text(tid: u32) -> Seq<char> {
    "target tid="@ + decimal(tid as nat) + " has no process_pid identity; rollback will use tid only"@
}

/// The warnings a target raises: a changed command name, then a missing process id.
pub open spec fn identity_warning_texts(target: TaskIdentity, observed_comm: Option<Seq<char>>) -> Seq<
    Seq<char>,
> {
    let first: Seq<Seq<char>> = match (target.comm, observed_comm) {
        (Some(e), Some(a)) => if e@ != a {
            seq![comm_changed_text(target.tid, e@, a)]
        } else {
            Seq::empty()
        },
        _ => Seq::empty(),
    };
    if target.process_pid is None {
        first.push(no_process_pid_text(target.tid))
    } else {
        first
    }
}

/// The messages of a list of warnings.
pub open spec fn warning_texts(w: Seq<ActionWarning>) -> Seq<Seq<char>> {
    w.map_values(|x: ActionWarning| x.message@)
}

/// The warnings a target raises, given the command name observed now.
pub fn identity_warnings(target: &TaskIdentity, observed_comm: &Option<String>) -> (r: Vec<
    ActionWarning,
>)
    ensures
        warning_texts(r@) == identity_warning_texts(
            *target,
            match *observed_comm {
                Some(c) => Some(c@),
                None => None,
            },
        ),
{
    let mut warnings: Vec<ActionWarning> = Vec::new();
    let t = u64_to_string(target.tid as u64);
    match (&target.comm, observed_comm) {
        (Some(e), Some(a)) => {
            if !(*e == *a) {
                let mut m = cat("target tid=", t.as_str());
                m.append(" comm changed from ");
                let eq = debug_quote(e.as_str());
                m.append(eq.as_str());
                m.append(" to ");
                let aq = debug_quote(a.as_str());
                m.append(aq.as_str());
                m.append("; continuing because starttime matched or was not provided");
                warnings.push(ActionWarning { message: m });
                assert(warning_texts(warnings@) =~= seq![comm_changed_text(target.tid, e@, a@)]);
            }
        },
        _ => {},
    }
    let ghost before = warnings@;
    if target.process_pid.is_none() {
        let mut m = cat("target tid=", t.as_str());
        m.append(" has no process_pid identity; rollback will use tid only");
        warnings.push(ActionWarning { message: m });
        assert(warning_texts(warnings@) =~= warning_texts(before).push(no_process_pid_text(target.tid)));
    }
    assert(warning_texts(warnings@) =~= identity_warning_texts(
        *target,
        match *observed_comm {
            Some(c) => Some(c@),
            None => None,
        },
    ));
    warnings
}

/// The tids of a list of targets, in order.
pub open spec fn tid_seq(targets: Seq<TaskIdentity>) -> Seq<u64> {
    targets.map_values(|t: TaskIdentity| t.tid as u64)
}

/// The tids of `targets`, in order.
pub fn target_tids(targets: &Vec<TaskIdentity>) -> (r: Vec<u64>)
    ensures
        r@ == tid_seq(targets@),
{
    let mut out: Vec<u64> = Vec::new();
    let mut i: usize = 0;
    while i < targets.len()
        invariant
            0 <= i <= targets@.len(),
            out@ =~= tid_seq(targets@).take(i as int),
        decreases targets@.len() - i,
    {
        out.push(targets[i].tid as u64);
        proof {
            assert(tid_seq(targets@).take(i + 1) =~= tid_seq(targets@).take(i as int).push(
                targets@[i as int].tid as u64,
            ));
        }
        i = i + 1;
    }
    assert(tid_seq(targets@).take(targets@.len() as int) =~= tid_seq(targets@));
    out
}

/// Appends copies of `more` to `out`.
pub fn append_warnings(out: &mut Vec<ActionWarning>, more: &Vec<ActionWarning>)
    ensures
        warning_texts(final(out)@) == warning_texts(old(out)@) + warning_texts(more@),
{
    let ghost start = out@;
    let mut i: usize = 0;
    while i < more.len()
        invariant
            0 <= i <= more@.len(),
            warning_texts(out@) =~= warning_texts(start) + warning_texts(more@).take(i as int),
        decreases more@.len() - i,
    {
        let ghost prev = out@;
        out.push(ActionWarning { message: more[i].message.clone() });
        proof {
            assert(warning_texts(out@) =~= warning_texts(prev).push(more@[i as int].message@));
            assert(warning_texts(more@).take(i + 1) =~= warning_texts(more@).take(i as int).push(
                more@[i as int].message@,
            ));
        }
        i = i + 1;
    }
    assert(warning_texts(more@).take(more@.len() as int) =~= warning_texts(more@));
}

} // verus!
