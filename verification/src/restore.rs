//! Best-effort restores of per-task state: the tally of a restore run, how a failed
//! write is classified, and how a recorded task identity is checked against what
//! procfs shows now.
use vstd::prelude::*;

use crate::model::TaskRestoreIdentity;
use crate::cgroup::{lines_of, text_lines};
use crate::procfs::{parse_stat_starttime, parse_u64, parse_unsigned, stat_starttime};
use crate::text::{cat, cat3, decimal, i64_to_string, join, join_strings, signed_decimal, trim, trim_text, u64_to_string, views};

verus! {

/// Counts of a best-effort restore run.
#[derive(Debug, Clone, Copy, Default, PartialEq, Eq)]
pub struct RestoreSummary {
    pub restored: usize,
    pub skipped_missing: usize,
    pub skipped_identity_mismatch: usize,
    pub failed: usize,
}

impl RestoreSummary {
    /// A summary with every count zero.
    pub fn new() -> (r: Self)
        ensures
            r == (RestoreSummary { restored: 0, skipped_missing: 0, skipped_identity_mismatch: 0, failed: 0 }),
    {
        RestoreSummary { restored: 0, skipped_missing: 0, skipped_identity_mismatch: 0, failed: 0 }
    }

    /// Counts one restored record.
    pub fn record_restored(&mut self)
        requires
            old(self).restored < usize::MAX,
        ensures
            *final(self) == (RestoreSummary { restored: (old(self).restored + 1) as usize, ..*old(self) }),
    {
        self.restored = self.restored + 1;
    }

    /// Counts one record whose task is gone.
    pub fn record_missing(&mut self)
        requires
            old(self).skipped_missing < usize::MAX,
        ensures
            *final(self) == (RestoreSummary {
                skipped_missing: (old(self).skipped_missing + 1) as usize,
                ..*old(self)
            }),
    {
        self.skipped_missing = self.skipped_missing + 1;
    }

    /// Counts one record whose tid now belongs to another task.
    pub fn record_identity_mismatch(&mut self)
        requires
            old(self).skipped_identity_mismatch < usize::MAX,
        ensures
            *final(self) == (RestoreSummary {
                skipped_identity_mismatch: (old(self).skipped_identity_mismatch + 1) as usize,
                ..*old(self)
            }),
    {
        self.skipped_identity_mismatch = self.skipped_identity_mismatch + 1;
    }

    /// Counts one record whose restore failed.
    pub fn record_failure(&mut self)
        requires
            old(self).failed < usize::MAX,
        ensures
            *final(self) == (RestoreSummary { failed: (old(self).failed + 1) as usize, ..*old(self) }),
    {
        self.failed = self.failed + 1;
    }

    /// Whether any restore failed.
    pub fn has_failures(self) -> (r: bool)
        ensures
            r == (self.failed > 0),
    {
        self.failed > 0
    }
}

/// The kinds of I/O error that the classification of a failed write tells apart.
#[derive(Debug, Clone, Copy, PartialEq, Eq, Structural)]
pub enum IoErrorKind {
    NotFound,
    PermissionDenied,
    InvalidInput,
    InvalidData,
    Other,
}

/// A failed restore write: whether it was an I/O error, and its kind, errno and text.
#[derive(Debug, Clone, PartialEq, Eq)]
pub struct WriteFailure {
    pub io_kind: Option<IoErrorKind>,
    pub raw_os_error: Option<i32>,
    pub message: String,
}

/// A failed restore write, classified.
#[derive(Debug, Clone, PartialEq, Eq)]
pub enum RestoreWriteError {
    /// The task is gone; the record is skipped, not failed.
    MissingTask,
    PermissionDenied(String),
    InvalidValue(String),
    Io(String),
}

/// `libc::ESRCH`, the errno of a missing process.
#[verifier::external_body]
fn errno_esrch() -> (r: i32)
    ensures
        r == 3,
{
    libc::ESRCH
}

/// `libc::EINVAL`, the errno of an invalid argument.
#[verifier::external_body]
fn errno_einval() -> (r: i32)
    ensures
        r == 22,
{
    libc::EINVAL
}

/// The class of a failed write, given whether the task's procfs directory still exists:
/// ESRCH, or not-found while the task is gone, is a missing task; a permission error,
/// invalid input or data, or EINVAL is what it says; anything else is an I/O failure.
pub open spec fn write_error_class(f: WriteFailure, task_exists: bool) -> int {
    match f.io_kind {
        None => 3,
        Some(kind) => if f.raw_os_error == Some(3i32) || (kind == IoErrorKind::NotFound
            && !task_exists) {
            0
        } else if kind == IoErrorKind::PermissionDenied {
            1
        } else if kind == IoErrorKind::InvalidInput || kind == IoErrorKind::InvalidData
            || f.raw_os_error == Some(22i32) {
            2
        } else {
            3
        },
    }
}

/// Whether classifying `f` needs to know if the task still exists.
pub fn needs_task_check(f: &WriteFailure) -> (r: bool)
    ensures
        r == (f.io_kind == Some(IoErrorKind::NotFound) && f.raw_os_error != Some(3i32)),
{
    let esrch = errno_esrch();
    match f.io_kind {
        Some(IoErrorKind::NotFound) => match f.raw_os_error {
            Some(code) => code != esrch,
            None => true,
        },
        _ => false,
    }
}

/// Classifies a failed restore write.
pub fn classify_restore_write_error(f: WriteFailure, task_exists: bool) -> (r: RestoreWriteError)
    ensures
        match r {
            RestoreWriteError::MissingTask => write_error_class(f, task_exists) == 0,
            RestoreWriteError::PermissionDenied(m) => write_error_class(f, task_exists) == 1 && m
                == f.message,
            RestoreWriteError::InvalidValue(m) => write_error_class(f, task_exists) == 2 && m
                == f.message,
            RestoreWriteError::Io(m) => write_error_class(f, task_exists) == 3 && m == f.message,
        },
{
    let esrch = errno_esrch();
    let einval = errno_einval();
    match f.io_kind {
        None => RestoreWriteError::Io(f.message),
        Some(kind) => {
            let is_esrch = match f.raw_os_error {
                Some(c) => c == esrch,
                None => false,
            };
            let is_einval = match f.raw_os_error {
                Some(c) => c == einval,
                None => false,
            };
            if is_esrch || (kind == IoErrorKind::NotFound && !task_exists) {
                RestoreWriteError::MissingTask
            } else if kind == IoErrorKind::PermissionDenied {
                RestoreWriteError::PermissionDenied(f.message)
            } else if kind == IoErrorKind::InvalidInput || kind == IoErrorKind::InvalidData || is_einval {
                RestoreWriteError::InvalidValue(f.message)
            } else {
                RestoreWriteError::Io(f.message)
            }
        },
    }
}

/// Whether a recorded task is still the task now running under its tid.
#[derive(Debug, Clone, PartialEq, Eq)]
pub enum RestoreIdentityStatus {
    SameTask,
    Missing,
    Mismatch { reason: String },
    UnknownLegacy,
}

/// What procfs shows now of a recorded task: its stat line (`None` when unreadable), the
/// `Tgid:` of its status file (`None` when the file is unreadable, `Some(None)` when it
/// has no such line), and the stat line of its process leader when that is another task.
#[derive(Debug, Clone, PartialEq, Eq)]
pub struct TaskProcObservation {
    pub stat: Option<String>,
    pub status_tgid: Option<Option<u32>>,
    pub process_stat: Option<String>,
}

/// The `Tgid:` value a line of `/proc/<tid>/status` gives: the trimmed rest of a line
/// starting with `Tgid:`, parsed as `str::parse::<u32>` parses it.
pub open spec fn line_tgid(line: Seq<char>) -> Option<u32> {
    if line.len() >= 5 && line.take(5) == "Tgid:"@ {
        match parse_unsigned(trim(line.skip(5))) {
            Some(v) => if v <= u32::MAX {
                Some(v as u32)
            } else {
                None
            },
            None => None,
        }
    } else {
        None
    }
}

/// The first `Tgid:` value among lines.
pub open spec fn first_tgid(lines: Seq<Seq<char>>) -> Option<u32>
    decreases lines.len(),
{
    if lines.len() == 0 {
        None
    } else {
        match line_tgid(lines[0]) {
            Some(v) => Some(v),
            None => first_tgid(lines.drop_first()),
        }
    }
}

/// The `Tgid:` value of one status line.
fn tgid_of_line(line: &str) -> (r: Option<u32>)
    ensures
        r == line_tgid(line@),
{
    proof {
        reveal_strlit("Tgid:");
    }
    let n = line.unicode_len();
    if n < 5 {
        return None;
    }
    if !(line.get_char(0) == 'T' && line.get_char(1) == 'g' && line.get_char(2) == 'i' && line.get_char(3) == 'd'
        && line.get_char(4) == ':') {
        assert(line@.take(5) != "Tgid:"@) by {
            if line@.take(5) == "Tgid:"@ {
                assert(line@.take(5)[0] == 'T');
                assert(line@.take(5)[1] == 'g');
                assert(line@.take(5)[2] == 'i');
                assert(line@.take(5)[3] == 'd');
                assert(line@.take(5)[4] == ':');
            }
        }
        return None;
    }
    assert(line@.take(5) =~= "Tgid:"@);
    let mut rest = String::new();
    let mut i: usize = 5;
    while i < n
        invariant
            n == line@.len(),
            5 <= i <= n,
            rest@ == line@.subrange(5, i as int),
        decreases n - i,
    {
        crate::text::push_char(&mut rest, line.get_char(i));
        assert(line@.subrange(5, i + 1) =~= line@.subrange(5, i as int).push(line@[i as int]));
        i = i + 1;
    }
    assert(line@.subrange(5, n as int) =~= line@.skip(5));
    let t = trim_text(rest.as_str());
    match parse_u64(t.as_str()) {
        Some(v) => if v <= 4294967295u64 {
            Some(v as u32)
        } else {
            None
        },
        None => None,
    }
}

/// The process id the `Tgid:` line of a `/proc/<tid>/status` file names: the first such
/// line whose value parses.
pub fn parse_status_tgid(status: &str) -> (r: Option<u32>)
    ensures
        r == first_tgid(text_lines(status@)),
{
    let lines = lines_of(status);
    let ghost all = views(lines@);
    assert(all.skip(0) =~= all);
    let mut i: usize = 0;
    while i < lines.len()
        invariant
            0 <= i <= lines@.len(),
            all == views(lines@),
            all == text_lines(status@),
            first_tgid(all) == first_tgid(all.skip(i as int)),
        decreases lines@.len() - i,
    {
        assert(all.skip(i as int)[0] == lines@[i as int]@);
        assert(all.skip(i as int).drop_first() =~= all.skip(i + 1));
        match tgid_of_line(lines[i].as_str()) {
            Some(v) => return Some(v),
            None => {},
        }
        i = i + 1;
    }
    assert(all.skip(i as int) =~= Seq::<Seq<char>>::empty());
    None
}

/// The outcome of an identity check, with the mismatch reason as text.
pub enum IdentityVerdict {
    SameTask,
    Missing,
    UnknownLegacy,
    Mismatch(Seq<char>),
}

/// "`label` mismatch: expected=E actual=A".
pub open spec fn mismatch_text(label: Seq<char>, expected: nat, actual: nat) -> Seq<char> {
    label + " mismatch: expected="@ + decimal(expected) + " actual="@ + decimal(actual)
}

/// The verdict of checking `id` against `obs`: a missing stat means a missing task; the
/// task's start time must match (a record without one is legacy); then the process id,
/// then the process start time, where recorded.
pub open spec fn identity_verdict(id: TaskRestoreIdentity, obs: TaskProcObservation) -> IdentityVerdict {
    match obs.stat {
        None => IdentityVerdict::Missing,
        Some(stat) => {
            let current = stat_starttime(stat@);
            match id.starttime_ticks {
                None => IdentityVerdict::UnknownLegacy,
                Some(expected) => match current {
                    None => IdentityVerdict::Mismatch("unable to parse current starttime"@),
                    Some(actual) => if expected != actual {
                        IdentityVerdict::Mismatch(
                            mismatch_text("starttime_ticks"@, expected as nat, actual as nat),
                        )
                    } else {
                        process_verdict(id, obs, current)
                    },
                },
            }
        },
    }
}

/// The part of the verdict that checks the recorded process id and process start time.
pub open spec fn process_verdict(
    id: TaskRestoreIdentity,
    obs: TaskProcObservation,
    current: Option<u64>,
) -> IdentityVerdict {
    match id.process_pid {
        None => IdentityVerdict::SameTask,
        Some(pp) => match obs.status_tgid {
            None => IdentityVerdict::Mismatch("unable to read current process_pid"@),
            Some(None) => IdentityVerdict::Mismatch("unable to parse current process_pid"@),
            Some(Some(actual)) => if actual != pp {
                IdentityVerdict::Mismatch(mismatch_text("process_pid"@, pp as nat, actual as nat))
            } else {
                match id.process_starttime_ticks {
                    None => IdentityVerdict::SameTask,
                    Some(expected) => {
                        let cur = if pp == id.tid {
                            current
                        } else {
                            match obs.process_stat {
                                Some(ps) => stat_starttime(ps@),
                                None => None,
                            }
                        };
                        match cur {
                            None => IdentityVerdict::Mismatch(
                                "unable to verify current process starttime"@,
                            ),
                            Some(a) => if a != expected {
                                IdentityVerdict::Mismatch(
                                    mismatch_text(
                                        "process_starttime_ticks"@,
                                        expected as nat,
                                        a as nat,
                                    ),
                                )
                            } else {
                                IdentityVerdict::SameTask
                            },
                        }
                    },
                }
            },
        },
    }
}

/// `status` matches `verdict`.
pub open spec fn status_matches(status: RestoreIdentityStatus, verdict: IdentityVerdict) -> bool {
    match verdict {
        IdentityVerdict::SameTask => status == RestoreIdentityStatus::SameTask,
        IdentityVerdict::Missing => status == RestoreIdentityStatus::Missing,
        IdentityVerdict::UnknownLegacy => status == RestoreIdentityStatus::UnknownLegacy,
        IdentityVerdict::Mismatch(t) => status matches RestoreIdentityStatus::Mismatch { reason }
            && reason@ == t,
    }
}

fn mismatch(label: &str, expected: u64, actual: u64) -> (r: RestoreIdentityStatus)
    ensures
        r matches RestoreIdentityStatus::Mismatch { reason } && reason@ == mismatch_text(
            label@,
            expected as nat,
            actual as nat,
        ),
{
    let e = u64_to_string(expected);
    let a = u64_to_string(actual);
    let mut s = cat(label, " mismatch: expected=");
    s.append(e.as_str());
    s.append(" actual=");
    s.append(a.as_str());
    RestoreIdentityStatus::Mismatch { reason: s }
}

fn mismatch_reason(reason: &str) -> (r: RestoreIdentityStatus)
    ensures
        r matches RestoreIdentityStatus::Mismatch { reason: m } && m@ == reason@,
{
    RestoreIdentityStatus::Mismatch { reason: reason.to_owned() }
}

/// Checks a recorded identity against what procfs shows now.
pub fn verify_task_identity(identity: &TaskRestoreIdentity, obs: &TaskProcObservation) -> (r:
    RestoreIdentityStatus)
    ensures
        status_matches(r, identity_verdict(*identity, *obs)),
{
    let stat = match &obs.stat {
        None => {
            return RestoreIdentityStatus::Missing;
        },
        Some(s) => s,
    };
    let current = parse_stat_starttime(stat.as_str());
    match identity.starttime_ticks {
        None => {
            return RestoreIdentityStatus::UnknownLegacy;
        },
        Some(expected) => match current {
            None => {
                return mismatch_reason("unable to parse current starttime");
            },
            Some(actual) => {
                if expected != actual {
                    return mismatch("starttime_ticks", expected, actual);
                }
            },
        },
    }
    let pp = match identity.process_pid {
        None => {
            return RestoreIdentityStatus::SameTask;
        },
        Some(pp) => pp,
    };
    match obs.status_tgid {
        None => {
            return mismatch_reason("unable to read current process_pid");
        },
        Some(None) => {
            return mismatch_reason("unable to parse current process_pid");
        },
        Some(Some(actual)) => {
            if actual != pp {
                return mismatch("process_pid", pp as u64, actual as u64);
            }
        },
    }
    let expected = match identity.process_starttime_ticks {
        None => {
            return RestoreIdentityStatus::SameTask;
        },
        Some(e) => e,
    };
    let cur = if pp == identity.tid {
        current
    } else {
        match &obs.process_stat {
            Some(ps) => parse_stat_starttime(ps.as_str()),
            None => None,
        }
    };
    match cur {
        None => mismatch_reason("unable to verify current process starttime"),
        Some(a) => if a != expected {
            mismatch("process_starttime_ticks", expected, a)
        } else {
            RestoreIdentityStatus::SameTask
        },
    }
}

/// What a restore does with a record, given the identity check.
#[derive(Debug, Clone, Copy, PartialEq, Eq, Structural)]
pub enum RestoreDecision {
    /// The task is gone: skip the record.
    SkipMissing,
    /// The tid belongs to another task now: skip the record.
    SkipMismatch,
    /// Write the original value; `legacy` when the identity could not be verified.
    Write { legacy: bool },
}

/// What a restore does with a record: skip missing and mismatched tasks, write the rest.
pub fn restore_decision(status: &RestoreIdentityStatus) -> (r: RestoreDecision)
    ensures
        r == (match *status {
            RestoreIdentityStatus::Missing => RestoreDecision::SkipMissing,
            RestoreIdentityStatus::Mismatch { .. } => RestoreDecision::SkipMismatch,
            RestoreIdentityStatus::UnknownLegacy => RestoreDecision::Write { legacy: true },
            RestoreIdentityStatus::SameTask => RestoreDecision::Write { legacy: false },
        }),
{
    match status {
        RestoreIdentityStatus::Missing => RestoreDecision::SkipMissing,
        RestoreIdentityStatus::Mismatch { .. } => RestoreDecision::SkipMismatch,
        RestoreIdentityStatus::UnknownLegacy => RestoreDecision::Write { legacy: true },
        RestoreIdentityStatus::SameTask => RestoreDecision::Write { legacy: false },
    }
}

/// How restoring one per-task record came out.
#[derive(Debug, Clone, PartialEq, Eq)]
pub enum TaskRestoreEvent {
    /// The task is gone; nothing was written.
    Missing,
    /// The tid belongs to another task now; nothing was written.
    Mismatch { reason: String },
    /// The original value was written back (`legacy`: without a verified identity).
    Written { legacy: bool },
    /// The write found the task gone.
    WriteMissing { legacy: bool },
    /// The write failed with `error`.
    WriteFailed { legacy: bool, error: String },
}

/// The event of a record, given its identity check and, where the check let the write
/// go ahead, how the write came out.
pub open spec fn event_for(
    status: RestoreIdentityStatus,
    write: Option<Result<(), RestoreWriteError>>,
    e: TaskRestoreEvent,
) -> bool {
    match status {
        RestoreIdentityStatus::Missing => e == TaskRestoreEvent::Missing,
        RestoreIdentityStatus::Mismatch { reason } => e == TaskRestoreEvent::Mismatch { reason },
        _ => {
            let legacy = status == RestoreIdentityStatus::UnknownLegacy;
            match write {
                None => e == TaskRestoreEvent::WriteFailed { legacy, error: e->error },
                Some(Ok(())) => e == TaskRestoreEvent::Written { legacy },
                Some(Err(RestoreWriteError::MissingTask)) => e == TaskRestoreEvent::WriteMissing { legacy },
                Some(Err(RestoreWriteError::PermissionDenied(m))) => e == TaskRestoreEvent::WriteFailed { legacy, error: m },
                Some(Err(RestoreWriteError::InvalidValue(m))) => e == TaskRestoreEvent::WriteFailed { legacy, error: m },
                Some(Err(RestoreWriteError::Io(m))) => e == TaskRestoreEvent::WriteFailed { legacy, error: m },
            }
        },
    }
}

/// The event of a record from its identity check and the outcome of the write that the
/// check let go ahead (`None` where no write was made although one was due: a failure
/// with an empty message).
pub fn restore_event(status: RestoreIdentityStatus, write: Option<Result<(), RestoreWriteError>>) -> (r:
    TaskRestoreEvent)
    ensures
        event_for(status, write, r),
        write is None && !(status is Missing || status is Mismatch) ==> r->error@ == Seq::<char>::empty(),
{
    match status {
        RestoreIdentityStatus::Missing => TaskRestoreEvent::Missing,
        RestoreIdentityStatus::Mismatch { reason } => TaskRestoreEvent::Mismatch { reason },
        RestoreIdentityStatus::UnknownLegacy | RestoreIdentityStatus::SameTask => {
            let legacy = match status {
                RestoreIdentityStatus::UnknownLegacy => true,
                _ => false,
            };
            match write {
                None => TaskRestoreEvent::WriteFailed { legacy, error: String::new() },
                Some(Ok(())) => TaskRestoreEvent::Written { legacy },
                Some(Err(RestoreWriteError::MissingTask)) => TaskRestoreEvent::WriteMissing { legacy },
                Some(Err(RestoreWriteError::PermissionDenied(m))) => TaskRestoreEvent::WriteFailed { legacy, error: m },
                Some(Err(RestoreWriteError::InvalidValue(m))) => TaskRestoreEvent::WriteFailed { legacy, error: m },
                Some(Err(RestoreWriteError::Io(m))) => TaskRestoreEvent::WriteFailed { legacy, error: m },
            }
        },
    }
}

/// A record that a restore visited: its tid, the value it restores, and how it came out.
#[derive(Debug, Clone, PartialEq, Eq)]
pub struct TaskRestoreItem {
    pub tid: u32,
    pub original: i64,
    pub event: TaskRestoreEvent,
}

/// How many items satisfy `p`.
pub open spec fn count_items(items: Seq<TaskRestoreItem>, p: spec_fn(TaskRestoreEvent) -> bool) -> nat
    decreases items.len(),
{
    if items.len() == 0 {
        0
    } else {
        count_items(items.drop_last(), p) + if p(items.last().event) {
            1nat
        } else {
            0nat
        }
    }
}

pub open spec fn is_restored(e: TaskRestoreEvent) -> bool {
    e is Written
}

pub open spec fn is_skipped_dead(e: TaskRestoreEvent) -> bool {
    e is Missing || e is WriteMissing
}

pub open spec fn is_mismatch(e: TaskRestoreEvent) -> bool {
    e is Mismatch
}

pub open spec fn is_legacy(e: TaskRestoreEvent) -> bool {
    match e {
        TaskRestoreEvent::Written { legacy } => legacy,
        TaskRestoreEvent::WriteMissing { legacy } => legacy,
        TaskRestoreEvent::WriteFailed { legacy, .. } => legacy,
        _ => false,
    }
}

pub open spec fn is_failed(e: TaskRestoreEvent) -> bool {
    e is WriteFailed
}

/// The text of a failed write: "failed to restore original `what`=`value` for tid=`tid`: `error`".
pub open spec fn write_failure_text(what: Seq<char>, item: TaskRestoreItem) -> Seq<char> {
    "failed to restore original "@ + what + "="@ + signed_decimal(item.original as int) + " for tid="@
        + decimal(item.tid as nat) + ": "@ + item.event->error@
}

/// The text of a skipped mismatch: "`kind` restore identity mismatch for tid=`tid`: `reason`".
pub open spec fn mismatch_message(kind: Seq<char>, item: TaskRestoreItem) -> Seq<char> {
    kind + " restore identity mismatch for tid="@ + decimal(item.tid as nat) + ": "@
        + item.event->reason@
}

/// The messages a token restore reports: one per mismatch and per failed write, in order.
pub open spec fn restore_messages(kind: Seq<char>, what: Seq<char>, items: Seq<TaskRestoreItem>) -> Seq<
    Seq<char>,
>
    decreases items.len(),
{
    if items.len() == 0 {
        Seq::empty()
    } else {
        let rest = restore_messages(kind, what, items.drop_last());
        let it = items.last();
        if it.event is Mismatch {
            rest.push(mismatch_message(kind, it))
        } else if it.event is WriteFailed {
            rest.push(write_failure_text(what, it))
        } else {
            rest
        }
    }
}

/// The messages of the failed writes alone, in order.
pub open spec fn failure_messages(what: Seq<char>, items: Seq<TaskRestoreItem>) -> Seq<Seq<char>>
    decreases items.len(),
{
    if items.len() == 0 {
        Seq::empty()
    } else {
        let rest = failure_messages(what, items.drop_last());
        if items.last().event is WriteFailed {
            rest.push(write_failure_text(what, items.last()))
        } else {
            rest
        }
    }
}

/// The counts and messages of a token restore of per-task records.
#[derive(Debug, Clone, PartialEq, Eq)]
pub struct TaskRestoreTally {
    pub restored: usize,
    pub skipped_dead: usize,
    pub skipped_identity_mismatch: usize,
    pub legacy_unverified: usize,
    pub errors: usize,
    pub messages: Vec<String>,
    pub failures: Vec<String>,
}

/// `t` tallies `items`.
pub open spec fn tally_matches(kind: Seq<char>, what: Seq<char>, items: Seq<TaskRestoreItem>, t: TaskRestoreTally) -> bool {
    &&& t.restored == count_items(items, |e: TaskRestoreEvent| is_restored(e))
    &&& t.skipped_dead == count_items(items, |e: TaskRestoreEvent| is_skipped_dead(e))
    &&& t.skipped_identity_mismatch == count_items(items, |e: TaskRestoreEvent| is_mismatch(e))
    &&& t.legacy_unverified == count_items(items, |e: TaskRestoreEvent| is_legacy(e))
    &&& t.errors == count_items(items, |e: TaskRestoreEvent| is_failed(e))
    &&& views(t.messages@) == restore_messages(kind, what, items)
    &&& views(t.failures@) == failure_messages(what, items)
}

proof fn lemma_count_bound(items: Seq<TaskRestoreItem>, p: spec_fn(TaskRestoreEvent) -> bool)
    ensures
        count_items(items, p) <= items.len(),
    decreases items.len(),
{
    if items.len() > 0 {
        lemma_count_bound(items.drop_last(), p);
    }
}

/// Tallies the records a token restore visited: counts by outcome, the messages of
/// mismatches and failed writes, and the failed writes' messages alone.
pub fn tally_task_restores(kind: &str, what: &str, items: &Vec<TaskRestoreItem>) -> (r: TaskRestoreTally)
    ensures
        tally_matches(kind@, what@, items@, r),
{
    let mut t = TaskRestoreTally {
        restored: 0,
        skipped_dead: 0,
        skipped_identity_mismatch: 0,
        legacy_unverified: 0,
        errors: 0,
        messages: Vec::new(),
        failures: Vec::new(),
    };
    let mut i: usize = 0;
    assert(items@.take(0) =~= Seq::<TaskRestoreItem>::empty());
    assert(views(t.messages@) =~= Seq::<Seq<char>>::empty());
    assert(views(t.failures@) =~= Seq::<Seq<char>>::empty());
    while i < items.len()
        invariant
            0 <= i <= items@.len(),
            tally_matches(kind@, what@, items@.take(i as int), t),
        decreases items@.len() - i,
    {
        let ghost prev = items@.take(i as int);
        proof {
            assert(items@.take(i + 1).drop_last() =~= prev);
            lemma_count_bound(prev, |e: TaskRestoreEvent| is_restored(e));
            lemma_count_bound(prev, |e: TaskRestoreEvent| is_skipped_dead(e));
            lemma_count_bound(prev, |e: TaskRestoreEvent| is_mismatch(e));
            lemma_count_bound(prev, |e: TaskRestoreEvent| is_legacy(e));
            lemma_count_bound(prev, |e: TaskRestoreEvent| is_failed(e));
        }
        let it = &items[i];
        let tid = u64_to_string(it.tid as u64);
        match &it.event {
            TaskRestoreEvent::Missing => {
                t.skipped_dead = t.skipped_dead + 1;
            },
            TaskRestoreEvent::Mismatch { reason } => {
                t.skipped_identity_mismatch = t.skipped_identity_mismatch + 1;
                let mut m = cat(kind, " restore identity mismatch for tid=");
                m.append(tid.as_str());
                m.append(": ");
                m.append(reason.as_str());
                let ghost before = t.messages@;
                t.messages.push(m);
                assert(views(t.messages@) =~= views(before).push(mismatch_message(kind@, *it)));
            },
            TaskRestoreEvent::Written { legacy } => {
                t.restored = t.restored + 1;
                if *legacy {
                    t.legacy_unverified = t.legacy_unverified + 1;
                }
            },
            TaskRestoreEvent::WriteMissing { legacy } => {
                t.skipped_dead = t.skipped_dead + 1;
                if *legacy {
                    t.legacy_unverified = t.legacy_unverified + 1;
                }
            },
            TaskRestoreEvent::WriteFailed { legacy, error } => {
                t.errors = t.errors + 1;
                if *legacy {
                    t.legacy_unverified = t.legacy_unverified + 1;
                }
                let value = i64_to_string(it.original);
                let mut m = cat3("failed to restore original ", what, "=");
                m.append(value.as_str());
                m.append(" for tid=");
                m.append(tid.as_str());
                m.append(": ");
                m.append(error.as_str());
                let ghost before = t.messages@;
                let ghost before_f = t.failures@;
                t.failures.push(m.clone());
                t.messages.push(m);
                assert(views(t.messages@) =~= views(before).push(write_failure_text(what@, *it)));
                assert(views(t.failures@) =~= views(before_f).push(write_failure_text(what@, *it)));
            },
        }
        i = i + 1;
    }
    assert(items@.take(items@.len() as int) =~= items@);
    t
}

/// The restore summary a tally stands for (missing tasks, whether found by the identity
/// check or by the write, are both skipped as missing).
pub open spec fn summary_of(t: TaskRestoreTally) -> RestoreSummary {
    RestoreSummary {
        restored: t.restored,
        skipped_missing: t.skipped_dead,
        skipped_identity_mismatch: t.skipped_identity_mismatch,
        failed: t.errors,
    }
}

/// The restore summary of a tally.
pub fn tally_summary(t: &TaskRestoreTally) -> (r: RestoreSummary)
    ensures
        r == summary_of(*t),
{
    RestoreSummary {
        restored: t.restored,
        skipped_missing: t.skipped_dead,
        skipped_identity_mismatch: t.skipped_identity_mismatch,
        failed: t.errors,
    }
}

/// "failed to rollback `what` after attempting all records: restored=.. skipped_missing=..
/// skipped_identity_mismatch=.. failed=.. errors=`failures joined with "; "`".
pub open spec fn rollback_failure_text(what: Seq<char>, t: TaskRestoreTally) -> Seq<char> {
    "failed to rollback "@ + what + " after attempting all records: restored="@ + decimal(
        t.restored as nat,
    ) + " skipped_missing="@ + decimal(t.skipped_dead as nat) + " skipped_identity_mismatch="@
        + decimal(t.skipped_identity_mismatch as nat) + " failed="@ + decimal(t.errors as nat)
        + " errors="@ + join(views(t.failures@), "; "@)
}

/// The message an action's rollback fails with when a write failed.
pub fn rollback_failure_message(what: &str, t: &TaskRestoreTally) -> (r: String)
    ensures
        r@ == rollback_failure_text(what@, *t),
{
    let mut m = cat3("failed to rollback ", what, " after attempting all records: restored=");
    let a = u64_to_string(t.restored as u64);
    m.append(a.as_str());
    m.append(" skipped_missing=");
    let b = u64_to_string(t.skipped_dead as u64);
    m.append(b.as_str());
    m.append(" skipped_identity_mismatch=");
    let c = u64_to_string(t.skipped_identity_mismatch as u64);
    m.append(c.as_str());
    m.append(" failed=");
    let d = u64_to_string(t.errors as u64);
    m.append(d.as_str());
    m.append(" errors=");
    let f = join_strings(&t.failures, "; ");
    m.append(f.as_str());
    m
}

/// How many events satisfy `p`.
pub open spec fn count_events(evs: Seq<TaskRestoreEvent>, p: spec_fn(TaskRestoreEvent) -> bool) -> nat
    decreases evs.len(),
{
    if evs.len() == 0 {
        0
    } else {
        count_events(evs.drop_last(), p) + if p(evs.last()) {
            1nat
        } else {
            0nat
        }
    }
}

/// The counts of a restore run by outcome.
#[derive(Debug, Clone, Copy, PartialEq, Eq)]
pub struct RestoreCounts {
    pub restored: usize,
    pub skipped_dead: usize,
    pub skipped_identity_mismatch: usize,
    pub legacy_unverified: usize,
    pub errors: usize,
}

/// `c` counts the events `evs`.
pub open spec fn counts_match(evs: Seq<TaskRestoreEvent>, c: RestoreCounts) -> bool {
    &&& c.restored == count_events(evs, |e: TaskRestoreEvent| is_restored(e))
    &&& c.skipped_dead == count_events(evs, |e: TaskRestoreEvent| is_skipped_dead(e))
    &&& c.skipped_identity_mismatch == count_events(evs, |e: TaskRestoreEvent| is_mismatch(e))
    &&& c.legacy_unverified == count_events(evs, |e: TaskRestoreEvent| is_legacy(e))
    &&& c.errors == count_events(evs, |e: TaskRestoreEvent| is_failed(e))
}

proof fn lemma_count_events_bound(evs: Seq<TaskRestoreEvent>, p: spec_fn(TaskRestoreEvent) -> bool)
    ensures
        count_events(evs, p) <= evs.len(),
    decreases evs.len(),
{
    if evs.len() > 0 {
        lemma_count_events_bound(evs.drop_last(), p);
    }
}

/// Counts never exceed the number of events counted.
pub proof fn lemma_counts_fit(evs: Seq<TaskRestoreEvent>, c: RestoreCounts)
    requires
        counts_match(evs, c),
    ensures
        c.restored <= evs.len(),
        c.skipped_dead <= evs.len(),
        c.skipped_identity_mismatch <= evs.len(),
        c.legacy_unverified <= evs.len(),
        c.errors <= evs.len(),
{
    lemma_count_events_bound(evs, |e: TaskRestoreEvent| is_restored(e));
    lemma_count_events_bound(evs, |e: TaskRestoreEvent| is_skipped_dead(e));
    lemma_count_events_bound(evs, |e: TaskRestoreEvent| is_mismatch(e));
    lemma_count_events_bound(evs, |e: TaskRestoreEvent| is_legacy(e));
    lemma_count_events_bound(evs, |e: TaskRestoreEvent| is_failed(e));
}

impl RestoreCounts {
    /// All counts zero.
    pub fn new() -> (r: Self)
        ensures
            counts_match(Seq::empty(), r),
    {
        RestoreCounts { restored: 0, skipped_dead: 0, skipped_identity_mismatch: 0, legacy_unverified: 0, errors: 0 }
    }

    /// Counts one more event.
    pub fn add_event(&mut self, e: &TaskRestoreEvent, Ghost(evs): Ghost<Seq<TaskRestoreEvent>>)
        requires
            counts_match(evs, *old(self)),
            evs.len() < usize::MAX,
        ensures
            counts_match(evs.push(*e), *final(self)),
    {
        proof {
            lemma_counts_fit(evs, *self);
            assert(evs.push(*e).drop_last() =~= evs);
        }
        match e {
            TaskRestoreEvent::Missing => {
                self.skipped_dead = self.skipped_dead + 1;
            },
            TaskRestoreEvent::Mismatch { .. } => {
                self.skipped_identity_mismatch = self.skipped_identity_mismatch + 1;
            },
            TaskRestoreEvent::Written { legacy } => {
                self.restored = self.restored + 1;
                if *legacy {
                    self.legacy_unverified = self.legacy_unverified + 1;
                }
            },
            TaskRestoreEvent::WriteMissing { legacy } => {
                self.skipped_dead = self.skipped_dead + 1;
                if *legacy {
                    self.legacy_unverified = self.legacy_unverified + 1;
                }
            },
            TaskRestoreEvent::WriteFailed { legacy, .. } => {
                self.errors = self.errors + 1;
                if *legacy {
                    self.legacy_unverified = self.legacy_unverified + 1;
                }
            },
        }
    }
}


/// What a restore saw of one per-task record: what procfs showed of the task before any
/// write, and how the write went where one was made (`None` where none was).
#[derive(Debug, Clone, PartialEq, Eq)]
pub struct TaskRestoreObservation {
    pub proc: TaskProcObservation,
    pub write: Option<Result<(), RestoreWriteError>>,
}

/// The observation of the `i`th record; a record without one shows no task.
pub open spec fn restore_obs_at(obs: Seq<TaskRestoreObservation>, i: int) -> TaskRestoreObservation {
    if 0 <= i < obs.len() {
        obs[i]
    } else {
        TaskRestoreObservation {
            proc: TaskProcObservation { stat: None, status_tgid: None, process_stat: None },
            write: None,
        }
    }
}

/// The event of a record whose identity check let the write go ahead (`legacy`: without
/// a verified identity), given how the write went (`None`: a failure with no text).
pub open spec fn written_event(legacy: bool, write: Option<Result<(), RestoreWriteError>>, e: TaskRestoreEvent) -> bool {
    match write {
        None => e matches TaskRestoreEvent::WriteFailed { legacy: l, error } && l == legacy && error@ == Seq::<
            char,
        >::empty(),
        Some(Ok(())) => e == TaskRestoreEvent::Written { legacy },
        Some(Err(RestoreWriteError::MissingTask)) => e == TaskRestoreEvent::WriteMissing { legacy },
        Some(Err(RestoreWriteError::PermissionDenied(m))) => e == TaskRestoreEvent::WriteFailed { legacy, error: m },
        Some(Err(RestoreWriteError::InvalidValue(m))) => e == TaskRestoreEvent::WriteFailed { legacy, error: m },
        Some(Err(RestoreWriteError::Io(m))) => e == TaskRestoreEvent::WriteFailed { legacy, error: m },
    }
}

/// `e` is how restoring `identity` came out, given what was seen: a missing task and a
/// reused tid are skipped (whatever the write), every other record is written.
pub open spec fn observed_event(identity: TaskRestoreIdentity, o: TaskRestoreObservation, e: TaskRestoreEvent) -> bool {
    match identity_verdict(identity, o.proc) {
        IdentityVerdict::Missing => e == TaskRestoreEvent::Missing,
        IdentityVerdict::Mismatch(t) => e matches TaskRestoreEvent::Mismatch { reason } && reason@ == t,
        IdentityVerdict::UnknownLegacy => written_event(true, o.write, e),
        IdentityVerdict::SameTask => written_event(false, o.write, e),
    }
}

/// A task that is gone, or whose tid now belongs to another task, is skipped: whatever
/// the write reported, the record is counted neither as restored nor as failed.
pub proof fn lemma_skipped_tasks_are_not_written(identity: TaskRestoreIdentity, o: TaskRestoreObservation, e: TaskRestoreEvent)
    requires
        observed_event(identity, o, e),
        identity_verdict(identity, o.proc) is Missing || identity_verdict(identity, o.proc) is Mismatch,
    ensures
        !is_restored(e),
        !is_failed(e),
        is_skipped_dead(e) || is_mismatch(e),
{
}

/// `items` are the records `(identity, original value)` as a restore visited them, in
/// order, given what was seen of each.
pub open spec fn items_observed(
    identities: Seq<TaskRestoreIdentity>,
    originals: Seq<i64>,
    obs: Seq<TaskRestoreObservation>,
    items: Seq<TaskRestoreItem>,
) -> bool {
    &&& items.len() == identities.len()
    &&& forall|i: int|
        0 <= i < items.len() ==> #[trigger] items[i].tid == identities[i].tid && items[i].original == originals[i]
            && observed_event(identities[i], restore_obs_at(obs, i), items[i].event)
}

/// The items of a restore of the records `(identities[i], originals[i])`, given what was
/// seen of each (the `i`th observation belongs to the `i`th record).
pub fn restore_items(
    identities: &Vec<TaskRestoreIdentity>,
    originals: &Vec<i64>,
    obs: &Vec<TaskRestoreObservation>,
) -> (r: Vec<TaskRestoreItem>)
    requires
        identities@.len() == originals@.len(),
    ensures
        items_observed(identities@, originals@, obs@, r@),
{
    let mut items: Vec<TaskRestoreItem> = Vec::new();
    let mut i: usize = 0;
    while i < identities.len()
        invariant
            0 <= i <= identities@.len(),
            identities@.len() == originals@.len(),
            items@.len() == i,
            forall|k: int|
                0 <= k < i ==> #[trigger] items@[k].tid == identities@[k].tid && items@[k].original == originals@[k]
                    && observed_event(identities@[k], restore_obs_at(obs@, k), items@[k].event),
        decreases identities@.len() - i,
    {
        let missing = TaskProcObservation { stat: None, status_tgid: None, process_stat: None };
        let (proc, write) = if i < obs.len() {
            (&obs[i].proc, copy_write(&obs[i].write))
        } else {
            (&missing, None)
        };
        assert(restore_obs_at(obs@, i as int).proc == *proc);
        assert(restore_obs_at(obs@, i as int).write == write);
        let status = verify_task_identity(&identities[i], proc);
        let write = match restore_decision(&status) {
            RestoreDecision::Write { .. } => write,
            _ => None,
        };
        let event = restore_event(status, write);
        items.push(TaskRestoreItem { tid: identities[i].tid, original: originals[i], event });
        i = i + 1;
    }
    items
}

/// An exact copy of a write's outcome.
fn copy_write(w: &Option<Result<(), RestoreWriteError>>) -> (r: Option<Result<(), RestoreWriteError>>)
    ensures
        r == *w,
{
    match w {
        None => None,
        Some(res) => match res {
            Ok(u) => Some(Ok(*u)),
            Err(e) => Some(Err(copy_write_error(e))),
        },
    }
}

/// An exact copy of a write's error.
fn copy_write_error(e: &RestoreWriteError) -> (r: RestoreWriteError)
    ensures
        r == *e,
{
    match e {
        RestoreWriteError::MissingTask => RestoreWriteError::MissingTask,
        RestoreWriteError::PermissionDenied(m) => RestoreWriteError::PermissionDenied(m.clone()),
        RestoreWriteError::InvalidValue(m) => RestoreWriteError::InvalidValue(m.clone()),
        RestoreWriteError::Io(m) => RestoreWriteError::Io(m.clone()),
    }
}

} // verus!
