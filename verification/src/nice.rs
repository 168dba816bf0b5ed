//! Nice values: the policy range a request may set, and what setting explicit tasks'
//! nice value checks, reports and records for its rollback.
use vstd::prelude::*;

use crate::error::{
    context_ok, is_invalid_policy, is_invalid_value, is_policy_denied,
    is_wrong_token_for, with_context, ActionBoundaryError, ActionError, ActionSourceError, PartialApplyError,
};
use crate::model::{
    copy_opt_string, record_identity, ActionId, ActionState, ActionWarning, NiceRestoreRecord, SafetyClass,
    TaskIdentity, TaskRestoreIdentity,
};
use crate::procfs::{parse_stat_nice_and_starttime, stat_nice, stat_starttime};
use crate::restore::{
    items_observed, restore_items, rollback_failure_message, rollback_failure_text, tally_matches,
    tally_task_restores, TaskRestoreItem, TaskRestoreObservation, TaskRestoreTally,
};
use crate::rollback::{
    is_token_preview, is_unsupported_token, path_or_empty, task_restore_result,
    token_handler_dry_run, RollbackPreview, RollbackResult,
};
use crate::tasks::{
    append_warnings, check_task_target, comm_value, identity_warning_texts, identity_warnings,
    target_check_ok, target_passes, target_tids, task_file, task_file_path, tid_seq,
    warning_texts, ObservedTask, TaskObservation,
};
use crate::text::{
    cat, cat3, cat4, decimal, decimal_list, i64_to_string, join_u64s, opt_text, signed_decimal,
    u64_to_string,
};
use crate::token::{token_kind, RollbackToken};
use crate::writes::{first_failed_write, lemma_first_failed_stays, write_error, write_error_at};

verus! {

/// The lowest nice value Linux accepts.
pub const LINUX_MIN_NICE: i32 = -20;

/// The highest nice value Linux accepts.
pub const LINUX_MAX_NICE: i32 = 19;

/// Whether nice changes are allowed, and the range a request may set.
#[derive(Debug, Clone, PartialEq, Eq)]
pub struct NicePolicy {
    pub allow_nice_changes: bool,
    pub min_nice: i32,
    pub max_nice: i32,
}

impl Default for NicePolicy {
    /// Changes allowed over the whole Linux range.
    fn default() -> (r: Self)
        ensures
            r == (NicePolicy { allow_nice_changes: true, min_nice: -20i32, max_nice: 19i32 }),
    {
        NicePolicy { allow_nice_changes: true, min_nice: LINUX_MIN_NICE, max_nice: LINUX_MAX_NICE }
    }
}

/// Whether `policy` admits a request for `nice`.
pub open spec fn nice_request_passes(policy: NicePolicy, nice: i32) -> bool {
    &&& policy.allow_nice_changes
    &&& -20 <= policy.min_nice && policy.max_nice <= 19
    &&& policy.min_nice <= policy.max_nice
    &&& -20 <= nice <= 19
    &&& policy.min_nice <= nice <= policy.max_nice
}

/// A request passes exactly when changes are allowed, the policy range lies within
/// Linux's -20..=19, and the requested value lies within the policy range.
pub proof fn nice_request_within_policy_range(policy: NicePolicy, nice: i32)
    ensures
        nice_request_passes(policy, nice) <==> (policy.allow_nice_changes && -20 <= policy.min_nice
            && policy.max_nice <= 19 && policy.min_nice <= nice && nice <= policy.max_nice),
        nice_request_passes(policy, nice) ==> -20 <= nice <= 19,
{
}

/// "`min`..=`max`".
pub open spec fn range_text(min: i32, max: i32) -> Seq<char> {
    signed_decimal(min as int) + "..="@ + signed_decimal(max as int)
}

/// `e` is the refusal of a request for `nice` under `policy`, checked in this order:
/// changes allowed, policy within the Linux range, policy ordered, request within the
/// Linux range, request within the policy range.
pub open spec fn nice_request_refusal(policy: NicePolicy, nice: i32, e: ActionBoundaryError) -> bool {
    if !policy.allow_nice_changes {
        is_policy_denied(e, "nice"@, "allow_nice_changes"@)
    } else if policy.min_nice < -20 || policy.max_nice > 19 {
        is_invalid_policy(
            e,
            "nice"@,
            "invalid nice policy range "@ + range_text(policy.min_nice, policy.max_nice)
                + "; Linux nice range is -20..=19"@,
        )
    } else if policy.min_nice > policy.max_nice {
        is_invalid_policy(
            e,
            "nice"@,
            "invalid nice policy range "@ + range_text(policy.min_nice, policy.max_nice)
                + ": min is greater than max"@,
        )
    } else if !(-20 <= nice <= 19) {
        is_invalid_value(
            e,
            "nice"@,
            "nice"@,
            "requested nice "@ + signed_decimal(nice as int) + " is outside Linux nice range -20..=19"@,
        )
    } else {
        is_invalid_value(
            e,
            "nice"@,
            "nice"@,
            "requested nice "@ + signed_decimal(nice as int) + " is outside policy range "@
                + range_text(policy.min_nice, policy.max_nice),
        )
    }
}

fn range_string(min: i32, max: i32) -> (r: String)
    ensures
        r@ == range_text(min, max),
{
    let a = i64_to_string(min as i64);
    let b = i64_to_string(max as i64);
    cat3(a.as_str(), "..=", b.as_str())
}

/// Checks a request for `requested_nice` against `policy`.
pub fn validate_nice_request(policy: &NicePolicy, requested_nice: i32) -> (r: Result<(), ActionBoundaryError>)
    ensures
        nice_request_passes(*policy, requested_nice) <==> r is Ok,
        r matches Err(e) ==> nice_request_refusal(*policy, requested_nice, e),
        r is Ok <==> (policy.allow_nice_changes && -20 <= policy.min_nice && policy.max_nice <= 19
            && policy.min_nice <= requested_nice && requested_nice <= policy.max_nice),
{
    if !policy.allow_nice_changes {
        return Err(
            ActionBoundaryError::PolicyDenied { action_kind: "nice", requirement: "allow_nice_changes" },
        );
    }
    if policy.min_nice < LINUX_MIN_NICE || policy.max_nice > LINUX_MAX_NICE {
        let range = range_string(policy.min_nice, policy.max_nice);
        let reason = cat3("invalid nice policy range ", range.as_str(), "; Linux nice range is -20..=19");
        return Err(ActionBoundaryError::InvalidPolicy { action_kind: "nice", reason });
    }
    if policy.min_nice > policy.max_nice {
        let range = range_string(policy.min_nice, policy.max_nice);
        let reason = cat3("invalid nice policy range ", range.as_str(), ": min is greater than max");
        return Err(ActionBoundaryError::InvalidPolicy { action_kind: "nice", reason });
    }
    let n = i64_to_string(requested_nice as i64);
    if requested_nice < LINUX_MIN_NICE || requested_nice > LINUX_MAX_NICE {
        let reason = cat3("requested nice ", n.as_str(), " is outside Linux nice range -20..=19");
        return Err(ActionBoundaryError::InvalidValue { action_kind: "nice", field: "nice".to_owned(), reason });
    }
    if requested_nice < policy.min_nice || requested_nice > policy.max_nice {
        let range = range_string(policy.min_nice, policy.max_nice);
        let reason = cat4("requested nice ", n.as_str(), " is outside policy range ", range.as_str());
        return Err(ActionBoundaryError::InvalidValue { action_kind: "nice", field: "nice".to_owned(), reason });
    }
    Ok(())
}

/// A request to set the nice value of explicit tasks.
#[derive(Debug, Clone)]
pub struct NiceAction {
    pub targets: Vec<TaskIdentity>,
    pub nice: i32,
    pub policy: NicePolicy,
}

/// A target as it was found, with its nice value now.
#[derive(Debug, Clone, PartialEq, Eq)]
pub struct NiceTargetSnapshot {
    pub task: ObservedTask,
    pub current_nice: i32,
}

/// The observation that stands for a target nothing was read for.
pub open spec fn unread_task() -> TaskObservation {
    TaskObservation { stat: None, comm: None, exe: None }
}

/// The observation of the `i`th target: the `i`th one handed in, or none.
pub open spec fn task_at(obs: Seq<TaskObservation>, i: int) -> TaskObservation {
    if 0 <= i < obs.len() {
        obs[i]
    } else {
        unread_task()
    }
}

/// Whether the stat line of an existing target fails to give both the nice value and
/// the start time.
pub open spec fn nice_unparsable(target: TaskIdentity, obs: TaskObservation) -> bool {
    target.tid != 0 && obs.stat is Some && (stat_nice(obs.stat->0@) is None || stat_starttime(
        obs.stat->0@,
    ) is None)
}

/// Whether a target yields a snapshot.
pub open spec fn nice_snapshot_passes(target: TaskIdentity, obs: TaskObservation) -> bool {
    !nice_unparsable(target, obs) && target_passes(target, obs)
}

/// The nice value a passing target's stat line shows.
pub open spec fn observed_nice(obs: TaskObservation) -> i32 {
    stat_nice(obs.stat->0@)->0
}

/// `r` is what reading the snapshot of `target` gives.
pub open spec fn nice_snapshot_outcome(
    proc_root: Seq<char>,
    target: TaskIdentity,
    obs: TaskObservation,
    r: Result<NiceTargetSnapshot, ActionSourceError>,
) -> bool {
    if nice_unparsable(target, obs) {
        r matches Err(ActionSourceError::Message(m)) && m@ == "failed to parse nice/starttime from "@
            + task_file_path(proc_root, target.tid, "stat"@)
    } else if !target_passes(target, obs) {
        r matches Err(e) && target_check_ok(
            "nice",
            proc_root,
            target,
            obs,
            Err::<ObservedTask, ActionSourceError>(e),
        )
    } else {
        r matches Ok(s) && target_check_ok(
            "nice",
            proc_root,
            target,
            obs,
            Ok::<ObservedTask, ActionSourceError>(s.task),
        ) && s.current_nice == observed_nice(obs)
    }
}

/// Reads the snapshot of one target from its observation.
pub fn read_nice_snapshot(proc_root: &str, target: &TaskIdentity, obs: &TaskObservation) -> (r: Result<
    NiceTargetSnapshot,
    ActionSourceError,
>)
    ensures
        nice_snapshot_outcome(proc_root@, *target, *obs, r),
        r is Ok <==> nice_snapshot_passes(*target, *obs),
{
    let mut current: i32 = 0;
    if target.tid != 0 {
        match &obs.stat {
            Some(stat) => match parse_stat_nice_and_starttime(stat.as_str()) {
                None => {
                    let path = task_file(proc_root, target.tid, "stat");
                    return Err(
                        ActionSourceError::Message(cat("failed to parse nice/starttime from ", path.as_str())),
                    );
                },
                Some((n, _)) => {
                    current = n;
                },
            },
            None => {},
        }
    }
    match check_task_target("nice", proc_root, target, obs) {
        Ok(task) => Ok(NiceTargetSnapshot { task, current_nice: current }),
        Err(e) => Err(e),
    }
}

/// The context under which a target's failure is reported by the preflight.
pub open spec fn nice_preflight_text(tid: u32) -> Seq<char> {
    "failed to preflight nice target tid="@ + decimal(tid as nat)
}

/// Whether every target yields a snapshot.
pub open spec fn all_nice_pass(targets: Seq<TaskIdentity>, obs: Seq<TaskObservation>) -> bool {
    forall|i: int| 0 <= i < targets.len() ==> #[trigger] nice_snapshot_passes(targets[i], task_at(obs, i))
}

/// Whether the request and every target pass.
pub open spec fn nice_collect_passes(
    policy: NicePolicy,
    nice: i32,
    targets: Seq<TaskIdentity>,
    obs: Seq<TaskObservation>,
) -> bool {
    nice_request_passes(policy, nice) && targets.len() > 0 && all_nice_pass(targets, obs)
}

/// `e` is the failure of collecting snapshots that did not pass.
pub open spec fn nice_collect_failure(
    policy: NicePolicy,
    nice: i32,
    proc_root: Seq<char>,
    targets: Seq<TaskIdentity>,
    obs: Seq<TaskObservation>,
    e: ActionSourceError,
) -> bool {
    if !nice_request_passes(policy, nice) {
        e matches ActionSourceError::Boundary(b) && nice_request_refusal(policy, nice, b)
    } else if targets.len() == 0 {
        e matches ActionSourceError::Message(m) && m@ == "nice action requires at least one target task"@
    } else {
        exists|i: int, inner: ActionSourceError|
            #![trigger nice_snapshot_outcome(proc_root, targets[i], task_at(obs, i), Err::<NiceTargetSnapshot, ActionSourceError>(inner))]
            0 <= i < targets.len() && (forall|j: int|
                0 <= j < i ==> #[trigger] nice_snapshot_passes(targets[j], task_at(obs, j)))
                && !nice_snapshot_passes(targets[i], task_at(obs, i)) && nice_snapshot_outcome(
                proc_root,
                targets[i],
                task_at(obs, i),
                Err::<NiceTargetSnapshot, ActionSourceError>(inner),
            ) && context_ok(inner, nice_preflight_text(targets[i].tid), e)
    }
}

/// `snaps` are the snapshots and warnings of the targets, one for each, in order.
pub open spec fn nice_snapshots_match(
    proc_root: Seq<char>,
    targets: Seq<TaskIdentity>,
    obs: Seq<TaskObservation>,
    snaps: Seq<(NiceTargetSnapshot, Vec<ActionWarning>)>,
) -> bool {
    snaps.len() == targets.len() && forall|i: int|
        0 <= i < snaps.len() ==> nice_snapshot_outcome(
            proc_root,
            targets[i],
            task_at(obs, i),
            Ok::<NiceTargetSnapshot, ActionSourceError>(#[trigger] snaps[i].0),
        ) && warning_texts(snaps[i].1@) == identity_warning_texts(
            targets[i],
            comm_value(task_at(obs, i).comm),
        )
}

/// The snapshots and warnings of every target (the `i`th observation belongs to the
/// `i`th target; a target without one is unreadable).
pub fn collect_nice_snapshots(
    targets: &Vec<TaskIdentity>,
    nice: i32,
    policy: &NicePolicy,
    proc_root: &str,
    observations: &Vec<TaskObservation>,
) -> (r: Result<Vec<(NiceTargetSnapshot, Vec<ActionWarning>)>, ActionSourceError>)
    ensures
        r is Ok <==> nice_collect_passes(*policy, nice, targets@, observations@),
        r matches Err(e) ==> nice_collect_failure(*policy, nice, proc_root@, targets@, observations@, e),
        r matches Ok(snaps) ==> nice_snapshots_match(proc_root@, targets@, observations@, snaps@),
{
    match validate_nice_request(policy, nice) {
        Err(b) => return Err(ActionSourceError::Boundary(b)),
        Ok(()) => {},
    }
    if targets.len() == 0 {
        return Err(ActionSourceError::Message("nice action requires at least one target task".to_owned()));
    }
    let mut out: Vec<(NiceTargetSnapshot, Vec<ActionWarning>)> = Vec::new();
    let mut i: usize = 0;
    while i < targets.len()
        invariant
            0 <= i <= targets@.len(),
            nice_request_passes(*policy, nice),
            targets@.len() > 0,
            out@.len() == i,
            forall|j: int| 0 <= j < i ==> #[trigger] nice_snapshot_passes(targets@[j], task_at(observations@, j)),
            forall|j: int|
                0 <= j < i ==> nice_snapshot_outcome(
                    proc_root@,
                    targets@[j],
                    task_at(observations@, j),
                    Ok::<NiceTargetSnapshot, ActionSourceError>(#[trigger] out@[j].0),
                ) && warning_texts(out@[j].1@) == identity_warning_texts(
                    targets@[j],
                    comm_value(task_at(observations@, j).comm),
                ),
        decreases targets@.len() - i,
    {
        let unread = TaskObservation { stat: None, comm: None, exe: None };
        let obs: &TaskObservation = if i < observations.len() {
            &observations[i]
        } else {
            &unread
        };
        assert(*obs == task_at(observations@, i as int));
        let target = &targets[i];
        match read_nice_snapshot(proc_root, target, obs) {
            Ok(snap) => {
                let warnings = identity_warnings(target, &snap.task.comm);
                proof {
                    assert(opt_text(snap.task.comm) == comm_value(obs.comm));
                }
                out.push((snap, warnings));
            },
            Err(inner) => {
                let t = u64_to_string(target.tid as u64);
                let ctx = cat("failed to preflight nice target tid=", t.as_str());
                let e = with_context(inner, ctx.as_str());
                proof {
                    let k = i as int;
                    assert(0 <= k < targets@.len() && (forall|j: int|
                        0 <= j < k ==> #[trigger] nice_snapshot_passes(targets@[j], task_at(observations@, j)))
                        && !nice_snapshot_passes(targets@[k], task_at(observations@, k))
                        && nice_snapshot_outcome(
                        proc_root@,
                        targets@[k],
                        task_at(observations@, k),
                        Err::<NiceTargetSnapshot, ActionSourceError>(inner),
                    ) && context_ok(inner, nice_preflight_text(targets@[k].tid), e));
                }
                return Err(e);
            },
        }
        i = i + 1;
    }
    Ok(out)
}

/// The warnings of the first `n` targets, in order.
pub open spec fn nice_warnings_upto(targets: Seq<TaskIdentity>, obs: Seq<TaskObservation>, n: int) -> Seq<
    Seq<char>,
>
    decreases n,
{
    if n <= 0 {
        Seq::empty()
    } else {
        nice_warnings_upto(targets, obs, n - 1) + identity_warning_texts(
            targets[n - 1],
            comm_value(task_at(obs, n - 1).comm),
        )
    }
}

/// How many of the first `n` targets have a nice value other than `requested` now.
pub open spec fn nice_pending_upto(obs: Seq<TaskObservation>, requested: i32, n: int) -> nat
    decreases n,
{
    if n <= 0 {
        0
    } else {
        nice_pending_upto(obs, requested, n - 1) + if observed_nice(task_at(obs, n - 1)) != requested {
            1nat
        } else {
            0nat
        }
    }
}

fn sum_nice_snapshots(
    snaps: &Vec<(NiceTargetSnapshot, Vec<ActionWarning>)>,
    requested: i32,
    Ghost(proc_root): Ghost<Seq<char>>,
    Ghost(targets): Ghost<Seq<TaskIdentity>>,
    Ghost(obs): Ghost<Seq<TaskObservation>>,
) -> (r: (Vec<ActionWarning>, usize))
    requires
        nice_snapshots_match(proc_root, targets, obs, snaps@),
        all_nice_pass(targets, obs),
    ensures
        warning_texts(r.0@) == nice_warnings_upto(targets, obs, targets.len() as int),
        r.1 == nice_pending_upto(obs, requested, targets.len() as int),
{
    let mut warnings: Vec<ActionWarning> = Vec::new();
    let mut pending: usize = 0;
    let mut i: usize = 0;
    while i < snaps.len()
        invariant
            0 <= i <= snaps@.len(),
            nice_snapshots_match(proc_root, targets, obs, snaps@),
            all_nice_pass(targets, obs),
            warning_texts(warnings@) == nice_warnings_upto(targets, obs, i as int),
            pending == nice_pending_upto(obs, requested, i as int),
            pending <= i,
        decreases snaps@.len() - i,
    {
        append_warnings(&mut warnings, &snaps[i].1);
        if snaps[i].0.current_nice != requested {
            pending = pending + 1;
        }
        proof {
            assert(nice_snapshot_outcome(
                proc_root,
                targets[i as int],
                task_at(obs, i as int),
                Ok::<NiceTargetSnapshot, ActionSourceError>(snaps@[i as int].0),
            ));
            assert(nice_snapshot_passes(targets[i as int], task_at(obs, i as int)));
        }
        i = i + 1;
    }
    (warnings, pending)
}

/// The restore record of a snapshot: the task's observed identity and its nice value now.
pub open spec fn nice_record_of(s: NiceTargetSnapshot) -> NiceRestoreRecord {
    NiceRestoreRecord {
        tid: s.task.tid,
        original_nice: s.current_nice,
        identity: Some(
            TaskRestoreIdentity {
                tid: s.task.tid,
                process_pid: s.task.process_pid,
                starttime_ticks: s.task.starttime_ticks,
                comm: s.task.comm,
                exe: s.task.exe,
                process_starttime_ticks: None,
            },
        ),
    }
}

/// The restore records of the snapshots whose nice value differs from `requested`.
pub open spec fn planned_nice_records(snaps: Seq<(NiceTargetSnapshot, Vec<ActionWarning>)>, requested: i32) -> Seq<
    NiceRestoreRecord,
>
    decreases snaps.len(),
{
    if snaps.len() == 0 {
        Seq::empty()
    } else {
        let rest = planned_nice_records(snaps.drop_last(), requested);
        if snaps.last().0.current_nice != requested {
            rest.push(nice_record_of(snaps.last().0))
        } else {
            rest
        }
    }
}

/// The restore records of the snapshots whose nice value differs from `requested`.
pub fn plan_nice_records(snaps: &Vec<(NiceTargetSnapshot, Vec<ActionWarning>)>, requested: i32) -> (r: Vec<
    NiceRestoreRecord,
>)
    ensures
        r@ == planned_nice_records(snaps@, requested),
{
    let mut out: Vec<NiceRestoreRecord> = Vec::new();
    let mut i: usize = 0;
    while i < snaps.len()
        invariant
            0 <= i <= snaps@.len(),
            out@ == planned_nice_records(snaps@.take(i as int), requested),
        decreases snaps@.len() - i,
    {
        let s = &snaps[i].0;
        proof {
            assert(snaps@.take(i + 1).drop_last() =~= snaps@.take(i as int));
        }
        if s.current_nice != requested {
            let identity = TaskRestoreIdentity::observed(
                s.task.tid,
                s.task.process_pid,
                copy_opt_string(&s.task.comm),
                s.task.starttime_ticks,
                copy_opt_string(&s.task.exe),
            );
            out.push(NiceRestoreRecord::new(identity, s.current_nice));
        }
        i = i + 1;
    }
    assert(snaps@.take(snaps@.len() as int) =~= snaps@);
    out
}

impl NiceAction {
    /// The action's identifier: `nice:set:<nice>:targets:<count>`.
    pub fn id(&self) -> (r: ActionId)
        ensures
            r.id@ == "nice:set:"@ + signed_decimal(self.nice as int) + ":targets:"@ + decimal(
                self.targets.len() as nat,
            ),
    {
        let n = i64_to_string(self.nice as i64);
        let count = u64_to_string(self.targets.len() as u64);
        let mut id = cat3("nice:set:", n.as_str(), ":targets:");
        id.append(count.as_str());
        ActionId::new(id)
    }

    /// A description naming the nice value and the target tids.
    pub fn describe(&self) -> (r: String)
        ensures
            r@ == "set nice="@ + signed_decimal(self.nice as int) + " for task(s) ["@ + decimal_list(
                tid_seq(self.targets@),
                ","@,
            ) + "]"@,
    {
        let n = i64_to_string(self.nice as i64);
        let tids = target_tids(&self.targets);
        let list = join_u64s(&tids, ",");
        let mut s = cat3("set nice=", n.as_str(), " for task(s) [");
        s.append(list.as_str());
        s.append("]");
        s
    }

    /// Changing nice values is reversible at medium risk.
    pub fn safety_class(&self) -> (r: SafetyClass)
        ensures
            r == SafetyClass::ReversibleMediumRisk,
    {
        SafetyClass::ReversibleMediumRisk
    }

    /// The preflight under `policy`: the warnings of every target, or the first failure.
    pub fn preflight_with_policy(
        &self,
        policy: &NicePolicy,
        proc_root: &str,
        observations: &Vec<TaskObservation>,
    ) -> (r: Result<Vec<ActionWarning>, ActionSourceError>)
        ensures
            r is Ok <==> nice_collect_passes(*policy, self.nice, self.targets@, observations@),
            r matches Err(e) ==> nice_collect_failure(
                *policy,
                self.nice,
                proc_root@,
                self.targets@,
                observations@,
                e,
            ),
            r matches Ok(w) ==> warning_texts(w@) == nice_warnings_upto(
                self.targets@,
                observations@,
                self.targets@.len() as int,
            ),
    {
        let snaps = match collect_nice_snapshots(&self.targets, self.nice, policy, proc_root, observations) {
            Ok(s) => s,
            Err(e) => return Err(e),
        };
        let (warnings, _) = sum_nice_snapshots(
            &snaps,
            self.nice,
            Ghost(proc_root@),
            Ghost(self.targets@),
            Ghost(observations@),
        );
        Ok(warnings)
    }

    /// The dry run under `policy`: how many targets would change.
    pub fn dry_run_with_policy(
        &self,
        policy: &NicePolicy,
        proc_root: &str,
        observations: &Vec<TaskObservation>,
    ) -> (r: Result<ActionState, ActionSourceError>)
        ensures
            r is Ok <==> nice_collect_passes(*policy, self.nice, self.targets@, observations@),
            r matches Err(e) ==> nice_collect_failure(
                *policy,
                self.nice,
                proc_root@,
                self.targets@,
                observations@,
                e,
            ),
            r matches Ok(st) ==> !st.applied && st.affected_tasks == nice_pending_upto(
                observations@,
                self.nice,
                self.targets@.len() as int,
            ) && st.checked_tasks == self.targets@.len() && st.pending_changes == st.affected_tasks
                && warning_texts(st.warnings@) == nice_warnings_upto(
                self.targets@,
                observations@,
                self.targets@.len() as int,
            ),
    {
        let snaps = match collect_nice_snapshots(&self.targets, self.nice, policy, proc_root, observations) {
            Ok(s) => s,
            Err(e) => return Err(e),
        };
        let (warnings, pending) = sum_nice_snapshots(
            &snaps,
            self.nice,
            Ghost(proc_root@),
            Ghost(self.targets@),
            Ghost(observations@),
        );
        Ok(
            ActionState {
                applied: false,
                affected_tasks: pending,
                checked_tasks: self.targets.len(),
                pending_changes: pending,
                warnings,
            },
        )
    }

    /// The verify phase under `policy`: whether every target has the requested nice value.
    pub fn verify_with_policy(
        &self,
        policy: &NicePolicy,
        proc_root: &str,
        observations: &Vec<TaskObservation>,
    ) -> (r: Result<ActionState, ActionSourceError>)
        ensures
            r is Ok <==> nice_collect_passes(*policy, self.nice, self.targets@, observations@),
            r matches Err(e) ==> nice_collect_failure(
                *policy,
                self.nice,
                proc_root@,
                self.targets@,
                observations@,
                e,
            ),
            r matches Ok(st) ==> st.applied == (self.targets@.len() > 0 && st.pending_changes == 0)
                && st.pending_changes == nice_pending_upto(
                observations@,
                self.nice,
                self.targets@.len() as int,
            ) && st.affected_tasks == self.targets@.len() && st.checked_tasks == self.targets@.len()
                && warning_texts(st.warnings@) == nice_warnings_upto(
                self.targets@,
                observations@,
                self.targets@.len() as int,
            ),
    {
        let snaps = match collect_nice_snapshots(&self.targets, self.nice, policy, proc_root, observations) {
            Ok(s) => s,
            Err(e) => return Err(e),
        };
        let (warnings, pending) = sum_nice_snapshots(
            &snaps,
            self.nice,
            Ghost(proc_root@),
            Ghost(self.targets@),
            Ghost(observations@),
        );
        Ok(
            ActionState {
                applied: self.targets.len() > 0 && pending == 0,
                affected_tasks: self.targets.len(),
                checked_tasks: self.targets.len(),
                pending_changes: pending,
                warnings,
            },
        )
    }

    /// The restore records applying under `policy` writes: one for each target whose nice
    /// value differs from the request.
    pub fn apply_plan_with_policy(
        &self,
        policy: &NicePolicy,
        proc_root: &str,
        observations: &Vec<TaskObservation>,
    ) -> (r: Result<Vec<NiceRestoreRecord>, ActionSourceError>)
        ensures
            r is Ok <==> nice_collect_passes(*policy, self.nice, self.targets@, observations@),
            r matches Err(e) ==> nice_collect_failure(
                *policy,
                self.nice,
                proc_root@,
                self.targets@,
                observations@,
                e,
            ),
            r matches Ok(records) ==> exists|snaps: Seq<(NiceTargetSnapshot, Vec<ActionWarning>)>|
                #![trigger nice_snapshots_match(proc_root@, self.targets@, observations@, snaps)]
                nice_snapshots_match(proc_root@, self.targets@, observations@, snaps) && records@
                    == planned_nice_records(snaps, self.nice),
    {
        let snaps = match collect_nice_snapshots(&self.targets, self.nice, policy, proc_root, observations) {
            Ok(s) => s,
            Err(e) => return Err(e),
        };
        let records = plan_nice_records(&snaps, self.nice);
        assert(nice_snapshots_match(proc_root@, self.targets@, observations@, snaps@));
        Ok(records)
    }
}

/// What setting the nice value of each task of `records` comes to, the `k`th set failing
/// with `write_error_at(writes, k)`: at the first failure, the error naming the task, with
/// the token of the tasks already changed (none before the first); otherwise the token of
/// every task.
pub open spec fn nice_apply_outcome(
    r: Result<RollbackToken, PartialApplyError>,
    records: Seq<NiceRestoreRecord>,
    writes: Seq<Option<String>>,
) -> bool {
    match first_failed_write(writes, 0, records.len() as int) {
        Some(j) => r matches Err(p) && (p.source matches ActionSourceError::Message(m) && m@ == "failed to set nice for tid="@
            + decimal(records[j].tid as nat) + ": "@ + write_error_at(writes, j)->0@) && if j == 0 {
            p.rollback is None
        } else {
            p.rollback matches Some(RollbackToken::NiceRestore { records: rs }) && rs@ == records.take(j)
        },
        None => r matches Ok(RollbackToken::NiceRestore { records: rs }) && rs@ == records,
    }
}

impl NiceAction {
    /// The apply under `policy`: the targets are checked as for a dry run, then the nice
    /// value is set on each task that does not have it yet, in order; the `k`th entry of
    /// `writes` is the error of the `k`th set, if it failed.
    pub fn apply_with_policy(
        &self,
        policy: &NicePolicy,
        proc_root: &str,
        observations: &Vec<TaskObservation>,
        writes: &Vec<Option<String>>,
    ) -> (r: Result<RollbackToken, PartialApplyError>)
        ensures
            !nice_collect_passes(*policy, self.nice, self.targets@, observations@) ==> (r matches Err(p) && p.rollback is None
                && nice_collect_failure(*policy, self.nice, proc_root@, self.targets@, observations@, p.source)),
            nice_collect_passes(*policy, self.nice, self.targets@, observations@) ==> exists|
                snaps: Seq<(NiceTargetSnapshot, Vec<ActionWarning>)>,
            |
                #![trigger nice_snapshots_match(proc_root@, self.targets@, observations@, snaps)]
                nice_snapshots_match(proc_root@, self.targets@, observations@, snaps) && nice_apply_outcome(
                    r,
                    planned_nice_records(snaps, self.nice),
                    writes@,
                ),
    {
        let records = match self.apply_plan_with_policy(policy, proc_root, observations) {
            Ok(rs) => rs,
            Err(e) => return Err(PartialApplyError::from_source(e)),
        };
        let ghost snaps = choose|snaps: Seq<(NiceTargetSnapshot, Vec<ActionWarning>)>|
            #![trigger nice_snapshots_match(proc_root@, self.targets@, observations@, snaps)]
            nice_snapshots_match(proc_root@, self.targets@, observations@, snaps) && records@ == planned_nice_records(
                snaps,
                self.nice,
            );
        let mut j: usize = 0;
        while j < records.len()
            invariant
                0 <= j <= records@.len(),
                nice_collect_passes(*policy, self.nice, self.targets@, observations@),
                nice_snapshots_match(proc_root@, self.targets@, observations@, snaps),
                records@ == planned_nice_records(snaps, self.nice),
                first_failed_write(writes@, 0, j as int) is None,
            decreases records@.len() - j,
        {
            match write_error(writes, 0, j) {
                Some(e) => {
                    let n = u64_to_string(records[j].tid as u64);
                    let mut m = cat3("failed to set nice for tid=", n.as_str(), ": ");
                    m.append(e.as_str());
                    proof {
                        lemma_first_failed_stays(writes@, 0, j + 1, records@.len() as int);
                    }
                    let ghost all = records@;
                    let rollback = if j == 0 {
                        None
                    } else {
                        let mut done = records;
                        done.truncate(j);
                        assert(done@ == all.take(j as int));
                        Some(RollbackToken::NiceRestore { records: done })
                    };
                    return Err(PartialApplyError { source: ActionSourceError::Message(m), rollback });
                },
                None => {},
            }
            j = j + 1;
        }
        Ok(RollbackToken::NiceRestore { records })
    }
}

/// The records a nice rollback restores; a token of another kind is refused.
pub fn nice_rollback_records(token: &RollbackToken) -> (r: Result<&Vec<NiceRestoreRecord>, ActionSourceError>)
    ensures
        match *token {
            RollbackToken::NiceRestore { records } => r == Ok::<&Vec<NiceRestoreRecord>, ActionSourceError>(&records),
            _ => r matches Err(e) && is_wrong_token_for(e, "nice-restore"@, *token),
        },
{
    match token.as_nice_restore() {
        Some(records) => Ok(records),
        None => Err(ActionSourceError::Action(ActionError::invalid_rollback_token_kind(token.kind_error("nice-restore")))),
    }
}

/// The outcome of a nice rollback that visited every record: a restore failure, with the
/// counts and the failed writes' messages, when any write failed.
pub fn nice_rollback_outcome(t: &TaskRestoreTally) -> (r: Result<(), ActionSourceError>)
    ensures
        t.errors == 0 ==> r is Ok,
        t.errors > 0 ==> (r matches Err(ActionSourceError::Boundary(ActionBoundaryError::RestoreFailed { action_kind, message }))
            && action_kind@ == "nice"@ && message@ == rollback_failure_text("nice"@, *t)),
{
    if t.errors > 0 {
        let m = rollback_failure_message("nice", t);
        return Err(ActionSourceError::Boundary(ActionBoundaryError::restore_failed("nice", m.as_str())));
    }
    Ok(())
}

/// What the nice rollback handler previews: its own tokens only.
pub fn nice_handler_dry_run_token(token: &RollbackToken) -> (r: Result<RollbackPreview, ActionBoundaryError>)
    ensures
        token_kind(*token) != "nice-restore"@ ==> (r matches Err(e) && is_unsupported_token(
            e,
            "nice-rollback",
            "nice-restore",
            token_kind(*token),
        )),
        token_kind(*token) == "nice-restore"@ ==> (r matches Ok(p) && is_token_preview(
            p,
            "nice-rollback",
            "nice-restore"@,
            *token,
        )),
{
    token_handler_dry_run("nice-rollback", "nice-restore", token)
}

/// What the nice rollback handler reports after visiting every record of a token: the
/// counts and messages, failed writes included.
pub fn nice_restore_token_result(token: &RollbackToken, t: TaskRestoreTally) -> (r: RollbackResult)
    ensures
        r.handler_id@ == "nice-rollback"@,
        r.restore_path@ == path_or_empty(crate::token::token_path(*token)),
        r.restored == t.restored,
        r.skipped_dead == t.skipped_dead,
        r.skipped_identity_mismatch == t.skipped_identity_mismatch,
        r.legacy_unverified == t.legacy_unverified,
        r.errors == t.errors,
        r.messages@ == t.messages@,
{
    task_restore_result("nice-rollback", token, t)
}


/// The identities a nice rollback checks, one per record.
pub open spec fn nice_identities(records: Seq<NiceRestoreRecord>) -> Seq<TaskRestoreIdentity> {
    records.map_values(|r: NiceRestoreRecord| record_identity(r.tid, r.identity))
}

/// The values a nice rollback writes back, one per record.
pub open spec fn nice_originals(records: Seq<NiceRestoreRecord>) -> Seq<i64> {
    records.map_values(|r: NiceRestoreRecord| r.original_nice as i64)
}

fn nice_restore_inputs(records: &Vec<NiceRestoreRecord>) -> (r: (Vec<TaskRestoreIdentity>, Vec<i64>))
    ensures
        r.0@ == nice_identities(records@),
        r.1@ == nice_originals(records@),
{
    let mut ids: Vec<TaskRestoreIdentity> = Vec::new();
    let mut originals: Vec<i64> = Vec::new();
    let mut i: usize = 0;
    while i < records.len()
        invariant
            0 <= i <= records@.len(),
            ids@ == nice_identities(records@.take(i as int)),
            originals@ == nice_originals(records@.take(i as int)),
        decreases records@.len() - i,
    {
        proof {
            assert(records@.take(i + 1) =~= records@.take(i as int).push(records@[i as int]));
        }
        ids.push(records[i].restore_identity());
        originals.push(records[i].original_nice as i64);
        i = i + 1;
    }
    assert(records@.take(records@.len() as int) =~= records@);
    (ids, originals)
}

impl NiceAction {
    /// The outcome of rolling back `token`, given what was seen of each record (the `i`th
    /// observation belongs to the `i`th record): every record is visited; the rollback
    /// fails, with the counts and the failed writes, when a write failed.
    pub fn rollback_outcome(&self, token: &RollbackToken, obs: &Vec<TaskRestoreObservation>) -> (r: Result<
        (),
        ActionSourceError,
    >)
        ensures
            match *token {
                RollbackToken::NiceRestore { records } => exists|items: Seq<TaskRestoreItem>, t: TaskRestoreTally|
                    #![trigger items_observed(nice_identities(records@), nice_originals(records@), obs@, items), tally_matches("nice"@, "nice"@, items, t)]
                    items_observed(nice_identities(records@), nice_originals(records@), obs@, items) && tally_matches(
                        "nice"@,
                        "nice"@,
                        items,
                        t,
                    ) && (t.errors == 0 ==> r is Ok) && (t.errors > 0 ==> (r matches Err(
                        ActionSourceError::Boundary(ActionBoundaryError::RestoreFailed { action_kind, message }),
                    ) && action_kind@ == "nice"@ && message@ == rollback_failure_text("nice"@, t))),
                _ => r matches Err(e) && is_wrong_token_for(e, "nice-restore"@, *token),
            },
    {
        let records = match nice_rollback_records(token) {
            Ok(rs) => rs,
            Err(e) => return Err(e),
        };
        let (ids, originals) = nice_restore_inputs(records);
        let items = restore_items(&ids, &originals, obs);
        let t = tally_task_restores("nice", "nice", &items);
        nice_rollback_outcome(&t)
    }
}

/// What the nice rollback handler's restore of `token` comes to, given what was seen of
/// each record: its own tokens only, every record visited, with the counts and messages.
pub fn nice_handler_restore_token(token: &RollbackToken, obs: &Vec<TaskRestoreObservation>) -> (r: Result<
    RollbackResult,
    ActionBoundaryError,
>)
    ensures
        match *token {
            RollbackToken::NiceRestore { records } => exists|items: Seq<TaskRestoreItem>, t: TaskRestoreTally|
                #![trigger items_observed(nice_identities(records@), nice_originals(records@), obs@, items), tally_matches("nice"@, "nice"@, items, t)]
                items_observed(nice_identities(records@), nice_originals(records@), obs@, items) && tally_matches(
                    "nice"@,
                    "nice"@,
                    items,
                    t,
                ) && (r matches Ok(res) && res.handler_id@ == "nice-rollback"@ && res.restore_path@ == Seq::<
                    char,
                >::empty() && res.restored == t.restored && res.skipped_dead == t.skipped_dead
                    && res.skipped_identity_mismatch == t.skipped_identity_mismatch && res.legacy_unverified
                    == t.legacy_unverified && res.errors == t.errors && res.messages@ == t.messages@),
            _ => r matches Err(e) && is_unsupported_token(e, "nice-rollback", "nice-restore", token_kind(*token)),
        },
{
    match token {
        RollbackToken::NiceRestore { records } => {
            let (ids, originals) = nice_restore_inputs(records);
            let items = restore_items(&ids, &originals, obs);
            let t = tally_task_restores("nice", "nice", &items);
            Ok(nice_restore_token_result(token, t))
        },
        _ => Err(ActionBoundaryError::unsupported_rollback_token("nice-rollback", "nice-restore", token.kind())),
    }
}

} // verus!
