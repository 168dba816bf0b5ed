//! Rolling back a cgroup placement: each recorded task is checked and written back to the
//! cgroup it came from, then the cpuset files get their values back; the outcome tallies
//! every record.
use vstd::prelude::*;

use crate::cgroup::{
    cgroup_events, cgroup_handler_result, cgroup_rollback_outcome, cgroup_rollback_parts, cgroup_tally_matches, cpuset_restore_writes,
    has_parent_part, resolve_original_cgroup, resolved_display, resolved_parts,
    strip_leading_slashes, tally_cgroup_restores, traversal_text, CgroupPlacementAction, CgroupRestoreItem,
    CgroupRestoreTally,
};
use crate::error::{is_wrong_token_for, ActionSourceError};
use crate::model::{record_identity, CgroupCpusetRestoreRecord, CgroupRestoreRecord, TaskRestoreIdentity};
use crate::restore::{
    count_events, identity_verdict, is_failed, is_legacy, is_mismatch, is_restored,
    lemma_skipped_tasks_are_not_written, IdentityVerdict, lemma_counts_fit, observed_event, restore_decision, restore_items, restore_obs_at,
    verify_task_identity, RestoreDecision, TaskProcObservation, TaskRestoreEvent, TaskRestoreItem,
    TaskRestoreObservation,
};
use crate::rollback::{cap, is_token_preview, token_dry_run_preview, RollbackPreview, RollbackResult};
use crate::text::{cat, cat3, decimal, join, join_path, views};
use crate::token::{token_debug_text, RollbackToken};
use crate::writes::{first_failed_write, lemma_first_failed_stays, write_error, write_error_at};

verus! {

/// Whether a recorded cgroup path cannot be resolved under `root` (it climbs out of it).
pub open spec fn resolve_fails(root: Seq<char>, path: Seq<char>) -> bool {
    has_parent_part(resolved_parts(root, path))
}

/// The directory a recorded cgroup path resolves to under `root`.
pub open spec fn resolved_dir(root: Seq<char>, path: Seq<char>) -> Seq<char> {
    join_path(root, strip_leading_slashes("/"@ + join(resolved_parts(root, path), "/"@)))
}

/// The error of a recorded cgroup path that cannot be resolved.
pub open spec fn resolve_error_text(root: Seq<char>, path: Seq<char>) -> Seq<char> {
    "failed to resolve original cgroup path "@ + path + ": "@ + traversal_text(resolved_display(root, path))
}

/// The first of the first `n` records whose cgroup path cannot be resolved.
pub open spec fn first_unresolved(root: Seq<char>, records: Seq<CgroupRestoreRecord>, n: int) -> Option<int>
    decreases n,
{
    if n <= 0 {
        None
    } else {
        match first_unresolved(root, records, n - 1) {
            Some(k) => Some(k),
            None => if resolve_fails(root, records[n - 1].original_cgroup@) {
                Some(n - 1)
            } else {
                None
            },
        }
    }
}

/// The identities a cgroup rollback checks, one per record.
pub open spec fn cgroup_identities(records: Seq<CgroupRestoreRecord>) -> Seq<TaskRestoreIdentity> {
    records.map_values(|r: CgroupRestoreRecord| record_identity(r.tid, r.identity))
}

/// `items` are the records as a restore visited them, in order: each task written back to
/// `dirs[i]`, given what was seen of it.
pub open spec fn cgroup_items_observed(
    records: Seq<CgroupRestoreRecord>,
    dirs: Seq<Seq<char>>,
    obs: Seq<TaskRestoreObservation>,
    items: Seq<CgroupRestoreItem>,
) -> bool {
    &&& items.len() == records.len()
    &&& forall|i: int|
        0 <= i < items.len() ==> #[trigger] items[i].tid == record_identity(records[i].tid, records[i].identity).tid
            && items[i].cgroup_dir@ == dirs[i] && observed_event(
            record_identity(records[i].tid, records[i].identity),
            restore_obs_at(obs, i),
            items[i].event,
        )
}

/// The writes that restore a cpuset record whose cgroup resolves to `dir`: `cpuset.cpus`
/// then `cpuset.mems`, each where the record holds a value.
pub open spec fn cpuset_writes_in(dir: Seq<char>, rec: CgroupCpusetRestoreRecord) -> Seq<(Seq<char>, Seq<char>)> {
    let first: Seq<(Seq<char>, Seq<char>)> = match rec.original_cpuset_cpus {
        Some(v) => seq![(join_path(dir, "cpuset.cpus"@), v@)],
        None => Seq::empty(),
    };
    let second: Seq<(Seq<char>, Seq<char>)> = match rec.original_cpuset_mems {
        Some(v) => seq![(join_path(dir, "cpuset.mems"@), v@)],
        None => Seq::empty(),
    };
    first + second
}

/// How restoring a cpuset record failed, given the `k`th write's error: the cgroup path
/// could not be resolved, or the first failed write as "path: error"; `None` when every
/// write went through. `Ok(n)`: the `n` writes made.
pub open spec fn cpuset_restore_outcome(
    root: Seq<char>,
    rec: CgroupCpusetRestoreRecord,
    writes: Seq<Option<String>>,
) -> Result<nat, Seq<char>> {
    if resolve_fails(root, rec.cgroup_path@) {
        Err(
            "failed to resolve cgroup cpuset restore path "@ + rec.cgroup_path@ + ": "@ + traversal_text(
                resolved_display(root, rec.cgroup_path@),
            ),
        )
    } else {
        let ws = cpuset_writes_in(resolved_dir(root, rec.cgroup_path@), rec);
        match first_failed_write(writes, 0, ws.len() as int) {
            Some(k) => Err(ws[k].0 + ": "@ + write_error_at(writes, k)->0@),
            None => Ok(ws.len()),
        }
    }
}

/// Restores the cpuset record: resolves its cgroup, then reports the first failed write.
fn restore_cpuset(root: &str, rec: &CgroupCpusetRestoreRecord, writes: &Vec<Option<String>>) -> (r: Result<
    usize,
    String,
>)
    ensures
        match cpuset_restore_outcome(root@, *rec, writes@) {
            Ok(n) => r == Ok::<usize, String>(n as usize),
            Err(t) => r matches Err(e) && e@ == t,
        },
        r matches Ok(n) ==> n <= 2,
{
    let ws = match cpuset_restore_writes(root, rec) {
        Ok(w) => w,
        Err(e) => return Err(e.message()),
    };
    let ghost spec_ws = cpuset_writes_in(resolved_dir(root@, rec.cgroup_path@), *rec);
    assert(ws@.map_values(|p: (String, String)| (p.0@, p.1@)) == spec_ws);
    assert(ws@.len() == spec_ws.len());
    let mut k: usize = 0;
    while k < ws.len()
        invariant
            0 <= k <= ws@.len(),
            ws@.len() == spec_ws.len(),
            ws@.map_values(|p: (String, String)| (p.0@, p.1@)) == spec_ws,
            spec_ws == cpuset_writes_in(resolved_dir(root@, rec.cgroup_path@), *rec),
            !resolve_fails(root@, rec.cgroup_path@),
            first_failed_write(writes@, 0, k as int) is None,
        decreases ws@.len() - k,
    {
        match write_error(writes, 0, k) {
            Some(e) => {
                proof {
                    lemma_first_failed_stays(writes@, 0, k + 1, ws@.len() as int);
                    assert(spec_ws[k as int].0 == ws@[k as int].0@);
                }
                let m = cat3(ws[k].0.as_str(), ": ", e.as_str());
                return Err(m);
            },
            None => {},
        }
        k = k + 1;
    }
    Ok(ws.len())
}

/// The identities of the records, one per record.
fn cgroup_restore_identities(records: &Vec<CgroupRestoreRecord>) -> (r: Vec<TaskRestoreIdentity>)
    ensures
        r@ == cgroup_identities(records@),
{
    let mut ids: Vec<TaskRestoreIdentity> = Vec::new();
    let mut i: usize = 0;
    while i < records.len()
        invariant
            0 <= i <= records@.len(),
            ids@ == cgroup_identities(records@.take(i as int)),
        decreases records@.len() - i,
    {
        proof {
            assert(records@.take(i + 1) =~= records@.take(i as int).push(records@[i as int]));
        }
        ids.push(records[i].restore_identity());
        i = i + 1;
    }
    assert(records@.take(records@.len() as int) =~= records@);
    ids
}

/// Builds the cgroup items from the per-task items and the directories.
fn cgroup_items(task_items: &Vec<TaskRestoreItem>, dirs: &Vec<String>) -> (r: Vec<CgroupRestoreItem>)
    requires
        task_items@.len() == dirs@.len(),
    ensures
        r@.len() == dirs@.len(),
        forall|i: int|
            0 <= i < r@.len() ==> #[trigger] r@[i].tid == task_items@[i].tid && r@[i].cgroup_dir == dirs@[i]
                && r@[i].event == task_items@[i].event,
{
    let mut out: Vec<CgroupRestoreItem> = Vec::new();
    let mut i: usize = 0;
    while i < dirs.len()
        invariant
            0 <= i <= dirs@.len(),
            task_items@.len() == dirs@.len(),
            out@.len() == i,
            forall|k: int|
                0 <= k < i ==> #[trigger] out@[k].tid == task_items@[k].tid && out@[k].cgroup_dir == dirs@[k]
                    && out@[k].event == task_items@[k].event,
        decreases dirs@.len() - i,
    {
        out.push(
            CgroupRestoreItem {
                tid: task_items[i].tid,
                cgroup_dir: dirs[i].clone(),
                event: copy_event(&task_items[i].event),
            },
        );
        i = i + 1;
    }
    out
}

/// An exact copy of a restore event.
fn copy_event(e: &TaskRestoreEvent) -> (r: TaskRestoreEvent)
    ensures
        r == *e,
{
    match e {
        TaskRestoreEvent::Missing => TaskRestoreEvent::Missing,
        TaskRestoreEvent::Mismatch { reason } => TaskRestoreEvent::Mismatch { reason: reason.clone() },
        TaskRestoreEvent::Written { legacy } => TaskRestoreEvent::Written { legacy: *legacy },
        TaskRestoreEvent::WriteMissing { legacy } => TaskRestoreEvent::WriteMissing { legacy: *legacy },
        TaskRestoreEvent::WriteFailed { legacy, error } => TaskRestoreEvent::WriteFailed {
            legacy: *legacy,
            error: error.clone(),
        },
    }
}


/// The cpuset error a rollback reports: none without a cpuset record or when it was
/// restored, else the text of its failure.
pub open spec fn cpuset_error_of(
    root: Seq<char>,
    cpuset: Option<CgroupCpusetRestoreRecord>,
    writes: Seq<Option<String>>,
) -> Option<Seq<char>> {
    match cpuset {
        None => None,
        Some(rec) => match cpuset_restore_outcome(root, rec, writes) {
            Ok(_) => None,
            Err(t) => Some(t),
        },
    }
}

/// `r` is the outcome of the cgroup action's rollback with tally `t` and the cpuset
/// error `cpuset_error`: a failure with the counts and every failure when anything failed.
pub open spec fn rollback_outcome_matches(
    r: Result<(), ActionSourceError>,
    t: CgroupRestoreTally,
    cpuset_error: Option<Seq<char>>,
) -> bool {
    let failed = t.counts.errors + if cpuset_error is Some {
        1int
    } else {
        0int
    };
    let failures = views(t.failures@) + match cpuset_error {
        Some(e) => seq!["cpuset_restore_error="@ + e],
        None => Seq::<Seq<char>>::empty(),
    };
    &&& failed == 0 ==> r is Ok
    &&& failed > 0 ==> (r matches Err(ActionSourceError::Message(m)) && m@
        == "failed to rollback cgroup placement after attempting all records: restored="@ + decimal(
        t.counts.restored as nat,
    ) + " skipped_missing="@ + decimal(t.counts.skipped_dead as nat) + " skipped_identity_mismatch="@
        + decimal(t.counts.skipped_identity_mismatch as nat) + " failed="@ + decimal(
        failed as nat,
    ) + " errors="@ + join(failures, "; "@))
}

/// The directories the cgroup action's rollback writes the records back to.
pub open spec fn resolved_dirs(root: Seq<char>, records: Seq<CgroupRestoreRecord>) -> Seq<Seq<char>> {
    records.map_values(|r: CgroupRestoreRecord| resolved_dir(root, r.original_cgroup@))
}

/// Whether the identity check of the `i`th record, given what was seen of its task, lets
/// its write go ahead (the task is the recorded one, or a legacy record cannot tell).
pub open spec fn record_written(records: Seq<CgroupRestoreRecord>, obs: Seq<TaskRestoreObservation>, i: int) -> bool {
    let v = identity_verdict(record_identity(records[i].tid, records[i].identity), restore_obs_at(obs, i).proc);
    v is SameTask || v is UnknownLegacy
}

/// The first of the first `n` records that the handler would write back and whose
/// recorded cgroup cannot be resolved under `root`.
pub open spec fn first_unresolved_written(
    root: Seq<char>,
    records: Seq<CgroupRestoreRecord>,
    obs: Seq<TaskRestoreObservation>,
    n: int,
) -> Option<int>
    decreases n,
{
    if n <= 0 {
        None
    } else {
        match first_unresolved_written(root, records, obs, n - 1) {
            Some(k) => Some(k),
            None => if record_written(records, obs, n - 1) && resolve_fails(root, records[n - 1].original_cgroup@) {
                Some(n - 1)
            } else {
                None
            },
        }
    }
}

/// The directory the handler writes the `i`th record back to: its recorded cgroup
/// resolved under `root` where the record is written, none where it is skipped.
pub open spec fn handler_dir(
    root: Seq<char>,
    records: Seq<CgroupRestoreRecord>,
    obs: Seq<TaskRestoreObservation>,
    i: int,
) -> Seq<char> {
    if record_written(records, obs, i) {
        resolved_dir(root, records[i].original_cgroup@)
    } else {
        Seq::empty()
    }
}

/// The directories of the handler's restore, one per record.
pub open spec fn handler_dirs(
    root: Seq<char>,
    records: Seq<CgroupRestoreRecord>,
    obs: Seq<TaskRestoreObservation>,
) -> Seq<Seq<char>> {
    Seq::new(records.len(), |i: int| handler_dir(root, records, obs, i))
}

/// The start of the cgroup rollback handler's refusal of another kind of token; the
/// token's debug rendering follows.
pub open spec fn handler_unsupported_prefix() -> Seq<char> {
    "cgroup rollback handler does not support "@
}

/// Once a written record cannot be resolved, it stays the first such record.
proof fn lemma_unresolved_written_stays(
    root: Seq<char>,
    records: Seq<CgroupRestoreRecord>,
    obs: Seq<TaskRestoreObservation>,
    k: int,
    n: int,
)
    requires
        0 <= k <= n,
        first_unresolved_written(root, records, obs, k) is Some,
    ensures
        first_unresolved_written(root, records, obs, n) == first_unresolved_written(root, records, obs, k),
    decreases n - k,
{
    if k < n {
        lemma_unresolved_written_stays(root, records, obs, k, n - 1);
    }
}

/// The identity verdict of the `i`th record, given what was seen of its task.
pub open spec fn record_verdict(
    records: Seq<CgroupRestoreRecord>,
    obs: Seq<TaskRestoreObservation>,
    i: int,
) -> IdentityVerdict {
    identity_verdict(record_identity(records[i].tid, records[i].identity), restore_obs_at(obs, i).proc)
}

/// How many of the first `n` records have a verdict that satisfies `p`.
pub open spec fn count_verdicts(
    records: Seq<CgroupRestoreRecord>,
    obs: Seq<TaskRestoreObservation>,
    n: int,
    p: spec_fn(IdentityVerdict) -> bool,
) -> nat
    decreases n,
{
    if n <= 0 {
        0
    } else {
        count_verdicts(records, obs, n - 1, p) + if p(record_verdict(records, obs, n - 1)) {
            1nat
        } else {
            0nat
        }
    }
}

proof fn lemma_counts_agree(
    records: Seq<CgroupRestoreRecord>,
    obs: Seq<TaskRestoreObservation>,
    evs: Seq<TaskRestoreEvent>,
    n: int,
    pe: spec_fn(TaskRestoreEvent) -> bool,
    pv: spec_fn(IdentityVerdict) -> bool,
)
    requires
        0 <= n <= evs.len(),
        forall|i: int| 0 <= i < n ==> (pe(#[trigger] evs[i]) <==> pv(record_verdict(records, obs, i))),
    ensures
        count_events(evs.take(n), pe) == count_verdicts(records, obs, n, pv),
    decreases n,
{
    if n > 0 {
        lemma_counts_agree(records, obs, evs, n - 1, pe, pv);
        assert(evs.take(n).drop_last() =~= evs.take(n - 1));
        assert(evs.take(n).last() == evs[n - 1]);
    }
}

/// In a restore by the cgroup rollback handler, a record whose task is missing or whose
/// identity check fails is not restored and not counted as failed; the number of
/// identity mismatches is the number of records whose check reports a mismatch, and the
/// number of unverified restores is the number of records without a recorded start time
/// whose task still exists.
pub proof fn handler_counts_follow_identity_verdicts(
    root: Seq<char>,
    records: Seq<CgroupRestoreRecord>,
    obs: Seq<TaskRestoreObservation>,
    items: Seq<CgroupRestoreItem>,
    t: CgroupRestoreTally,
)
    requires
        cgroup_items_observed(records, handler_dirs(root, records, obs), obs, items),
        cgroup_tally_matches(items, t),
    ensures
        forall|i: int|
            0 <= i < items.len() && (record_verdict(records, obs, i) is Missing || record_verdict(records, obs, i) is Mismatch)
                ==> !is_restored(#[trigger] items[i].event) && !is_failed(items[i].event),
        t.counts.skipped_identity_mismatch == count_verdicts(
            records,
            obs,
            records.len() as int,
            |v: IdentityVerdict| v is Mismatch,
        ),
        t.counts.legacy_unverified == count_verdicts(
            records,
            obs,
            records.len() as int,
            |v: IdentityVerdict| v is UnknownLegacy,
        ),
{
    let evs = cgroup_events(items);
    assert forall|i: int| 0 <= i < items.len() implies (#[trigger] evs[i]) == items[i].event by {}
    assert forall|i: int|
        0 <= i < items.len() && (record_verdict(records, obs, i) is Missing || record_verdict(records, obs, i) is Mismatch)
            implies !is_restored(#[trigger] items[i].event) && !is_failed(items[i].event) by {
        assert(items[i].tid == record_identity(records[i].tid, records[i].identity).tid);
        lemma_skipped_tasks_are_not_written(
            record_identity(records[i].tid, records[i].identity),
            restore_obs_at(obs, i),
            items[i].event,
        );
    }
    let pm = |e: TaskRestoreEvent| is_mismatch(e);
    let vm = |v: IdentityVerdict| v is Mismatch;
    let pl = |e: TaskRestoreEvent| is_legacy(e);
    let vl = |v: IdentityVerdict| v is UnknownLegacy;
    assert forall|i: int| 0 <= i < evs.len() implies (pm(#[trigger] evs[i]) <==> vm(record_verdict(records, obs, i))) by {
        assert(items[i].tid == record_identity(records[i].tid, records[i].identity).tid);
    }
    assert forall|i: int| 0 <= i < evs.len() implies (pl(#[trigger] evs[i]) <==> vl(record_verdict(records, obs, i))) by {
        assert(items[i].tid == record_identity(records[i].tid, records[i].identity).tid);
    }
    lemma_counts_agree(records, obs, evs, evs.len() as int, pm, vm);
    lemma_counts_agree(records, obs, evs, evs.len() as int, pl, vl);
    assert(evs.take(evs.len() as int) =~= evs);
}

/// Whether the `i`th record is written back, decided from what was seen of its task.
fn writes_record(records: &Vec<CgroupRestoreRecord>, obs: &Vec<TaskRestoreObservation>, i: usize) -> (r: bool)
    requires
        i < records@.len(),
    ensures
        r == record_written(records@, obs@, i as int),
{
    let missing = TaskProcObservation { stat: None, status_tgid: None, process_stat: None };
    let proc = if i < obs.len() {
        &obs[i].proc
    } else {
        &missing
    };
    assert(restore_obs_at(obs@, i as int).proc == *proc);
    let status = verify_task_identity(&records[i].restore_identity(), proc);
    match restore_decision(&status) {
        RestoreDecision::Write { .. } => true,
        _ => false,
    }
}

/// Zero, once per record: a cgroup record restores no value of its own.
fn zeros(n: usize) -> (r: Vec<i64>)
    ensures
        r@.len() == n,
        forall|i: int| 0 <= i < n ==> #[trigger] r@[i] == 0,
{
    let mut v: Vec<i64> = Vec::new();
    let mut i: usize = 0;
    while i < n
        invariant
            0 <= i <= n,
            v@.len() == i,
            forall|k: int| 0 <= k < i ==> #[trigger] v@[k] == 0,
        decreases n - i,
    {
        v.push(0);
        i = i + 1;
    }
    v
}

/// The cgroup items of `records` restored into `dirs`, given what was seen of each.
fn observed_cgroup_items(
    records: &Vec<CgroupRestoreRecord>,
    dirs: &Vec<String>,
    obs: &Vec<TaskRestoreObservation>,
) -> (r: Vec<CgroupRestoreItem>)
    requires
        records@.len() == dirs@.len(),
    ensures
        cgroup_items_observed(records@, views(dirs@), obs@, r@),
{
    let ids = cgroup_restore_identities(records);
    let originals = zeros(records.len());
    let task_items = restore_items(&ids, &originals, obs);
    let items = cgroup_items(&task_items, dirs);
    assert forall|i: int| 0 <= i < items@.len() implies #[trigger] items@[i].tid == record_identity(
        records@[i].tid,
        records@[i].identity,
    ).tid && items@[i].cgroup_dir@ == views(dirs@)[i] && observed_event(
        record_identity(records@[i].tid, records@[i].identity),
        restore_obs_at(obs@, i),
        items@[i].event,
    ) by {
        assert(ids@[i] == record_identity(records@[i].tid, records@[i].identity));
        assert(task_items@[i].tid == ids@[i].tid);
    }
    items
}

/// Once a record cannot be resolved, it stays the first such record.
proof fn lemma_unresolved_stays(root: Seq<char>, records: Seq<CgroupRestoreRecord>, k: int, n: int)
    requires
        0 <= k <= n,
        first_unresolved(root, records, k) is Some,
    ensures
        first_unresolved(root, records, n) == first_unresolved(root, records, k),
    decreases n - k,
{
    if k < n {
        lemma_unresolved_stays(root, records, k, n - 1);
    }
}

impl CgroupPlacementAction {
    /// The outcome of rolling back `token`: every record is visited (the `i`th entry of
    /// `obs` tells what was seen of the `i`th task and how its write went) unless a
    /// recorded cgroup cannot be resolved, which stops the rollback with that error; then
    /// the cpuset record, if any, is restored (the `k`th entry of `cpuset_writes` is the
    /// error of its `k`th write). Anything that failed fails the rollback.
    pub fn rollback_outcome(
        &self,
        token: &RollbackToken,
        obs: &Vec<TaskRestoreObservation>,
        cpuset_writes: &Vec<Option<String>>,
    ) -> (r: Result<(), ActionSourceError>)
        requires
            token matches RollbackToken::CgroupRestore { records, .. } ==> records@.len() < usize::MAX,
        ensures
            match *token {
                RollbackToken::CgroupRestore { records, cpuset } => match first_unresolved(
                    self.cgroup_root@,
                    records@,
                    records@.len() as int,
                ) {
                    Some(k) => r matches Err(ActionSourceError::Message(m)) && m@ == resolve_error_text(
                        self.cgroup_root@,
                        records@[k].original_cgroup@,
                    ),
                    None => exists|items: Seq<CgroupRestoreItem>, t: CgroupRestoreTally|
                        #![trigger cgroup_items_observed(records@, resolved_dirs(self.cgroup_root@, records@), obs@, items), cgroup_tally_matches(items, t)]
                        cgroup_items_observed(records@, resolved_dirs(self.cgroup_root@, records@), obs@, items)
                            && cgroup_tally_matches(items, t) && rollback_outcome_matches(
                            r,
                            t,
                            cpuset_error_of(self.cgroup_root@, cpuset, cpuset_writes@),
                        ),
                },
                _ => r matches Err(e) && is_wrong_token_for(e, "cgroup-restore"@, *token),
            },
    {
        let (records, cpuset) = match cgroup_rollback_parts(token) {
            Ok(p) => p,
            Err(e) => return Err(e),
        };
        let mut dirs: Vec<String> = Vec::new();
        let mut i: usize = 0;
        while i < records.len()
            invariant
                0 <= i <= records@.len(),
                *token == (RollbackToken::CgroupRestore { records: *records, cpuset: *cpuset }),
                views(dirs@) == resolved_dirs(self.cgroup_root@, records@.take(i as int)),
                first_unresolved(self.cgroup_root@, records@, i as int) is None,
            decreases records@.len() - i,
        {
            proof {
                assert(records@.take(i + 1) =~= records@.take(i as int).push(records@[i as int]));
            }
            match resolve_original_cgroup(self.cgroup_root.as_str(), records[i].original_cgroup.as_str()) {
                Ok(d) => {
                    let ghost before = dirs@;
                    dirs.push(d);
                    proof {
                        assert(views(dirs@) =~= views(before).push(d@));
                        assert(resolved_dirs(self.cgroup_root@, records@.take(i + 1)) =~= resolved_dirs(
                            self.cgroup_root@,
                            records@.take(i as int),
                        ).push(resolved_dir(self.cgroup_root@, records@[i as int].original_cgroup@)));
                    }
                },
                Err(e) => {
                    proof {
                        assert(first_unresolved(self.cgroup_root@, records@, i + 1) == Some(i as int));
                        lemma_unresolved_stays(self.cgroup_root@, records@, i + 1, records@.len() as int);
                        assert(e matches ActionSourceError::Message(m) && m@ == resolve_error_text(
                            self.cgroup_root@,
                            records@[i as int].original_cgroup@,
                        ));
                    }
                    return Err(e);
                },
            }
            i = i + 1;
        }
        assert(records@.take(records@.len() as int) =~= records@);
        let items = observed_cgroup_items(records, &dirs, obs);
        let t = tally_cgroup_restores(&items);
        proof {
            lemma_counts_fit(cgroup_events(items@), t.counts);
        }
        let cpuset_error = match cpuset {
            None => None,
            Some(rec) => match restore_cpuset(self.cgroup_root.as_str(), rec, cpuset_writes) {
                Ok(_) => None,
                Err(e) => Some(e),
            },
        };
        let r = cgroup_rollback_outcome(&t, cpuset_error);
        r
    }
}

/// How the handler's restore of a cpuset record went: none without one, else its
/// outcome.
pub open spec fn cpuset_outcome_of(
    root: Seq<char>,
    cpuset: Option<CgroupCpusetRestoreRecord>,
    writes: Seq<Option<String>>,
) -> Option<Result<nat, Seq<char>>> {
    match cpuset {
        None => None,
        Some(rec) => Some(cpuset_restore_outcome(root, rec, writes)),
    }
}

/// `r` is the cgroup rollback handler's report with tally `t` and cpuset outcome `c`: a
/// failure naming every message when anything failed, else the counts (the cpuset writes
/// counted as restored, the sum capped at the largest `usize`) and the messages.
pub open spec fn handler_result_matches(
    r: Result<RollbackResult, ActionSourceError>,
    t: CgroupRestoreTally,
    c: Option<Result<nat, Seq<char>>>,
) -> bool {
    let errors = t.counts.errors + if c matches Some(Err(_)) {
        1int
    } else {
        0int
    };
    let messages = views(t.messages@) + match c {
        Some(Err(e)) => seq!["failed to restore cgroup cpuset state: "@ + e],
        _ => Seq::<Seq<char>>::empty(),
    };
    &&& errors > 0 ==> (r matches Err(ActionSourceError::Message(m)) && m@ == "failed to rollback cgroup placement: "@
        + join(messages, "; "@))
    &&& errors == 0 ==> (r matches Ok(res) && res.handler_id@ == "cgroup-rollback"@ && res.restore_path@ == Seq::<
        char,
    >::empty() && res.restored == cap(t.counts.restored + match c {
        Some(Ok(n)) => n as int,
        _ => 0int,
    }) && res.skipped_dead == t.counts.skipped_dead && res.skipped_identity_mismatch
        == t.counts.skipped_identity_mismatch && res.legacy_unverified == t.counts.legacy_unverified && res.errors == 0
        && views(res.messages@) == messages)
}

/// What the cgroup rollback handler's restore of `token` comes to, with cgroups under
/// `cgroup_root`. The records are visited in order (the `i`th entry of `obs` tells what
/// was seen of the `i`th task and how its write went): a task that is gone or whose tid
/// was reused is skipped; any other is written back to its recorded cgroup, resolved
/// under the root, and a cgroup that cannot be resolved stops the restore with that
/// error. Then the cpuset record, if any, is restored (the `k`th entry of
/// `cpuset_writes` is the error of its `k`th write).
pub fn cgroup_handler_restore_token(
    cgroup_root: &str,
    token: &RollbackToken,
    obs: &Vec<TaskRestoreObservation>,
    cpuset_writes: &Vec<Option<String>>,
) -> (r: Result<RollbackResult, ActionSourceError>)
    ensures
        match *token {
            RollbackToken::CgroupRestore { records, cpuset } => match first_unresolved_written(
                cgroup_root@,
                records@,
                obs@,
                records@.len() as int,
            ) {
                Some(k) => r matches Err(ActionSourceError::Message(m)) && m@ == resolve_error_text(
                    cgroup_root@,
                    records@[k].original_cgroup@,
                ),
                None => exists|items: Seq<CgroupRestoreItem>, t: CgroupRestoreTally|
                    #![trigger cgroup_items_observed(records@, handler_dirs(cgroup_root@, records@, obs@), obs@, items), cgroup_tally_matches(items, t)]
                    cgroup_items_observed(records@, handler_dirs(cgroup_root@, records@, obs@), obs@, items)
                        && cgroup_tally_matches(items, t) && handler_result_matches(
                        r,
                        t,
                        cpuset_outcome_of(cgroup_root@, cpuset, cpuset_writes@),
                    ),
            },
            _ => r matches Err(ActionSourceError::Message(m)) && m@.len() >= handler_unsupported_prefix().len()
                && m@.subrange(0, handler_unsupported_prefix().len() as int) == handler_unsupported_prefix(),
        },
{
    let (records, cpuset) = match token {
        RollbackToken::CgroupRestore { records, cpuset } => (records, cpuset),
        _ => {
            let d = token_debug_text(token);
            return Err(ActionSourceError::Message(cat("cgroup rollback handler does not support ", d.as_str())));
        },
    };
    let ghost root = cgroup_root@;
    let mut dirs: Vec<String> = Vec::new();
    let mut i: usize = 0;
    while i < records.len()
        invariant
            0 <= i <= records@.len(),
            *token == (RollbackToken::CgroupRestore { records: *records, cpuset: *cpuset }),
            root == cgroup_root@,
            views(dirs@) == handler_dirs(root, records@, obs@).take(i as int),
            first_unresolved_written(root, records@, obs@, i as int) is None,
        decreases records@.len() - i,
    {
        let ghost before = dirs@;
        if writes_record(records, obs, i) {
            match resolve_original_cgroup(cgroup_root, records[i].original_cgroup.as_str()) {
                Ok(d) => {
                    dirs.push(d);
                },
                Err(e) => {
                    proof {
                        assert(first_unresolved_written(root, records@, obs@, i + 1) == Some(i as int));
                        lemma_unresolved_written_stays(root, records@, obs@, i + 1, records@.len() as int);
                    }
                    return Err(e);
                },
            }
        } else {
            dirs.push(String::new());
        }
        proof {
            assert(views(dirs@) =~= views(before).push(handler_dir(root, records@, obs@, i as int)));
            assert(handler_dirs(root, records@, obs@).take(i + 1) =~= handler_dirs(root, records@, obs@).take(
                i as int,
            ).push(handler_dir(root, records@, obs@, i as int)));
        }
        i = i + 1;
    }
    assert(handler_dirs(root, records@, obs@).take(records@.len() as int) =~= handler_dirs(root, records@, obs@));
    let items = observed_cgroup_items(records, &dirs, obs);
    let t = tally_cgroup_restores(&items);
    let outcome = match cpuset {
        None => None,
        Some(rec) => Some(restore_cpuset(cgroup_root, rec, cpuset_writes)),
    };
    cgroup_handler_result(t, outcome)
}

/// What the cgroup rollback handler previews: its own tokens, as what restoring them
/// would do; a token of another kind is refused, naming the token.
pub fn cgroup_handler_dry_run_token(token: &RollbackToken) -> (r: Result<RollbackPreview, ActionSourceError>)
    ensures
        match *token {
            RollbackToken::CgroupRestore { .. } => r matches Ok(p) && is_token_preview(
                p,
                "cgroup-rollback",
                "cgroup-restore"@,
                *token,
            ),
            _ => r matches Err(ActionSourceError::Message(m)) && m@.len() >= handler_unsupported_prefix().len()
                && m@.subrange(0, handler_unsupported_prefix().len() as int) == handler_unsupported_prefix(),
        },
{
    match token {
        RollbackToken::CgroupRestore { .. } => Ok(token_dry_run_preview("cgroup-rollback", token, "cgroup-restore")),
        _ => {
            let d = token_debug_text(token);
            Err(ActionSourceError::Message(cat("cgroup rollback handler does not support ", d.as_str())))
        },
    }
}

} // verus!
