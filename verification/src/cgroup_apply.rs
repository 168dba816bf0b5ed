//! Applying a cgroup placement: the cpuset writes, then the moves, stopping at the first
//! write that fails and rolling back what was changed before it.
use vstd::prelude::*;

use crate::cgroup::{
    abs_under_root, cgroup_partial_token, normalized, partial_apply_error_after_rollback, placement_collect_failure,
    placement_collect_passes, placement_snapshots_match, planned_moves, sets_cpuset, CgroupFileObservation,
    CgroupPlacementAction, CgroupPlacementPolicy, CgroupTargetSnapshot, CgroupTaskObservation,
};
use crate::error::{source_text, ActionSourceError, PartialApplyError};
use crate::model::{ActionWarning, CgroupCpusetRestoreRecord, CgroupRestoreRecord};
use crate::text::{cat3, decimal, join_path, path_join, u64_to_string};
use crate::token::RollbackToken;
use crate::writes::{first_failed_write, lemma_first_failed_stays, write_error, write_error_at};

verus! {

/// How many cpuset files the action writes before moving any task.
pub open spec fn cpuset_write_count(a: CgroupPlacementAction) -> nat {
    (if a.cpuset_cpus is Some {
        1nat
    } else {
        0nat
    }) + (if a.cpuset_mems is Some {
        1nat
    } else {
        0nat
    })
}

/// `c` is the cpuset record applying keeps, given the cpuset files' values before the
/// apply (`None` for a file that does not exist): none when no cpuset file is written.
pub open spec fn is_cpuset_record(
    c: Option<CgroupCpusetRestoreRecord>,
    a: CgroupPlacementAction,
    cpus: Option<String>,
    mems: Option<String>,
) -> bool {
    if sets_cpuset(a) {
        c matches Some(rec) && rec.cgroup_path@ == normalized(a.target_cgroup@)->0 && rec.original_cpuset_cpus == (
        if a.cpuset_cpus is Some {
            cpus
        } else {
            None
        }) && rec.original_cpuset_mems == (if a.cpuset_mems is Some {
            mems
        } else {
            None
        })
    } else {
        c is None
    }
}

/// `p` reports a failure with `text` after the partial rollback of the moves `records`
/// (and of the cpuset, when a cpuset file was written), whose outcome is `rollback`; with
/// nothing changed, there is nothing to roll back.
pub open spec fn is_partial_failure(
    p: PartialApplyError,
    text: Seq<char>,
    records: Seq<CgroupRestoreRecord>,
    cpuset_changed: bool,
    a: CgroupPlacementAction,
    cpus: Option<String>,
    mems: Option<String>,
    rollback: Result<(), ActionSourceError>,
) -> bool {
    let changed = records.len() > 0 || cpuset_changed;
    &&& if changed {
        p.rollback matches Some(RollbackToken::CgroupRestore { records: rs, cpuset: c }) && rs@ == records && (
        if cpuset_changed {
            is_cpuset_record(c, a, cpus, mems)
        } else {
            c is None
        })
    } else {
        p.rollback is None
    }
    &&& if changed && rollback is Err {
        p.source matches ActionSourceError::Message(m) && m@ == "apply failed: "@ + text
            + "; partial cgroup rollback failed: "@ + source_text(rollback->Err_0)
    } else {
        p.source matches ActionSourceError::Message(m) && m@ == text
    }
}

/// What applying `moves` comes to, the `k`th planned write failing with
/// `write_error_at(writes, k)`: the cpuset files first (`cpuset.cpus`, then
/// `cpuset.mems`, each where the action sets it), then one move per record. A failed
/// `cpuset.cpus` write has changed nothing; any later failure rolls back what was changed
/// (the outcome of that rollback is `rollback`). When every write succeeds, the token
/// holds every move and the cpuset record.
pub open spec fn cgroup_apply_outcome(
    r: Result<RollbackToken, PartialApplyError>,
    a: CgroupPlacementAction,
    abs: Seq<char>,
    moves: Seq<CgroupRestoreRecord>,
    cpus: Option<String>,
    mems: Option<String>,
    writes: Seq<Option<String>>,
    rollback: Result<(), ActionSourceError>,
) -> bool {
    let mems_at: int = if a.cpuset_cpus is Some {
        1
    } else {
        0
    };
    let base = cpuset_write_count(a) as int;
    if a.cpuset_cpus is Some && write_error_at(writes, 0) is Some {
        r matches Err(p) && p.rollback is None && (p.source matches ActionSourceError::Message(m) && m@
            == "failed to write "@ + join_path(abs, "cpuset.cpus"@) + ": "@ + write_error_at(writes, 0)->0@)
    } else if a.cpuset_mems is Some && write_error_at(writes, mems_at) is Some {
        r matches Err(p) && is_partial_failure(
            p,
            "failed to write "@ + join_path(abs, "cpuset.mems"@) + ": "@ + write_error_at(writes, mems_at)->0@,
            Seq::empty(),
            a.cpuset_cpus is Some,
            a,
            cpus,
            mems,
            rollback,
        )
    } else {
        match first_failed_write(writes, base, moves.len() as int) {
            Some(j) => r matches Err(p) && is_partial_failure(
                p,
                "failed to move tid="@ + decimal(moves[j].tid as nat) + " to "@ + abs + ": "@ + write_error_at(
                    writes,
                    base + j,
                )->0@,
                moves.take(j),
                sets_cpuset(a),
                a,
                cpus,
                mems,
                rollback,
            ),
            None => r matches Ok(RollbackToken::CgroupRestore { records, cpuset }) && records@ == moves
                && is_cpuset_record(cpuset, a, cpus, mems),
        }
    }
}

impl CgroupPlacementAction {
    /// The apply under `policy`: the targets are checked as for a dry run, then the
    /// cpuset files are written and the tasks not yet in the target cgroup are moved, in
    /// order. The `k`th entry of `writes` is the error of the `k`th of those writes, if it
    /// failed; `original_cpus` and `original_mems` are the cpuset files' values before the
    /// apply, and `rollback` the outcome of rolling back a partial apply.
    pub fn apply_with_policy(
        &self,
        policy: &CgroupPlacementPolicy,
        proc_root: &str,
        files: &CgroupFileObservation,
        observations: &Vec<CgroupTaskObservation>,
        original_cpus: Option<String>,
        original_mems: Option<String>,
        writes: &Vec<Option<String>>,
        rollback: Result<(), ActionSourceError>,
    ) -> (r: Result<RollbackToken, PartialApplyError>)
        ensures
            !placement_collect_passes(*self, *policy, *files, observations@) ==> (r matches Err(p) && p.rollback is None
                && placement_collect_failure(*self, *policy, proc_root@, *files, observations@, p.source)),
            placement_collect_passes(*self, *policy, *files, observations@) ==> exists|
                snaps: Seq<(CgroupTargetSnapshot, Vec<ActionWarning>)>,
            |
                #![trigger placement_snapshots_match(proc_root@, self.targets@, observations@, snaps)]
                placement_snapshots_match(proc_root@, self.targets@, observations@, snaps) && {
                    let abs = abs_under_root(self.cgroup_root@, normalized(self.target_cgroup@)->0);
                    cgroup_apply_outcome(
                        r,
                        *self,
                        abs,
                        planned_moves(self.cgroup_root@, abs, snaps),
                        original_cpus,
                        original_mems,
                        writes@,
                        rollback,
                    )
                },
    {
        proof {
            reveal_strlit("cpuset.cpus");
            reveal_strlit("cpuset.mems");
        }
        let moves = match self.apply_plan_with_policy(policy, proc_root, files, observations) {
            Ok(m) => m,
            Err(e) => return Err(PartialApplyError::from_source(e)),
        };
        let ghost snaps = choose|snaps: Seq<(CgroupTargetSnapshot, Vec<ActionWarning>)>|
            #![trigger placement_snapshots_match(proc_root@, self.targets@, observations@, snaps)]
            placement_snapshots_match(proc_root@, self.targets@, observations@, snaps) && moves@ == planned_moves(
                self.cgroup_root@,
                abs_under_root(self.cgroup_root@, normalized(self.target_cgroup@)->0),
                snaps,
            );
        let abs = match self.target_cgroup_abs() {
            Ok(p) => p,
            Err(e) => return Err(PartialApplyError::from_source(e)),
        };
        let ghost cpus_before = original_cpus;
        let ghost mems_before = original_mems;
        let ghost abs_spec = abs_under_root(self.cgroup_root@, normalized(self.target_cgroup@)->0);
        let cpuset = self.cpuset_restore_record(original_cpus, original_mems);
        let mut k: usize = 0;
        if self.cpuset_cpus.is_some() {
            match write_error(writes, 0, 0) {
                Some(e) => {
                    let path = path_join(abs.as_str(), "cpuset.cpus");
                    let mut m = cat3("failed to write ", path.as_str(), ": ");
                    m.append(e.as_str());
                    return Err(PartialApplyError::from_source(ActionSourceError::Message(m)));
                },
                None => {},
            }
            k = 1;
        }
        if self.cpuset_mems.is_some() {
            match write_error(writes, k, 0) {
                Some(e) => {
                    let path = path_join(abs.as_str(), "cpuset.mems");
                    let mut m = cat3("failed to write ", path.as_str(), ": ");
                    m.append(e.as_str());
                    let token = cgroup_partial_token(Vec::new(), self.cpuset_cpus.is_some(), &cpuset);
                    return Err(partial_apply_error_after_rollback(ActionSourceError::Message(m), token, rollback));
                },
                None => {},
            }
            k = k + 1;
        }
        let base = k;
        let mut j: usize = 0;
        while j < moves.len()
            invariant
                0 <= j <= moves@.len(),
                base == cpuset_write_count(*self),
                base <= 2,
                placement_collect_passes(*self, *policy, *files, observations@),
                placement_snapshots_match(proc_root@, self.targets@, observations@, snaps),
                abs@ == abs_spec,
                abs_spec == abs_under_root(self.cgroup_root@, normalized(self.target_cgroup@)->0),
                moves@ == planned_moves(self.cgroup_root@, abs_spec, snaps),
                is_cpuset_record(cpuset, *self, cpus_before, mems_before),
                cpus_before == original_cpus,
                mems_before == original_mems,
                self.cpuset_cpus is Some ==> write_error_at(writes@, 0) is None,
                self.cpuset_mems is Some ==> write_error_at(writes@, if self.cpuset_cpus is Some { 1 } else { 0 }) is None,
                first_failed_write(writes@, base as int, j as int) is None,
            decreases moves@.len() - j,
        {
            match write_error(writes, base, j) {
                Some(e) => {
                    let n = u64_to_string(moves[j].tid as u64);
                    let mut m = cat3("failed to move tid=", n.as_str(), " to ");
                    m.append(abs.as_str());
                    m.append(": ");
                    m.append(e.as_str());
                    proof {
                        lemma_first_failed_stays(writes@, base as int, j + 1, moves@.len() as int);
                    }
                    let ghost mv = moves@;
                    let mut done = moves;
                    done.truncate(j);
                    assert(done@ == mv.take(j as int));
                    let token = cgroup_partial_token(done, sets_cpuset_exec(self), &cpuset);
                    return Err(partial_apply_error_after_rollback(ActionSourceError::Message(m), token, rollback));
                },
                None => {},
            }
            j = j + 1;
        }
        Ok(RollbackToken::CgroupRestore { records: moves, cpuset })
    }
}

/// Whether the action writes a cpuset file.
fn sets_cpuset_exec(a: &CgroupPlacementAction) -> (r: bool)
    ensures
        r == sets_cpuset(*a),
{
    a.cpuset_cpus.is_some() || a.cpuset_mems.is_some()
}

} // verus!
