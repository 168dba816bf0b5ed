//! Verifying a cgroup placement: which targets sit in the target cgroup now, which have
//! exited, and whether the cpuset files hold the requested values.
use vstd::prelude::*;

use crate::cgroup::{
    abs_under_root, no_cgroup_path_text, normalize_cgroup_path, normalized, placement_request_passes,
    placement_request_refusal, proc_cgroup_path, read_proc_cgroup_path, sets_cpuset, traversal_text,
    validate_action_request, CgroupPlacementAction, CgroupPlacementPolicy, CgroupPlacementTarget, FileRead,
};
use crate::error::ActionSourceError;
use crate::model::{ActionState, ActionWarning};
use crate::rollback::cap;
use crate::sysfs::read_trimmed;
use crate::tasks::{task_file, task_file_path, warning_texts};
use crate::text::{cat, cat3, decimal, join_path, path_join, str_eq, trim, u64_to_string};

verus! {

/// What verify finds of a target: whether procfs still has it, and its cgroup file.
#[derive(Debug, Clone, PartialEq, Eq)]
pub struct CgroupVerifyObservation {
    pub task_exists: bool,
    pub cgroup_file: FileRead,
}

/// The observation that stands for a target nothing was read for: present, with an
/// unread cgroup file.
pub open spec fn unread_verify_target() -> CgroupVerifyObservation {
    CgroupVerifyObservation { task_exists: true, cgroup_file: FileRead::Unread }
}

/// The observation of target `i`.
pub open spec fn verify_obs_at(obs: Seq<CgroupVerifyObservation>, i: int) -> CgroupVerifyObservation {
    if 0 <= i < obs.len() {
        obs[i]
    } else {
        unread_verify_target()
    }
}

/// The cgroup a target is in now (normal form), or the error text of reading it.
pub open spec fn current_cgroup_read(proc_root: Seq<char>, tid: u32, f: FileRead) -> Result<Seq<char>, Seq<char>> {
    let ctx = "failed to read current cgroup for tid="@ + decimal(tid as nat);
    let path = task_file_path(proc_root, tid, "cgroup"@);
    match f {
        FileRead::Failed(io) => Err(ctx + ": failed to read "@ + path + ": "@ + io@),
        FileRead::Unread => Err(ctx + ": failed to read "@ + path + ": "@),
        FileRead::Contents(c) => match proc_cgroup_path(c@) {
            None => Err(ctx + ": "@ + no_cgroup_path_text()),
            Some(p) => match normalized(p) {
                None => Err(ctx + ": "@ + traversal_text(p)),
                Some(n) => Ok(n),
            },
        },
    }
}

/// What verify makes of one target.
pub enum VerifyStep {
    /// The task has exited; it is reported and not counted.
    Exited,
    /// The task was checked; `pending` when it is not in the target cgroup.
    Checked { pending: bool },
    /// Reading the task failed with this text.
    Failed(Seq<char>),
}

/// The step for target `t` in verify, the target cgroup's normal form being `rel`.
pub open spec fn verify_step(proc_root: Seq<char>, rel: Seq<char>, t: CgroupPlacementTarget, o: CgroupVerifyObservation) -> VerifyStep {
    if !o.task_exists {
        VerifyStep::Exited
    } else {
        match current_cgroup_read(proc_root, t.identity.tid, o.cgroup_file) {
            Err(m) => VerifyStep::Failed(m),
            Ok(cur) => match normalized(cur) {
                None => VerifyStep::Failed(traversal_text(cur)),
                Some(n) => VerifyStep::Checked { pending: n != rel },
            },
        }
    }
}

/// The warning for a target that exited before verify.
pub open spec fn exited_text(tid: u32) -> Seq<char> {
    "target tid="@ + decimal(tid as nat) + " exited before cgroup placement verify completed"@
}

/// The warnings, checked count and pending count of the first `n` targets, or the first
/// failure's text.
pub open spec fn verify_upto(
    proc_root: Seq<char>,
    rel: Seq<char>,
    targets: Seq<CgroupPlacementTarget>,
    obs: Seq<CgroupVerifyObservation>,
    n: int,
) -> Result<(Seq<Seq<char>>, nat, nat), Seq<char>>
    decreases n,
{
    if n <= 0 {
        Ok((Seq::empty(), 0, 0))
    } else {
        match verify_upto(proc_root, rel, targets, obs, n - 1) {
            Err(m) => Err(m),
            Ok((w, c, p)) => match verify_step(proc_root, rel, targets[n - 1], verify_obs_at(obs, n - 1)) {
                VerifyStep::Exited => Ok((w.push(exited_text(targets[n - 1].identity.tid)), c, p)),
                VerifyStep::Checked { pending } => Ok((w, c + 1, if pending { p + 1 } else { p })),
                VerifyStep::Failed(m) => Err(m),
            },
        }
    }
}

/// A failure in a prefix is the failure of every longer prefix.
proof fn lemma_verify_err_stays(
    proc_root: Seq<char>,
    rel: Seq<char>,
    targets: Seq<CgroupPlacementTarget>,
    obs: Seq<CgroupVerifyObservation>,
    k: int,
    n: int,
)
    requires
        0 <= k <= n,
        verify_upto(proc_root, rel, targets, obs, k) is Err,
    ensures
        verify_upto(proc_root, rel, targets, obs, n) == verify_upto(proc_root, rel, targets, obs, k),
    decreases n - k,
{
    if k < n {
        lemma_verify_err_stays(proc_root, rel, targets, obs, k, n - 1);
    }
}

/// The counts of a prefix never exceed its length.
proof fn lemma_verify_counts(
    proc_root: Seq<char>,
    rel: Seq<char>,
    targets: Seq<CgroupPlacementTarget>,
    obs: Seq<CgroupVerifyObservation>,
    n: int,
)
    requires
        0 <= n,
    ensures
        verify_upto(proc_root, rel, targets, obs, n) matches Ok((w, c, p)) ==> c <= n && p <= c,
    decreases n,
{
    if n > 0 {
        lemma_verify_counts(proc_root, rel, targets, obs, n - 1);
    }
}

/// What reading a cpuset file in verify gives: its trimmed value, or the error text.
pub open spec fn cpuset_read(path: Seq<char>, f: FileRead) -> Result<Seq<char>, Seq<char>> {
    let ctx = "failed to read "@ + path;
    match f {
        FileRead::Contents(c) => Ok(trim(c@)),
        FileRead::Failed(e) => Err(ctx + ": "@ + ("failed to read "@ + path + ": "@ + e@)),
        FileRead::Unread => Err(ctx + ": "@ + ("failed to read "@ + path + ": "@)),
    }
}

/// Whether a cpuset file adds a pending change: it is requested and differs, or the
/// failure of reading it.
pub open spec fn cpuset_check(abs: Seq<char>, file: Seq<char>, requested: Option<String>, f: FileRead) -> Result<bool, Seq<char>> {
    match requested {
        None => Ok(false),
        Some(v) => match cpuset_read(join_path(abs, file), f) {
            Err(m) => Err(m),
            Ok(cur) => Ok(cur != v@),
        },
    }
}

/// The outcome of verifying a placement whose request passed: the warnings, checked and
/// pending counts, or the first failure's text.
pub open spec fn placement_verify(
    a: CgroupPlacementAction,
    proc_root: Seq<char>,
    obs: Seq<CgroupVerifyObservation>,
    cpus: FileRead,
    mems: FileRead,
) -> Result<(Seq<Seq<char>>, nat, nat), Seq<char>> {
    let rel = normalized(a.target_cgroup@)->0;
    let abs = abs_under_root(a.cgroup_root@, rel);
    match verify_upto(proc_root, rel, a.targets@, obs, a.targets@.len() as int) {
        Err(m) => Err(m),
        Ok((w, c, p)) => match cpuset_check(abs, "cpuset.cpus"@, a.cpuset_cpus, cpus) {
            Err(m) => Err(m),
            Ok(dc) => match cpuset_check(abs, "cpuset.mems"@, a.cpuset_mems, mems) {
                Err(m) => Err(m),
                Ok(dm) => Ok((w, c, p + (if dc { 1nat } else { 0nat }) + (if dm { 1nat } else { 0nat }))),
            },
        },
    }
}

/// The cgroup a target is in now, read from its cgroup file.
fn read_current_cgroup(proc_root: &str, tid: u32, f: &FileRead) -> (r: Result<String, ActionSourceError>)
    ensures
        match current_cgroup_read(proc_root@, tid, *f) {
            Ok(n) => r matches Ok(s) && s@ == n,
            Err(m) => r matches Err(ActionSourceError::Message(x)) && x@ == m,
        },
{
    let t = u64_to_string(tid as u64);
    let ctx = cat("failed to read current cgroup for tid=", t.as_str());
    match f {
        FileRead::Failed(io) => {
            let path = task_file(proc_root, tid, "cgroup");
            let mut m = cat3(ctx.as_str(), ": failed to read ", path.as_str());
            m.append(": ");
            m.append(io.as_str());
            Err(ActionSourceError::Message(m))
        },
        FileRead::Unread => {
            let path = task_file(proc_root, tid, "cgroup");
            let mut m = cat3(ctx.as_str(), ": failed to read ", path.as_str());
            m.append(": ");
            Err(ActionSourceError::Message(m))
        },
        FileRead::Contents(c) => match read_proc_cgroup_path(c.as_str()) {
            Ok(p) => Ok(p),
            Err(e) => {
                let inner = e.message();
                Err(ActionSourceError::Message(cat3(ctx.as_str(), ": ", inner.as_str())))
            },
        },
    }
}

/// Whether a requested cpuset file differs from what it holds now.
fn check_cpuset_file(abs: &str, file: &str, requested: &Option<String>, f: &FileRead) -> (r: Result<bool, ActionSourceError>)
    ensures
        match cpuset_check(abs@, file@, *requested, *f) {
            Ok(d) => r == Ok::<bool, ActionSourceError>(d),
            Err(m) => r matches Err(ActionSourceError::Message(x)) && x@ == m,
        },
{
    match requested {
        None => Ok(false),
        Some(v) => {
            let path = path_join(abs, file);
            match read_trimmed(path.as_str(), f) {
                Ok(cur) => Ok(!str_eq(cur.as_str(), v.as_str())),
                Err(e) => {
                    let inner = e.message();
                    let mut m = cat3("failed to read ", path.as_str(), ": ");
                    m.append(inner.as_str());
                    Err(ActionSourceError::Message(m))
                },
            }
        },
    }
}

impl CgroupPlacementAction {
    /// Verify under `policy`: every target that still exists is checked, and counts as
    /// pending when it is not in the target cgroup; a requested cpuset file that differs
    /// adds one pending change. Applied when something was checked and nothing is
    /// pending.
    pub fn verify_with_policy(
        &self,
        policy: &CgroupPlacementPolicy,
        proc_root: &str,
        observations: &Vec<CgroupVerifyObservation>,
        cpuset_cpus: &FileRead,
        cpuset_mems: &FileRead,
    ) -> (r: Result<ActionState, ActionSourceError>)
        ensures
            !placement_request_passes(*self, *policy) ==> (r matches Err(e) && placement_request_refusal(*self, *policy, e)),
            placement_request_passes(*self, *policy) ==> match placement_verify(
                *self,
                proc_root@,
                observations@,
                *cpuset_cpus,
                *cpuset_mems,
            ) {
                Err(m) => r matches Err(ActionSourceError::Message(x)) && x@ == m,
                Ok((w, c, p)) => r matches Ok(st) && {
                    &&& warning_texts(st.warnings@) == w
                    &&& st.checked_tasks == c
                    &&& st.affected_tasks == c
                    &&& st.pending_changes == cap(p as int)
                    &&& st.applied == (c > 0 && p == 0)
                },
            },
    {
        match validate_action_request(self, policy) {
            Ok(()) => {},
            Err(e) => return Err(e),
        }
        let rel = match normalize_cgroup_path(self.target_cgroup.as_str()) {
            Ok(p) => p,
            Err(e) => return Err(e),
        };
        let abs = match self.target_cgroup_abs() {
            Ok(p) => p,
            Err(e) => return Err(e),
        };
        let ghost root = proc_root@;
        let ghost targets = self.targets@;
        let ghost obs = observations@;
        let mut warnings: Vec<ActionWarning> = Vec::new();
        let mut checked: usize = 0;
        let mut pending: usize = 0;
        let mut i: usize = 0;
        while i < self.targets.len()
            invariant
                0 <= i <= targets.len(),
                placement_request_passes(*self, *policy),
                targets == self.targets@,
                obs == observations@,
                root == proc_root@,
                rel@ == normalized(self.target_cgroup@)->0,
                verify_upto(root, rel@, targets, obs, i as int) matches Ok((w, c, p)) && warning_texts(warnings@)
                    == w && checked == c && pending == p,
            decreases targets.len() - i,
        {
            proof {
                lemma_verify_counts(root, rel@, targets, obs, i as int);
            }
            let tid = self.targets[i].identity.tid;
            let exists = if i < observations.len() {
                observations[i].task_exists
            } else {
                true
            };
            if !exists {
                let t = u64_to_string(tid as u64);
                let m = cat3("target tid=", t.as_str(), " exited before cgroup placement verify completed");
                let ghost before = warnings@;
                warnings.push(ActionWarning { message: m });
                proof {
                    assert(warning_texts(warnings@) =~= warning_texts(before).push(exited_text(tid)));
                }
            } else {
                let unread = FileRead::Unread;
                let f = if i < observations.len() {
                    &observations[i].cgroup_file
                } else {
                    &unread
                };
                let cur = match read_current_cgroup(proc_root, tid, f) {
                    Ok(c) => c,
                    Err(e) => {
                        proof {
                            lemma_verify_err_stays(root, rel@, targets, obs, i + 1, targets.len() as int);
                        }
                        return Err(e);
                    },
                };
                let n = match normalize_cgroup_path(cur.as_str()) {
                    Ok(n) => n,
                    Err(e) => {
                        proof {
                            lemma_verify_err_stays(root, rel@, targets, obs, i + 1, targets.len() as int);
                        }
                        return Err(e);
                    },
                };
                checked = checked + 1;
                if !str_eq(n.as_str(), rel.as_str()) {
                    pending = pending + 1;
                }
            }
            i = i + 1;
        }
        let dc = match check_cpuset_file(abs.as_str(), "cpuset.cpus", &self.cpuset_cpus, cpuset_cpus) {
            Ok(d) => d,
            Err(e) => return Err(e),
        };
        let dm = match check_cpuset_file(abs.as_str(), "cpuset.mems", &self.cpuset_mems, cpuset_mems) {
            Ok(d) => d,
            Err(e) => return Err(e),
        };
        proof {
            lemma_verify_counts(root, rel@, targets, obs, targets.len() as int);
        }
        let total = pending.saturating_add(if dc { 1usize } else { 0usize }).saturating_add(
            if dm { 1usize } else { 0usize },
        );
        Ok(
            ActionState {
                applied: checked > 0 && total == 0,
                affected_tasks: checked,
                checked_tasks: checked,
                pending_changes: total,
                warnings,
            },
        )
    }
}

} // verus!
