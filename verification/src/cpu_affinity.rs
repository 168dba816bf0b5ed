//! CPU affinity profiles: applying a managed profile to a process tree, what the request
//! is checked for, how it is described to the daemon policy, and what its rollback
//! handler reports.
use vstd::prelude::*;

use crate::cgroup::TaskClass;
use crate::error::{is_invalid_request, is_wrong_token_for, ActionBoundaryError, ActionError, ActionSourceError};
use crate::model::{ActionId, ActionWarning, SafetyClass};
use crate::rollback::{
    is_token_preview, is_unsupported_token, path_or_empty, token_handler_dry_run, token_restore_result,
    RollbackPreview, RollbackResult,
};
use crate::text::{cat, cat3, cat4, decimal, u64_to_string};
use crate::token::{token_affected, token_kind, token_path, RollbackToken};

verus! {

/// One rule of a profile: what it sets (a CPU list, a nice value, an I/O class) and which
/// tasks it matches.
#[derive(Debug, Clone, PartialEq, Eq)]
pub struct ProfileRule {
    pub affinity: Option<String>,
    pub nice: Option<i32>,
    pub ionice: Option<String>,
    pub match_class: Vec<TaskClass>,
    pub match_comm: Vec<String>,
}

/// A named set of rules.
#[derive(Debug, Clone, PartialEq, Eq)]
pub struct Profile {
    pub name: String,
    pub rules: Vec<ProfileRule>,
}

/// Whether a profile changes priorities (nice or I/O class), not only affinity.
pub open spec fn uses_priority_actions(p: Profile) -> bool {
    exists|i: int| 0 <= i < p.rules@.len() && (#[trigger] p.rules@[i].nice is Some || p.rules@[i].ionice is Some)
}

/// Whether a profile changes priorities.
pub fn profile_uses_priority_actions(p: &Profile) -> (r: bool)
    ensures
        r == uses_priority_actions(*p),
{
    let mut i: usize = 0;
    while i < p.rules.len()
        invariant
            0 <= i <= p.rules@.len(),
            forall|j: int| 0 <= j < i ==> !(#[trigger] p.rules@[j].nice is Some || p.rules@[j].ionice is Some),
        decreases p.rules@.len() - i,
    {
        if p.rules[i].nice.is_some() || p.rules[i].ionice.is_some() {
            assert(p.rules@[i as int].nice is Some || p.rules@[i as int].ionice is Some);
            return true;
        }
        i = i + 1;
    }
    false
}

/// What an action touches, for the daemon policy.
#[derive(Debug, Clone, Copy, PartialEq, Eq, Structural)]
pub enum ActionEffectScope {
    LocalProcessTree,
    SystemWide,
}

/// Whether an action needs a rollback record before it applies.
#[derive(Debug, Clone, Copy, PartialEq, Eq, Structural)]
pub enum RollbackRequirement {
    RequiredBeforeApply,
    NotRequired,
}

/// How an action presents itself to the daemon policy.
#[derive(Debug, Clone, PartialEq, Eq)]
pub struct ActionDescriptor {
    pub action_id: ActionId,
    pub action_kind: String,
    pub safety_class: SafetyClass,
    pub effect_scope: ActionEffectScope,
    pub rollback: RollbackRequirement,
    pub persistent_effect: bool,
    pub touches_system_wide_state: bool,
    pub requires_explicit_target: bool,
}

/// A request to apply a managed CPU affinity profile to a process tree.
#[derive(Debug, Clone)]
pub struct CpuAffinityProfileAction {
    pub tree_pid: u32,
    pub profile: Profile,
    pub force_restore_overwrite: bool,
}

/// The safety class of a profile action: medium risk when it changes priorities.
pub open spec fn profile_safety(p: Profile) -> SafetyClass {
    if uses_priority_actions(p) {
        SafetyClass::ReversibleMediumRisk
    } else {
        SafetyClass::ReversibleLowRisk
    }
}

impl CpuAffinityProfileAction {
    /// The action's identifier: `cpu-affinity-profile:<profile name>`.
    pub fn id(&self) -> (r: ActionId)
        ensures
            r.id@ == "cpu-affinity-profile:"@ + self.profile.name@,
    {
        ActionId::new(cat("cpu-affinity-profile:", self.profile.name.as_str()))
    }

    /// A description naming the profile and the tree.
    pub fn describe(&self) -> (r: String)
        ensures
            r@ == "apply CPU affinity profile '"@ + self.profile.name@ + "' to process tree "@ + decimal(
                self.tree_pid as nat,
            ),
    {
        let n = u64_to_string(self.tree_pid as u64);
        cat4("apply CPU affinity profile '", self.profile.name.as_str(), "' to process tree ", n.as_str())
    }

    /// Low risk, or medium when the profile changes priorities.
    pub fn safety_class(&self) -> (r: SafetyClass)
        ensures
            r == profile_safety(self.profile),
    {
        if profile_uses_priority_actions(&self.profile) {
            SafetyClass::ReversibleMediumRisk
        } else {
            SafetyClass::ReversibleLowRisk
        }
    }

    /// How the action presents itself: a local, explicitly targeted change to a process
    /// tree, needing a rollback record first, persistent as asked.
    pub fn descriptor_with_persistent_effect(&self, persistent_effect: bool) -> (r: ActionDescriptor)
        ensures
            r.action_id.id@ == "cpu-affinity-profile:"@ + self.profile.name@,
            r.action_kind@ == "cpu_affinity_profile"@,
            r.safety_class == profile_safety(self.profile),
            r.effect_scope == ActionEffectScope::LocalProcessTree,
            r.rollback == RollbackRequirement::RequiredBeforeApply,
            r.persistent_effect == persistent_effect,
            !r.touches_system_wide_state,
            r.requires_explicit_target,
    {
        ActionDescriptor {
            action_id: self.id(),
            action_kind: "cpu_affinity_profile".to_owned(),
            safety_class: self.safety_class(),
            effect_scope: ActionEffectScope::LocalProcessTree,
            rollback: RollbackRequirement::RequiredBeforeApply,
            persistent_effect,
            touches_system_wide_state: false,
            requires_explicit_target: true,
        }
    }

    /// The descriptor of a non-persistent run.
    pub fn descriptor(&self) -> (r: ActionDescriptor)
        ensures
            r.action_kind@ == "cpu_affinity_profile"@,
            !r.persistent_effect,
            r.safety_class == profile_safety(self.profile),
    {
        self.descriptor_with_persistent_effect(false)
    }

    /// The preflight, given whether a restore file exists at `restore_path`: the tree pid
    /// must be set and the profile must have rules; an existing restore file that will not
    /// be overwritten is merged into, with a warning.
    pub fn preflight_for_restore_path(&self, restore_path: &str, restore_exists: bool) -> (r: Result<
        Vec<ActionWarning>,
        ActionBoundaryError,
    >)
        ensures
            self.tree_pid == 0 ==> r == Err::<Vec<ActionWarning>, ActionBoundaryError>(
                ActionBoundaryError::InvalidTargetTid { action_kind: "cpu_affinity_profile", tid: 0 },
            ),
            self.tree_pid != 0 && self.profile.rules@.len() == 0 ==> (r matches Err(e) && is_invalid_request(
                e,
                "cpu_affinity_profile"@,
                "profile '"@ + self.profile.name@ + "' has no rules"@,
            )),
            self.tree_pid != 0 && self.profile.rules@.len() > 0 ==> (r matches Ok(w) && if restore_exists
                && !self.force_restore_overwrite {
                w@.len() == 1 && w@[0].message@ == "restore file already exists at "@ + restore_path@
                    + "; new affinity records will be merged"@
            } else {
                w@.len() == 0
            }),
    {
        if self.tree_pid == 0 {
            return Err(ActionBoundaryError::InvalidTargetTid { action_kind: "cpu_affinity_profile", tid: self.tree_pid });
        }
        if self.profile.rules.len() == 0 {
            return Err(ActionBoundaryError::InvalidRequest {
                action_kind: "cpu_affinity_profile",
                reason: cat3("profile '", self.profile.name.as_str(), "' has no rules"),
            });
        }
        let mut warnings: Vec<ActionWarning> = Vec::new();
        if restore_exists && !self.force_restore_overwrite {
            warnings.push(ActionWarning {
                message: cat3("restore file already exists at ", restore_path, "; new affinity records will be merged"),
            });
        }
        Ok(warnings)
    }

    /// The token applying writes: the restore file and how many tasks it touched.
    pub fn restore_token(&self, restore_path: String, affected_tasks: usize) -> (r: RollbackToken)
        ensures
            r == (RollbackToken::CpuAffinityRestoreFile { path: restore_path, affected_tasks }),
    {
        RollbackToken::CpuAffinityRestoreFile { path: restore_path, affected_tasks }
    }
}

/// The restore file a CPU affinity rollback restores from; a token of another kind is
/// refused.
pub fn cpu_affinity_rollback_path(token: &RollbackToken) -> (r: Result<&String, ActionSourceError>)
    ensures
        match *token {
            RollbackToken::CpuAffinityRestoreFile { path, .. } => r == Ok::<&String, ActionSourceError>(&path),
            _ => r matches Err(e) && is_wrong_token_for(e, "cpu-affinity-restore-file"@, *token),
        },
{
    match token.as_cpu_affinity_restore_file() {
        Some((path, _)) => Ok(path),
        None => Err(ActionSourceError::Action(
            ActionError::invalid_rollback_token_kind(token.kind_error("cpu-affinity-restore-file")),
        )),
    }
}

/// What the CPU affinity rollback handler previews: its own tokens only.
pub fn cpu_affinity_handler_dry_run_token(token: &RollbackToken) -> (r: Result<RollbackPreview, ActionBoundaryError>)
    ensures
        token_kind(*token) != "cpu-affinity-restore-file"@ ==> (r matches Err(e) && is_unsupported_token(
            e,
            "cpu-affinity-rollback",
            "cpu-affinity-restore-file",
            token_kind(*token),
        )),
        token_kind(*token) == "cpu-affinity-restore-file"@ ==> (r matches Ok(p) && is_token_preview(
            p,
            "cpu-affinity-rollback",
            "cpu-affinity-restore-file"@,
            *token,
        )),
{
    token_handler_dry_run("cpu-affinity-rollback", "cpu-affinity-restore-file", token)
}

/// The counts of a profile restore.
#[derive(Debug, Clone, Copy, PartialEq, Eq)]
pub struct ProfileRestoreCounts {
    pub affinity: usize,
    pub nice: usize,
    pub ionice: usize,
    pub skipped_dead: usize,
    pub skipped_identity_mismatch: usize,
    pub errors: usize,
}

/// The counts of an affinity-only restore.
#[derive(Debug, Clone, Copy, PartialEq, Eq)]
pub struct AffinityRestoreCounts {
    pub restored: usize,
    pub skipped_dead: usize,
    pub skipped_identity_mismatch: usize,
    pub legacy_unverified: usize,
    pub errors: usize,
}

/// What the handler reports for a profile restore: everything restored, skipped tasks,
/// and one message with the counts.
pub fn profile_restore_result(token: &RollbackToken, c: ProfileRestoreCounts) -> (r: RollbackResult)
    requires
        c.affinity + c.nice + c.ionice <= usize::MAX,
        c.skipped_dead + c.skipped_identity_mismatch <= usize::MAX,
    ensures
        r.handler_id@ == "cpu-affinity-rollback"@,
        r.restore_path@ == path_or_empty(token_path(*token)),
        r.restored == c.affinity + c.nice + c.ionice,
        r.skipped_dead == c.skipped_dead + c.skipped_identity_mismatch,
        r.errors == 0,
        r.messages@.len() == 1,
        r.messages@[0]@ == "affinity="@ + decimal(c.affinity as nat) + " nice="@ + decimal(c.nice as nat) + " ionice="@
            + decimal(c.ionice as nat) + " skipped_dead="@ + decimal(c.skipped_dead as nat)
            + " skipped_identity_mismatch="@ + decimal(c.skipped_identity_mismatch as nat) + " errors="@ + decimal(
            c.errors as nat,
        ),
{
    let mut m = cat("affinity=", u64_to_string(c.affinity as u64).as_str());
    m.append(" nice=");
    m.append(u64_to_string(c.nice as u64).as_str());
    m.append(" ionice=");
    m.append(u64_to_string(c.ionice as u64).as_str());
    m.append(" skipped_dead=");
    m.append(u64_to_string(c.skipped_dead as u64).as_str());
    m.append(" skipped_identity_mismatch=");
    m.append(u64_to_string(c.skipped_identity_mismatch as u64).as_str());
    m.append(" errors=");
    m.append(u64_to_string(c.errors as u64).as_str());
    let mut messages: Vec<String> = Vec::new();
    messages.push(m);
    token_restore_result(
        "cpu-affinity-rollback",
        token,
        c.affinity + c.nice + c.ionice,
        c.skipped_dead + c.skipped_identity_mismatch,
        messages,
    )
}

/// What the handler reports for an affinity-only restore: the tasks restored, skipped
/// ones (gone, reused or unverified), and one message with the counts.
pub fn affinity_restore_result(token: &RollbackToken, c: AffinityRestoreCounts) -> (r: RollbackResult)
    requires
        c.skipped_dead + c.skipped_identity_mismatch + c.legacy_unverified <= usize::MAX,
    ensures
        r.handler_id@ == "cpu-affinity-rollback"@,
        r.restore_path@ == path_or_empty(token_path(*token)),
        r.restored == c.restored,
        r.skipped_dead == c.skipped_dead + c.skipped_identity_mismatch + c.legacy_unverified,
        r.errors == 0,
        r.messages@.len() == 1,
        r.messages@[0]@ == "restored="@ + decimal(c.restored as nat) + " skipped_dead="@ + decimal(
            c.skipped_dead as nat,
        ) + " skipped_identity_mismatch="@ + decimal(c.skipped_identity_mismatch as nat) + " legacy_unverified="@
            + decimal(c.legacy_unverified as nat) + " errors="@ + decimal(c.errors as nat),
{
    let mut m = cat("restored=", u64_to_string(c.restored as u64).as_str());
    m.append(" skipped_dead=");
    m.append(u64_to_string(c.skipped_dead as u64).as_str());
    m.append(" skipped_identity_mismatch=");
    m.append(u64_to_string(c.skipped_identity_mismatch as u64).as_str());
    m.append(" legacy_unverified=");
    m.append(u64_to_string(c.legacy_unverified as u64).as_str());
    m.append(" errors=");
    m.append(u64_to_string(c.errors as u64).as_str());
    let mut messages: Vec<String> = Vec::new();
    messages.push(m);
    token_restore_result(
        "cpu-affinity-rollback",
        token,
        c.restored,
        c.skipped_dead + c.skipped_identity_mismatch + c.legacy_unverified,
        messages,
    )
}

} // verus!
