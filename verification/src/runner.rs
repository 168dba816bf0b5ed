//! The audited lifecycle of an action as a state machine: which phase runs next, given
//! how the last one ended; when a run stops, with which error; and when the changes made
//! are rolled back. The caller runs each phase and reports back.
use vstd::prelude::*;

use crate::error::{ActionError, ActionFailure, ActionTimeout, PhaseFailure, RollbackOutcome, ScopeLimitExceeded};
use crate::model::{ActionPhase, ActionState, SafetyClass};
use crate::text::{cat, cat3, decimal, u64_to_string};
use crate::token::RollbackToken;

verus! {

/// How far the daemon may go on its own.
#[derive(Debug, Clone, Copy, PartialEq, Eq, Structural)]
pub enum DaemonMode {
    Suggest,
    ApplyLowRisk,
    ApplyMediumRisk,
}

/// Who asked for an action.
#[derive(Debug, Clone, Copy, PartialEq, Eq, Structural)]
pub enum ActionSource {
    Cli,
    Daemon,
    Test,
}

/// How a run is allowed to go: the mode its policy is built for, whether it only
/// previews, and the limits on its scope and time.
#[derive(Debug, Clone, Copy, PartialEq, Eq)]
pub struct ActionRunPolicy {
    pub mode: DaemonMode,
    pub source: ActionSource,
    pub max_affected_tasks: Option<usize>,
    pub max_total_duration_ms: Option<u128>,
    pub dry_run: bool,
}

impl ActionRunPolicy {
    fn for_mode(mode: DaemonMode, source: ActionSource, dry_run: bool) -> (r: Self)
        ensures
            r == (ActionRunPolicy { mode, source, max_affected_tasks: None, max_total_duration_ms: None, dry_run }),
    {
        ActionRunPolicy { mode, source, max_affected_tasks: None, max_total_duration_ms: None, dry_run }
    }

    /// A preview in suggest mode.
    pub fn dry_run(source: ActionSource) -> (r: Self)
        ensures
            r == (ActionRunPolicy {
                mode: DaemonMode::Suggest,
                source,
                max_affected_tasks: None,
                max_total_duration_ms: None,
                dry_run: true,
            }),
    {
        Self::for_mode(DaemonMode::Suggest, source, true)
    }

    /// A run in low-risk apply mode.
    pub fn apply_low_risk(source: ActionSource, dry_run: bool) -> (r: Self)
        ensures
            r == (ActionRunPolicy {
                mode: DaemonMode::ApplyLowRisk,
                source,
                max_affected_tasks: None,
                max_total_duration_ms: None,
                dry_run,
            }),
    {
        Self::for_mode(DaemonMode::ApplyLowRisk, source, dry_run)
    }

    /// A run in medium-risk apply mode.
    pub fn apply_medium_risk(source: ActionSource, dry_run: bool) -> (r: Self)
        ensures
            r == (ActionRunPolicy {
                mode: DaemonMode::ApplyMediumRisk,
                source,
                max_affected_tasks: None,
                max_total_duration_ms: None,
                dry_run,
            }),
    {
        Self::for_mode(DaemonMode::ApplyMediumRisk, source, dry_run)
    }

    /// The run an action of safety class `safety` gets: a preview when `dry_run`, else
    /// low-risk mode for observe-only and low-risk actions and medium-risk mode for the rest.
    pub fn for_action(safety: SafetyClass, dry_run: bool, source: ActionSource) -> (r: Self)
        ensures
            dry_run ==> r == Self::dry_run_spec(source),
            !dry_run ==> r == (ActionRunPolicy {
                mode: if safety == SafetyClass::ObserveOnly || safety == SafetyClass::ReversibleLowRisk {
                    DaemonMode::ApplyLowRisk
                } else {
                    DaemonMode::ApplyMediumRisk
                },
                source,
                max_affected_tasks: None,
                max_total_duration_ms: None,
                dry_run: false,
            }),
    {
        if dry_run {
            return Self::dry_run(source);
        }
        match safety {
            SafetyClass::ObserveOnly | SafetyClass::ReversibleLowRisk => Self::apply_low_risk(source, false),
            SafetyClass::ReversibleMediumRisk | SafetyClass::HighRisk => Self::apply_medium_risk(source, false),
        }
    }

    /// The preview policy for `source`.
    pub open spec fn dry_run_spec(source: ActionSource) -> Self {
        ActionRunPolicy {
            mode: DaemonMode::Suggest,
            source,
            max_affected_tasks: None,
            max_total_duration_ms: None,
            dry_run: true,
        }
    }

    /// The same policy with a limit on the tasks a run may affect.
    pub fn with_max_affected_tasks(self, max_affected_tasks: usize) -> (r: Self)
        ensures
            r == (ActionRunPolicy { max_affected_tasks: Some(max_affected_tasks), ..self }),
    {
        ActionRunPolicy { max_affected_tasks: Some(max_affected_tasks), ..self }
    }

    /// The same policy with a limit on the run's total duration, in milliseconds.
    pub fn with_max_total_duration(self, max_total_duration_ms: u128) -> (r: Self)
        ensures
            r == (ActionRunPolicy { max_total_duration_ms: Some(max_total_duration_ms), ..self }),
    {
        ActionRunPolicy { max_total_duration_ms: Some(max_total_duration_ms), ..self }
    }
}

/// What the caller runs next.
#[derive(Debug, Clone, Copy, PartialEq, Eq, Structural)]
pub enum RunStage {
    Preflight,
    DryRunPolicy,
    DryRun,
    ApplyPolicy,
    Apply,
    AfterApplyHook,
    Verify,
    Rollback,
    AfterRollbackHook,
    Done,
}

/// Why the run rolls back what it applied.
#[derive(Debug, Clone, PartialEq, Eq)]
pub enum RollbackReason {
    /// The apply failed part way; its partial token is rolled back.
    PartialApply { source: String },
    /// The after-apply hook failed.
    HookFailed { hook_error: String },
    /// The run ran past its time budget.
    Timeout { timeout: ActionTimeout },
    /// The verify phase failed.
    VerifyFailed { verify_error: String },
}

/// How the phase the caller ran ended (with the milliseconds since the run started,
/// where the run checks its time budget after the phase).
#[derive(Debug)]
pub enum RunEvent {
    Preflight { result: Result<usize, String>, elapsed_ms: u128 },
    PolicyChecked { result: Result<(), String> },
    DryRun { result: Result<ActionState, String>, elapsed_ms: u128 },
    Applied { result: Result<RollbackToken, (String, Option<RollbackToken>)> },
    AfterApplyHook { result: Result<(), String>, elapsed_ms: u128 },
    Verified { result: Result<ActionState, String>, elapsed_ms: u128 },
    RolledBack { result: Result<(), String> },
    AfterRollbackHook { result: Result<(), String> },
}

/// A run in progress.
#[derive(Debug, Clone)]
pub struct ActionRun {
    pub dry_run: bool,
    pub max_affected_tasks: Option<usize>,
    pub max_total_duration_ms: Option<u128>,
    pub stage: RunStage,
    pub token: Option<RollbackToken>,
    pub reason: Option<RollbackReason>,
    pub rolled_back: bool,
}

/// The stages that change the system or undo changes.
pub open spec fn mutating(s: RunStage) -> bool {
    s == RunStage::ApplyPolicy || s == RunStage::Apply || s == RunStage::AfterApplyHook || s == RunStage::Verify
        || s == RunStage::Rollback || s == RunStage::AfterRollbackHook
}

impl ActionRun {
    /// The run's invariant: a preview never reaches a mutating stage; the stages after a
    /// successful or partial apply hold its token; a rollback runs at most once, and only
    /// with a reason.
    pub open spec fn wf(self) -> bool {
        &&& self.dry_run ==> !mutating(self.stage)
        &&& (self.stage == RunStage::AfterApplyHook || self.stage == RunStage::Verify || self.stage
            == RunStage::Rollback || self.stage == RunStage::AfterRollbackHook) ==> self.token is Some
        &&& self.stage == RunStage::Rollback ==> !self.rolled_back && self.reason is Some
        &&& self.stage == RunStage::AfterRollbackHook ==> self.rolled_back && self.reason is Some && !(self.reason->0 is PartialApply)
        &&& (self.stage == RunStage::AfterApplyHook || self.stage == RunStage::Verify) ==> !self.rolled_back
        &&& (self.stage == RunStage::Preflight || self.stage == RunStage::DryRunPolicy || self.stage
            == RunStage::DryRun || self.stage == RunStage::ApplyPolicy || self.stage == RunStage::Apply) ==> !self.rolled_back
    }

    /// A run starting with the preflight.
    pub fn start(policy: &ActionRunPolicy) -> (r: Self)
        ensures
            r.wf(),
            r.stage == RunStage::Preflight,
            r.dry_run == policy.dry_run,
            r.max_affected_tasks == policy.max_affected_tasks,
            r.max_total_duration_ms == policy.max_total_duration_ms,
            r.token is None,
            !r.rolled_back,
    {
        ActionRun {
            dry_run: policy.dry_run,
            max_affected_tasks: policy.max_affected_tasks,
            max_total_duration_ms: policy.max_total_duration_ms,
            stage: RunStage::Preflight,
            token: None,
            reason: None,
            rolled_back: false,
        }
    }
}

/// Whether `elapsed_ms` is past the budget.
pub open spec fn over_budget(budget: Option<u128>, elapsed_ms: u128) -> bool {
    budget matches Some(b) && elapsed_ms > b
}

/// The stage a run goes to after `event` (the run stops at `Done`).
pub open spec fn next_stage(r: ActionRun, event: RunEvent) -> RunStage {
    match (r.stage, event) {
        (RunStage::Preflight, RunEvent::Preflight { result, elapsed_ms }) => if result is Err || over_budget(
            r.max_total_duration_ms,
            elapsed_ms,
        ) {
            RunStage::Done
        } else {
            RunStage::DryRunPolicy
        },
        (RunStage::DryRunPolicy, RunEvent::PolicyChecked { result }) => if result is Err {
            RunStage::Done
        } else {
            RunStage::DryRun
        },
        (RunStage::DryRun, RunEvent::DryRun { result, elapsed_ms }) => if r.dry_run || result is Err
            || over_budget(r.max_total_duration_ms, elapsed_ms) || (r.max_affected_tasks matches Some(m)
            && result->Ok_0.affected_tasks > m) {
            RunStage::Done
        } else {
            RunStage::ApplyPolicy
        },
        (RunStage::ApplyPolicy, RunEvent::PolicyChecked { result }) => if result is Err {
            RunStage::Done
        } else {
            RunStage::Apply
        },
        (RunStage::Apply, RunEvent::Applied { result }) => match result {
            Ok(_) => RunStage::AfterApplyHook,
            Err((_, Some(_))) => RunStage::Rollback,
            Err((_, None)) => RunStage::Done,
        },
        (RunStage::AfterApplyHook, RunEvent::AfterApplyHook { result, elapsed_ms }) => if result is Err
            || over_budget(r.max_total_duration_ms, elapsed_ms) {
            RunStage::Rollback
        } else {
            RunStage::Verify
        },
        (RunStage::Verify, RunEvent::Verified { result, elapsed_ms }) => if result is Err || over_budget(
            r.max_total_duration_ms,
            elapsed_ms,
        ) {
            RunStage::Rollback
        } else {
            RunStage::Done
        },
        (RunStage::Rollback, RunEvent::RolledBack { result }) => if result is Err || r.reason
            matches Some(RollbackReason::PartialApply { .. }) {
            RunStage::Done
        } else {
            RunStage::AfterRollbackHook
        },
        (RunStage::AfterRollbackHook, RunEvent::AfterRollbackHook { .. }) => RunStage::Done,
        _ => RunStage::Done,
    }
}

/// The reason the run rolls back for after `event`: a partial apply, a failed hook or
/// verify, or a run past its time budget after the hook or the verify; otherwise the
/// reason it already had.
pub open spec fn next_reason(r: ActionRun, event: RunEvent) -> Option<RollbackReason> {
    match event {
        RunEvent::Applied { result: Err((source, Some(_))) } => Some(RollbackReason::PartialApply { source }),
        RunEvent::AfterApplyHook { result, elapsed_ms } => match result {
            Err(h) => Some(RollbackReason::HookFailed { hook_error: h }),
            Ok(()) => if over_budget(r.max_total_duration_ms, elapsed_ms) {
                Some(
                    RollbackReason::Timeout {
                        timeout: ActionTimeout {
                            phase: ActionPhase::Apply,
                            elapsed_ms,
                            timeout_ms: r.max_total_duration_ms->0,
                        },
                    },
                )
            } else {
                r.reason
            },
        },
        RunEvent::Verified { result, elapsed_ms } => match result {
            Err(v) => Some(RollbackReason::VerifyFailed { verify_error: v }),
            Ok(_) => if over_budget(r.max_total_duration_ms, elapsed_ms) {
                Some(
                    RollbackReason::Timeout {
                        timeout: ActionTimeout {
                            phase: ActionPhase::Verify,
                            elapsed_ms,
                            timeout_ms: r.max_total_duration_ms->0,
                        },
                    },
                )
            } else {
                r.reason
            },
        },
        _ => r.reason,
    }
}

/// What a finished run returns when it succeeds: the last state, and the token of what
/// it applied.
#[derive(Debug, Clone)]
pub struct AuditedActionResult {
    pub state: ActionState,
    pub rollback: Option<RollbackToken>,
}

/// What the caller does after a step: run the next stage, or report the run's end.
#[derive(Debug)]
pub enum RunOutcome {
    Continue,
    Finished(Result<AuditedActionResult, ActionError>),
}

/// The token an apply event leaves the run with.
pub open spec fn applied_token(event: RunEvent) -> Option<RollbackToken> {
    match event {
        RunEvent::Applied { result } => match result {
            Ok(t) => Some(t),
            Err((_, t)) => t,
        },
        _ => None,
    }
}

/// Whether `event` reports the stage the run asked for.
pub open spec fn event_fits(stage: RunStage, event: RunEvent) -> bool {
    match event {
        RunEvent::Preflight { .. } => stage == RunStage::Preflight,
        RunEvent::PolicyChecked { .. } => stage == RunStage::DryRunPolicy || stage == RunStage::ApplyPolicy,
        RunEvent::DryRun { .. } => stage == RunStage::DryRun,
        RunEvent::Applied { .. } => stage == RunStage::Apply,
        RunEvent::AfterApplyHook { .. } => stage == RunStage::AfterApplyHook,
        RunEvent::Verified { .. } => stage == RunStage::Verify,
        RunEvent::RolledBack { .. } => stage == RunStage::Rollback,
        RunEvent::AfterRollbackHook { .. } => stage == RunStage::AfterRollbackHook,
    }
}

/// The text a failed after-apply hook is reported with.
pub open spec fn hook_text(hook_error: Seq<char>) -> Seq<char> {
    "after-apply hook failed after mutation: "@ + hook_error
}

/// `f` is the failure a run ends with when the rollback for `reason` fails with
/// `rollback_error`.
pub open spec fn rollback_failed(reason: RollbackReason, rollback_error: Seq<char>, f: ActionFailure) -> bool {
    match reason {
        RollbackReason::PartialApply { source } => f matches ActionFailure::Rollback(RollbackOutcome::EmergencyRollbackFailure { verify_error: v, rollback_error: b })
            && v@ == "apply failed: "@ + source@ && b@ == rollback_error,
        RollbackReason::HookFailed { hook_error } => f matches ActionFailure::Rollback(RollbackOutcome::EmergencyRollbackFailure { verify_error: v, rollback_error: b })
            && v@ == hook_text(hook_error@) && b@ == rollback_error,
        RollbackReason::Timeout { timeout } => f matches ActionFailure::Rollback(RollbackOutcome::TimeoutRollbackFailure { timeout: t, rollback_error: b })
            && t == timeout && b@ == rollback_error,
        RollbackReason::VerifyFailed { verify_error } => f matches ActionFailure::Rollback(RollbackOutcome::EmergencyRollbackFailure { verify_error: v, rollback_error: b })
            && v@ == verify_error@ && b@ == rollback_error,
    }
}

/// `f` is the failure a run ends with after the rollback for `reason` completed and the
/// after-rollback hook ended with `hook`.
pub open spec fn rollback_completed(reason: RollbackReason, hook: Result<(), String>, f: ActionFailure) -> bool {
    match (reason, hook) {
        (RollbackReason::HookFailed { hook_error }, Ok(())) => f matches ActionFailure::Phase(PhaseFailure::Apply { message: m })
            && m@ == hook_text(hook_error@) + "; rollback completed"@,
        (RollbackReason::HookFailed { hook_error }, Err(e)) => f matches ActionFailure::Rollback(RollbackOutcome::RollbackFailure { message: m })
            && m@ == hook_text(hook_error@) + "; rollback completed; after-rollback hook failed: "@ + e@,
        (RollbackReason::Timeout { timeout }, Ok(())) => f == ActionFailure::Rollback(RollbackOutcome::TimeoutRollbackCompleted { timeout }),
        (RollbackReason::Timeout { .. }, Err(e)) => f matches ActionFailure::Rollback(RollbackOutcome::RollbackFailure { message: m })
            && m@ == "rollback completed after action timeout, but after-rollback hook failed: "@ + e@,
        (RollbackReason::VerifyFailed { verify_error }, Ok(())) => f matches ActionFailure::Rollback(RollbackOutcome::VerifyRollbackCompleted { verify_error: v })
            && v@ == verify_error@,
        (RollbackReason::VerifyFailed { verify_error }, Err(e)) => f matches ActionFailure::Rollback(RollbackOutcome::RollbackFailure { message: m })
            && m@ == "after-rollback hook failed after verify failure rollback completed: verify error: "@ + verify_error@
            + "; hook error: "@ + e@,
        _ => false,
    }
}

/// `out` is what the run reports after `event` in the run `r`.
pub open spec fn outcome_ok(r: ActionRun, event: RunEvent, next: ActionRun, out: RunOutcome) -> bool {
    if next.stage != RunStage::Done {
        out is Continue
    } else {
        out matches RunOutcome::Finished(res) && match (r.stage, event) {
            (RunStage::Preflight, RunEvent::Preflight { result, elapsed_ms }) => match result {
                Err(m) => res matches Err(e) && e.failure_of() matches ActionFailure::Phase(PhaseFailure::Preflight { message: x }) && x@ == m@,
                Ok(_) => res matches Err(e) && e.failure_of() == ActionFailure::Timeout(
                    ActionTimeout { phase: ActionPhase::Preflight, elapsed_ms, timeout_ms: r.max_total_duration_ms->0 },
                ),
            },
            (_, RunEvent::PolicyChecked { result }) => res matches Err(e) && e.failure_of() matches ActionFailure::PolicyRejected { message: x }
                && x@ == result->Err_0@,
            (RunStage::DryRun, RunEvent::DryRun { result, elapsed_ms }) => match result {
                Err(m) => res matches Err(e) && e.failure_of() matches ActionFailure::Phase(PhaseFailure::DryRun { message: x }) && x@ == m@,
                Ok(st) => if over_budget(r.max_total_duration_ms, elapsed_ms) {
                    res matches Err(e) && e.failure_of() == ActionFailure::Timeout(
                        ActionTimeout { phase: ActionPhase::DryRun, elapsed_ms, timeout_ms: r.max_total_duration_ms->0 },
                    )
                } else if r.dry_run {
                    res matches Ok(a) && a.state == st && a.rollback is None
                } else {
                    res matches Err(e) && e.failure_of() == ActionFailure::ScopeLimitExceeded(
                        ScopeLimitExceeded { affected_tasks: st.affected_tasks, max_affected_tasks: r.max_affected_tasks->0 },
                    )
                },
            },
            (RunStage::Apply, RunEvent::Applied { result }) => res matches Err(e) && e.failure_of() matches ActionFailure::Phase(PhaseFailure::Apply { message: x })
                && x@ == result->Err_0.0@,
            (RunStage::Verify, RunEvent::Verified { result, .. }) => res matches Ok(a) && a.state == result->Ok_0 && a.rollback == r.token,
            (RunStage::Rollback, RunEvent::RolledBack { result }) => match result {
                Err(rb) => res matches Err(e) && rollback_failed(r.reason->0, rb@, e.failure_of()),
                Ok(()) => res matches Err(e) && e.failure_of() matches ActionFailure::Phase(PhaseFailure::Apply { message: x })
                    && x@ == "apply failed: "@ + r.reason->0->PartialApply_source@ + "; partial rollback attempted and completed successfully"@,
            },
            (RunStage::AfterRollbackHook, RunEvent::AfterRollbackHook { result }) => res matches Err(e) && rollback_completed(
                r.reason->0,
                result,
                e.failure_of(),
            ),
            _ => false,
        }
    }
}

fn is_over(budget: Option<u128>, elapsed_ms: u128) -> (r: bool)
    ensures
        r == over_budget(budget, elapsed_ms),
{
    match budget {
        Some(b) => elapsed_ms > b,
        None => false,
    }
}

impl ActionRun {
    fn finish(&mut self, res: Result<AuditedActionResult, ActionError>) -> (out: RunOutcome)
        ensures
            *final(self) == (ActionRun { stage: RunStage::Done, ..*old(self) }),
            out == RunOutcome::Finished(res),
    {
        self.stage = RunStage::Done;
        RunOutcome::Finished(res)
    }

    /// Advances the run by how the stage it asked for ended, and says whether the caller
    /// runs the next stage or the run is over (with its result).
    pub fn step(&mut self, event: RunEvent) -> (out: RunOutcome)
        requires
            old(self).wf(),
            event_fits(old(self).stage, event),
        ensures
            final(self).wf(),
            final(self).stage == next_stage(*old(self), event),
            final(self).dry_run == old(self).dry_run,
            final(self).max_affected_tasks == old(self).max_affected_tasks,
            final(self).max_total_duration_ms == old(self).max_total_duration_ms,
            outcome_ok(*old(self), event, *final(self), out),
            final(self).reason == next_reason(*old(self), event),
            final(self).rolled_back == (old(self).rolled_back || old(self).stage == RunStage::Rollback),
            old(self).stage == RunStage::Apply ==> final(self).token == applied_token(event),
            (old(self).stage != RunStage::Apply && final(self).stage != RunStage::Done) ==> final(self).token
                == old(self).token,
    {
        match event {
            RunEvent::Preflight { result, elapsed_ms } => match result {
                Err(m) => self.finish(Err(ActionError::preflight(m.as_str()))),
                Ok(_) => {
                    if is_over(self.max_total_duration_ms, elapsed_ms) {
                        let budget = match self.max_total_duration_ms {
                            Some(b) => b,
                            None => 0,
                        };
                        return self.finish(Err(ActionError::timeout(ActionPhase::Preflight, elapsed_ms, budget)));
                    }
                    self.stage = RunStage::DryRunPolicy;
                    RunOutcome::Continue
                },
            },
            RunEvent::PolicyChecked { result } => match result {
                Err(reason) => self.finish(Err(ActionError::policy_rejected(reason.as_str()))),
                Ok(()) => {
                    if self.stage == RunStage::DryRunPolicy {
                        self.stage = RunStage::DryRun;
                    } else {
                        self.stage = RunStage::Apply;
                    }
                    RunOutcome::Continue
                },
            },
            RunEvent::DryRun { result, elapsed_ms } => match result {
                Err(m) => self.finish(Err(ActionError::dry_run(m.as_str()))),
                Ok(state) => {
                    if is_over(self.max_total_duration_ms, elapsed_ms) {
                        let budget = match self.max_total_duration_ms {
                            Some(b) => b,
                            None => 0,
                        };
                        return self.finish(Err(ActionError::timeout(ActionPhase::DryRun, elapsed_ms, budget)));
                    }
                    if self.dry_run {
                        return self.finish(Ok(AuditedActionResult { state, rollback: None }));
                    }
                    match self.max_affected_tasks {
                        Some(m) => {
                            if state.affected_tasks > m {
                                return self.finish(Err(ActionError::scope_limit_exceeded(state.affected_tasks, m)));
                            }
                        },
                        None => {},
                    }
                    self.stage = RunStage::ApplyPolicy;
                    RunOutcome::Continue
                },
            },
            RunEvent::Applied { result } => match result {
                Ok(token) => {
                    self.token = Some(token);
                    self.stage = RunStage::AfterApplyHook;
                    RunOutcome::Continue
                },
                Err((source, partial)) => match partial {
                    Some(token) => {
                        self.token = Some(token);
                        self.reason = Some(RollbackReason::PartialApply { source });
                        self.stage = RunStage::Rollback;
                        RunOutcome::Continue
                    },
                    None => {
                        self.token = None;
                        self.finish(Err(ActionError::apply(source.as_str())))
                    },
                },
            },
            RunEvent::AfterApplyHook { result, elapsed_ms } => match result {
                Err(h) => {
                    self.reason = Some(RollbackReason::HookFailed { hook_error: h });
                    self.stage = RunStage::Rollback;
                    RunOutcome::Continue
                },
                Ok(()) => {
                    if is_over(self.max_total_duration_ms, elapsed_ms) {
                        let budget = match self.max_total_duration_ms {
                            Some(b) => b,
                            None => 0,
                        };
                        self.reason = Some(RollbackReason::Timeout {
                            timeout: ActionTimeout { phase: ActionPhase::Apply, elapsed_ms, timeout_ms: budget },
                        });
                        self.stage = RunStage::Rollback;
                    } else {
                        self.stage = RunStage::Verify;
                    }
                    RunOutcome::Continue
                },
            },
            RunEvent::Verified { result, elapsed_ms } => match result {
                Err(v) => {
                    self.reason = Some(RollbackReason::VerifyFailed { verify_error: v });
                    self.stage = RunStage::Rollback;
                    RunOutcome::Continue
                },
                Ok(state) => {
                    if is_over(self.max_total_duration_ms, elapsed_ms) {
                        let budget = match self.max_total_duration_ms {
                            Some(b) => b,
                            None => 0,
                        };
                        self.reason = Some(RollbackReason::Timeout {
                            timeout: ActionTimeout { phase: ActionPhase::Verify, elapsed_ms, timeout_ms: budget },
                        });
                        self.stage = RunStage::Rollback;
                        return RunOutcome::Continue;
                    }
                    let token = self.token.take();
                    self.finish(Ok(AuditedActionResult { state, rollback: token }))
                },
            },
            RunEvent::RolledBack { result } => {
                let reason = match &self.reason {
                    Some(r) => r,
                    None => {
                        return self.finish(Err(ActionError::rollback("")));
                    },
                };
                match result {
                    Err(rb) => {
                        let err = match reason {
                            RollbackReason::PartialApply { source } => {
                                let v = cat("apply failed: ", source.as_str());
                                ActionError::emergency_rollback(v.as_str(), rb.as_str())
                            },
                            RollbackReason::HookFailed { hook_error } => {
                                let v = cat("after-apply hook failed after mutation: ", hook_error.as_str());
                                ActionError::emergency_rollback(v.as_str(), rb.as_str())
                            },
                            RollbackReason::Timeout { timeout } => ActionError::timeout_rollback_failure(
                                timeout.phase,
                                timeout.elapsed_ms,
                                timeout.timeout_ms,
                                rb.as_str(),
                            ),
                            RollbackReason::VerifyFailed { verify_error } => ActionError::emergency_rollback(
                                verify_error.as_str(),
                                rb.as_str(),
                            ),
                        };
                        self.rolled_back = true;
                        self.finish(Err(err))
                    },
                    Ok(()) => {
                        match reason {
                            RollbackReason::PartialApply { source } => {
                                let mut m = cat("apply failed: ", source.as_str());
                                m.append("; partial rollback attempted and completed successfully");
                                let e = ActionError::apply(m.as_str());
                                self.rolled_back = true;
                                self.finish(Err(e))
                            },
                            _ => {
                                self.rolled_back = true;
                                self.stage = RunStage::AfterRollbackHook;
                                RunOutcome::Continue
                            },
                        }
                    },
                }
            },
            RunEvent::AfterRollbackHook { result } => {
                let err = match &self.reason {
                    Some(RollbackReason::HookFailed { hook_error }) => {
                        let mut m = cat("after-apply hook failed after mutation: ", hook_error.as_str());
                        match &result {
                            Ok(()) => {
                                m.append("; rollback completed");
                                ActionError::apply(m.as_str())
                            },
                            Err(e) => {
                                m.append("; rollback completed; after-rollback hook failed: ");
                                m.append(e.as_str());
                                ActionError::rollback(m.as_str())
                            },
                        }
                    },
                    Some(RollbackReason::Timeout { timeout }) => match &result {
                        Ok(()) => ActionError::timeout_rollback_completed(timeout.phase, timeout.elapsed_ms, timeout.timeout_ms),
                        Err(e) => {
                            let m = cat("rollback completed after action timeout, but after-rollback hook failed: ", e.as_str());
                            ActionError::rollback(m.as_str())
                        },
                    },
                    Some(RollbackReason::VerifyFailed { verify_error }) => match &result {
                        Ok(()) => ActionError::verify_rollback_completed(verify_error.as_str()),
                        Err(e) => {
                            let mut m = cat(
                                "after-rollback hook failed after verify failure rollback completed: verify error: ",
                                verify_error.as_str(),
                            );
                            m.append("; hook error: ");
                            m.append(e.as_str());
                            ActionError::rollback(m.as_str())
                        },
                    },
                    _ => ActionError::rollback(""),
                };
                self.finish(Err(err))
            },
        }
    }
}

/// Whether a hook or verify event reports a failure or a run past its time budget.
pub open spec fn failed_or_late(r: ActionRun, e: RunEvent) -> bool {
    match e {
        RunEvent::AfterApplyHook { result, elapsed_ms } => result is Err || over_budget(r.max_total_duration_ms, elapsed_ms),
        RunEvent::Verified { result, elapsed_ms } => result is Err || over_budget(r.max_total_duration_ms, elapsed_ms),
        _ => false,
    }
}

/// Whether a verify event reports success within the time budget.
pub open spec fn verified_in_time(r: ActionRun, e: RunEvent) -> bool {
    match e {
        RunEvent::Verified { result, elapsed_ms } => result is Ok && !over_budget(r.max_total_duration_ms, elapsed_ms),
        _ => false,
    }
}

/// A preview run never moves to a stage that changes the system or undoes changes.
pub proof fn preview_never_mutates(r: ActionRun, e: RunEvent)
    requires
        r.wf(),
        r.dry_run,
        event_fits(r.stage, e),
    ensures
        !mutating(next_stage(r, e)),
{
}

/// A dry run that affects more tasks than the run allows stops the run before any
/// policy check for applying, let alone the apply.
pub proof fn scope_limit_stops_before_apply(r: ActionRun, e: RunEvent)
    requires
        r.stage == RunStage::DryRun,
        e matches RunEvent::DryRun { result: Ok(st), .. },
        r.max_affected_tasks matches Some(m) && e->DryRun_result->Ok_0.affected_tasks > m,
    ensures
        next_stage(r, e) == RunStage::Done,
{
}

/// A run rolls back at most once.
pub proof fn rollback_at_most_once(r: ActionRun, e: RunEvent)
    requires
        r.wf(),
        r.rolled_back,
        event_fits(r.stage, e),
    ensures
        next_stage(r, e) != RunStage::Rollback,
{
}

/// Once something was applied, a failed hook, a failed verify or a run past its time
/// budget leads to a rollback of it.
pub proof fn failures_after_apply_roll_back(r: ActionRun, e: RunEvent)
    requires
        r.wf(),
        (r.stage == RunStage::AfterApplyHook || r.stage == RunStage::Verify) && event_fits(r.stage, e)
            && failed_or_late(r, e),
    ensures
        next_stage(r, e) == RunStage::Rollback,
{
}

/// An applying run succeeds only by passing the verify phase within its time budget;
/// a preview succeeds only by its dry run.
pub proof fn success_only_after_verify(r: ActionRun, e: RunEvent, next: ActionRun, a: AuditedActionResult)
    requires
        r.wf(),
        event_fits(r.stage, e),
        next.stage == next_stage(r, e),
        outcome_ok(r, e, next, RunOutcome::Finished(Ok(a))),
    ensures
        !r.dry_run ==> (r.stage == RunStage::Verify && verified_in_time(r, e)),
        r.dry_run ==> (r.stage == RunStage::DryRun && e matches RunEvent::DryRun { result: Ok(_), .. }),
{
}


/// A failed verify leads to a rollback for that verify error; when the rollback and the
/// after-rollback hook succeed, the run ends reporting the verify error as rolled back.
pub proof fn verify_failure_ends_rolled_back(
    r: ActionRun,
    verified: RunEvent,
    at_rollback: ActionRun,
    at_hook: ActionRun,
    done: ActionRun,
    out: RunOutcome,
)
    requires
        r.wf(),
        r.stage == RunStage::Verify,
        verified matches RunEvent::Verified { result: Err(_), .. },
        at_rollback.stage == next_stage(r, verified),
        at_rollback.reason == next_reason(r, verified),
        at_hook.stage == next_stage(at_rollback, RunEvent::RolledBack { result: Ok(()) }),
        at_hook.reason == next_reason(at_rollback, RunEvent::RolledBack { result: Ok(()) }),
        done.stage == next_stage(at_hook, RunEvent::AfterRollbackHook { result: Ok(()) }),
        outcome_ok(at_hook, RunEvent::AfterRollbackHook { result: Ok(()) }, done, out),
    ensures
        at_rollback.stage == RunStage::Rollback,
        at_hook.stage == RunStage::AfterRollbackHook,
        out matches RunOutcome::Finished(Err(e)) && e.failure_of() matches ActionFailure::Rollback(
            RollbackOutcome::VerifyRollbackCompleted { verify_error: v },
        ) && v@ == verified->Verified_result->Err_0@,
{
}

/// The audit message of a successful preflight with `warnings` warnings.
pub open spec fn preflight_audit_text(warnings: nat) -> Seq<char> {
    if warnings == 0 {
        "preflight successful"@
    } else {
        "preflight successful with "@ + decimal(warnings) + (if warnings == 1 {
            " warning"@
        } else {
            " warnings"@
        })
    }
}

/// The audit message of a successful preflight: plain, or with the warning count.
pub fn preflight_audit_message(warnings: usize) -> (r: String)
    ensures
        r@ == preflight_audit_text(warnings as nat),
{
    if warnings == 0 {
        return "preflight successful".to_owned();
    }
    let n = u64_to_string(warnings as u64);
    let suffix = if warnings == 1 {
        " warning"
    } else {
        " warnings"
    };
    cat3("preflight successful with ", n.as_str(), suffix)
}

} // verus!
