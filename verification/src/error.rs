//! Typed action errors: boundary errors raised by validation, and the structured
//! failures that a phase of the action lifecycle reports.
use vstd::prelude::*;

use crate::model::{phase_label, ActionPhase};
use crate::text::{cat, cat3, cat4, decimal, u128_to_string, u64_to_string};
use crate::token::{kind_error_text, token_kind, RollbackToken, RollbackTokenKindError};

verus! {

/// An error raised at the boundary of an action: a refused request, policy or value.
#[derive(Debug, Clone, PartialEq, Eq)]
pub enum ActionBoundaryError {
    MissingExplicitRollbackToken { handler: &'static str, expected_token_kind: &'static str },
    UnsupportedRollbackToken {
        handler: &'static str,
        expected_token_kind: &'static str,
        actual_token_kind: &'static str,
    },
    MissingExplicitTargets { action_kind: &'static str },
    PolicyDenied { action_kind: &'static str, requirement: &'static str },
    EvidenceRequired { action_kind: &'static str, evidence: &'static str },
    InvalidTargetTid { action_kind: &'static str, tid: u32 },
    TargetIdentityMismatch {
        action_kind: &'static str,
        tid: u32,
        expected_starttime: u64,
        actual_starttime: u64,
    },
    InvalidRequest { action_kind: &'static str, reason: String },
    InvalidPolicy { action_kind: &'static str, reason: String },
    InvalidValue { action_kind: &'static str, field: String, reason: String },
    UnsupportedValue { action_kind: &'static str, field: &'static str, value: String },
    PathNotAllowed { action_kind: &'static str, path: String, reason: String },
    MissingPath { action_kind: &'static str, path: String },
    RestoreFailed { action_kind: &'static str, message: String },
}

/// The stable reason code of a boundary error.
pub open spec fn boundary_reason(e: ActionBoundaryError) -> Seq<char> {
    match e {
        ActionBoundaryError::MissingExplicitRollbackToken { .. } => "action_missing_explicit_rollback_token"@,
        ActionBoundaryError::UnsupportedRollbackToken { .. } => "action_unsupported_rollback_token"@,
        ActionBoundaryError::MissingExplicitTargets { .. } => "action_missing_explicit_targets"@,
        ActionBoundaryError::PolicyDenied { .. } => "action_policy_denied"@,
        ActionBoundaryError::EvidenceRequired { .. } => "action_evidence_required"@,
        ActionBoundaryError::InvalidTargetTid { .. } => "action_invalid_target_tid"@,
        ActionBoundaryError::TargetIdentityMismatch { .. } => "action_target_identity_mismatch"@,
        ActionBoundaryError::InvalidRequest { .. } => "action_invalid_request"@,
        ActionBoundaryError::InvalidPolicy { .. } => "action_invalid_policy"@,
        ActionBoundaryError::InvalidValue { .. } => "action_invalid_value"@,
        ActionBoundaryError::UnsupportedValue { .. } => "action_unsupported_value"@,
        ActionBoundaryError::PathNotAllowed { .. } => "action_path_not_allowed"@,
        ActionBoundaryError::MissingPath { .. } => "action_missing_path"@,
        ActionBoundaryError::RestoreFailed { .. } => "action_restore_failed"@,
    }
}

/// The action kind (or rollback handler) a boundary error names.
pub open spec fn boundary_kind(e: ActionBoundaryError) -> Seq<char> {
    match e {
        ActionBoundaryError::MissingExplicitRollbackToken { handler, .. } => handler@,
        ActionBoundaryError::UnsupportedRollbackToken { handler, .. } => handler@,
        ActionBoundaryError::MissingExplicitTargets { action_kind } => action_kind@,
        ActionBoundaryError::PolicyDenied { action_kind, .. } => action_kind@,
        ActionBoundaryError::EvidenceRequired { action_kind, .. } => action_kind@,
        ActionBoundaryError::InvalidTargetTid { action_kind, .. } => action_kind@,
        ActionBoundaryError::TargetIdentityMismatch { action_kind, .. } => action_kind@,
        ActionBoundaryError::InvalidRequest { action_kind, .. } => action_kind@,
        ActionBoundaryError::InvalidPolicy { action_kind, .. } => action_kind@,
        ActionBoundaryError::InvalidValue { action_kind, .. } => action_kind@,
        ActionBoundaryError::UnsupportedValue { action_kind, .. } => action_kind@,
        ActionBoundaryError::PathNotAllowed { action_kind, .. } => action_kind@,
        ActionBoundaryError::MissingPath { action_kind, .. } => action_kind@,
        ActionBoundaryError::RestoreFailed { action_kind, .. } => action_kind@,
    }
}

/// The text a boundary error displays.
pub open spec fn boundary_text(e: ActionBoundaryError) -> Seq<char> {
    match e {
        ActionBoundaryError::MissingExplicitRollbackToken { handler, expected_token_kind } =>
            "action_missing_explicit_rollback_token: "@ + handler@
                + " requires explicit rollback token kind "@ + expected_token_kind@,
        ActionBoundaryError::UnsupportedRollbackToken {
            handler,
            expected_token_kind,
            actual_token_kind,
        } => "action_unsupported_rollback_token: "@ + handler@ + " expected rollback token kind "@
            + expected_token_kind@ + ", got "@ + actual_token_kind@,
        ActionBoundaryError::MissingExplicitTargets { action_kind } => "action_missing_explicit_targets: "@
            + action_kind@ + " requires at least one explicit target"@,
        ActionBoundaryError::PolicyDenied { action_kind, requirement } => "action_policy_denied: "@
            + action_kind@ + " denied by policy requirement "@ + requirement@,
        ActionBoundaryError::EvidenceRequired { action_kind, evidence } =>
            "action_evidence_required: "@ + action_kind@ + " requires evidence "@ + evidence@,
        ActionBoundaryError::InvalidTargetTid { action_kind, tid } => "action_invalid_target_tid: "@
            + action_kind@ + " target tid "@ + decimal(tid as nat) + " must be greater than zero"@,
        ActionBoundaryError::TargetIdentityMismatch {
            action_kind,
            tid,
            expected_starttime,
            actual_starttime,
        } => "action_target_identity_mismatch: "@ + action_kind@ + " tid="@ + decimal(tid as nat)
            + " starttime mismatch: expected="@ + decimal(expected_starttime as nat) + " actual="@
            + decimal(actual_starttime as nat),
        ActionBoundaryError::InvalidRequest { action_kind, reason } => "action_invalid_request: "@
            + action_kind@ + ": "@ + reason@,
        ActionBoundaryError::InvalidPolicy { action_kind, reason } => "action_invalid_policy: "@
            + action_kind@ + ": "@ + reason@,
        ActionBoundaryError::InvalidValue { action_kind, field, reason } => "action_invalid_value: "@
            + action_kind@ + " field "@ + field@ + ": "@ + reason@,
        ActionBoundaryError::UnsupportedValue { action_kind, field, value } =>
            "action_unsupported_value: "@ + action_kind@ + " field "@ + field@ + ": "@ + value@,
        ActionBoundaryError::PathNotAllowed { action_kind, path, reason } => "action_path_not_allowed: "@
            + action_kind@ + " path "@ + path@ + ": "@ + reason@,
        ActionBoundaryError::MissingPath { action_kind, path } => "action_missing_path: "@
            + action_kind@ + " required path does not exist: "@ + path@,
        ActionBoundaryError::RestoreFailed { action_kind, message } => "action_restore_failed: "@
            + action_kind@ + ": "@ + message@,
    }
}

impl ActionBoundaryError {
    /// The stable reason code.
    pub fn reason_code(&self) -> (r: &'static str)
        ensures
            r@ == boundary_reason(*self),
    {
        match self {
            ActionBoundaryError::MissingExplicitRollbackToken { .. } => "action_missing_explicit_rollback_token",
            ActionBoundaryError::UnsupportedRollbackToken { .. } => "action_unsupported_rollback_token",
            ActionBoundaryError::MissingExplicitTargets { .. } => "action_missing_explicit_targets",
            ActionBoundaryError::PolicyDenied { .. } => "action_policy_denied",
            ActionBoundaryError::EvidenceRequired { .. } => "action_evidence_required",
            ActionBoundaryError::InvalidTargetTid { .. } => "action_invalid_target_tid",
            ActionBoundaryError::TargetIdentityMismatch { .. } => "action_target_identity_mismatch",
            ActionBoundaryError::InvalidRequest { .. } => "action_invalid_request",
            ActionBoundaryError::InvalidPolicy { .. } => "action_invalid_policy",
            ActionBoundaryError::InvalidValue { .. } => "action_invalid_value",
            ActionBoundaryError::UnsupportedValue { .. } => "action_unsupported_value",
            ActionBoundaryError::PathNotAllowed { .. } => "action_path_not_allowed",
            ActionBoundaryError::MissingPath { .. } => "action_missing_path",
            ActionBoundaryError::RestoreFailed { .. } => "action_restore_failed",
        }
    }

    /// The action kind (or rollback handler) the error names.
    pub fn action_kind(&self) -> (r: &'static str)
        ensures
            r@ == boundary_kind(*self),
    {
        match self {
            ActionBoundaryError::MissingExplicitRollbackToken { handler, .. } => handler,
            ActionBoundaryError::UnsupportedRollbackToken { handler, .. } => handler,
            ActionBoundaryError::MissingExplicitTargets { action_kind } => action_kind,
            ActionBoundaryError::PolicyDenied { action_kind, .. } => action_kind,
            ActionBoundaryError::EvidenceRequired { action_kind, .. } => action_kind,
            ActionBoundaryError::InvalidTargetTid { action_kind, .. } => action_kind,
            ActionBoundaryError::TargetIdentityMismatch { action_kind, .. } => action_kind,
            ActionBoundaryError::InvalidRequest { action_kind, .. } => action_kind,
            ActionBoundaryError::InvalidPolicy { action_kind, .. } => action_kind,
            ActionBoundaryError::InvalidValue { action_kind, .. } => action_kind,
            ActionBoundaryError::UnsupportedValue { action_kind, .. } => action_kind,
            ActionBoundaryError::PathNotAllowed { action_kind, .. } => action_kind,
            ActionBoundaryError::MissingPath { action_kind, .. } => action_kind,
            ActionBoundaryError::RestoreFailed { action_kind, .. } => action_kind,
        }
    }

    /// The text the error displays.
    pub fn message(&self) -> (r: String)
        ensures
            r@ == boundary_text(*self),
    {
        match self {
            ActionBoundaryError::MissingExplicitRollbackToken { handler, expected_token_kind } => cat4(
                "action_missing_explicit_rollback_token: ",
                handler,
                " requires explicit rollback token kind ",
                expected_token_kind,
            ),
            ActionBoundaryError::UnsupportedRollbackToken {
                handler,
                expected_token_kind,
                actual_token_kind,
            } => {
                let mut s = cat4(
                    "action_unsupported_rollback_token: ",
                    handler,
                    " expected rollback token kind ",
                    expected_token_kind,
                );
                s.append(", got ");
                s.append(actual_token_kind);
                s
            },
            ActionBoundaryError::MissingExplicitTargets { action_kind } => cat3(
                "action_missing_explicit_targets: ",
                action_kind,
                " requires at least one explicit target",
            ),
            ActionBoundaryError::PolicyDenied { action_kind, requirement } => cat4(
                "action_policy_denied: ",
                action_kind,
                " denied by policy requirement ",
                requirement,
            ),
            ActionBoundaryError::EvidenceRequired { action_kind, evidence } => cat4(
                "action_evidence_required: ",
                action_kind,
                " requires evidence ",
                evidence,
            ),
            ActionBoundaryError::InvalidTargetTid { action_kind, tid } => {
                let t = u64_to_string(*tid as u64);
                let mut s = cat4(
                    "action_invalid_target_tid: ",
                    action_kind,
                    " target tid ",
                    t.as_str(),
                );
                s.append(" must be greater than zero");
                s
            },
            ActionBoundaryError::TargetIdentityMismatch {
                action_kind,
                tid,
                expected_starttime,
                actual_starttime,
            } => {
                let t = u64_to_string(*tid as u64);
                let e = u64_to_string(*expected_starttime);
                let a = u64_to_string(*actual_starttime);
                let mut s = cat4("action_target_identity_mismatch: ", action_kind, " tid=", t.as_str());
                s.append(" starttime mismatch: expected=");
                s.append(e.as_str());
                s.append(" actual=");
                s.append(a.as_str());
                s
            },
            ActionBoundaryError::InvalidRequest { action_kind, reason } => cat4(
                "action_invalid_request: ",
                action_kind,
                ": ",
                reason.as_str(),
            ),
            ActionBoundaryError::InvalidPolicy { action_kind, reason } => cat4(
                "action_invalid_policy: ",
                action_kind,
                ": ",
                reason.as_str(),
            ),
            ActionBoundaryError::InvalidValue { action_kind, field, reason } => {
                let mut s = cat4("action_invalid_value: ", action_kind, " field ", field.as_str());
                s.append(": ");
                s.append(reason.as_str());
                s
            },
            ActionBoundaryError::UnsupportedValue { action_kind, field, value } => {
                let mut s = cat4("action_unsupported_value: ", action_kind, " field ", field);
                s.append(": ");
                s.append(value.as_str());
                s
            },
            ActionBoundaryError::PathNotAllowed { action_kind, path, reason } => {
                let mut s = cat4("action_path_not_allowed: ", action_kind, " path ", path.as_str());
                s.append(": ");
                s.append(reason.as_str());
                s
            },
            ActionBoundaryError::MissingPath { action_kind, path } => cat4(
                "action_missing_path: ",
                action_kind,
                " required path does not exist: ",
                path.as_str(),
            ),
            ActionBoundaryError::RestoreFailed { action_kind, message } => cat4(
                "action_restore_failed: ",
                action_kind,
                ": ",
                message.as_str(),
            ),
        }
    }

    /// The structured failure this error is reported as in `phase`.
    pub fn to_failure(&self, phase: ActionPhase) -> (r: ActionBoundaryFailure)
        ensures
            r.phase == phase,
            r.action_kind@ == boundary_kind(*self),
            r.reason_code@ == boundary_reason(*self),
            r.message@ == boundary_text(*self),
    {
        ActionBoundaryFailure {
            phase,
            action_kind: self.action_kind().to_owned(),
            reason_code: self.reason_code().to_owned(),
            message: self.message(),
        }
    }

    /// A token of another kind was handed to `handler`.
    pub fn unsupported_rollback_token(
        handler: &'static str,
        expected_token_kind: &'static str,
        actual_token_kind: &'static str,
    ) -> (r: Self)
        ensures
            r == (ActionBoundaryError::UnsupportedRollbackToken {
                handler,
                expected_token_kind,
                actual_token_kind,
            }),
    {
        ActionBoundaryError::UnsupportedRollbackToken { handler, expected_token_kind, actual_token_kind }
    }

    /// `handler` restores only from an explicit token of `expected_token_kind`.
    pub fn missing_explicit_rollback_token(handler: &'static str, expected_token_kind: &'static str) -> (r:
        Self)
        ensures
            r == (ActionBoundaryError::MissingExplicitRollbackToken { handler, expected_token_kind }),
    {
        ActionBoundaryError::MissingExplicitRollbackToken { handler, expected_token_kind }
    }

    /// A restore of `action_kind` failed with `message`.
    pub fn restore_failed(action_kind: &'static str, message: &str) -> (r: Self)
        ensures
            r matches ActionBoundaryError::RestoreFailed { action_kind: k, message: m } && k
                == action_kind && m@ == message@,
    {
        ActionBoundaryError::RestoreFailed { action_kind, message: message.to_owned() }
    }
}

/// A failure of a phase with a plain message.
#[derive(Debug, Clone, PartialEq, Eq)]
pub enum PhaseFailure {
    Preflight { message: String },
    DryRun { message: String },
    Apply { message: String },
    Verify { message: String },
    Rollback { message: String },
}

/// A phase that ran past the total time budget.
#[derive(Debug, Clone, Copy, PartialEq, Eq)]
pub struct ActionTimeout {
    pub phase: ActionPhase,
    pub elapsed_ms: u128,
    pub timeout_ms: u128,
}

/// How a rollback that the lifecycle ran on its own ended.
#[derive(Debug, Clone, PartialEq, Eq)]
pub enum RollbackOutcome {
    RollbackFailure { message: String },
    VerifyRollbackCompleted { verify_error: String },
    EmergencyRollbackFailure { verify_error: String, rollback_error: String },
    TimeoutRollbackCompleted { timeout: ActionTimeout },
    TimeoutRollbackFailure { timeout: ActionTimeout, rollback_error: String },
}

/// A dry run that touched more tasks than the run allows.
#[derive(Debug, Clone, Copy, PartialEq, Eq)]
pub struct ScopeLimitExceeded {
    pub affected_tasks: usize,
    pub max_affected_tasks: usize,
}

/// A boundary error as it is reported: the phase, and the error's kind, code and text.
#[derive(Debug, Clone, PartialEq, Eq)]
pub struct ActionBoundaryFailure {
    pub phase: ActionPhase,
    pub action_kind: String,
    pub reason_code: String,
    pub message: String,
}

/// Every way an action can fail.
#[derive(Debug, Clone, PartialEq, Eq)]
pub enum ActionFailure {
    Phase(PhaseFailure),
    Boundary(ActionBoundaryFailure),
    Timeout(ActionTimeout),
    Rollback(RollbackOutcome),
    InvalidRollbackToken { expected: String, actual: String },
    ScopeLimitExceeded(ScopeLimitExceeded),
    PolicyRejected { message: String },
}

/// The phase a failure belongs to.
pub open spec fn failure_phase(f: ActionFailure) -> ActionPhase {
    match f {
        ActionFailure::Phase(p) => match p {
            PhaseFailure::Preflight { .. } => ActionPhase::Preflight,
            PhaseFailure::DryRun { .. } => ActionPhase::DryRun,
            PhaseFailure::Apply { .. } => ActionPhase::Apply,
            PhaseFailure::Verify { .. } => ActionPhase::Verify,
            PhaseFailure::Rollback { .. } => ActionPhase::Rollback,
        },
        ActionFailure::Boundary(b) => b.phase,
        ActionFailure::Timeout(t) => t.phase,
        ActionFailure::Rollback(o) => match o {
            RollbackOutcome::RollbackFailure { .. } => ActionPhase::Rollback,
            RollbackOutcome::VerifyRollbackCompleted { .. } => ActionPhase::Verify,
            RollbackOutcome::EmergencyRollbackFailure { .. } => ActionPhase::EmergencyRollback,
            RollbackOutcome::TimeoutRollbackCompleted { timeout } => timeout.phase,
            RollbackOutcome::TimeoutRollbackFailure { .. } => ActionPhase::EmergencyRollback,
        },
        ActionFailure::InvalidRollbackToken { .. } => ActionPhase::Rollback,
        ActionFailure::ScopeLimitExceeded(_) => ActionPhase::DryRun,
        ActionFailure::PolicyRejected { .. } => ActionPhase::Preflight,
    }
}

/// The category code of a failure.
pub open spec fn failure_category(f: ActionFailure) -> Seq<char> {
    match f {
        ActionFailure::Phase(p) => match p {
            PhaseFailure::Preflight { .. } => "preflight_failure"@,
            PhaseFailure::DryRun { .. } => "dry_run_failure"@,
            PhaseFailure::Apply { .. } => "apply_failure"@,
            PhaseFailure::Verify { .. } => "verify_failure"@,
            PhaseFailure::Rollback { .. } => "rollback_failure"@,
        },
        ActionFailure::Boundary(b) => b.reason_code@,
        ActionFailure::Timeout(_) => "timeout"@,
        ActionFailure::Rollback(o) => match o {
            RollbackOutcome::RollbackFailure { .. } => "rollback_failure"@,
            RollbackOutcome::VerifyRollbackCompleted { .. } => "verify_failure_rollback_completed"@,
            RollbackOutcome::EmergencyRollbackFailure { .. } => "emergency_rollback_failure"@,
            RollbackOutcome::TimeoutRollbackCompleted { .. } => "timeout_rollback_completed"@,
            RollbackOutcome::TimeoutRollbackFailure { .. } => "timeout_rollback_failure"@,
        },
        ActionFailure::InvalidRollbackToken { .. } => "invalid_rollback_token"@,
        ActionFailure::ScopeLimitExceeded(_) => "scope_limit_exceeded"@,
        ActionFailure::PolicyRejected { .. } => "policy_rejected"@,
    }
}

/// "phase P: elapsed_ms=E timeout_ms=T" with the given words after the phase.
pub open spec fn timeout_text(t: ActionTimeout, after_phase: Seq<char>) -> Seq<char> {
    "action timed out during "@ + phase_label(t.phase) + after_phase + "elapsed_ms="@ + decimal(
        t.elapsed_ms as nat,
    ) + " timeout_ms="@ + decimal(t.timeout_ms as nat)
}

/// The human-readable text of a failure.
pub open spec fn failure_text(f: ActionFailure) -> Seq<char> {
    match f {
        ActionFailure::Phase(p) => match p {
            PhaseFailure::Preflight { message } => "preflight failed: "@ + message@,
            PhaseFailure::DryRun { message } => "dry run failed: "@ + message@,
            PhaseFailure::Apply { message } => "apply failed: "@ + message@,
            PhaseFailure::Verify { message } => "verify failed: "@ + message@,
            PhaseFailure::Rollback { message } => "rollback failed: "@ + message@,
        },
        ActionFailure::Boundary(b) => phase_label(b.phase) + " failed: "@ + b.message@,
        ActionFailure::Timeout(t) => timeout_text(t, ": "@),
        ActionFailure::Rollback(o) => match o {
            RollbackOutcome::RollbackFailure { message } => "rollback failed: "@ + message@,
            RollbackOutcome::VerifyRollbackCompleted { verify_error } =>
                "verify failed; rollback completed: "@ + verify_error@,
            RollbackOutcome::EmergencyRollbackFailure { verify_error, rollback_error } =>
                "verify failed; emergency rollback failed: verify error: "@ + verify_error@
                    + "; rollback error: "@ + rollback_error@,
            RollbackOutcome::TimeoutRollbackCompleted { timeout } => timeout_text(
                timeout,
                "; rollback completed: "@,
            ),
            RollbackOutcome::TimeoutRollbackFailure { timeout, rollback_error } => timeout_text(
                timeout,
                "; emergency rollback failed: "@,
            ) + "; rollback error: "@ + rollback_error@,
        },
        ActionFailure::InvalidRollbackToken { expected, actual } =>
            "invalid rollback token: expected "@ + expected@ + ", actual "@ + actual@,
        ActionFailure::ScopeLimitExceeded(s) => "dry run affected "@ + decimal(
            s.affected_tasks as nat,
        ) + " task(s), exceeding scope limit "@ + decimal(s.max_affected_tasks as nat),
        ActionFailure::PolicyRejected { message } => "policy rejected: "@ + message@,
    }
}

fn timeout_message(t: ActionTimeout, after_phase: &str) -> (r: String)
    ensures
        r@ == timeout_text(t, after_phase@),
{
    let e = u128_to_string(t.elapsed_ms);
    let m = u128_to_string(t.timeout_ms);
    let mut s = cat3("action timed out during ", t.phase.as_str(), after_phase);
    s.append("elapsed_ms=");
    s.append(e.as_str());
    s.append(" timeout_ms=");
    s.append(m.as_str());
    s
}

impl ActionFailure {
    /// The phase the failure belongs to.
    pub fn phase(&self) -> (r: ActionPhase)
        ensures
            r == failure_phase(*self),
    {
        match self {
            ActionFailure::Phase(p) => match p {
                PhaseFailure::Preflight { .. } => ActionPhase::Preflight,
                PhaseFailure::DryRun { .. } => ActionPhase::DryRun,
                PhaseFailure::Apply { .. } => ActionPhase::Apply,
                PhaseFailure::Verify { .. } => ActionPhase::Verify,
                PhaseFailure::Rollback { .. } => ActionPhase::Rollback,
            },
            ActionFailure::Boundary(b) => b.phase,
            ActionFailure::Timeout(t) => t.phase,
            ActionFailure::Rollback(o) => match o {
                RollbackOutcome::RollbackFailure { .. } => ActionPhase::Rollback,
                RollbackOutcome::VerifyRollbackCompleted { .. } => ActionPhase::Verify,
                RollbackOutcome::EmergencyRollbackFailure { .. } => ActionPhase::EmergencyRollback,
                RollbackOutcome::TimeoutRollbackCompleted { timeout } => timeout.phase,
                RollbackOutcome::TimeoutRollbackFailure { .. } => ActionPhase::EmergencyRollback,
            },
            ActionFailure::InvalidRollbackToken { .. } => ActionPhase::Rollback,
            ActionFailure::ScopeLimitExceeded(_) => ActionPhase::DryRun,
            ActionFailure::PolicyRejected { .. } => ActionPhase::Preflight,
        }
    }

    /// The category code of the failure.
    pub fn category(&self) -> (r: &str)
        ensures
            r@ == failure_category(*self),
    {
        match self {
            ActionFailure::Phase(p) => match p {
                PhaseFailure::Preflight { .. } => "preflight_failure",
                PhaseFailure::DryRun { .. } => "dry_run_failure",
                PhaseFailure::Apply { .. } => "apply_failure",
                PhaseFailure::Verify { .. } => "verify_failure",
                PhaseFailure::Rollback { .. } => "rollback_failure",
            },
            ActionFailure::Boundary(b) => b.reason_code.as_str(),
            ActionFailure::Timeout(_) => "timeout",
            ActionFailure::Rollback(o) => match o {
                RollbackOutcome::RollbackFailure { .. } => "rollback_failure",
                RollbackOutcome::VerifyRollbackCompleted { .. } => "verify_failure_rollback_completed",
                RollbackOutcome::EmergencyRollbackFailure { .. } => "emergency_rollback_failure",
                RollbackOutcome::TimeoutRollbackCompleted { .. } => "timeout_rollback_completed",
                RollbackOutcome::TimeoutRollbackFailure { .. } => "timeout_rollback_failure",
            },
            ActionFailure::InvalidRollbackToken { .. } => "invalid_rollback_token",
            ActionFailure::ScopeLimitExceeded(_) => "scope_limit_exceeded",
            ActionFailure::PolicyRejected { .. } => "policy_rejected",
        }
    }

    /// The human-readable text of the failure.
    pub fn human_message(&self) -> (r: String)
        ensures
            r@ == failure_text(*self),
    {
        match self {
            ActionFailure::Phase(p) => match p {
                PhaseFailure::Preflight { message } => cat("preflight failed: ", message.as_str()),
                PhaseFailure::DryRun { message } => cat("dry run failed: ", message.as_str()),
                PhaseFailure::Apply { message } => cat("apply failed: ", message.as_str()),
                PhaseFailure::Verify { message } => cat("verify failed: ", message.as_str()),
                PhaseFailure::Rollback { message } => cat("rollback failed: ", message.as_str()),
            },
            ActionFailure::Boundary(b) => cat3(b.phase.as_str(), " failed: ", b.message.as_str()),
            ActionFailure::Timeout(t) => timeout_message(*t, ": "),
            ActionFailure::Rollback(o) => match o {
                RollbackOutcome::RollbackFailure { message } => cat(
                    "rollback failed: ",
                    message.as_str(),
                ),
                RollbackOutcome::VerifyRollbackCompleted { verify_error } => cat(
                    "verify failed; rollback completed: ",
                    verify_error.as_str(),
                ),
                RollbackOutcome::EmergencyRollbackFailure { verify_error, rollback_error } => cat4(
                    "verify failed; emergency rollback failed: verify error: ",
                    verify_error.as_str(),
                    "; rollback error: ",
                    rollback_error.as_str(),
                ),
                RollbackOutcome::TimeoutRollbackCompleted { timeout } => timeout_message(
                    *timeout,
                    "; rollback completed: ",
                ),
                RollbackOutcome::TimeoutRollbackFailure { timeout, rollback_error } => {
                    let mut s = timeout_message(*timeout, "; emergency rollback failed: ");
                    s.append("; rollback error: ");
                    s.append(rollback_error.as_str());
                    s
                },
            },
            ActionFailure::InvalidRollbackToken { expected, actual } => cat4(
                "invalid rollback token: expected ",
                expected.as_str(),
                ", actual ",
                actual.as_str(),
            ),
            ActionFailure::ScopeLimitExceeded(s) => {
                let a = u64_to_string(s.affected_tasks as u64);
                let m = u64_to_string(s.max_affected_tasks as u64);
                cat4(
                    "dry run affected ",
                    a.as_str(),
                    " task(s), exceeding scope limit ",
                    m.as_str(),
                )
            },
            ActionFailure::PolicyRejected { message } => cat("policy rejected: ", message.as_str()),
        }
    }
}

/// The error an action reports: one structured failure.
#[derive(Debug, Clone, PartialEq, Eq)]
pub struct ActionError {
    failure: ActionFailure,
}

/// What a phase of an action failed with, before the lifecycle turns it into an `ActionError`.
#[derive(Debug, Clone, PartialEq, Eq)]
pub enum ActionSourceError {
    /// An action error raised by a nested lifecycle step.
    Action(ActionError),
    /// A typed boundary error.
    Boundary(ActionBoundaryError),
    /// A rollback token of the wrong kind.
    TokenKind(RollbackTokenKindError),
    /// Any other error, by its text.
    Message(String),
}

/// The text an `ActionSourceError` displays.
pub open spec fn source_text(e: ActionSourceError) -> Seq<char> {
    match e {
        ActionSourceError::Action(a) => failure_text(a.failure_of()),
        ActionSourceError::Boundary(b) => boundary_text(b),
        ActionSourceError::TokenKind(k) => kind_error_text(k),
        ActionSourceError::Message(m) => m@,
    }
}

impl ActionSourceError {
    /// The text the error displays.
    pub fn message(&self) -> (r: String)
        ensures
            r@ == source_text(*self),
    {
        match self {
            ActionSourceError::Action(a) => a.human_message(),
            ActionSourceError::Boundary(b) => b.message(),
            ActionSourceError::TokenKind(k) => k.message(),
            ActionSourceError::Message(m) => m.clone(),
        }
    }
}

/// `r` is `e` seen under the context `ctx`: typed errors stay as they are (callers
/// still tell them apart), and a plain error becomes `ctx: text`.
pub open spec fn context_ok(e: ActionSourceError, ctx: Seq<char>, r: ActionSourceError) -> bool {
    match e {
        ActionSourceError::Boundary(_) => r == e,
        ActionSourceError::TokenKind(_) => r == e,
        _ => r matches ActionSourceError::Message(m) && m@ == ctx + ": "@ + source_text(e),
    }
}

/// `e` seen under the context `ctx`.
pub fn with_context(e: ActionSourceError, ctx: &str) -> (r: ActionSourceError)
    ensures
        context_ok(e, ctx@, r),
{
    match e {
        ActionSourceError::Boundary(_) => e,
        ActionSourceError::TokenKind(_) => e,
        _ => {
            let text = e.message();
            let mut m = cat(ctx, ": ");
            m.append(text.as_str());
            ActionSourceError::Message(m)
        },
    }
}

/// `e` is a refusal by the policy requirement `requirement` for `kind`.
pub open spec fn is_policy_denied(e: ActionBoundaryError, kind: Seq<char>, requirement: Seq<char>) -> bool {
    e matches ActionBoundaryError::PolicyDenied { action_kind, requirement: q } && action_kind@ == kind
        && q@ == requirement
}

/// `e` asks for the evidence `evidence` for `kind`.
pub open spec fn is_evidence_required(e: ActionBoundaryError, kind: Seq<char>, evidence: Seq<char>) -> bool {
    e matches ActionBoundaryError::EvidenceRequired { action_kind, evidence: v } && action_kind@ == kind
        && v@ == evidence
}

/// `e` refuses the value of `field` for `kind` with `reason`.
pub open spec fn is_invalid_value(e: ActionBoundaryError, kind: Seq<char>, field: Seq<char>, reason: Seq<
    char,
>) -> bool {
    e matches ActionBoundaryError::InvalidValue { action_kind, field: f, reason: r } && action_kind@
        == kind && f@ == field && r@ == reason
}

/// `e` refuses a request of `kind` with `reason`.
pub open spec fn is_invalid_request(e: ActionBoundaryError, kind: Seq<char>, reason: Seq<char>) -> bool {
    e matches ActionBoundaryError::InvalidRequest { action_kind, reason: r } && action_kind@ == kind && r@
        == reason
}

/// `e` refuses a policy of `kind` with `reason`.
pub open spec fn is_invalid_policy(e: ActionBoundaryError, kind: Seq<char>, reason: Seq<char>) -> bool {
    e matches ActionBoundaryError::InvalidPolicy { action_kind, reason: r } && action_kind@ == kind && r@
        == reason
}

/// `e` refuses the value `value` of `field` for `kind` as unsupported.
pub open spec fn is_unsupported_value(e: ActionBoundaryError, kind: Seq<char>, field: Seq<char>, value: Seq<
    char,
>) -> bool {
    e matches ActionBoundaryError::UnsupportedValue { action_kind, field: f, value: v } && action_kind@
        == kind && f@ == field && v@ == value
}

/// `e` says that `kind` names no target.
pub open spec fn is_missing_targets(e: ActionBoundaryError, kind: Seq<char>) -> bool {
    e matches ActionBoundaryError::MissingExplicitTargets { action_kind } && action_kind@ == kind
}

/// `e` is the error an action's rollback gives for a token of another kind.
pub open spec fn is_wrong_token_for(e: ActionSourceError, expected: Seq<char>, token: RollbackToken) -> bool {
    e matches ActionSourceError::Action(a) && (a.failure_of() matches ActionFailure::InvalidRollbackToken {
        expected: x,
        actual: y,
    } && x@ == expected && y@ == token_kind(token))
}

/// `f` is the plain failure that `phase` reports with `message`
/// (rollback phases report a rollback failure).
pub open spec fn is_phase_failure(f: ActionFailure, phase: ActionPhase, message: Seq<char>) -> bool {
    match phase {
        ActionPhase::Preflight => f matches ActionFailure::Phase(PhaseFailure::Preflight { message: m })
            && m@ == message,
        ActionPhase::DryRun => f matches ActionFailure::Phase(PhaseFailure::DryRun { message: m }) && m@
            == message,
        ActionPhase::Apply => f matches ActionFailure::Phase(PhaseFailure::Apply { message: m }) && m@
            == message,
        ActionPhase::Verify => f matches ActionFailure::Phase(PhaseFailure::Verify { message: m }) && m@
            == message,
        _ => f matches ActionFailure::Rollback(RollbackOutcome::RollbackFailure { message: m }) && m@
            == message,
    }
}

/// `f` is the boundary failure that `b` is reported as in `phase`.
pub open spec fn is_boundary_failure(f: ActionFailure, phase: ActionPhase, b: ActionBoundaryError) -> bool {
    f matches ActionFailure::Boundary(x) && x.phase == phase && x.action_kind@ == boundary_kind(b)
        && x.reason_code@ == boundary_reason(b) && x.message@ == boundary_text(b)
}

/// `f` is what `from_phase_error` reports for `e` in `phase`: a boundary error keeps its
/// code, a token-kind error in the rollback phase becomes an invalid-token failure, and
/// anything else becomes the plain failure of the phase with the error's text.
pub open spec fn phase_error_result(phase: ActionPhase, e: ActionSourceError, f: ActionFailure) -> bool {
    match e {
        ActionSourceError::Boundary(b) => is_boundary_failure(f, phase, b),
        ActionSourceError::TokenKind(k) => if phase == ActionPhase::Rollback {
            f matches ActionFailure::InvalidRollbackToken { expected, actual } && expected@
                == k.expected@ && actual@ == k.actual@
        } else {
            is_phase_failure(f, phase, kind_error_text(k))
        },
        _ => is_phase_failure(f, phase, source_text(e)),
    }
}

impl ActionError {
    /// The failure the error holds.
    pub closed spec fn failure_of(self) -> ActionFailure {
        self.failure
    }

    /// An error holding `failure`.
    pub fn from_failure(failure: ActionFailure) -> (r: Self)
        ensures
            r.failure_of() == failure,
    {
        ActionError { failure }
    }

    /// The failure the error holds.
    pub fn failure(&self) -> (r: &ActionFailure)
        ensures
            *r == self.failure_of(),
    {
        &self.failure
    }

    /// The failure the error holds, by value.
    pub fn into_failure(self) -> (r: ActionFailure)
        ensures
            r == self.failure_of(),
    {
        self.failure
    }

    /// The preflight failed with `message`.
    pub fn preflight(message: &str) -> (r: Self)
        ensures
            is_phase_failure(r.failure_of(), ActionPhase::Preflight, message@),
    {
        Self::from_failure(ActionFailure::Phase(PhaseFailure::Preflight { message: message.to_owned() }))
    }

    /// The dry run failed with `message`.
    pub fn dry_run(message: &str) -> (r: Self)
        ensures
            is_phase_failure(r.failure_of(), ActionPhase::DryRun, message@),
    {
        Self::from_failure(ActionFailure::Phase(PhaseFailure::DryRun { message: message.to_owned() }))
    }

    /// The apply failed with `message`.
    pub fn apply(message: &str) -> (r: Self)
        ensures
            is_phase_failure(r.failure_of(), ActionPhase::Apply, message@),
    {
        Self::from_failure(ActionFailure::Phase(PhaseFailure::Apply { message: message.to_owned() }))
    }

    /// The verify failed with `message`.
    pub fn verify(message: &str) -> (r: Self)
        ensures
            is_phase_failure(r.failure_of(), ActionPhase::Verify, message@),
    {
        Self::from_failure(ActionFailure::Phase(PhaseFailure::Verify { message: message.to_owned() }))
    }

    /// The verify failed and the rollback that followed completed.
    pub fn verify_rollback_completed(verify_error: &str) -> (r: Self)
        ensures
            r.failure_of() matches ActionFailure::Rollback(
                RollbackOutcome::VerifyRollbackCompleted { verify_error: v },
            ) && v@ == verify_error@,
    {
        Self::from_failure(
            ActionFailure::Rollback(
                RollbackOutcome::VerifyRollbackCompleted { verify_error: verify_error.to_owned() },
            ),
        )
    }

    /// A rollback failed with `message`.
    pub fn rollback(message: &str) -> (r: Self)
        ensures
            is_phase_failure(r.failure_of(), ActionPhase::Rollback, message@),
    {
        Self::from_failure(
            ActionFailure::Rollback(RollbackOutcome::RollbackFailure { message: message.to_owned() }),
        )
    }

    /// A rollback was handed a token of kind `actual` where `expected` was needed.
    pub fn invalid_rollback_token(expected: &str, actual: &str) -> (r: Self)
        ensures
            r.failure_of() matches ActionFailure::InvalidRollbackToken { expected: e, actual: a } && e@
                == expected@ && a@ == actual@,
    {
        Self::from_failure(
            ActionFailure::InvalidRollbackToken { expected: expected.to_owned(), actual: actual.to_owned() },
        )
    }

    /// The invalid-token failure for a token-kind mismatch.
    pub fn invalid_rollback_token_kind(error: RollbackTokenKindError) -> (r: Self)
        ensures
            r.failure_of() matches ActionFailure::InvalidRollbackToken { expected: e, actual: a } && e@
                == error.expected@ && a@ == error.actual@,
    {
        Self::invalid_rollback_token(error.expected(), error.actual())
    }

    /// The error a failed rollback reports: an action error as it is, anything else as a
    /// rollback-phase error.
    pub fn from_rollback_error(error: ActionSourceError) -> (r: Self)
        ensures
            match error {
                ActionSourceError::Action(a) => r == a,
                _ => phase_error_result(ActionPhase::Rollback, error, r.failure_of()),
            },
    {
        match error {
            ActionSourceError::Action(a) => a,
            other => Self::rollback_error(other),
        }
    }

    /// The error `phase` reports for `error`.
    pub fn from_phase_error(phase: ActionPhase, error: ActionSourceError) -> (r: Self)
        ensures
            phase_error_result(phase, error, r.failure_of()),
    {
        match &error {
            ActionSourceError::Boundary(b) => {
                return Self::from_failure(ActionFailure::Boundary(b.to_failure(phase)));
            },
            ActionSourceError::TokenKind(k) => {
                if phase == ActionPhase::Rollback {
                    return Self::invalid_rollback_token_kind(*k);
                }
            },
            _ => {},
        }
        let text = error.message();
        match phase {
            ActionPhase::Preflight => Self::preflight(text.as_str()),
            ActionPhase::DryRun => Self::dry_run(text.as_str()),
            ActionPhase::Apply => Self::apply(text.as_str()),
            ActionPhase::Verify => Self::verify(text.as_str()),
            ActionPhase::Rollback | ActionPhase::EmergencyRollback => Self::rollback(text.as_str()),
        }
    }

    /// `from_phase_error` in the preflight.
    pub fn preflight_error(error: ActionSourceError) -> (r: Self)
        ensures
            phase_error_result(ActionPhase::Preflight, error, r.failure_of()),
    {
        Self::from_phase_error(ActionPhase::Preflight, error)
    }

    /// `from_phase_error` in the dry run.
    pub fn dry_run_error(error: ActionSourceError) -> (r: Self)
        ensures
            phase_error_result(ActionPhase::DryRun, error, r.failure_of()),
    {
        Self::from_phase_error(ActionPhase::DryRun, error)
    }

    /// `from_phase_error` in the apply.
    pub fn apply_error(error: ActionSourceError) -> (r: Self)
        ensures
            phase_error_result(ActionPhase::Apply, error, r.failure_of()),
    {
        Self::from_phase_error(ActionPhase::Apply, error)
    }

    /// `from_phase_error` in the verify.
    pub fn verify_error(error: ActionSourceError) -> (r: Self)
        ensures
            phase_error_result(ActionPhase::Verify, error, r.failure_of()),
    {
        Self::from_phase_error(ActionPhase::Verify, error)
    }

    /// `from_phase_error` in the rollback.
    pub fn rollback_error(error: ActionSourceError) -> (r: Self)
        ensures
            phase_error_result(ActionPhase::Rollback, error, r.failure_of()),
    {
        Self::from_phase_error(ActionPhase::Rollback, error)
    }

    /// The verify failed, and the emergency rollback after it failed too.
    pub fn emergency_rollback(verify_error: &str, rollback_error: &str) -> (r: Self)
        ensures
            r.failure_of() matches ActionFailure::Rollback(
                RollbackOutcome::EmergencyRollbackFailure { verify_error: v, rollback_error: b },
            ) && v@ == verify_error@ && b@ == rollback_error@,
    {
        Self::from_failure(
            ActionFailure::Rollback(
                RollbackOutcome::EmergencyRollbackFailure {
                    verify_error: verify_error.to_owned(),
                    rollback_error: rollback_error.to_owned(),
                },
            ),
        )
    }

    /// A policy refused the action with `message`.
    pub fn policy_rejected(message: &str) -> (r: Self)
        ensures
            r.failure_of() matches ActionFailure::PolicyRejected { message: m } && m@ == message@,
    {
        Self::from_failure(ActionFailure::PolicyRejected { message: message.to_owned() })
    }

    /// A dry run touched `affected_tasks` tasks where at most `max_affected_tasks` are allowed.
    pub fn scope_limit_exceeded(affected_tasks: usize, max_affected_tasks: usize) -> (r: Self)
        ensures
            r.failure_of() == ActionFailure::ScopeLimitExceeded(
                ScopeLimitExceeded { affected_tasks, max_affected_tasks },
            ),
    {
        Self::from_failure(
            ActionFailure::ScopeLimitExceeded(ScopeLimitExceeded { affected_tasks, max_affected_tasks }),
        )
    }

    /// `phase` ran past the time budget.
    pub fn timeout(phase: ActionPhase, elapsed_ms: u128, timeout_ms: u128) -> (r: Self)
        ensures
            r.failure_of() == ActionFailure::Timeout(ActionTimeout { phase, elapsed_ms, timeout_ms }),
    {
        Self::from_failure(ActionFailure::Timeout(ActionTimeout { phase, elapsed_ms, timeout_ms }))
    }

    /// `phase` ran past the time budget and the rollback after it completed.
    pub fn timeout_rollback_completed(phase: ActionPhase, elapsed_ms: u128, timeout_ms: u128) -> (r: Self)
        ensures
            r.failure_of() == ActionFailure::Rollback(
                RollbackOutcome::TimeoutRollbackCompleted {
                    timeout: ActionTimeout { phase, elapsed_ms, timeout_ms },
                },
            ),
    {
        Self::from_failure(
            ActionFailure::Rollback(
                RollbackOutcome::TimeoutRollbackCompleted {
                    timeout: ActionTimeout { phase, elapsed_ms, timeout_ms },
                },
            ),
        )
    }

    /// `phase` ran past the time budget and the rollback after it failed.
    pub fn timeout_rollback_failure(
        phase: ActionPhase,
        elapsed_ms: u128,
        timeout_ms: u128,
        rollback_error: &str,
    ) -> (r: Self)
        ensures
            r.failure_of() matches ActionFailure::Rollback(
                RollbackOutcome::TimeoutRollbackFailure { timeout: t, rollback_error: b },
            ) && t == (ActionTimeout { phase, elapsed_ms, timeout_ms }) && b@ == rollback_error@,
    {
        Self::from_failure(
            ActionFailure::Rollback(
                RollbackOutcome::TimeoutRollbackFailure {
                    timeout: ActionTimeout { phase, elapsed_ms, timeout_ms },
                    rollback_error: rollback_error.to_owned(),
                },
            ),
        )
    }

    /// The timeout the error reports, when it is a plain timeout.
    pub fn timeout_details(&self) -> (r: Option<ActionTimeout>)
        ensures
            r == (match self.failure_of() {
                ActionFailure::Timeout(t) => Some(t),
                _ => None,
            }),
    {
        match &self.failure {
            ActionFailure::Timeout(t) => Some(*t),
            _ => None,
        }
    }

    /// The phase the error belongs to.
    pub fn phase(&self) -> (r: ActionPhase)
        ensures
            r == failure_phase(self.failure_of()),
    {
        self.failure.phase()
    }

    /// The category code of the error.
    pub fn category(&self) -> (r: &str)
        ensures
            r@ == failure_category(self.failure_of()),
    {
        self.failure.category()
    }

    /// The human-readable text of the error.
    pub fn human_message(&self) -> (r: String)
        ensures
            r@ == failure_text(self.failure_of()),
    {
        self.failure.human_message()
    }
}

/// An apply that failed part way, with the token that undoes what it did change.
#[derive(Debug)]
pub struct PartialApplyError {
    pub source: ActionSourceError,
    pub rollback: Option<RollbackToken>,
}

impl PartialApplyError {
    /// An apply failure that changed nothing.
    pub fn from_source(source: ActionSourceError) -> (r: Self)
        ensures
            r.source == source,
            r.rollback is None,
    {
        PartialApplyError { source, rollback: None }
    }
}

} // verus!
