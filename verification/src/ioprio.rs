//! I/O priority: the class and level a task is given, their Linux encoding, and the
//! policy that decides which changes a request may make.
use vstd::prelude::*;

use crate::error::{
    ActionError, ActionFailure, context_ok, is_wrong_token_for, is_evidence_required, is_invalid_value, is_policy_denied,
    with_context, ActionBoundaryError, ActionSourceError, PartialApplyError,
};
use crate::model::{copy_opt_string, record_identity, ActionId, ActionState, ActionWarning, IoPrioRestoreRecord, SafetyClass,
    TaskIdentity, TaskRestoreIdentity};
use crate::tasks::{
    check_task_target, identity_warning_texts, identity_warnings, target_passes, target_tids,
    tid_seq, warning_texts, append_warnings, ObservedTask, TaskObservation, target_check_ok, comm_value,
};
use crate::restore::{
    items_observed, restore_items, rollback_failure_message, rollback_failure_text, tally_matches,
    tally_task_restores, TaskRestoreItem, TaskRestoreObservation, TaskRestoreTally,
};
use crate::rollback::{
    is_token_preview, is_unsupported_token, path_or_empty, task_restore_result, token_handler_dry_run,
    RollbackPreview, RollbackResult,
};
use crate::token::{token_kind, token_path, RollbackToken};
use crate::writes::{first_failed_write, lemma_first_failed_stays, write_error, write_error_at};
use crate::text::{join, join_strings, views, cat, cat3, decimal, decimal_list, i64_to_string, join_u64s, opt_text, signed_decimal,
    u64_to_string};

verus! {

/// The bit position of the class in an encoded I/O priority.
pub const IOPRIO_CLASS_SHIFT: i32 = 13;

/// The mask of the data (level) bits of an encoded I/O priority.
pub const IOPRIO_PRIO_MASK: i32 = 8191;

/// An I/O scheduling class (`NoneClass` is the class Linux calls "none").
#[derive(Debug, Clone, Copy, PartialEq, Eq, PartialOrd, Ord, Hash, Structural)]
pub enum IoPrioClass {
    NoneClass,
    Realtime,
    BestEffort,
    Idle,
}

/// The label of a class.
pub open spec fn class_label(c: IoPrioClass) -> Seq<char> {
    match c {
        IoPrioClass::NoneClass => "none"@,
        IoPrioClass::Realtime => "realtime"@,
        IoPrioClass::BestEffort => "best-effort"@,
        IoPrioClass::Idle => "idle"@,
    }
}

/// The number Linux gives a class.
pub open spec fn class_number(c: IoPrioClass) -> int {
    match c {
        IoPrioClass::NoneClass => 0,
        IoPrioClass::Realtime => 1,
        IoPrioClass::BestEffort => 2,
        IoPrioClass::Idle => 3,
    }
}

/// The class Linux numbers `n`, if any.
pub open spec fn class_of_number(n: int) -> Option<IoPrioClass> {
    if n == 0 {
        Some(IoPrioClass::NoneClass)
    } else if n == 1 {
        Some(IoPrioClass::Realtime)
    } else if n == 2 {
        Some(IoPrioClass::BestEffort)
    } else if n == 3 {
        Some(IoPrioClass::Idle)
    } else {
        None
    }
}

/// The text of the error for a class number Linux does not define.
pub open spec fn unsupported_class_text(n: int) -> Seq<char> {
    "unsupported Linux I/O priority class "@ + signed_decimal(n)
}

impl IoPrioClass {
    /// The class's label.
    pub fn label(self) -> (r: &'static str)
        ensures
            r@ == class_label(self),
    {
        match self {
            IoPrioClass::NoneClass => "none",
            IoPrioClass::Realtime => "realtime",
            IoPrioClass::BestEffort => "best-effort",
            IoPrioClass::Idle => "idle",
        }
    }

    /// The number Linux gives the class.
    pub fn linux_class(self) -> (r: i32)
        ensures
            r == class_number(self),
    {
        match self {
            IoPrioClass::NoneClass => 0,
            IoPrioClass::Realtime => 1,
            IoPrioClass::BestEffort => 2,
            IoPrioClass::Idle => 3,
        }
    }

    /// The class Linux numbers `class`; any other number is refused.
    pub fn from_linux_class(class: i32) -> (r: Result<Self, ActionSourceError>)
        ensures
            match class_of_number(class as int) {
                Some(c) => r == Ok::<IoPrioClass, ActionSourceError>(c),
                None => r matches Err(ActionSourceError::Message(m)) && m@ == unsupported_class_text(
                    class as int,
                ),
            },
    {
        match class {
            0 => Ok(IoPrioClass::NoneClass),
            1 => Ok(IoPrioClass::Realtime),
            2 => Ok(IoPrioClass::BestEffort),
            3 => Ok(IoPrioClass::Idle),
            other => {
                let n = i64_to_string(other as i64);
                Err(ActionSourceError::Message(cat("unsupported Linux I/O priority class ", n.as_str())))
            },
        }
    }
}

/// A class with, for the classes that take one, a level.
#[derive(Debug, Clone, Copy, PartialEq, Eq, PartialOrd, Ord, Hash, Structural)]
pub struct IoPrioValue {
    pub class: IoPrioClass,
    pub level: Option<u8>,
}

/// The label of a value: the class's, then `:` and the level where there is one.
pub open spec fn value_label(v: IoPrioValue) -> Seq<char> {
    match v.level {
        Some(l) => class_label(v.class) + ":"@ + decimal(l as nat),
        None => class_label(v.class),
    }
}

/// Whether a class takes a level (best-effort and realtime do).
pub open spec fn class_takes_level(c: IoPrioClass) -> bool {
    c == IoPrioClass::BestEffort || c == IoPrioClass::Realtime
}

/// Why a value is invalid, if it is: a level on a class that takes none, no level on
/// one that takes one, or a level above seven.
pub open spec fn value_error_reason(v: IoPrioValue) -> Option<Seq<char>> {
    if !class_takes_level(v.class) {
        if v.level is Some {
            Some("I/O priority class "@ + class_label(v.class) + " must not specify a level"@)
        } else {
            None
        }
    } else {
        match v.level {
            None => Some("I/O priority class "@ + class_label(v.class) + " requires level 0..=7"@),
            Some(l) => if l > 7 {
                Some(
                    "I/O priority class "@ + class_label(v.class) + " level "@ + decimal(l as nat)
                        + " is outside range 0..=7"@,
                )
            } else {
                None
            },
        }
    }
}

/// The Linux encoding of a value: the class number in the bits from 13 up, the level
/// (or zero) below.
pub open spec fn encoded(v: IoPrioValue) -> int {
    class_number(v.class) * 8192 + match v.level {
        Some(l) => l as int,
        None => 0,
    }
}

/// The value an encoding of a supported class stands for (the level is the low byte of
/// the data bits, kept only for the classes that take one).
pub open spec fn decoded(e: int) -> Option<IoPrioValue> {
    if e < 0 {
        None
    } else {
        match class_of_number(e / 8192) {
            None => None,
            Some(c) => Some(
                IoPrioValue {
                    class: c,
                    level: if class_takes_level(c) {
                        Some(((e % 8192) % 256) as u8)
                    } else {
                        None
                    },
                },
            ),
        }
    }
}

/// Whether `e` decodes to a valid value.
pub open spec fn decodes(e: int) -> bool {
    decoded(e) matches Some(v) && value_error_reason(v) is None
}

/// `r` is what decoding `e` gives: a negative encoding and an unknown class are refused
/// with a message, an invalid level with the value's error.
pub open spec fn decode_outcome(e: int, r: Result<IoPrioValue, ActionSourceError>) -> bool {
    if e < 0 {
        r matches Err(ActionSourceError::Message(m)) && m@ == "negative encoded I/O priority "@
            + signed_decimal(e)
    } else if class_of_number(e / 8192) is None {
        r matches Err(ActionSourceError::Message(m)) && m@ == unsupported_class_text(e / 8192)
    } else {
        match value_error_reason(decoded(e)->0) {
            None => r == Ok::<IoPrioValue, ActionSourceError>(decoded(e)->0),
            Some(reason) => r matches Err(ActionSourceError::Boundary(b)) && is_invalid_value(
                b,
                "ioprio"@,
                "level"@,
                reason,
            ),
        }
    }
}

/// Encoding a valid value and decoding the result gives the value back.
pub proof fn lemma_decode_encode(v: IoPrioValue)
    requires
        value_error_reason(v) is None,
    ensures
        0 <= encoded(v) < 32768,
        decoded(encoded(v)) == Some(v),
        decodes(encoded(v)),
{
    let n = class_number(v.class);
    let l: int = match v.level {
        Some(x) => x as int,
        None => 0,
    };
    assert(0 <= l <= 7);
    assert(0 <= n <= 3);
    assert((n * 8192 + l) / 8192 == n && (n * 8192 + l) % 8192 == l) by (nonlinear_arith)
        requires
            0 <= l <= 7,
            0 <= n <= 3,
    ;
    assert(l % 256 == l);
}

impl IoPrioValue {
    /// Best-effort at `level`.
    pub fn best_effort(level: u8) -> (r: Self)
        ensures
            r == (IoPrioValue { class: IoPrioClass::BestEffort, level: Some(level) }),
    {
        IoPrioValue { class: IoPrioClass::BestEffort, level: Some(level) }
    }

    /// Realtime at `level`.
    pub fn realtime(level: u8) -> (r: Self)
        ensures
            r == (IoPrioValue { class: IoPrioClass::Realtime, level: Some(level) }),
    {
        IoPrioValue { class: IoPrioClass::Realtime, level: Some(level) }
    }

    /// The idle class.
    pub fn idle() -> (r: Self)
        ensures
            r == (IoPrioValue { class: IoPrioClass::Idle, level: None }),
    {
        IoPrioValue { class: IoPrioClass::Idle, level: None }
    }

    /// The class "none".
    pub fn none() -> (r: Self)
        ensures
            r == (IoPrioValue { class: IoPrioClass::NoneClass, level: None }),
    {
        IoPrioValue { class: IoPrioClass::NoneClass, level: None }
    }

    /// The value's label, such as `best-effort:4` or `idle`.
    pub fn label(self) -> (r: String)
        ensures
            r@ == value_label(self),
    {
        match self.level {
            Some(level) => {
                let n = u64_to_string(level as u64);
                cat3(self.class.label(), ":", n.as_str())
            },
            None => self.class.label().to_owned(),
        }
    }

    /// The Linux encoding of a valid value; an invalid one is refused.
    pub fn encode(self) -> (r: Result<i32, ActionSourceError>)
        ensures
            match value_error_reason(self) {
                None => r == Ok::<i32, ActionSourceError>(encoded(self) as i32) && 0 <= encoded(self)
                    < 32768,
                Some(reason) => r matches Err(ActionSourceError::Boundary(b)) && is_invalid_value(
                    b,
                    "ioprio"@,
                    "level"@,
                    reason,
                ),
            },
    {
        match validate_ioprio_value(self) {
            Err(b) => Err(ActionSourceError::Boundary(b)),
            Ok(()) => {
                let c = self.class.linux_class();
                let l: i32 = match self.level {
                    Some(x) => x as i32,
                    None => 0,
                };
                assert(0 <= c <= 3 && 0 <= l <= 7);
                assert((c << 13i32) | l == c * 8192 + l) by (bit_vector)
                    requires
                        0 <= c <= 3,
                        0 <= l <= 7,
                ;
                Ok((c << IOPRIO_CLASS_SHIFT) | l)
            },
        }
    }

    /// The value a Linux encoding stands for; see `decode_outcome`.
    pub fn decode(encoded: i32) -> (r: Result<Self, ActionSourceError>)
        ensures
            decode_outcome(encoded as int, r),
    {
        if encoded < 0 {
            let n = i64_to_string(encoded as i64);
            return Err(ActionSourceError::Message(cat("negative encoded I/O priority ", n.as_str())));
        }
        let shifted = encoded >> IOPRIO_CLASS_SHIFT;
        let masked = encoded & IOPRIO_PRIO_MASK;
        assert(shifted == encoded / 8192 && masked == encoded % 8192) by (bit_vector)
            requires
                encoded >= 0,
                shifted == encoded >> 13i32,
                masked == encoded & 8191i32,
        ;
        let class = match IoPrioClass::from_linux_class(shifted) {
            Ok(c) => c,
            Err(e) => return Err(e),
        };
        let data: u8 = (masked % 256) as u8;
        let level = match class {
            IoPrioClass::BestEffort | IoPrioClass::Realtime => Some(data),
            IoPrioClass::NoneClass | IoPrioClass::Idle => None,
        };
        let value = IoPrioValue { class, level };
        match validate_ioprio_value(value) {
            Ok(()) => Ok(value),
            Err(b) => Err(ActionSourceError::Boundary(b)),
        }
    }
}

/// Checks that a value is well formed; see `value_error_reason`.
pub fn validate_ioprio_value(value: IoPrioValue) -> (r: Result<(), ActionBoundaryError>)
    ensures
        match value_error_reason(value) {
            None => r is Ok,
            Some(reason) => r matches Err(b) && is_invalid_value(b, "ioprio"@, "level"@, reason),
        },
{
    match value.class {
        IoPrioClass::NoneClass | IoPrioClass::Idle => {
            if value.level.is_some() {
                let mut reason = cat("I/O priority class ", value.class.label());
                reason.append(" must not specify a level");
                return Err(
                    ActionBoundaryError::InvalidValue {
                        action_kind: "ioprio",
                        field: "level".to_owned(),
                        reason,
                    },
                );
            }
        },
        IoPrioClass::BestEffort | IoPrioClass::Realtime => {
            match value.level {
                None => {
                    let mut reason = cat("I/O priority class ", value.class.label());
                    reason.append(" requires level 0..=7");
                    return Err(
                        ActionBoundaryError::InvalidValue {
                            action_kind: "ioprio",
                            field: "level".to_owned(),
                            reason,
                        },
                    );
                },
                Some(level) => {
                    if level > 7 {
                        let mut reason = cat("I/O priority class ", value.class.label());
                        reason.append(" level ");
                        let n = u64_to_string(level as u64);
                        reason.append(n.as_str());
                        reason.append(" is outside range 0..=7");
                        return Err(
                            ActionBoundaryError::InvalidValue {
                                action_kind: "ioprio",
                                field: "level".to_owned(),
                                reason,
                            },
                        );
                    }
                },
            }
        },
    }
    Ok(())
}

/// What a request for I/O priority changes is allowed.
#[derive(Debug, Clone, PartialEq, Eq)]
pub struct IoPrioPolicy {
    pub allow_ioprio_changes: bool,
    pub allow_realtime_class: bool,
    pub allow_none_class: bool,
    pub max_best_effort_level: u8,
    pub require_strong_block_io_evidence: bool,
    pub strong_block_io_evidence: bool,
}

impl Default for IoPrioPolicy {
    /// Changes off, realtime and "none" refused, best-effort up to level seven, and strong
    /// block I/O evidence required but absent.
    fn default() -> (r: Self)
        ensures
            r == (IoPrioPolicy {
                allow_ioprio_changes: false,
                allow_realtime_class: false,
                allow_none_class: false,
                max_best_effort_level: 7,
                require_strong_block_io_evidence: true,
                strong_block_io_evidence: false,
            }),
    {
        IoPrioPolicy {
            allow_ioprio_changes: false,
            allow_realtime_class: false,
            allow_none_class: false,
            max_best_effort_level: 7,
            require_strong_block_io_evidence: true,
            strong_block_io_evidence: false,
        }
    }
}

/// The level a best-effort request is held to the policy maximum with.
pub open spec fn requested_level(v: IoPrioValue) -> u8 {
    match v.level {
        Some(l) => l,
        None => 4,
    }
}

/// Whether `policy` admits a request for `v`.
pub open spec fn request_passes(policy: IoPrioPolicy, v: IoPrioValue) -> bool {
    &&& policy.allow_ioprio_changes
    &&& !(policy.require_strong_block_io_evidence && !policy.strong_block_io_evidence)
    &&& value_error_reason(v) is None
    &&& !(v.class == IoPrioClass::Realtime && !policy.allow_realtime_class)
    &&& !(v.class == IoPrioClass::NoneClass && !policy.allow_none_class)
    &&& !(v.class == IoPrioClass::BestEffort && requested_level(v) > policy.max_best_effort_level)
}

/// A request that passes has changes allowed, the block I/O evidence the policy asks
/// for, a class the policy allows, and a best-effort level within the policy maximum.
pub proof fn ioprio_request_meets_policy(policy: IoPrioPolicy, v: IoPrioValue)
    requires
        request_passes(policy, v),
    ensures
        policy.allow_ioprio_changes,
        policy.require_strong_block_io_evidence ==> policy.strong_block_io_evidence,
        v.class == IoPrioClass::Realtime ==> policy.allow_realtime_class,
        v.class == IoPrioClass::NoneClass ==> policy.allow_none_class,
        v.class == IoPrioClass::BestEffort ==> (v.level matches Some(l) ==> l <= policy.max_best_effort_level),
{
}

/// `e` is the refusal of a request for `v` under `policy`, checked in this order:
/// changes allowed, evidence present, value valid, class allowed, level in bounds.
pub open spec fn request_refusal(policy: IoPrioPolicy, v: IoPrioValue, e: ActionBoundaryError) -> bool {
    if !policy.allow_ioprio_changes {
        is_policy_denied(e, "ioprio"@, "allow_ioprio_changes"@)
    } else if policy.require_strong_block_io_evidence && !policy.strong_block_io_evidence {
        is_evidence_required(e, "ioprio"@, "strong_block_io_evidence"@)
    } else if value_error_reason(v) is Some {
        is_invalid_value(e, "ioprio"@, "level"@, value_error_reason(v)->0)
    } else if v.class == IoPrioClass::Realtime && !policy.allow_realtime_class {
        is_policy_denied(e, "ioprio"@, "allow_realtime_class"@)
    } else if v.class == IoPrioClass::NoneClass && !policy.allow_none_class {
        is_policy_denied(e, "ioprio"@, "allow_none_class"@)
    } else {
        is_invalid_value(
            e,
            "ioprio"@,
            "best_effort_level"@,
            "requested level "@ + decimal(requested_level(v) as nat) + " exceeds policy maximum "@
                + decimal(policy.max_best_effort_level as nat),
        )
    }
}

/// Checks a request for `requested` against `policy`.
pub fn validate_policy_and_request(policy: &IoPrioPolicy, requested: IoPrioValue) -> (r: Result<
    (),
    ActionBoundaryError,
>)
    ensures
        request_passes(*policy, requested) <==> r is Ok,
        r matches Err(e) ==> request_refusal(*policy, requested, e),
        r is Ok ==> policy.allow_ioprio_changes,
        r is Ok ==> (policy.require_strong_block_io_evidence ==> policy.strong_block_io_evidence),
        r is Ok ==> (requested.class == IoPrioClass::Realtime ==> policy.allow_realtime_class),
        r is Ok ==> (requested.class == IoPrioClass::NoneClass ==> policy.allow_none_class),
        r is Ok && requested.class == IoPrioClass::BestEffort ==> (requested.level matches Some(l)
            ==> l <= policy.max_best_effort_level),
        r is Ok <==> (policy.allow_ioprio_changes && (policy.require_strong_block_io_evidence
            ==> policy.strong_block_io_evidence) && value_error_reason(requested) is None && (requested.class
            == IoPrioClass::Realtime ==> policy.allow_realtime_class) && (requested.class == IoPrioClass::NoneClass
            ==> policy.allow_none_class) && (requested.class == IoPrioClass::BestEffort ==> match requested.level {
            Some(l) => l <= policy.max_best_effort_level,
            None => 4 <= policy.max_best_effort_level,
        })),
        policy.allow_ioprio_changes && policy.require_strong_block_io_evidence && !policy.strong_block_io_evidence
            ==> (r matches Err(ActionBoundaryError::EvidenceRequired { action_kind, evidence }) && action_kind@
            == "ioprio"@ && evidence@ == "strong_block_io_evidence"@),
{
    if !policy.allow_ioprio_changes {
        return Err(
            ActionBoundaryError::PolicyDenied {
                action_kind: "ioprio",
                requirement: "allow_ioprio_changes",
            },
        );
    }
    if policy.require_strong_block_io_evidence && !policy.strong_block_io_evidence {
        return Err(
            ActionBoundaryError::EvidenceRequired {
                action_kind: "ioprio",
                evidence: "strong_block_io_evidence",
            },
        );
    }
    match validate_ioprio_value(requested) {
        Err(e) => return Err(e),
        Ok(()) => {},
    }
    match requested.class {
        IoPrioClass::Realtime => {
            if !policy.allow_realtime_class {
                return Err(
                    ActionBoundaryError::PolicyDenied {
                        action_kind: "ioprio",
                        requirement: "allow_realtime_class",
                    },
                );
            }
        },
        IoPrioClass::NoneClass => {
            if !policy.allow_none_class {
                return Err(
                    ActionBoundaryError::PolicyDenied {
                        action_kind: "ioprio",
                        requirement: "allow_none_class",
                    },
                );
            }
        },
        IoPrioClass::BestEffort => {
            let level = match requested.level {
                Some(l) => l,
                None => 4,
            };
            if level > policy.max_best_effort_level {
                let l = u64_to_string(level as u64);
                let m = u64_to_string(policy.max_best_effort_level as u64);
                let mut reason = cat3("requested level ", l.as_str(), " exceeds policy maximum ");
                reason.append(m.as_str());
                return Err(
                    ActionBoundaryError::InvalidValue {
                        action_kind: "ioprio",
                        field: "best_effort_level".to_owned(),
                        reason,
                    },
                );
            }
        },
        IoPrioClass::Idle => {},
    }
    Ok(())
}

/// A request to set the I/O priority of explicit tasks.
#[derive(Debug, Clone)]
pub struct IoPrioAction {
    pub targets: Vec<TaskIdentity>,
    pub ioprio: IoPrioValue,
    pub policy: IoPrioPolicy,
}

/// What procfs and `ioprio_get` show of a target (`None`: the priority was unreadable).
#[derive(Debug, Clone, PartialEq, Eq)]
pub struct IoPrioObservation {
    pub task: TaskObservation,
    pub current_ioprio: Option<i32>,
}

/// A target as it was found, with its current I/O priority.
#[derive(Debug, Clone, PartialEq, Eq)]
pub struct IoPrioTargetSnapshot {
    pub task: ObservedTask,
    pub current_ioprio: i32,
    pub current_value: IoPrioValue,
}

/// The observation that stands for a target nothing was read for.
pub open spec fn unread_observation() -> IoPrioObservation {
    IoPrioObservation {
        task: TaskObservation { stat: None, comm: None, exe: None },
        current_ioprio: None,
    }
}

/// The observation of the `i`th target: the `i`th one handed in, or none.
pub open spec fn observation_at(obs: Seq<IoPrioObservation>, i: int) -> IoPrioObservation {
    if 0 <= i < obs.len() {
        obs[i]
    } else {
        unread_observation()
    }
}

/// Whether a target yields a snapshot: it passes the task check and its current
/// priority was read and decodes.
pub open spec fn snapshot_passes(target: TaskIdentity, obs: IoPrioObservation) -> bool {
    &&& target_passes(target, obs.task)
    &&& obs.current_ioprio matches Some(raw)
    &&& decodes(raw as int)
}

/// The context under which a decode error of the current priority is reported.
pub open spec fn invalid_current_text(tid: u32) -> Seq<char> {
    "current I/O priority value is invalid for tid="@ + decimal(tid as nat)
}

/// `r` is what reading the snapshot of `target` gives.
pub open spec fn snapshot_outcome(
    proc_root: Seq<char>,
    target: TaskIdentity,
    obs: IoPrioObservation,
    r: Result<IoPrioTargetSnapshot, ActionSourceError>,
) -> bool {
    if !target_passes(target, obs.task) {
        r matches Err(e) && target_check_ok(
            "ioprio",
            proc_root,
            target,
            obs.task,
            Err::<ObservedTask, ActionSourceError>(e),
        )
    } else {
        match obs.current_ioprio {
            None => r matches Err(ActionSourceError::Message(m)) && m@
                == "current I/O priority is unreadable for tid="@ + decimal(target.tid as nat),
            Some(raw) => if decodes(raw as int) {
                r matches Ok(s) && target_check_ok(
                    "ioprio",
                    proc_root,
                    target,
                    obs.task,
                    Ok::<ObservedTask, ActionSourceError>(s.task),
                ) && s.current_ioprio == raw && s.current_value == decoded(raw as int)->0
            } else {
                r matches Err(e) && exists|d: Result<IoPrioValue, ActionSourceError>|
                    #![trigger decode_outcome(raw as int, d)]
                    decode_outcome(raw as int, d) && (d matches Err(de) && context_ok(
                        de,
                        invalid_current_text(target.tid),
                        e,
                    ))
            },
        }
    }
}

/// Reads the snapshot of one target from its observation.
pub fn read_target_snapshot(proc_root: &str, target: &TaskIdentity, obs: &IoPrioObservation) -> (r:
    Result<IoPrioTargetSnapshot, ActionSourceError>)
    ensures
        snapshot_outcome(proc_root@, *target, *obs, r),
        r is Ok <==> snapshot_passes(*target, *obs),
{
    let task = match check_task_target("ioprio", proc_root, target, &obs.task) {
        Ok(t) => t,
        Err(e) => return Err(e),
    };
    let raw = match obs.current_ioprio {
        None => {
            let t = u64_to_string(target.tid as u64);
            return Err(
                ActionSourceError::Message(cat("current I/O priority is unreadable for tid=", t.as_str())),
            );
        },
        Some(raw) => raw,
    };
    match IoPrioValue::decode(raw) {
        Ok(value) => Ok(IoPrioTargetSnapshot { task, current_ioprio: raw, current_value: value }),
        Err(de) => {
            let ghost d = Err::<IoPrioValue, ActionSourceError>(de);
            assert(decode_outcome(raw as int, d));
            let t = u64_to_string(target.tid as u64);
            let ctx = cat("current I/O priority value is invalid for tid=", t.as_str());
            Err(with_context(de, ctx.as_str()))
        },
    }
}

/// The context under which a target's failure is reported by the preflight.
pub open spec fn preflight_target_text(tid: u32) -> Seq<char> {
    "failed to preflight ioprio target tid="@ + decimal(tid as nat)
}

/// Whether every target yields a snapshot.
pub open spec fn all_snapshots_pass(targets: Seq<TaskIdentity>, obs: Seq<IoPrioObservation>) -> bool {
    forall|i: int|
        0 <= i < targets.len() ==> #[trigger] snapshot_passes(targets[i], observation_at(obs, i))
}

/// Whether the request and every target pass, so that the snapshots can be taken.
pub open spec fn collect_passes(
    policy: IoPrioPolicy,
    v: IoPrioValue,
    targets: Seq<TaskIdentity>,
    obs: Seq<IoPrioObservation>,
) -> bool {
    request_passes(policy, v) && targets.len() > 0 && all_snapshots_pass(targets, obs)
}

/// `e` is the failure of collecting snapshots that did not pass: the request's
/// refusal, the missing targets, or the first failing target's error under its context.
pub open spec fn collect_failure(
    policy: IoPrioPolicy,
    v: IoPrioValue,
    proc_root: Seq<char>,
    targets: Seq<TaskIdentity>,
    obs: Seq<IoPrioObservation>,
    e: ActionSourceError,
) -> bool {
    if !request_passes(policy, v) {
        e matches ActionSourceError::Boundary(b) && request_refusal(policy, v, b)
    } else if targets.len() == 0 {
        e matches ActionSourceError::Message(m) && m@ == "ioprio action requires at least one explicit target task"@
    } else {
        exists|i: int, inner: ActionSourceError|
            #![trigger snapshot_outcome(proc_root, targets[i], observation_at(obs, i), Err::<IoPrioTargetSnapshot, ActionSourceError>(inner))]
            0 <= i < targets.len() && (forall|j: int|
                0 <= j < i ==> #[trigger] snapshot_passes(targets[j], observation_at(obs, j)))
                && !snapshot_passes(targets[i], observation_at(obs, i)) && snapshot_outcome(
                proc_root,
                targets[i],
                observation_at(obs, i),
                Err::<IoPrioTargetSnapshot, ActionSourceError>(inner),
            ) && context_ok(inner, preflight_target_text(targets[i].tid), e)
    }
}

/// `snaps` are the snapshots and warnings of the targets, one for each, in order.
pub open spec fn snapshots_match(
    proc_root: Seq<char>,
    targets: Seq<TaskIdentity>,
    obs: Seq<IoPrioObservation>,
    snaps: Seq<(IoPrioTargetSnapshot, Vec<ActionWarning>)>,
) -> bool {
    snaps.len() == targets.len() && forall|i: int|
        0 <= i < snaps.len() ==> snapshot_outcome(
            proc_root,
            targets[i],
            observation_at(obs, i),
            Ok::<IoPrioTargetSnapshot, ActionSourceError>(#[trigger] snaps[i].0),
        ) && warning_texts(snaps[i].1@) == identity_warning_texts(
            targets[i],
            comm_value(observation_at(obs, i).task.comm),
        )
}

/// The snapshots and warnings of every target, given what was observed of each
/// (the `i`th observation belongs to the `i`th target; a target without one is
/// unreadable).
pub fn collect_target_snapshots(
    targets: &Vec<TaskIdentity>,
    ioprio: IoPrioValue,
    policy: &IoPrioPolicy,
    proc_root: &str,
    observations: &Vec<IoPrioObservation>,
) -> (r: Result<Vec<(IoPrioTargetSnapshot, Vec<ActionWarning>)>, ActionSourceError>)
    ensures
        r is Ok <==> collect_passes(*policy, ioprio, targets@, observations@),
        r matches Err(e) ==> collect_failure(*policy, ioprio, proc_root@, targets@, observations@, e),
        r matches Ok(snaps) ==> snapshots_match(proc_root@, targets@, observations@, snaps@),
{
    match validate_policy_and_request(policy, ioprio) {
        Err(b) => return Err(ActionSourceError::Boundary(b)),
        Ok(()) => {},
    }
    if targets.len() == 0 {
        return Err(ActionSourceError::Message("ioprio action requires at least one explicit target task".to_owned()));
    }
    let mut out: Vec<(IoPrioTargetSnapshot, Vec<ActionWarning>)> = Vec::new();
    let mut i: usize = 0;
    while i < targets.len()
        invariant
            0 <= i <= targets@.len(),
            request_passes(*policy, ioprio),
            targets@.len() > 0,
            out@.len() == i,
            forall|j: int| 0 <= j < i ==> #[trigger] snapshot_passes(targets@[j], observation_at(observations@, j)),
            forall|j: int|
                0 <= j < i ==> snapshot_outcome(
                    proc_root@,
                    targets@[j],
                    observation_at(observations@, j),
                    Ok::<IoPrioTargetSnapshot, ActionSourceError>(#[trigger] out@[j].0),
                ) && warning_texts(out@[j].1@) == identity_warning_texts(
                    targets@[j],
                    comm_value(observation_at(observations@, j).task.comm),
                ),
        decreases targets@.len() - i,
    {
        let unread = IoPrioObservation {
            task: TaskObservation { stat: None, comm: None, exe: None },
            current_ioprio: None,
        };
        let obs: &IoPrioObservation = if i < observations.len() {
            &observations[i]
        } else {
            &unread
        };
        assert(*obs == observation_at(observations@, i as int));
        let target = &targets[i];
        match read_target_snapshot(proc_root, target, obs) {
            Ok(snap) => {
                let warnings = identity_warnings(target, &snap.task.comm);
                proof {
                    assert(opt_text(snap.task.comm) == comm_value(obs.task.comm));
                }
                out.push((snap, warnings));
            },
            Err(inner) => {
                let t = u64_to_string(target.tid as u64);
                let ctx = cat("failed to preflight ioprio target tid=", t.as_str());
                let e = with_context(inner, ctx.as_str());
                proof {
                    assert(snapshot_outcome(
                        proc_root@,
                        targets@[i as int],
                        observation_at(observations@, i as int),
                        Err::<IoPrioTargetSnapshot, ActionSourceError>(inner),
                    ));
                    assert(!snapshot_passes(targets@[i as int], observation_at(observations@, i as int)));
                    assert(ctx@ == preflight_target_text(targets@[i as int].tid));
                    assert(context_ok(inner, preflight_target_text(targets@[i as int].tid), e));
                    let k = i as int;
                    assert(0 <= k < targets@.len() && (forall|j: int|
                        0 <= j < k ==> #[trigger] snapshot_passes(targets@[j], observation_at(observations@, j)))
                        && !snapshot_passes(targets@[k], observation_at(observations@, k)) && snapshot_outcome(
                        proc_root@,
                        targets@[k],
                        observation_at(observations@, k),
                        Err::<IoPrioTargetSnapshot, ActionSourceError>(inner),
                    ) && context_ok(inner, preflight_target_text(targets@[k].tid), e));
                    assert(collect_failure(*policy, ioprio, proc_root@, targets@, observations@, e));
                }
                return Err(e);
            },
        }
        i = i + 1;
    }
    assert(out@.len() == targets@.len());
    Ok(out)
}

/// The warnings of the first `n` targets, in order.
pub open spec fn warnings_upto(targets: Seq<TaskIdentity>, obs: Seq<IoPrioObservation>, n: int) -> Seq<
    Seq<char>,
>
    decreases n,
{
    if n <= 0 {
        Seq::empty()
    } else {
        warnings_upto(targets, obs, n - 1) + identity_warning_texts(
            targets[n - 1],
            comm_value(observation_at(obs, n - 1).task.comm),
        )
    }
}

/// How many of the first `n` targets have a priority other than `requested` now.
pub open spec fn pending_upto(obs: Seq<IoPrioObservation>, requested: int, n: int) -> nat
    decreases n,
{
    if n <= 0 {
        0
    } else {
        pending_upto(obs, requested, n - 1) + if observation_at(obs, n - 1).current_ioprio->0
            != requested {
            1nat
        } else {
            0nat
        }
    }
}

/// The restore record of a snapshot: the task's observed identity and its priority now.
pub open spec fn record_of(s: IoPrioTargetSnapshot) -> IoPrioRestoreRecord {
    IoPrioRestoreRecord {
        tid: s.task.tid,
        original_ioprio: s.current_ioprio,
        identity: Some(
            TaskRestoreIdentity {
                tid: s.task.tid,
                process_pid: s.task.process_pid,
                starttime_ticks: s.task.starttime_ticks,
                comm: s.task.comm,
                exe: s.task.exe,
                process_starttime_ticks: None,
            },
        ),
    }
}

/// The restore records of the snapshots whose priority differs from `requested`, in order.
pub open spec fn planned_records(snaps: Seq<(IoPrioTargetSnapshot, Vec<ActionWarning>)>, requested: int) -> Seq<
    IoPrioRestoreRecord,
>
    decreases snaps.len(),
{
    if snaps.len() == 0 {
        Seq::empty()
    } else {
        let rest = planned_records(snaps.drop_last(), requested);
        if snaps.last().0.current_ioprio != requested {
            rest.push(record_of(snaps.last().0))
        } else {
            rest
        }
    }
}

/// The warnings of all snapshots, in order, and how many of them differ from `requested`.
fn sum_snapshots(snaps: &Vec<(IoPrioTargetSnapshot, Vec<ActionWarning>)>, requested: i32, Ghost(
    proc_root,
): Ghost<Seq<char>>, Ghost(targets): Ghost<Seq<TaskIdentity>>, Ghost(obs): Ghost<Seq<IoPrioObservation>>) -> (r: (
    Vec<ActionWarning>,
    usize,
))
    requires
        snapshots_match(proc_root, targets, obs, snaps@),
        all_snapshots_pass(targets, obs),
    ensures
        warning_texts(r.0@) == warnings_upto(targets, obs, targets.len() as int),
        r.1 == pending_upto(obs, requested as int, targets.len() as int),
        r.1 <= targets.len(),
{
    let mut warnings: Vec<ActionWarning> = Vec::new();
    let mut pending: usize = 0;
    let mut i: usize = 0;
    while i < snaps.len()
        invariant
            0 <= i <= snaps@.len(),
            snapshots_match(proc_root, targets, obs, snaps@),
            all_snapshots_pass(targets, obs),
            warning_texts(warnings@) == warnings_upto(targets, obs, i as int),
            pending == pending_upto(obs, requested as int, i as int),
            pending <= i,
        decreases snaps@.len() - i,
    {
        append_warnings(&mut warnings, &snaps[i].1);
        if snaps[i].0.current_ioprio != requested {
            pending = pending + 1;
        }
        proof {
            assert(snapshot_outcome(
                proc_root,
                targets[i as int],
                observation_at(obs, i as int),
                Ok::<IoPrioTargetSnapshot, ActionSourceError>(snaps@[i as int].0),
            ));
            assert(snapshot_passes(targets[i as int], observation_at(obs, i as int)));
        }
        i = i + 1;
    }
    (warnings, pending)
}

/// The restore records of the snapshots whose priority differs from `requested`.
pub fn plan_restore_records(snaps: &Vec<(IoPrioTargetSnapshot, Vec<ActionWarning>)>, requested: i32) -> (r:
    Vec<IoPrioRestoreRecord>)
    ensures
        r@ == planned_records(snaps@, requested as int),
{
    let mut out: Vec<IoPrioRestoreRecord> = Vec::new();
    let mut i: usize = 0;
    while i < snaps.len()
        invariant
            0 <= i <= snaps@.len(),
            out@ == planned_records(snaps@.take(i as int), requested as int),
        decreases snaps@.len() - i,
    {
        let s = &snaps[i].0;
        proof {
            assert(snaps@.take(i + 1).drop_last() =~= snaps@.take(i as int));
        }
        if s.current_ioprio != requested {
            let identity = TaskRestoreIdentity::observed(
                s.task.tid,
                s.task.process_pid,
                copy_opt_string(&s.task.comm),
                s.task.starttime_ticks,
                copy_opt_string(&s.task.exe),
            );
            out.push(IoPrioRestoreRecord::new(identity, s.current_ioprio));
        }
        i = i + 1;
    }
    assert(snaps@.take(snaps@.len() as int) =~= snaps@);
    out
}

/// What the dry run reports: nothing applied, and the targets whose priority differs
/// from the request as both affected and pending.
pub open spec fn dry_run_state_ok(
    st: ActionState,
    targets: Seq<TaskIdentity>,
    obs: Seq<IoPrioObservation>,
    requested: int,
) -> bool {
    &&& !st.applied
    &&& st.affected_tasks == pending_upto(obs, requested, targets.len() as int)
    &&& st.checked_tasks == targets.len()
    &&& st.pending_changes == pending_upto(obs, requested, targets.len() as int)
    &&& warning_texts(st.warnings@) == warnings_upto(targets, obs, targets.len() as int)
}

/// What the verify phase reports: applied when there are targets and none is pending.
pub open spec fn verify_state_ok(
    st: ActionState,
    targets: Seq<TaskIdentity>,
    obs: Seq<IoPrioObservation>,
    requested: int,
) -> bool {
    &&& st.applied == (targets.len() > 0 && pending_upto(obs, requested, targets.len() as int) == 0)
    &&& st.affected_tasks == targets.len()
    &&& st.checked_tasks == targets.len()
    &&& st.pending_changes == pending_upto(obs, requested, targets.len() as int)
    &&& warning_texts(st.warnings@) == warnings_upto(targets, obs, targets.len() as int)
}

/// What applying the request writes, and the records that restore what it overwrites.
#[derive(Debug, Clone)]
pub struct IoPrioApplyPlan {
    pub requested: i32,
    pub records: Vec<IoPrioRestoreRecord>,
}

impl IoPrioAction {
    /// The action's identifier: `ioprio:set:<label>:targets:<count>`.
    pub fn id(&self) -> (r: ActionId)
        ensures
            r.id@ == "ioprio:set:"@ + value_label(self.ioprio) + ":targets:"@ + decimal(
                self.targets.len() as nat,
            ),
    {
        let label = self.ioprio.label();
        let n = u64_to_string(self.targets.len() as u64);
        let mut id = cat3("ioprio:set:", label.as_str(), ":targets:");
        id.append(n.as_str());
        ActionId::new(id)
    }

    /// A description naming the priority and the target tids.
    pub fn describe(&self) -> (r: String)
        ensures
            r@ == "set I/O priority "@ + value_label(self.ioprio) + " for task(s) ["@ + decimal_list(
                tid_seq(self.targets@),
                ","@,
            ) + "]"@,
    {
        let label = self.ioprio.label();
        let tids = target_tids(&self.targets);
        let list = join_u64s(&tids, ",");
        let mut s = cat3("set I/O priority ", label.as_str(), " for task(s) [");
        s.append(list.as_str());
        s.append("]");
        s
    }

    /// Changing I/O priority is reversible at medium risk.
    pub fn safety_class(&self) -> (r: SafetyClass)
        ensures
            r == SafetyClass::ReversibleMediumRisk,
    {
        SafetyClass::ReversibleMediumRisk
    }

    /// The preflight under `policy`: the warnings of every target, or the first failure.
    pub fn preflight_with_policy(
        &self,
        policy: &IoPrioPolicy,
        proc_root: &str,
        observations: &Vec<IoPrioObservation>,
    ) -> (r: Result<Vec<ActionWarning>, ActionSourceError>)
        ensures
            r is Ok <==> collect_passes(*policy, self.ioprio, self.targets@, observations@),
            r matches Err(e) ==> collect_failure(
                *policy,
                self.ioprio,
                proc_root@,
                self.targets@,
                observations@,
                e,
            ),
            r matches Ok(w) ==> warning_texts(w@) == warnings_upto(
                self.targets@,
                observations@,
                self.targets@.len() as int,
            ),
    {
        let snaps = match collect_target_snapshots(&self.targets, self.ioprio, policy, proc_root, observations) {
            Ok(s) => s,
            Err(e) => return Err(e),
        };
        let (warnings, _) = sum_snapshots(&snaps, 0, Ghost(proc_root@), Ghost(self.targets@), Ghost(observations@));
        Ok(warnings)
    }

    /// The dry run under `policy`: how many targets would change.
    pub fn dry_run_with_policy(
        &self,
        policy: &IoPrioPolicy,
        proc_root: &str,
        observations: &Vec<IoPrioObservation>,
    ) -> (r: Result<ActionState, ActionSourceError>)
        ensures
            r is Ok <==> collect_passes(*policy, self.ioprio, self.targets@, observations@),
            r matches Err(e) ==> collect_failure(
                *policy,
                self.ioprio,
                proc_root@,
                self.targets@,
                observations@,
                e,
            ),
            r matches Ok(st) ==> dry_run_state_ok(st, self.targets@, observations@, encoded(self.ioprio)),
    {
        let snaps = match collect_target_snapshots(&self.targets, self.ioprio, policy, proc_root, observations) {
            Ok(s) => s,
            Err(e) => return Err(e),
        };
        let requested = match self.ioprio.encode() {
            Ok(v) => v,
            Err(e) => return Err(e),
        };
        let (warnings, pending) = sum_snapshots(
            &snaps,
            requested,
            Ghost(proc_root@),
            Ghost(self.targets@),
            Ghost(observations@),
        );
        Ok(
            ActionState {
                applied: false,
                affected_tasks: pending,
                checked_tasks: self.targets.len(),
                pending_changes: pending,
                warnings,
            },
        )
    }

    /// The verify phase under `policy`: whether every target has the requested priority.
    pub fn verify_with_policy(
        &self,
        policy: &IoPrioPolicy,
        proc_root: &str,
        observations: &Vec<IoPrioObservation>,
    ) -> (r: Result<ActionState, ActionSourceError>)
        ensures
            r is Ok <==> collect_passes(*policy, self.ioprio, self.targets@, observations@),
            r matches Err(e) ==> collect_failure(
                *policy,
                self.ioprio,
                proc_root@,
                self.targets@,
                observations@,
                e,
            ),
            r matches Ok(st) ==> verify_state_ok(st, self.targets@, observations@, encoded(self.ioprio)),
    {
        let snaps = match collect_target_snapshots(&self.targets, self.ioprio, policy, proc_root, observations) {
            Ok(s) => s,
            Err(e) => return Err(e),
        };
        let requested = match self.ioprio.encode() {
            Ok(v) => v,
            Err(e) => return Err(e),
        };
        let (warnings, pending) = sum_snapshots(
            &snaps,
            requested,
            Ghost(proc_root@),
            Ghost(self.targets@),
            Ghost(observations@),
        );
        Ok(
            ActionState {
                applied: self.targets.len() > 0 && pending == 0,
                affected_tasks: self.targets.len(),
                checked_tasks: self.targets.len(),
                pending_changes: pending,
                warnings,
            },
        )
    }

    /// What applying under `policy` writes: the encoded request, and a restore record for
    /// each target whose priority differs from it.
    pub fn apply_plan_with_policy(
        &self,
        policy: &IoPrioPolicy,
        proc_root: &str,
        observations: &Vec<IoPrioObservation>,
    ) -> (r: Result<IoPrioApplyPlan, ActionSourceError>)
        ensures
            r is Ok <==> collect_passes(*policy, self.ioprio, self.targets@, observations@),
            r matches Err(e) ==> collect_failure(
                *policy,
                self.ioprio,
                proc_root@,
                self.targets@,
                observations@,
                e,
            ),
            r matches Ok(plan) ==> plan.requested == encoded(self.ioprio) && exists|
                snaps: Seq<(IoPrioTargetSnapshot, Vec<ActionWarning>)>,
            |
                #![trigger snapshots_match(proc_root@, self.targets@, observations@, snaps)]
                snapshots_match(proc_root@, self.targets@, observations@, snaps) && plan.records@
                    == planned_records(snaps, encoded(self.ioprio)),
    {
        let snaps = match collect_target_snapshots(&self.targets, self.ioprio, policy, proc_root, observations) {
            Ok(s) => s,
            Err(e) => return Err(e),
        };
        let requested = match self.ioprio.encode() {
            Ok(v) => v,
            Err(e) => return Err(e),
        };
        let records = plan_restore_records(&snaps, requested);
        assert(snapshots_match(proc_root@, self.targets@, observations@, snaps@));
        Ok(IoPrioApplyPlan { requested, records })
    }
}

/// What setting the I/O priority of each task of `records` comes to, the `k`th set
/// failing with `write_error_at(writes, k)`: at the first failure, the error naming the
/// task, with the token of the tasks already changed (none before the first); otherwise
/// the token of every task.
pub open spec fn ioprio_apply_outcome(
    r: Result<RollbackToken, PartialApplyError>,
    records: Seq<IoPrioRestoreRecord>,
    writes: Seq<Option<String>>,
) -> bool {
    match first_failed_write(writes, 0, records.len() as int) {
        Some(j) => r matches Err(p) && (p.source matches ActionSourceError::Message(m) && m@
            == "failed to set I/O priority for tid="@ + decimal(records[j].tid as nat) + ": "@ + write_error_at(
            writes,
            j,
        )->0@) && if j == 0 {
            p.rollback is None
        } else {
            p.rollback matches Some(RollbackToken::IoPrioRestore { records: rs }) && rs@ == records.take(j)
        },
        None => r matches Ok(RollbackToken::IoPrioRestore { records: rs }) && rs@ == records,
    }
}

impl IoPrioAction {
    /// The apply under `policy`: the targets are checked as for a dry run, then the I/O
    /// priority is set on each task that does not have it yet, in order; the `k`th entry
    /// of `writes` is the error of the `k`th set, if it failed.
    pub fn apply_with_policy(
        &self,
        policy: &IoPrioPolicy,
        proc_root: &str,
        observations: &Vec<IoPrioObservation>,
        writes: &Vec<Option<String>>,
    ) -> (r: Result<RollbackToken, PartialApplyError>)
        ensures
            !collect_passes(*policy, self.ioprio, self.targets@, observations@) ==> (r matches Err(p) && p.rollback is None
                && collect_failure(*policy, self.ioprio, proc_root@, self.targets@, observations@, p.source)),
            collect_passes(*policy, self.ioprio, self.targets@, observations@) ==> exists|
                snaps: Seq<(IoPrioTargetSnapshot, Vec<ActionWarning>)>,
            |
                #![trigger snapshots_match(proc_root@, self.targets@, observations@, snaps)]
                snapshots_match(proc_root@, self.targets@, observations@, snaps) && ioprio_apply_outcome(
                    r,
                    planned_records(snaps, encoded(self.ioprio)),
                    writes@,
                ),
    {
        let plan = match self.apply_plan_with_policy(policy, proc_root, observations) {
            Ok(p) => p,
            Err(e) => return Err(PartialApplyError::from_source(e)),
        };
        let ghost snaps = choose|snaps: Seq<(IoPrioTargetSnapshot, Vec<ActionWarning>)>|
            #![trigger snapshots_match(proc_root@, self.targets@, observations@, snaps)]
            snapshots_match(proc_root@, self.targets@, observations@, snaps) && plan.records@ == planned_records(
                snaps,
                encoded(self.ioprio),
            );
        let records = plan.records;
        let mut j: usize = 0;
        while j < records.len()
            invariant
                0 <= j <= records@.len(),
                collect_passes(*policy, self.ioprio, self.targets@, observations@),
                snapshots_match(proc_root@, self.targets@, observations@, snaps),
                records@ == planned_records(snaps, encoded(self.ioprio)),
                first_failed_write(writes@, 0, j as int) is None,
            decreases records@.len() - j,
        {
            match write_error(writes, 0, j) {
                Some(e) => {
                    let n = u64_to_string(records[j].tid as u64);
                    let mut m = cat3("failed to set I/O priority for tid=", n.as_str(), ": ");
                    m.append(e.as_str());
                    proof {
                        lemma_first_failed_stays(writes@, 0, j + 1, records@.len() as int);
                    }
                    let ghost all = records@;
                    let rollback = if j == 0 {
                        None
                    } else {
                        let mut done = records;
                        done.truncate(j);
                        assert(done@ == all.take(j as int));
                        Some(RollbackToken::IoPrioRestore { records: done })
                    };
                    return Err(PartialApplyError { source: ActionSourceError::Message(m), rollback });
                },
                None => {},
            }
            j = j + 1;
        }
        Ok(RollbackToken::IoPrioRestore { records })
    }
}

/// The records an I/O priority rollback restores; a token of another kind is refused.
pub fn ioprio_rollback_records(token: &RollbackToken) -> (r: Result<&Vec<IoPrioRestoreRecord>, ActionSourceError>)
    ensures
        match *token {
            RollbackToken::IoPrioRestore { records } => r == Ok::<&Vec<IoPrioRestoreRecord>, ActionSourceError>(&records),
            _ => r matches Err(e) && is_wrong_token_for(e, "ioprio-restore"@, *token),
        },
{
    match token.as_ioprio_restore() {
        Some(records) => Ok(records),
        None => Err(ActionSourceError::Action(ActionError::invalid_rollback_token_kind(token.kind_error("ioprio-restore")))),
    }
}

/// The outcome of an I/O priority rollback that visited every record: a failure, with the
/// counts and the failed writes' messages, when any write failed.
pub fn ioprio_rollback_outcome(t: &TaskRestoreTally) -> (r: Result<(), ActionSourceError>)
    ensures
        t.errors == 0 ==> r is Ok,
        t.errors > 0 ==> (r matches Err(ActionSourceError::Message(m)) && m@ == rollback_failure_text(
            "I/O priority"@,
            *t,
        )),
{
    if t.errors > 0 {
        return Err(ActionSourceError::Message(rollback_failure_message("I/O priority", t)));
    }
    Ok(())
}

/// What the I/O priority rollback handler previews: its own tokens only.
pub fn ioprio_handler_dry_run_token(token: &RollbackToken) -> (r: Result<RollbackPreview, ActionBoundaryError>)
    ensures
        token_kind(*token) != "ioprio-restore"@ ==> (r matches Err(e) && is_unsupported_token(
            e,
            "ioprio-rollback",
            "ioprio-restore",
            token_kind(*token),
        )),
        token_kind(*token) == "ioprio-restore"@ ==> (r matches Ok(p) && is_token_preview(
            p,
            "ioprio-rollback",
            "ioprio-restore"@,
            *token,
        )),
{
    token_handler_dry_run("ioprio-rollback", "ioprio-restore", token)
}

/// What the I/O priority rollback handler reports after visiting every record of a
/// token: a restore failure naming every message when a write failed, else the counts.
pub fn ioprio_restore_token_result(token: &RollbackToken, t: TaskRestoreTally) -> (r: Result<
    RollbackResult,
    ActionBoundaryError,
>)
    ensures
        t.errors > 0 ==> (r matches Err(ActionBoundaryError::RestoreFailed { action_kind, message })
            && action_kind@ == "ioprio"@ && message@ == "failed to restore I/O priority: "@ + join(
            views(t.messages@),
            "; "@,
        )),
        t.errors == 0 ==> (r matches Ok(res) && res.handler_id@ == "ioprio-rollback"@
            && res.restore_path@ == path_or_empty(token_path(*token)) && res.restored == t.restored
            && res.skipped_dead == t.skipped_dead && res.skipped_identity_mismatch
            == t.skipped_identity_mismatch && res.legacy_unverified == t.legacy_unverified
            && res.errors == 0 && res.messages@ == t.messages@),
{
    if t.errors > 0 {
        let joined = join_strings(&t.messages, "; ");
        let m = cat("failed to restore I/O priority: ", joined.as_str());
        return Err(ActionBoundaryError::restore_failed("ioprio", m.as_str()));
    }
    Ok(task_restore_result("ioprio-rollback", token, t))
}


/// The identities an I/O priority rollback checks, one per record.
pub open spec fn ioprio_identities(records: Seq<IoPrioRestoreRecord>) -> Seq<TaskRestoreIdentity> {
    records.map_values(|r: IoPrioRestoreRecord| record_identity(r.tid, r.identity))
}

/// The priorities an I/O priority rollback writes back, one per record.
pub open spec fn ioprio_originals(records: Seq<IoPrioRestoreRecord>) -> Seq<i64> {
    records.map_values(|r: IoPrioRestoreRecord| r.original_ioprio as i64)
}

fn ioprio_restore_inputs(records: &Vec<IoPrioRestoreRecord>) -> (r: (Vec<TaskRestoreIdentity>, Vec<i64>))
    ensures
        r.0@ == ioprio_identities(records@),
        r.1@ == ioprio_originals(records@),
{
    let mut ids: Vec<TaskRestoreIdentity> = Vec::new();
    let mut originals: Vec<i64> = Vec::new();
    let mut i: usize = 0;
    while i < records.len()
        invariant
            0 <= i <= records@.len(),
            ids@ == ioprio_identities(records@.take(i as int)),
            originals@ == ioprio_originals(records@.take(i as int)),
        decreases records@.len() - i,
    {
        proof {
            assert(records@.take(i + 1) =~= records@.take(i as int).push(records@[i as int]));
        }
        ids.push(records[i].restore_identity());
        originals.push(records[i].original_ioprio as i64);
        i = i + 1;
    }
    assert(records@.take(records@.len() as int) =~= records@);
    (ids, originals)
}

impl IoPrioAction {
    /// The outcome of rolling back `token`, given what was seen of each record (the `i`th
    /// observation belongs to the `i`th record): every record is visited; the rollback
    /// fails, with the counts and the failed writes, when a write failed.
    pub fn rollback_outcome(&self, token: &RollbackToken, obs: &Vec<TaskRestoreObservation>) -> (r: Result<
        (),
        ActionSourceError,
    >)
        ensures
            match *token {
                RollbackToken::IoPrioRestore { records } => exists|items: Seq<TaskRestoreItem>, t: TaskRestoreTally|
                    #![trigger items_observed(ioprio_identities(records@), ioprio_originals(records@), obs@, items), tally_matches("ioprio"@, "I/O priority"@, items, t)]
                    items_observed(ioprio_identities(records@), ioprio_originals(records@), obs@, items)
                        && tally_matches("ioprio"@, "I/O priority"@, items, t) && (t.errors == 0 ==> r is Ok) && (t.errors
                        > 0 ==> (r matches Err(ActionSourceError::Message(m)) && m@ == rollback_failure_text(
                        "I/O priority"@,
                        t,
                    ))),
                _ => r matches Err(e) && is_wrong_token_for(e, "ioprio-restore"@, *token),
            },
    {
        let records = match ioprio_rollback_records(token) {
            Ok(rs) => rs,
            Err(e) => return Err(e),
        };
        let (ids, originals) = ioprio_restore_inputs(records);
        let items = restore_items(&ids, &originals, obs);
        let t = tally_task_restores("ioprio", "I/O priority", &items);
        ioprio_rollback_outcome(&t)
    }
}

/// What the I/O priority rollback handler's restore of `token` comes to, given what was
/// seen of each record: its own tokens only, every record visited; a failed write fails
/// the restore, naming every message.
pub fn ioprio_handler_restore_token(token: &RollbackToken, obs: &Vec<TaskRestoreObservation>) -> (r: Result<
    RollbackResult,
    ActionBoundaryError,
>)
    ensures
        match *token {
            RollbackToken::IoPrioRestore { records } => exists|items: Seq<TaskRestoreItem>, t: TaskRestoreTally|
                #![trigger items_observed(ioprio_identities(records@), ioprio_originals(records@), obs@, items), tally_matches("ioprio"@, "I/O priority"@, items, t)]
                items_observed(ioprio_identities(records@), ioprio_originals(records@), obs@, items)
                    && tally_matches("ioprio"@, "I/O priority"@, items, t) && (t.errors > 0 ==> (r matches Err(
                    ActionBoundaryError::RestoreFailed { action_kind, message },
                ) && action_kind@ == "ioprio"@ && message@ == "failed to restore I/O priority: "@ + join(
                    views(t.messages@),
                    "; "@,
                ))) && (t.errors == 0 ==> (r matches Ok(res) && res.handler_id@ == "ioprio-rollback"@
                    && res.restore_path@ == Seq::<char>::empty() && res.restored == t.restored && res.skipped_dead
                    == t.skipped_dead && res.skipped_identity_mismatch == t.skipped_identity_mismatch
                    && res.legacy_unverified == t.legacy_unverified && res.errors == 0 && res.messages@
                    == t.messages@)),
            _ => r matches Err(e) && is_unsupported_token(e, "ioprio-rollback", "ioprio-restore", token_kind(*token)),
        },
{
    match token {
        RollbackToken::IoPrioRestore { records } => {
            let (ids, originals) = ioprio_restore_inputs(records);
            let items = restore_items(&ids, &originals, obs);
            let t = tally_task_restores("ioprio", "I/O priority", &items);
            ioprio_restore_token_result(token, t)
        },
        _ => Err(ActionBoundaryError::unsupported_rollback_token("ioprio-rollback", "ioprio-restore", token.kind())),
    }
}

} // verus!
