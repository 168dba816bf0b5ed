//! The rollback registry: handlers that find and undo recorded changes, how a token
//! is routed to the handler that accepts it, and how a restore-all run is tallied.
use vstd::prelude::*;

use crate::error::{boundary_text, failure_text, ActionBoundaryError, ActionError};
use crate::restore::TaskRestoreTally;
use crate::text::{cat, cat4, decimal, str_eq, u64_to_string};
use crate::token::{token_affected, token_kind, token_path, RollbackToken};

verus! {

/// Why the registry or a handler's default could not serve a token.
#[derive(Debug, Clone, PartialEq, Eq)]
pub enum RollbackRegistryError {
    TokenPreviewUnsupported { handler_id: &'static str, token_kind: &'static str },
    TokenRestoreUnsupported { handler_id: &'static str, token_kind: &'static str },
    HandlerForTokenMissing { token_kind: &'static str },
}

/// The reason code of a registry error.
pub open spec fn registry_reason(e: RollbackRegistryError) -> Seq<char> {
    match e {
        RollbackRegistryError::TokenPreviewUnsupported { .. } => "rollback_handler_token_preview_unsupported"@,
        RollbackRegistryError::TokenRestoreUnsupported { .. } => "rollback_handler_token_restore_unsupported"@,
        RollbackRegistryError::HandlerForTokenMissing { .. } => "rollback_handler_for_token_missing"@,
    }
}

/// The text a registry error displays.
pub open spec fn registry_text(e: RollbackRegistryError) -> Seq<char> {
    match e {
        RollbackRegistryError::TokenPreviewUnsupported { handler_id, token_kind } =>
            "rollback_handler_token_preview_unsupported: handler "@ + handler_id@
                + " does not support token preview for "@ + token_kind@,
        RollbackRegistryError::TokenRestoreUnsupported { handler_id, token_kind } =>
            "rollback_handler_token_restore_unsupported: handler "@ + handler_id@
                + " does not support token restore for "@ + token_kind@,
        RollbackRegistryError::HandlerForTokenMissing { token_kind } =>
            "rollback_handler_for_token_missing: no rollback handler registered for token kind "@
                + token_kind@,
    }
}

impl RollbackRegistryError {
    /// The reason code.
    pub fn reason_code(&self) -> (r: &'static str)
        ensures
            r@ == registry_reason(*self),
    {
        match self {
            RollbackRegistryError::TokenPreviewUnsupported { .. } => "rollback_handler_token_preview_unsupported",
            RollbackRegistryError::TokenRestoreUnsupported { .. } => "rollback_handler_token_restore_unsupported",
            RollbackRegistryError::HandlerForTokenMissing { .. } => "rollback_handler_for_token_missing",
        }
    }

    /// The handler the error is about, if any.
    pub fn handler_id(&self) -> (r: Option<&'static str>)
        ensures
            r == (match *self {
                RollbackRegistryError::TokenPreviewUnsupported { handler_id, .. } => Some(handler_id),
                RollbackRegistryError::TokenRestoreUnsupported { handler_id, .. } => Some(handler_id),
                RollbackRegistryError::HandlerForTokenMissing { .. } => None,
            }),
    {
        match self {
            RollbackRegistryError::TokenPreviewUnsupported { handler_id, .. } => Some(*handler_id),
            RollbackRegistryError::TokenRestoreUnsupported { handler_id, .. } => Some(*handler_id),
            RollbackRegistryError::HandlerForTokenMissing { .. } => None,
        }
    }

    /// The kind of the token the error is about.
    pub fn token_kind(&self) -> (r: &'static str)
        ensures
            r == (match *self {
                RollbackRegistryError::TokenPreviewUnsupported { token_kind, .. } => token_kind,
                RollbackRegistryError::TokenRestoreUnsupported { token_kind, .. } => token_kind,
                RollbackRegistryError::HandlerForTokenMissing { token_kind } => token_kind,
            }),
    {
        match self {
            RollbackRegistryError::TokenPreviewUnsupported { token_kind, .. } => token_kind,
            RollbackRegistryError::TokenRestoreUnsupported { token_kind, .. } => token_kind,
            RollbackRegistryError::HandlerForTokenMissing { token_kind } => token_kind,
        }
    }

    /// The text the error displays.
    pub fn message(&self) -> (r: String)
        ensures
            r@ == registry_text(*self),
    {
        match self {
            RollbackRegistryError::TokenPreviewUnsupported { handler_id, token_kind } => {
                let mut s = cat(
                    "rollback_handler_token_preview_unsupported: handler ",
                    handler_id,
                );
                s.append(" does not support token preview for ");
                s.append(token_kind);
                s
            },
            RollbackRegistryError::TokenRestoreUnsupported { handler_id, token_kind } => {
                let mut s = cat(
                    "rollback_handler_token_restore_unsupported: handler ",
                    handler_id,
                );
                s.append(" does not support token restore for ");
                s.append(token_kind);
                s
            },
            RollbackRegistryError::HandlerForTokenMissing { token_kind } => cat(
                "rollback_handler_for_token_missing: no rollback handler registered for token kind ",
                token_kind,
            ),
        }
    }
}

/// What a rollback handler fails with.
#[derive(Debug, Clone, PartialEq, Eq)]
pub enum RollbackHandlerError {
    Registry(RollbackRegistryError),
    Boundary(ActionBoundaryError),
    Action(ActionError),
    Message(String),
}

/// The text a handler error displays.
pub open spec fn handler_error_text(e: RollbackHandlerError) -> Seq<char> {
    match e {
        RollbackHandlerError::Registry(r) => registry_text(r),
        RollbackHandlerError::Boundary(b) => boundary_text(b),
        RollbackHandlerError::Action(a) => failure_text(a.failure_of()),
        RollbackHandlerError::Message(m) => m@,
    }
}

impl RollbackHandlerError {
    /// An error with the given text.
    pub fn msg(text: &str) -> (r: Self)
        ensures
            r matches RollbackHandlerError::Message(m) && m@ == text@,
    {
        RollbackHandlerError::Message(text.to_owned())
    }

    /// The registry error it holds, if it is one.
    pub fn as_registry_error(&self) -> (r: Option<&RollbackRegistryError>)
        ensures
            match *self {
                RollbackHandlerError::Registry(e) => r == Some(&e),
                _ => r is None,
            },
    {
        match self {
            RollbackHandlerError::Registry(e) => Some(e),
            _ => None,
        }
    }

    /// The boundary error it holds, if it is one.
    pub fn as_boundary_error(&self) -> (r: Option<&ActionBoundaryError>)
        ensures
            match *self {
                RollbackHandlerError::Boundary(e) => r == Some(&e),
                _ => r is None,
            },
    {
        match self {
            RollbackHandlerError::Boundary(e) => Some(e),
            _ => None,
        }
    }

    /// The text the error displays.
    pub fn message(&self) -> (r: String)
        ensures
            r@ == handler_error_text(*self),
    {
        match self {
            RollbackHandlerError::Registry(e) => e.message(),
            RollbackHandlerError::Boundary(e) => e.message(),
            RollbackHandlerError::Action(e) => e.human_message(),
            RollbackHandlerError::Message(m) => m.clone(),
        }
    }
}

/// A restore file a handler found on its own.
#[derive(Debug, Clone, PartialEq, Eq)]
pub struct RollbackCandidate {
    pub handler_id: &'static str,
    pub restore_path: String,
}

/// What a restore would do.
#[derive(Debug, Clone, PartialEq, Eq)]
pub struct RollbackPreview {
    pub handler_id: &'static str,
    pub restore_path: String,
    pub affected_tasks: usize,
    pub message: String,
}

/// What a restore did.
#[derive(Debug, Clone, PartialEq, Eq)]
pub struct RollbackResult {
    pub handler_id: &'static str,
    pub restore_path: String,
    pub restored: usize,
    pub skipped_dead: usize,
    pub skipped_identity_mismatch: usize,
    pub legacy_unverified: usize,
    pub errors: usize,
    pub messages: Vec<String>,
}

/// Whether a restore-all run only previews.
#[derive(Debug, Clone, Copy, PartialEq, Eq)]
pub struct RestoreAllInput {
    pub dry_run: bool,
}

/// The totals of a restore-all run.
#[derive(Debug, Clone, Copy, PartialEq, Eq)]
pub struct RestoreAllSummary {
    pub restored_total: usize,
    pub skipped_dead: usize,
    pub skipped_identity_mismatch: usize,
    pub legacy_unverified: usize,
    pub errors: usize,
}

impl Default for RestoreAllSummary {
    fn default() -> (r: Self)
        ensures
            r == zero_summary(),
    {
        RestoreAllSummary {
            restored_total: 0,
            skipped_dead: 0,
            skipped_identity_mismatch: 0,
            legacy_unverified: 0,
            errors: 0,
        }
    }
}

/// A summary with every count zero.
pub open spec fn zero_summary() -> RestoreAllSummary {
    RestoreAllSummary {
        restored_total: 0,
        skipped_dead: 0,
        skipped_identity_mismatch: 0,
        legacy_unverified: 0,
        errors: 0,
    }
}

/// A handler that can find, preview and undo recorded changes of one kind. Each handler
/// says, by its own predicates, which results its discovery, previews and restores give;
/// what its token methods give is what their own contracts say. By default a handler
/// accepts no token and answers a token preview or restore with a typed refusal.
pub trait RollbackHandler {
    /// The handler's identifier.
    spec fn handler_id(&self) -> &'static str;

    /// Whether `r` is what the handler's discovery gives.
    spec fn discovers(&self, r: Result<Vec<RollbackCandidate>, RollbackHandlerError>) -> bool;

    /// Whether `r` is what the handler's preview of `candidate` gives.
    spec fn previews(&self, candidate: RollbackCandidate, r: Result<RollbackPreview, RollbackHandlerError>) -> bool;

    /// Whether `r` is what the handler's restore of `candidate` gives.
    spec fn restores(&self, candidate: RollbackCandidate, r: Result<RollbackResult, RollbackHandlerError>) -> bool;

    /// The handler's identifier.
    fn id(&self) -> (r: &'static str)
        ensures
            r == self.handler_id(),
    ;

    /// The restore files the handler finds on its own.
    fn discover(&self) -> (r: Result<Vec<RollbackCandidate>, RollbackHandlerError>)
        ensures
            self.discovers(r),
    ;

    /// What restoring `candidate` would do.
    fn dry_run(&self, candidate: &RollbackCandidate) -> (r: Result<RollbackPreview, RollbackHandlerError>)
        ensures
            self.previews(*candidate, r),
    ;

    /// Restores `candidate`.
    fn restore(&self, candidate: RollbackCandidate) -> (r: Result<RollbackResult, RollbackHandlerError>)
        ensures
            self.restores(candidate, r),
    ;

    /// Whether the handler accepts `token`; by default, it accepts none.
    fn supports_token(&self, token: &RollbackToken) -> (r: bool)
        default_ensures
            !r,
    {
        false
    }

    /// What restoring `token` would do; by default, that this handler cannot preview
    /// tokens.
    fn dry_run_token(&self, token: &RollbackToken) -> (r: Result<RollbackPreview, RollbackHandlerError>)
        default_ensures
            r matches Err(RollbackHandlerError::Registry(RollbackRegistryError::TokenPreviewUnsupported { handler_id, token_kind: k }))
                && handler_id == self.handler_id() && k@ == token_kind(*token),
    {
        Err(
            RollbackHandlerError::Registry(
                RollbackRegistryError::TokenPreviewUnsupported { handler_id: self.id(), token_kind: token.kind() },
            ),
        )
    }

    /// Restores `token`; by default, that this handler cannot restore tokens.
    fn restore_token(&self, token: &RollbackToken) -> (r: Result<RollbackResult, RollbackHandlerError>)
        default_ensures
            r matches Err(RollbackHandlerError::Registry(RollbackRegistryError::TokenRestoreUnsupported { handler_id, token_kind: k }))
                && handler_id == self.handler_id() && k@ == token_kind(*token),
    {
        Err(
            RollbackHandlerError::Registry(
                RollbackRegistryError::TokenRestoreUnsupported { handler_id: self.id(), token_kind: token.kind() },
            ),
        )
    }
}

/// `answer` is an answer `h`'s `supports_token` can give for `token`.
pub open spec fn supports_answer<H: RollbackHandler>(h: H, token: RollbackToken, answer: bool) -> bool {
    call_ensures(H::supports_token, (&h, &token), answer)
}

/// `i` is the first of `handlers` that accepts `token`: it says yes, and every handler
/// before it says no.
pub open spec fn first_accepting<H: RollbackHandler>(handlers: Seq<H>, token: RollbackToken, i: int) -> bool {
    &&& 0 <= i < handlers.len()
    &&& supports_answer(handlers[i], token, true)
    &&& forall|j: int| 0 <= j < i ==> #[trigger] supports_answer(handlers[j], token, false)
}

/// Every handler of `handlers` says no to `token`.
pub open spec fn none_accepting<H: RollbackHandler>(handlers: Seq<H>, token: RollbackToken) -> bool {
    forall|j: int| 0 <= j < handlers.len() ==> #[trigger] supports_answer(handlers[j], token, false)
}

/// `r` is the error that no handler is registered for tokens of `token`'s kind.
pub open spec fn is_handler_missing<T>(r: Result<T, RollbackHandlerError>, token: RollbackToken) -> bool {
    r matches Err(RollbackHandlerError::Registry(RollbackRegistryError::HandlerForTokenMissing { token_kind: k }))
        && k@ == token_kind(token)
}

/// One step of a restore-all run, as it came out.
#[derive(Debug, Clone, Copy, PartialEq, Eq)]
pub enum RestoreStep {
    /// A handler's discovery failed; its candidates were not visited.
    DiscoverFailed,
    /// A candidate was previewed and would touch `affected_tasks` tasks.
    Previewed { affected_tasks: usize },
    /// A candidate's preview failed.
    PreviewFailed,
    /// A candidate was restored with these counts.
    Restored {
        restored: usize,
        skipped_dead: usize,
        skipped_identity_mismatch: usize,
        legacy_unverified: usize,
        errors: usize,
    },
    /// A candidate's restore failed.
    RestoreFailed,
}

/// `n` capped at the largest `usize`.
pub open spec fn cap(n: int) -> int {
    if n > usize::MAX {
        usize::MAX as int
    } else {
        n
    }
}

/// The tasks a step counts as restored (or, in a dry run, as would-be restored).
pub open spec fn step_restored(s: RestoreStep) -> nat {
    match s {
        RestoreStep::Previewed { affected_tasks } => affected_tasks as nat,
        RestoreStep::Restored { restored, .. } => restored as nat,
        _ => 0,
    }
}

/// The tasks a step skipped as dead.
pub open spec fn step_dead(s: RestoreStep) -> nat {
    match s {
        RestoreStep::Restored { skipped_dead, .. } => skipped_dead as nat,
        _ => 0,
    }
}

/// The tasks a step skipped on an identity mismatch.
pub open spec fn step_mismatch(s: RestoreStep) -> nat {
    match s {
        RestoreStep::Restored { skipped_identity_mismatch, .. } => skipped_identity_mismatch as nat,
        _ => 0,
    }
}

/// The tasks a step restored without a verified identity.
pub open spec fn step_legacy(s: RestoreStep) -> nat {
    match s {
        RestoreStep::Restored { legacy_unverified, .. } => legacy_unverified as nat,
        _ => 0,
    }
}

/// The errors a step counts: one for each failed step, and a restore's own errors.
pub open spec fn step_errors(s: RestoreStep) -> nat {
    match s {
        RestoreStep::DiscoverFailed => 1,
        RestoreStep::PreviewFailed => 1,
        RestoreStep::RestoreFailed => 1,
        RestoreStep::Restored { errors, .. } => errors as nat,
        _ => 0,
    }
}

/// The sum of `f` over the steps.
pub open spec fn sum_steps(log: Seq<RestoreStep>, f: spec_fn(RestoreStep) -> nat) -> nat
    decreases log.len(),
{
    if log.len() == 0 {
        0
    } else {
        sum_steps(log.drop_last(), f) + f(log.last())
    }
}

/// The summary of a run whose steps came out as `log`: each count is the sum over the
/// steps, capped at the largest `usize`.
pub open spec fn tally(log: Seq<RestoreStep>) -> RestoreAllSummary {
    RestoreAllSummary {
        restored_total: cap(sum_steps(log, |s: RestoreStep| step_restored(s)) as int) as usize,
        skipped_dead: cap(sum_steps(log, |s: RestoreStep| step_dead(s)) as int) as usize,
        skipped_identity_mismatch: cap(sum_steps(log, |s: RestoreStep| step_mismatch(s)) as int) as usize,
        legacy_unverified: cap(sum_steps(log, |s: RestoreStep| step_legacy(s)) as int) as usize,
        errors: cap(sum_steps(log, |s: RestoreStep| step_errors(s)) as int) as usize,
    }
}

/// A step that a run in the given mode can produce: a dry run only previews, a real run
/// only restores.
pub open spec fn step_fits_mode(s: RestoreStep, dry_run: bool) -> bool {
    match s {
        RestoreStep::DiscoverFailed => true,
        RestoreStep::Previewed { .. } => dry_run,
        RestoreStep::PreviewFailed => dry_run,
        RestoreStep::Restored { .. } => !dry_run,
        RestoreStep::RestoreFailed => !dry_run,
    }
}

/// Every step of `log` fits the mode.
pub open spec fn log_fits_mode(log: Seq<RestoreStep>, dry_run: bool) -> bool {
    forall|i: int| 0 <= i < log.len() ==> step_fits_mode(#[trigger] log[i], dry_run)
}

fn sat_add(a: usize, b: usize) -> (r: usize)
    ensures
        r == cap(a + b),
{
    if a > usize::MAX - b {
        usize::MAX
    } else {
        a + b
    }
}

proof fn lemma_cap_step(total: int, add: int)
    requires
        total >= 0,
        add >= 0,
    ensures
        cap(cap(total) + add) == cap(total + add),
{
}

/// Adds one step to a summary of the steps before it.
pub fn add_step(summary: RestoreAllSummary, step: RestoreStep) -> (r: RestoreAllSummary)
    ensures
        r.restored_total == cap(summary.restored_total + step_restored(step)),
        r.skipped_dead == cap(summary.skipped_dead + step_dead(step)),
        r.skipped_identity_mismatch == cap(summary.skipped_identity_mismatch + step_mismatch(step)),
        r.legacy_unverified == cap(summary.legacy_unverified + step_legacy(step)),
        r.errors == cap(summary.errors + step_errors(step)),
{
    match step {
        RestoreStep::DiscoverFailed | RestoreStep::PreviewFailed | RestoreStep::RestoreFailed => {
            RestoreAllSummary { errors: sat_add(summary.errors, 1), ..summary }
        },
        RestoreStep::Previewed { affected_tasks } => RestoreAllSummary {
            restored_total: sat_add(summary.restored_total, affected_tasks),
            ..summary
        },
        RestoreStep::Restored {
            restored,
            skipped_dead,
            skipped_identity_mismatch,
            legacy_unverified,
            errors,
        } => RestoreAllSummary {
            restored_total: sat_add(summary.restored_total, restored),
            skipped_dead: sat_add(summary.skipped_dead, skipped_dead),
            skipped_identity_mismatch: sat_add(
                summary.skipped_identity_mismatch,
                skipped_identity_mismatch,
            ),
            legacy_unverified: sat_add(summary.legacy_unverified, legacy_unverified),
            errors: sat_add(summary.errors, errors),
        },
    }
}

proof fn lemma_tally_push(log: Seq<RestoreStep>, step: RestoreStep)
    ensures
        tally(log.push(step)).restored_total == cap(tally(log).restored_total + step_restored(step)),
        tally(log.push(step)).skipped_dead == cap(tally(log).skipped_dead + step_dead(step)),
        tally(log.push(step)).skipped_identity_mismatch == cap(
            tally(log).skipped_identity_mismatch + step_mismatch(step),
        ),
        tally(log.push(step)).legacy_unverified == cap(
            tally(log).legacy_unverified + step_legacy(step),
        ),
        tally(log.push(step)).errors == cap(tally(log).errors + step_errors(step)),
{
    let l2 = log.push(step);
    assert(l2.drop_last() =~= log);
    assert(l2.last() == step);
    lemma_cap_step(sum_steps(log, |s: RestoreStep| step_restored(s)) as int, step_restored(step) as int);
    lemma_cap_step(sum_steps(log, |s: RestoreStep| step_dead(s)) as int, step_dead(step) as int);
    lemma_cap_step(sum_steps(log, |s: RestoreStep| step_mismatch(s)) as int, step_mismatch(step) as int);
    lemma_cap_step(sum_steps(log, |s: RestoreStep| step_legacy(s)) as int, step_legacy(step) as int);
    lemma_cap_step(sum_steps(log, |s: RestoreStep| step_errors(s)) as int, step_errors(step) as int);
}

/// The summary of a run whose steps came out as `log`.
pub fn tally_steps(log: &Vec<RestoreStep>) -> (r: RestoreAllSummary)
    ensures
        r == tally(log@),
{
    let mut summary = RestoreAllSummary::default();
    let mut i: usize = 0;
    assert(log@.take(0) =~= Seq::<RestoreStep>::empty());
    while i < log.len()
        invariant
            0 <= i <= log@.len(),
            summary == tally(log@.take(i as int)),
        decreases log@.len() - i,
    {
        proof {
            assert(log@.take(i + 1) =~= log@.take(i as int).push(log@[i as int]));
            lemma_tally_push(log@.take(i as int), log@[i as int]);
        }
        summary = add_step(summary, log[i]);
        i = i + 1;
    }
    assert(log@.take(log@.len() as int) =~= log@);
    summary
}

/// The preview a token-based handler gives: the token's path (empty when it has none),
/// its item count, and a message naming the restore kind.
pub fn token_dry_run_preview(handler_id: &'static str, token: &RollbackToken, rollback_kind: &str) -> (r:
    RollbackPreview)
    ensures
        r.handler_id == handler_id,
        r.restore_path@ == path_or_empty(token_path(*token)),
        r.affected_tasks == token_affected(*token),
        r.message@ == "would restore rollback_kind="@ + rollback_kind@ + " affected_items="@ + decimal(
            token_affected(*token),
        ),
{
    let n = token.affected_tasks();
    let count = u64_to_string(n as u64);
    RollbackPreview {
        handler_id,
        restore_path: token_restore_path(token),
        affected_tasks: n,
        message: cat4("would restore rollback_kind=", rollback_kind, " affected_items=", count.as_str()),
    }
}

/// A path, or the empty path when there is none.
pub open spec fn path_or_empty(p: Option<Seq<char>>) -> Seq<char> {
    match p {
        Some(s) => s,
        None => Seq::empty(),
    }
}

/// The token's restore path, or the empty path.
pub fn token_restore_path(token: &RollbackToken) -> (r: String)
    ensures
        r@ == path_or_empty(token_path(*token)),
{
    match token.restore_path() {
        Some(p) => p.clone(),
        None => String::new(),
    }
}

/// The result a token-based restore reports: what it restored and skipped, no errors.
pub fn token_restore_result(
    handler_id: &'static str,
    token: &RollbackToken,
    restored: usize,
    skipped: usize,
    messages: Vec<String>,
) -> (r: RollbackResult)
    ensures
        r.handler_id == handler_id,
        r.restore_path@ == path_or_empty(token_path(*token)),
        r.restored == restored,
        r.skipped_dead == skipped,
        r.skipped_identity_mismatch == 0,
        r.legacy_unverified == 0,
        r.errors == 0,
        r.messages@ == messages@,
{
    RollbackResult {
        handler_id,
        restore_path: token_restore_path(token),
        restored,
        skipped_dead: skipped,
        skipped_identity_mismatch: 0,
        legacy_unverified: 0,
        errors: 0,
        messages,
    }
}

/// The candidates of several discoveries, in order.
pub open spec fn concat_found(found: Seq<Vec<RollbackCandidate>>) -> Seq<RollbackCandidate>
    decreases found.len(),
{
    if found.len() == 0 {
        Seq::empty()
    } else {
        concat_found(found.drop_last()) + found.last()@
    }
}

/// The previews of several handlers, in order.
pub open spec fn concat_previews(pv: Seq<Seq<RollbackPreview>>) -> Seq<RollbackPreview>
    decreases pv.len(),
{
    if pv.len() == 0 {
        Seq::empty()
    } else {
        concat_previews(pv.drop_last()) + pv.last()
    }
}

/// The steps of several handlers, in order.
pub open spec fn concat_steps(parts: Seq<Seq<RestoreStep>>) -> Seq<RestoreStep>
    decreases parts.len(),
{
    if parts.len() == 0 {
        Seq::empty()
    } else {
        concat_steps(parts.drop_last()) + parts.last()
    }
}

/// The first handlers (as many as `found` holds) each discovered what `found` holds.
pub open spec fn discovered_prefix<H: RollbackHandler>(handlers: Seq<H>, found: Seq<Vec<RollbackCandidate>>) -> bool {
    &&& found.len() <= handlers.len()
    &&& forall|i: int|
        0 <= i < found.len() ==> #[trigger] handlers[i].discovers(Ok::<Vec<RollbackCandidate>, RollbackHandlerError>(found[i]))
}

/// What discovering with every handler in turn comes to: the candidates of all of them,
/// in order, or the error of the first whose discovery failed, the ones before it having
/// found candidates.
pub open spec fn discover_all_outcome<H: RollbackHandler>(
    handlers: Seq<H>,
    r: Result<Vec<RollbackCandidate>, RollbackHandlerError>,
) -> bool {
    match r {
        Ok(cs) => exists|found: Seq<Vec<RollbackCandidate>>|
            #![trigger discovered_prefix(handlers, found)]
            discovered_prefix(handlers, found) && found.len() == handlers.len() && cs@ == concat_found(found),
        Err(e) => exists|found: Seq<Vec<RollbackCandidate>>|
            #![trigger discovered_prefix(handlers, found)]
            discovered_prefix(handlers, found) && found.len() < handlers.len() && handlers[found.len() as int].discovers(
                Err::<Vec<RollbackCandidate>, RollbackHandlerError>(e),
            ),
    }
}

/// `h` previewed each of `cands` in turn, giving `ps`.
pub open spec fn all_previewed<H: RollbackHandler>(h: H, cands: Seq<RollbackCandidate>, ps: Seq<RollbackPreview>) -> bool {
    &&& ps.len() == cands.len()
    &&& forall|k: int|
        0 <= k < ps.len() ==> #[trigger] h.previews(cands[k], Ok::<RollbackPreview, RollbackHandlerError>(ps[k]))
}

/// The first handlers (as many as `found` holds) each discovered what `found` holds and
/// previewed every candidate of it, giving what `pv` holds.
pub open spec fn previewed_prefix<H: RollbackHandler>(
    handlers: Seq<H>,
    found: Seq<Vec<RollbackCandidate>>,
    pv: Seq<Seq<RollbackPreview>>,
) -> bool {
    &&& discovered_prefix(handlers, found)
    &&& pv.len() == found.len()
    &&& forall|i: int| 0 <= i < pv.len() ==> #[trigger] all_previewed(handlers[i], found[i]@, pv[i])
}

/// `h` discovered `cands` and previewed the first of them (giving `part`); the preview of
/// the next one failed with `e`.
pub open spec fn preview_failed<H: RollbackHandler>(
    h: H,
    cands: Vec<RollbackCandidate>,
    part: Seq<RollbackPreview>,
    e: RollbackHandlerError,
) -> bool {
    &&& h.discovers(Ok::<Vec<RollbackCandidate>, RollbackHandlerError>(cands))
    &&& part.len() < cands@.len()
    &&& all_previewed(h, cands@.take(part.len() as int), part)
    &&& h.previews(cands@[part.len() as int], Err::<RollbackPreview, RollbackHandlerError>(e))
}

/// What previewing everything every handler finds comes to: the previews of every
/// candidate of every handler, in order, or the first error, of a discovery or of a
/// preview, the handlers before it having found and previewed everything.
pub open spec fn preview_all_outcome<H: RollbackHandler>(
    handlers: Seq<H>,
    r: Result<Vec<RollbackPreview>, RollbackHandlerError>,
) -> bool {
    match r {
        Ok(ps) => exists|found: Seq<Vec<RollbackCandidate>>, pv: Seq<Seq<RollbackPreview>>|
            #![trigger previewed_prefix(handlers, found, pv)]
            previewed_prefix(handlers, found, pv) && found.len() == handlers.len() && ps@ == concat_previews(pv),
        Err(e) => exists|found: Seq<Vec<RollbackCandidate>>, pv: Seq<Seq<RollbackPreview>>|
            #![trigger previewed_prefix(handlers, found, pv)]
            previewed_prefix(handlers, found, pv) && found.len() < handlers.len() && (handlers[found.len() as int].discovers(
                Err::<Vec<RollbackCandidate>, RollbackHandlerError>(e),
            ) || exists|cands: Vec<RollbackCandidate>, part: Seq<RollbackPreview>|
                #![trigger preview_failed(handlers[found.len() as int], cands, part, e)]
                preview_failed(handlers[found.len() as int], cands, part, e)),
    }
}

/// The step a preview that came out as `res` is logged as.
pub open spec fn preview_step(res: Result<RollbackPreview, RollbackHandlerError>) -> RestoreStep {
    match res {
        Ok(p) => RestoreStep::Previewed { affected_tasks: p.affected_tasks },
        Err(_) => RestoreStep::PreviewFailed,
    }
}

/// The step a restore that came out as `res` is logged as.
pub open spec fn restore_step(res: Result<RollbackResult, RollbackHandlerError>) -> RestoreStep {
    match res {
        Ok(r) => RestoreStep::Restored {
            restored: r.restored,
            skipped_dead: r.skipped_dead,
            skipped_identity_mismatch: r.skipped_identity_mismatch,
            legacy_unverified: r.legacy_unverified,
            errors: r.errors,
        },
        Err(_) => RestoreStep::RestoreFailed,
    }
}

/// `s` is the step of `h`'s preview (in a dry run) or restore of `c`.
pub open spec fn step_of<H: RollbackHandler>(h: H, c: RollbackCandidate, dry_run: bool, s: RestoreStep) -> bool {
    if dry_run {
        exists|res: Result<RollbackPreview, RollbackHandlerError>|
            #![trigger h.previews(c, res)]
            h.previews(c, res) && s == preview_step(res)
    } else {
        exists|res: Result<RollbackResult, RollbackHandlerError>|
            #![trigger h.restores(c, res)]
            h.restores(c, res) && s == restore_step(res)
    }
}

/// `part` holds the steps of `h` in a run: one failed discovery, or one step per candidate
/// it discovered, in order.
pub open spec fn handler_steps<H: RollbackHandler>(h: H, dry_run: bool, part: Seq<RestoreStep>) -> bool {
    exists|d: Result<Vec<RollbackCandidate>, RollbackHandlerError>|
        #![trigger h.discovers(d)]
        h.discovers(d) && match d {
            Err(_) => part == seq![RestoreStep::DiscoverFailed],
            Ok(cs) => part.len() == cs@.len() && forall|k: int|
                0 <= k < part.len() ==> #[trigger] step_of(h, cs@[k], dry_run, part[k]),
        }
}

/// The first handlers (as many as `parts` holds) each gave the steps that `parts` holds.
pub open spec fn steps_prefix<H: RollbackHandler>(handlers: Seq<H>, dry_run: bool, parts: Seq<Seq<RestoreStep>>) -> bool {
    &&& parts.len() <= handlers.len()
    &&& forall|i: int| 0 <= i < parts.len() ==> #[trigger] handler_steps(handlers[i], dry_run, parts[i])
}

/// `log` holds the steps of a restore-all run over `handlers`: every handler in turn,
/// whatever failed before it.
pub open spec fn restore_all_log<H: RollbackHandler>(handlers: Seq<H>, dry_run: bool, log: Seq<RestoreStep>) -> bool {
    exists|parts: Seq<Seq<RestoreStep>>|
        #![trigger steps_prefix(handlers, dry_run, parts)]
        steps_prefix(handlers, dry_run, parts) && parts.len() == handlers.len() && log == concat_steps(parts)
}

/// A restore-all run over no handlers has no steps, so every count of its summary is zero.
pub proof fn restore_all_of_no_handlers_is_zero<H: RollbackHandler>(handlers: Seq<H>, dry_run: bool, log: Seq<RestoreStep>)
    requires
        handlers.len() == 0,
        restore_all_log(handlers, dry_run, log),
    ensures
        log.len() == 0,
        tally(log) == zero_summary(),
{
    let parts = choose|parts: Seq<Seq<RestoreStep>>|
        #![trigger steps_prefix(handlers, dry_run, parts)]
        steps_prefix(handlers, dry_run, parts) && parts.len() == handlers.len() && log == concat_steps(parts);
    assert(parts.len() == 0);
    assert(log =~= Seq::<RestoreStep>::empty());
}

/// An exact copy of a candidate.
fn copy_candidate(c: &RollbackCandidate) -> (r: RollbackCandidate)
    ensures
        r == *c,
{
    RollbackCandidate { handler_id: c.handler_id, restore_path: c.restore_path.clone() }
}

/// The registered handlers, in registration order.
pub struct RollbackRegistry<H: RollbackHandler> {
    handlers: Vec<H>,
}

impl<H: RollbackHandler> RollbackRegistry<H> {
    /// The handlers, in registration order.
    pub closed spec fn handlers_view(&self) -> Seq<H> {
        self.handlers@
    }

    /// A registry with no handlers.
    pub fn new() -> (r: Self)
        ensures
            r.handlers_view().len() == 0,
    {
        RollbackRegistry { handlers: Vec::new() }
    }

    /// Adds `handler` after those already registered.
    pub fn register(&mut self, handler: H)
        ensures
            final(self).handlers_view() == old(self).handlers_view().push(handler),
    {
        self.handlers.push(handler);
    }

    /// The handlers, in registration order.
    pub fn handlers(&self) -> (r: &[H])
        ensures
            r@ == self.handlers_view(),
    {
        self.handlers.as_slice()
    }

    /// The index of the first handler that accepts `token`.
    pub fn handler_index_for_token(&self, token: &RollbackToken) -> (r: Option<usize>)
        ensures
            match r {
                Some(i) => first_accepting(self.handlers_view(), *token, i as int),
                None => none_accepting(self.handlers_view(), *token),
            },
    {
        let mut i: usize = 0;
        while i < self.handlers.len()
            invariant
                0 <= i <= self.handlers@.len(),
                forall|j: int| 0 <= j < i ==> #[trigger] supports_answer(self.handlers@[j], *token, false),
            decreases self.handlers@.len() - i,
        {
            if self.handlers[i].supports_token(token) {
                return Some(i);
            }
            i = i + 1;
        }
        None
    }

    /// The preview of `token` by the first handler that accepts it (what that handler's
    /// `dry_run_token` gives), or, when none does, the error that no handler is
    /// registered for the token's kind.
    pub fn preview_token(&self, token: &RollbackToken) -> (r: Result<RollbackPreview, RollbackHandlerError>)
        ensures
            (none_accepting(self.handlers_view(), *token) && is_handler_missing(r, *token)) || exists|i: int|
                #![trigger first_accepting(self.handlers_view(), *token, i)]
                first_accepting(self.handlers_view(), *token, i) && call_ensures(
                    H::dry_run_token,
                    (&self.handlers_view()[i], token),
                    r,
                ),
    {
        match self.handler_index_for_token(token) {
            Some(i) => self.handlers[i].dry_run_token(token),
            None => Err(
                RollbackHandlerError::Registry(
                    RollbackRegistryError::HandlerForTokenMissing { token_kind: token.kind() },
                ),
            ),
        }
    }

    /// The restore of `token` by the first handler that accepts it (what that handler's
    /// `restore_token` gives), or, when none does, the error that no handler is
    /// registered for the token's kind.
    pub fn restore_token(&self, token: &RollbackToken) -> (r: Result<RollbackResult, RollbackHandlerError>)
        ensures
            (none_accepting(self.handlers_view(), *token) && is_handler_missing(r, *token)) || exists|i: int|
                #![trigger first_accepting(self.handlers_view(), *token, i)]
                first_accepting(self.handlers_view(), *token, i) && call_ensures(
                    H::restore_token,
                    (&self.handlers_view()[i], token),
                    r,
                ),
    {
        match self.handler_index_for_token(token) {
            Some(i) => self.handlers[i].restore_token(token),
            None => Err(
                RollbackHandlerError::Registry(
                    RollbackRegistryError::HandlerForTokenMissing { token_kind: token.kind() },
                ),
            ),
        }
    }

    /// The candidates of every handler, in registration order; the first discovery error
    /// stops the search.
    pub fn discover_all(&self) -> (r: Result<Vec<RollbackCandidate>, RollbackHandlerError>)
        ensures
            discover_all_outcome(self.handlers_view(), r),
    {
        let mut candidates: Vec<RollbackCandidate> = Vec::new();
        let ghost mut found: Seq<Vec<RollbackCandidate>> = Seq::empty();
        let mut i: usize = 0;
        while i < self.handlers.len()
            invariant
                0 <= i <= self.handlers@.len(),
                found.len() == i,
                discovered_prefix(self.handlers@, found),
                candidates@ == concat_found(found),
            decreases self.handlers@.len() - i,
        {
            match self.handlers[i].discover() {
                Ok(mut more) => {
                    proof {
                        assert(found.push(more).drop_last() =~= found);
                        found = found.push(more);
                    }
                    candidates.append(&mut more);
                },
                Err(e) => {
                    proof {
                        assert(discovered_prefix(self.handlers@, found));
                    }
                    return Err(e);
                },
            }
            i = i + 1;
        }
        Ok(candidates)
    }

    /// The preview of every candidate of every handler, in order; the first error stops it.
    pub fn preview_all(&self) -> (r: Result<Vec<RollbackPreview>, RollbackHandlerError>)
        ensures
            preview_all_outcome(self.handlers_view(), r),
    {
        let mut previews: Vec<RollbackPreview> = Vec::new();
        let ghost mut found: Seq<Vec<RollbackCandidate>> = Seq::empty();
        let ghost mut pv: Seq<Seq<RollbackPreview>> = Seq::empty();
        let mut i: usize = 0;
        while i < self.handlers.len()
            invariant
                0 <= i <= self.handlers@.len(),
                found.len() == i,
                previewed_prefix(self.handlers@, found, pv),
                previews@ == concat_previews(pv),
            decreases self.handlers@.len() - i,
        {
            let cands = match self.handlers[i].discover() {
                Ok(c) => c,
                Err(e) => {
                    proof {
                        assert(previewed_prefix(self.handlers@, found, pv));
                    }
                    return Err(e);
                },
            };
            let ghost mut part: Seq<RollbackPreview> = Seq::empty();
            let mut k: usize = 0;
            while k < cands.len()
                invariant
                    0 <= i < self.handlers@.len(),
                    0 <= k <= cands@.len(),
                    found.len() == i,
                    previewed_prefix(self.handlers@, found, pv),
                    self.handlers@[i as int].discovers(Ok::<Vec<RollbackCandidate>, RollbackHandlerError>(cands)),
                    part.len() == k,
                    all_previewed(self.handlers@[i as int], cands@.take(k as int), part),
                    previews@ == concat_previews(pv) + part,
                decreases cands@.len() - k,
            {
                match self.handlers[i].dry_run(&cands[k]) {
                    Ok(p) => {
                        proof {
                            assert(cands@.take(k + 1) =~= cands@.take(k as int).push(cands@[k as int]));
                            part = part.push(p);
                            assert(all_previewed(self.handlers@[i as int], cands@.take(k + 1), part)) by {
                                assert forall|j: int| 0 <= j < part.len() implies #[trigger] self.handlers@[i as int].previews(
                                    cands@.take(k + 1)[j],
                                    Ok::<RollbackPreview, RollbackHandlerError>(part[j]),
                                ) by {
                                    if j < k {
                                        assert(cands@.take(k + 1)[j] == cands@.take(k as int)[j]);
                                    }
                                }
                            }
                        }
                        previews.push(p);
                    },
                    Err(e) => {
                        proof {
                            assert(preview_failed(self.handlers@[i as int], cands, part, e));
                        }
                        return Err(e);
                    },
                }
                k = k + 1;
            }
            proof {
                assert(cands@.take(cands@.len() as int) =~= cands@);
                let f2 = found.push(cands);
                let p2 = pv.push(part);
                assert(f2.drop_last() =~= found);
                assert(p2.drop_last() =~= pv);
                assert(previewed_prefix(self.handlers@, f2, p2)) by {
                    assert forall|j: int| 0 <= j < p2.len() implies #[trigger] all_previewed(self.handlers@[j], f2[j]@, p2[j]) by {
                        if j < pv.len() {
                            assert(all_previewed(self.handlers@[j], found[j]@, pv[j]));
                        }
                    }
                    assert forall|j: int| 0 <= j < f2.len() implies #[trigger] self.handlers@[j].discovers(
                        Ok::<Vec<RollbackCandidate>, RollbackHandlerError>(f2[j]),
                    ) by {
                        if j < found.len() {
                            assert(self.handlers@[j].discovers(Ok::<Vec<RollbackCandidate>, RollbackHandlerError>(found[j])));
                        }
                    }
                }
                found = f2;
                pv = p2;
            }
            i = i + 1;
        }
        Ok(previews)
    }

    /// Runs discovery and, for every candidate found, a preview (dry run) or a restore,
    /// going on past every failure; returns the steps as they came out and their tally.
    pub fn restore_all_logged(&self, input: RestoreAllInput) -> (r: (RestoreAllSummary, Vec<RestoreStep>))
        ensures
            r.0 == tally(r.1@),
            log_fits_mode(r.1@, input.dry_run),
            restore_all_log(self.handlers_view(), input.dry_run, r.1@),
    {
        let mut log: Vec<RestoreStep> = Vec::new();
        let ghost mut parts: Seq<Seq<RestoreStep>> = Seq::empty();
        let mut i: usize = 0;
        while i < self.handlers.len()
            invariant
                0 <= i <= self.handlers@.len(),
                parts.len() == i,
                steps_prefix(self.handlers@, input.dry_run, parts),
                log@ == concat_steps(parts),
                log_fits_mode(log@, input.dry_run),
            decreases self.handlers@.len() - i,
        {
            let ghost start = log@;
            let ghost mut part: Seq<RestoreStep> = Seq::empty();
            let discovered = self.handlers[i].discover();
            match &discovered {
                Err(_) => {
                    log.push(RestoreStep::DiscoverFailed);
                    proof {
                        part = seq![RestoreStep::DiscoverFailed];
                        assert(handler_steps(self.handlers@[i as int], input.dry_run, part));
                    }
                },
                Ok(candidates) => {
                    let mut k: usize = 0;
                    while k < candidates.len()
                        invariant
                            0 <= i < self.handlers@.len(),
                            0 <= k <= candidates@.len(),
                            log_fits_mode(log@, input.dry_run),
                            part.len() == k,
                            log@ == start + part,
                            forall|j: int| 0 <= j < k ==> #[trigger] step_of(
                                self.handlers@[i as int],
                                candidates@[j],
                                input.dry_run,
                                part[j],
                            ),
                        decreases candidates@.len() - k,
                    {
                        let step = if input.dry_run {
                            let res = self.handlers[i].dry_run(&candidates[k]);
                            let st = match &res {
                                Ok(preview) => RestoreStep::Previewed { affected_tasks: preview.affected_tasks },
                                Err(_) => RestoreStep::PreviewFailed,
                            };
                            assert(st == preview_step(res));
                            st
                        } else {
                            let res = self.handlers[i].restore(copy_candidate(&candidates[k]));
                            let st = match &res {
                                Ok(result) => RestoreStep::Restored {
                                    restored: result.restored,
                                    skipped_dead: result.skipped_dead,
                                    skipped_identity_mismatch: result.skipped_identity_mismatch,
                                    legacy_unverified: result.legacy_unverified,
                                    errors: result.errors,
                                },
                                Err(_) => RestoreStep::RestoreFailed,
                            };
                            assert(st == restore_step(res));
                            st
                        };
                        assert(step_of(self.handlers@[i as int], candidates@[k as int], input.dry_run, step));
                        log.push(step);
                        proof {
                            part = part.push(step);
                        }
                        k = k + 1;
                    }
                    proof {
                        assert(handler_steps(self.handlers@[i as int], input.dry_run, part)) by {
                            assert(self.handlers@[i as int].discovers(discovered));
                        }
                    }
                },
            }
            proof {
                let p2 = parts.push(part);
                assert(p2.drop_last() =~= parts);
                assert(steps_prefix(self.handlers@, input.dry_run, p2)) by {
                    assert forall|j: int| 0 <= j < p2.len() implies #[trigger] handler_steps(
                        self.handlers@[j],
                        input.dry_run,
                        p2[j],
                    ) by {
                        if j < parts.len() {
                            assert(handler_steps(self.handlers@[j], input.dry_run, parts[j]));
                        }
                    }
                }
                parts = p2;
            }
            i = i + 1;
        }
        let summary = tally_steps(&log);
        (summary, log)
    }

    /// Restores (or, in a dry run, previews) everything every handler finds and tallies it.
    pub fn restore_all(&self, input: RestoreAllInput) -> (r: RestoreAllSummary)
        ensures
            exists|log: Seq<RestoreStep>|
                r == tally(log) && log_fits_mode(log, input.dry_run) && restore_all_log(
                    self.handlers_view(),
                    input.dry_run,
                    log,
                ),
    {
        let (summary, log) = self.restore_all_logged(input);
        proof {
            assert(summary == tally(log@) && log_fits_mode(log@, input.dry_run) && restore_all_log(
                self.handlers_view(),
                input.dry_run,
                log@,
            ));
        }
        summary
    }
}

/// `e` refuses a token whose kind is `actual` at a handler for tokens of kind `expected`.
pub open spec fn is_unsupported_token(
    e: ActionBoundaryError,
    handler_id: &'static str,
    expected: &'static str,
    actual: Seq<char>,
) -> bool {
    e matches ActionBoundaryError::UnsupportedRollbackToken {
        handler,
        expected_token_kind,
        actual_token_kind,
    } && handler == handler_id && expected_token_kind == expected && actual_token_kind@ == actual
}

/// `p` is the preview of `token` by `handler_id` for restores of `kind`.
pub open spec fn is_token_preview(p: RollbackPreview, handler_id: &'static str, kind: Seq<char>, token: RollbackToken) -> bool {
    &&& p.handler_id == handler_id
    &&& p.restore_path@ == path_or_empty(token_path(token))
    &&& p.affected_tasks == token_affected(token)
    &&& p.message@ == "would restore rollback_kind="@ + kind + " affected_items="@ + decimal(
        token_affected(token),
    )
}

/// What a handler for tokens of kind `expected_kind` previews: a token of another kind
/// is refused, one of its kind previewed.
pub fn token_handler_dry_run(handler_id: &'static str, expected_kind: &'static str, token: &RollbackToken) -> (r:
    Result<RollbackPreview, ActionBoundaryError>)
    ensures
        token_kind(*token) != expected_kind@ ==> (r matches Err(e) && is_unsupported_token(
            e,
            handler_id,
            expected_kind,
            token_kind(*token),
        )),
        token_kind(*token) == expected_kind@ ==> (r matches Ok(p) && is_token_preview(
            p,
            handler_id,
            expected_kind@,
            *token,
        )),
{
    let kind = token.kind();
    if !str_eq(kind, expected_kind) {
        return Err(ActionBoundaryError::unsupported_rollback_token(handler_id, expected_kind, kind));
    }
    Ok(token_dry_run_preview(handler_id, token, expected_kind))
}

/// The result of a token restore of per-task records, from its tally.
pub fn task_restore_result(handler_id: &'static str, token: &RollbackToken, t: TaskRestoreTally) -> (r:
    RollbackResult)
    ensures
        r.handler_id == handler_id,
        r.restore_path@ == path_or_empty(token_path(*token)),
        r.restored == t.restored,
        r.skipped_dead == t.skipped_dead,
        r.skipped_identity_mismatch == t.skipped_identity_mismatch,
        r.legacy_unverified == t.legacy_unverified,
        r.errors == t.errors,
        r.messages@ == t.messages@,
{
    RollbackResult {
        handler_id,
        restore_path: token_restore_path(token),
        restored: t.restored,
        skipped_dead: t.skipped_dead,
        skipped_identity_mismatch: t.skipped_identity_mismatch,
        legacy_unverified: t.legacy_unverified,
        errors: t.errors,
        messages: t.messages,
    }
}

} // verus!
