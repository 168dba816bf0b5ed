//! IRQ affinity: moving one interrupt to a CPU mask, with the evidence a request must
//! carry, the rules on masks, and the checks a rollback makes before writing back.
use vstd::prelude::*;

use crate::cgroup::{FileAccess, FileRead};
use crate::cpu_power::SysfsFileObservation;
use crate::error::{
    is_invalid_request, is_invalid_value, is_policy_denied, is_wrong_token_for, ActionBoundaryError,
    ActionError, ActionSourceError,
};
use crate::model::{ActionId, ActionState, ActionWarning, IrqAffinityRestoreRecord, SafetyClass};
use crate::rollback::{is_token_preview, is_unsupported_token, token_handler_dry_run, token_restore_result, RollbackPreview, RollbackResult};
use crate::sysfs::{read_trimmed, ApplyWrite};
use crate::text::{
    cat, cat3, cat4, debug_char, debug_quote, debug_quoted, decimal, is_hex_char, join, join_path,
    join_strings, path_join, push_char, str_eq, trim, trim_text, u64_to_string, views,
};
use crate::token::{token_kind, RollbackToken};
use vstd::utf8::encode_utf8;

verus! {

/// How risky the device behind an IRQ is to move.
#[derive(Debug, Clone, Copy, PartialEq, Eq, Structural)]
pub enum IrqAffinityRisk {
    ReversibleMediumRisk,
    HighRisk,
}

/// What was observed of the IRQ when the request was made.
#[derive(Debug, Clone, PartialEq, Eq)]
pub struct IrqAffinityEvidence {
    pub strong_irq_evidence: bool,
    pub stable_irq_identity: bool,
    pub known_device_mapping: bool,
    pub observed_irq: Option<u32>,
    pub observed_device_hint: Option<String>,
    pub reason: String,
}

/// What an IRQ affinity request is allowed, and which evidence it must carry.
#[derive(Debug, Clone, Copy, PartialEq, Eq)]
pub struct IrqAffinityPolicy {
    pub allow_irq_affinity_changes: bool,
    pub allow_high_risk_devices: bool,
    pub require_strong_irq_evidence: bool,
    pub require_stable_irq_identity: bool,
    pub require_known_device_mapping: bool,
}

impl Default for IrqAffinityPolicy {
    /// Changes off, high-risk devices refused, all evidence required.
    fn default() -> (r: Self)
        ensures
            r == (IrqAffinityPolicy {
                allow_irq_affinity_changes: false,
                allow_high_risk_devices: false,
                require_strong_irq_evidence: true,
                require_stable_irq_identity: true,
                require_known_device_mapping: true,
            }),
    {
        IrqAffinityPolicy {
            allow_irq_affinity_changes: false,
            allow_high_risk_devices: false,
            require_strong_irq_evidence: true,
            require_stable_irq_identity: true,
            require_known_device_mapping: true,
        }
    }
}

/// A request to set one IRQ's `smp_affinity`.
#[derive(Debug, Clone)]
pub struct IrqAffinityAction {
    pub irq: u32,
    pub device_hint: String,
    pub smp_affinity: String,
    pub risk: IrqAffinityRisk,
    pub evidence: IrqAffinityEvidence,
    pub irq_root: String,
}

impl IrqAffinityAction {
    /// A request under `/proc/irq`.
    pub fn new(
        irq: u32,
        device_hint: String,
        smp_affinity: String,
        risk: IrqAffinityRisk,
        evidence: IrqAffinityEvidence,
    ) -> (r: Self)
        ensures
            r.irq == irq,
            r.device_hint == device_hint,
            r.smp_affinity == smp_affinity,
            r.risk == risk,
            r.evidence == evidence,
            r.irq_root@ == "/proc/irq"@,
    {
        IrqAffinityAction { irq, device_hint, smp_affinity, risk, evidence, irq_root: "/proc/irq".to_owned() }
    }

    /// The action's identifier: `irq-affinity:set:irq=<irq>:affinity=<mask>`.
    pub fn id(&self) -> (r: ActionId)
        ensures
            r.id@ == "irq-affinity:set:irq="@ + decimal(self.irq as nat) + ":affinity="@ + self.smp_affinity@,
    {
        let n = u64_to_string(self.irq as u64);
        ActionId::new(cat4("irq-affinity:set:irq=", n.as_str(), ":affinity=", self.smp_affinity.as_str()))
    }

    /// A description naming the IRQ, its device and the mask.
    pub fn describe(&self) -> (r: String)
        ensures
            r@ == "set IRQ "@ + decimal(self.irq as nat) + " ("@ + self.device_hint@ + ") smp_affinity to "@
                + self.smp_affinity@,
    {
        let n = u64_to_string(self.irq as u64);
        let mut s = cat4("set IRQ ", n.as_str(), " (", self.device_hint.as_str());
        s.append(") smp_affinity to ");
        s.append(self.smp_affinity.as_str());
        s
    }

    /// The safety class follows the device's risk.
    pub fn safety_class(&self) -> (r: SafetyClass)
        ensures
            r == (match self.risk {
                IrqAffinityRisk::ReversibleMediumRisk => SafetyClass::ReversibleMediumRisk,
                IrqAffinityRisk::HighRisk => SafetyClass::HighRisk,
            }),
    {
        match self.risk {
            IrqAffinityRisk::ReversibleMediumRisk => SafetyClass::ReversibleMediumRisk,
            IrqAffinityRisk::HighRisk => SafetyClass::HighRisk,
        }
    }
}

/// Whether `policy` admits the request `a` with its evidence.
pub open spec fn irq_request_passes(a: IrqAffinityAction, policy: IrqAffinityPolicy) -> bool {
    &&& policy.allow_irq_affinity_changes
    &&& a.irq != 0
    &&& trim(a.device_hint@).len() > 0
    &&& !(a.risk == IrqAffinityRisk::HighRisk && !policy.allow_high_risk_devices)
    &&& !(policy.require_strong_irq_evidence && !a.evidence.strong_irq_evidence)
    &&& !(policy.require_stable_irq_identity && !a.evidence.stable_irq_identity)
    &&& !(policy.require_known_device_mapping && !a.evidence.known_device_mapping)
    &&& (a.evidence.observed_irq matches Some(o) ==> o == a.irq)
    &&& (a.evidence.observed_device_hint matches Some(h) ==> h@ == a.device_hint@)
}

/// A request that passes has affinity changes allowed, a nonzero IRQ, a device risk the
/// policy allows, every kind of evidence the policy asks for, and observed evidence that
/// agrees with the request.
pub proof fn irq_request_meets_policy(a: IrqAffinityAction, policy: IrqAffinityPolicy)
    requires
        irq_request_passes(a, policy),
    ensures
        policy.allow_irq_affinity_changes,
        a.irq != 0,
        a.risk == IrqAffinityRisk::HighRisk ==> policy.allow_high_risk_devices,
        policy.require_strong_irq_evidence ==> a.evidence.strong_irq_evidence,
        policy.require_stable_irq_identity ==> a.evidence.stable_irq_identity,
        policy.require_known_device_mapping ==> a.evidence.known_device_mapping,
        a.evidence.observed_irq matches Some(o) ==> o == a.irq,
        a.evidence.observed_device_hint matches Some(h) ==> h@ == a.device_hint@,
{
}

/// `e` is the refusal of a request that does not pass, in check order.
pub open spec fn irq_request_refusal(a: IrqAffinityAction, policy: IrqAffinityPolicy, e: ActionBoundaryError) -> bool {
    if !policy.allow_irq_affinity_changes {
        is_policy_denied(e, "irq_affinity"@, "allow_irq_affinity_changes"@)
    } else if a.irq == 0 {
        is_invalid_value(e, "irq_affinity"@, "irq"@, "IRQ number must be greater than zero"@)
    } else if trim(a.device_hint@).len() == 0 {
        is_invalid_value(e, "irq_affinity"@, "device_hint"@, "IRQ device mapping must be known before affinity changes"@)
    } else if a.risk == IrqAffinityRisk::HighRisk && !policy.allow_high_risk_devices {
        is_policy_denied(e, "irq_affinity"@, "allow_high_risk_devices"@)
    } else if policy.require_strong_irq_evidence && !a.evidence.strong_irq_evidence {
        is_policy_denied(e, "irq_affinity"@, "strong_irq_evidence"@)
    } else if policy.require_stable_irq_identity && !a.evidence.stable_irq_identity {
        is_policy_denied(e, "irq_affinity"@, "stable_irq_identity"@)
    } else if policy.require_known_device_mapping && !a.evidence.known_device_mapping {
        is_policy_denied(e, "irq_affinity"@, "known_device_mapping"@)
    } else if a.evidence.observed_irq matches Some(o) && o != a.irq {
        is_invalid_request(
            e,
            "irq_affinity"@,
            "IRQ evidence mismatch: action irq="@ + decimal(a.irq as nat) + " observed irq="@ + decimal(
                a.evidence.observed_irq->0 as nat,
            ),
        )
    } else {
        is_invalid_request(
            e,
            "irq_affinity"@,
            "IRQ device evidence mismatch: action device="@ + debug_quoted(a.device_hint@) + " observed device="@
                + debug_quoted(a.evidence.observed_device_hint->0@),
        )
    }
}

/// Checks the request `action` and its evidence against `policy`.
pub fn validate_irq_request(action: &IrqAffinityAction, policy: &IrqAffinityPolicy) -> (r: Result<(), ActionBoundaryError>)
    ensures
        irq_request_passes(*action, *policy) <==> r is Ok,
        r matches Err(e) ==> irq_request_refusal(*action, *policy, e),
        r is Ok ==> policy.allow_irq_affinity_changes && action.irq != 0,
        r is Ok ==> (action.risk == IrqAffinityRisk::HighRisk ==> policy.allow_high_risk_devices),
        r is Ok ==> (policy.require_strong_irq_evidence ==> action.evidence.strong_irq_evidence),
        r is Ok ==> (policy.require_stable_irq_identity ==> action.evidence.stable_irq_identity),
        r is Ok ==> (policy.require_known_device_mapping ==> action.evidence.known_device_mapping),
        r is Ok ==> (action.evidence.observed_irq matches Some(o) ==> o == action.irq),
        r is Ok <==> (policy.allow_irq_affinity_changes && action.irq != 0 && trim(action.device_hint@).len() > 0
            && (action.risk == IrqAffinityRisk::HighRisk ==> policy.allow_high_risk_devices) && (
        policy.require_strong_irq_evidence ==> action.evidence.strong_irq_evidence) && (
        policy.require_stable_irq_identity ==> action.evidence.stable_irq_identity) && (
        policy.require_known_device_mapping ==> action.evidence.known_device_mapping) && (
        action.evidence.observed_irq matches Some(o) ==> o == action.irq) && (
        action.evidence.observed_device_hint matches Some(h) ==> h@ == action.device_hint@)),
{
    if !policy.allow_irq_affinity_changes {
        return Err(ActionBoundaryError::PolicyDenied { action_kind: "irq_affinity", requirement: "allow_irq_affinity_changes" });
    }
    if action.irq == 0 {
        return Err(ActionBoundaryError::InvalidValue {
            action_kind: "irq_affinity",
            field: "irq".to_owned(),
            reason: "IRQ number must be greater than zero".to_owned(),
        });
    }
    let hint = trim_text(action.device_hint.as_str());
    if hint.unicode_len() == 0 {
        return Err(ActionBoundaryError::InvalidValue {
            action_kind: "irq_affinity",
            field: "device_hint".to_owned(),
            reason: "IRQ device mapping must be known before affinity changes".to_owned(),
        });
    }
    match action.risk {
        IrqAffinityRisk::HighRisk => {
            if !policy.allow_high_risk_devices {
                return Err(ActionBoundaryError::PolicyDenied { action_kind: "irq_affinity", requirement: "allow_high_risk_devices" });
            }
        },
        IrqAffinityRisk::ReversibleMediumRisk => {},
    }
    if policy.require_strong_irq_evidence && !action.evidence.strong_irq_evidence {
        return Err(ActionBoundaryError::PolicyDenied { action_kind: "irq_affinity", requirement: "strong_irq_evidence" });
    }
    if policy.require_stable_irq_identity && !action.evidence.stable_irq_identity {
        return Err(ActionBoundaryError::PolicyDenied { action_kind: "irq_affinity", requirement: "stable_irq_identity" });
    }
    if policy.require_known_device_mapping && !action.evidence.known_device_mapping {
        return Err(ActionBoundaryError::PolicyDenied { action_kind: "irq_affinity", requirement: "known_device_mapping" });
    }
    match action.evidence.observed_irq {
        Some(o) => {
            if o != action.irq {
                let a = u64_to_string(action.irq as u64);
                let b = u64_to_string(o as u64);
                let mut reason = cat3("IRQ evidence mismatch: action irq=", a.as_str(), " observed irq=");
                reason.append(b.as_str());
                return Err(ActionBoundaryError::InvalidRequest { action_kind: "irq_affinity", reason });
            }
        },
        None => {},
    }
    match &action.evidence.observed_device_hint {
        Some(h) => {
            if !str_eq(h.as_str(), action.device_hint.as_str()) {
                let a = debug_quote(action.device_hint.as_str());
                let b = debug_quote(h.as_str());
                let mut reason = cat3("IRQ device evidence mismatch: action device=", a.as_str(), " observed device=");
                reason.append(b.as_str());
                return Err(ActionBoundaryError::InvalidRequest { action_kind: "irq_affinity", reason });
            }
        },
        None => {},
    }
    Ok(())
}

/// The ASCII lower case of a character.
pub open spec fn lower_char(c: char) -> char {
    if 65 <= (c as u32) && (c as u32) <= 90 {
        ((c as u32) + 32) as char
    } else {
        c
    }
}

/// The ASCII lower case of a text (`str::to_ascii_lowercase`).
pub open spec fn ascii_lower(s: Seq<char>) -> Seq<char> {
    s.map_values(|c: char| lower_char(c))
}

/// Whether `pat` occurs in `s`.
pub open spec fn occurs_in(s: Seq<char>, pat: Seq<char>) -> bool {
    exists|i: int| 0 <= i && i + pat.len() <= s.len() && #[trigger] s.subrange(i, i + pat.len()) == pat
}

/// Whether a device hint names a system-critical interrupt (timer, rescheduling,
/// function-call or inter-processor interrupts), ignoring ASCII case.
pub open spec fn critical_irq_hint(hint: Seq<char>) -> bool {
    let l = ascii_lower(hint);
    occurs_in(l, "timer"@) || occurs_in(l, "rescheduling"@) || occurs_in(l, "call function"@) || occurs_in(l, "ipi"@)
}

/// The ASCII lower case of `c`.
fn lower_ascii_char(c: char) -> (r: char)
    ensures
        r == lower_char(c),
{
    match c {
        'A' => 'a',
        'B' => 'b',
        'C' => 'c',
        'D' => 'd',
        'E' => 'e',
        'F' => 'f',
        'G' => 'g',
        'H' => 'h',
        'I' => 'i',
        'J' => 'j',
        'K' => 'k',
        'L' => 'l',
        'M' => 'm',
        'N' => 'n',
        'O' => 'o',
        'P' => 'p',
        'Q' => 'q',
        'R' => 'r',
        'S' => 's',
        'T' => 't',
        'U' => 'u',
        'V' => 'v',
        'W' => 'w',
        'X' => 'x',
        'Y' => 'y',
        'Z' => 'z',
        _ => c,
    }
}

/// The ASCII lower case of `s`.
pub fn to_ascii_lower(s: &str) -> (r: String)
    ensures
        r@ == ascii_lower(s@),
{
    let n = s.unicode_len();
    let mut out = String::new();
    let mut i: usize = 0;
    while i < n
        invariant
            n == s@.len(),
            0 <= i <= n,
            out@ =~= ascii_lower(s@).take(i as int),
        decreases n - i,
    {
        let c = s.get_char(i);
        let l = lower_ascii_char(c);
        assert(l == lower_char(c));
        push_char(&mut out, l);
        assert(ascii_lower(s@).take(i + 1) =~= ascii_lower(s@).take(i as int).push(lower_char(s@[i as int])));
        i = i + 1;
    }
    assert(ascii_lower(s@).take(n as int) =~= ascii_lower(s@));
    out
}

/// Whether `pat` occurs in `s`.
pub fn contains_text(s: &str, pat: &str) -> (r: bool)
    ensures
        r == occurs_in(s@, pat@),
{
    let n = s.unicode_len();
    let m = pat.unicode_len();
    if m > n {
        return false;
    }
    let mut i: usize = 0;
    while i <= n - m
        invariant
            n == s@.len(),
            m == pat@.len(),
            m <= n,
            0 <= i <= n - m + 1,
            forall|k: int| 0 <= k < i ==> #[trigger] s@.subrange(k, k + m) != pat@,
        decreases n - i,
    {
        let mut j: usize = 0;
        let mut same = true;
        while j < m
            invariant
                n == s@.len(),
                m == pat@.len(),
                i + m <= n,
                0 <= j <= m,
                same == (forall|k: int| 0 <= k < j ==> s@[i + k] == pat@[k]),
            decreases m - j,
        {
            if s.get_char(i + j) != pat.get_char(j) {
                same = false;
            }
            j = j + 1;
        }
        if same {
            assert(s@.subrange(i as int, i + m) =~= pat@);
            return true;
        }
        assert(s@.subrange(i as int, i + m) != pat@) by {
            let k = choose|k: int| 0 <= k < m && s@[i + k] != pat@[k];
            assert(s@.subrange(i as int, i + m)[k] == s@[i + k]);
        }
        i = i + 1;
    }
    assert forall|k: int| 0 <= k && k + m <= n implies #[trigger] s@.subrange(k, k + m) != pat@ by {
        assert(k < i);
    }
    false
}

/// Refuses to move a system-critical IRQ.
pub fn validate_irq_identity(action: &IrqAffinityAction) -> (r: Result<(), ActionBoundaryError>)
    ensures
        !critical_irq_hint(action.device_hint@) <==> r is Ok,
        r matches Err(e) ==> is_invalid_request(
            e,
            "irq_affinity"@,
            "refusing to change system-critical IRQ "@ + decimal(action.irq as nat) + " ("@ + action.device_hint@
                + ")"@,
        ),
{
    let l = to_ascii_lower(action.device_hint.as_str());
    if contains_text(l.as_str(), "timer") || contains_text(l.as_str(), "rescheduling") || contains_text(
        l.as_str(),
        "call function",
    ) || contains_text(l.as_str(), "ipi") {
        let n = u64_to_string(action.irq as u64);
        let mut reason = cat4("refusing to change system-critical IRQ ", n.as_str(), " (", action.device_hint.as_str());
        reason.append(")");
        return Err(ActionBoundaryError::InvalidRequest { action_kind: "irq_affinity", reason });
    }
    Ok(())
}

/// The scan of a text so far, split at `,`: the parts completed and the part being read.
pub open spec fn scan_commas(s: Seq<char>) -> (Seq<Seq<char>>, Seq<char>)
    decreases s.len(),
{
    if s.len() == 0 {
        (Seq::empty(), Seq::empty())
    } else {
        let (acc, cur) = scan_commas(s.drop_last());
        if s.last() == ',' {
            (acc.push(cur), Seq::empty())
        } else {
            (acc, cur.push(s.last()))
        }
    }
}

/// The parts of a text split at `,`, empty parts included (`str::split(',')`).
pub open spec fn comma_parts(s: Seq<char>) -> Seq<Seq<char>> {
    scan_commas(s).0.push(scan_commas(s).1)
}

/// The parts of `s` split at `,`.
pub fn split_commas(s: &str) -> (r: Vec<String>)
    ensures
        views(r@) == comma_parts(s@),
{
    let n = s.unicode_len();
    let mut acc: Vec<String> = Vec::new();
    let mut cur = String::new();
    let mut i: usize = 0;
    assert(s@.subrange(0, 0) =~= Seq::<char>::empty());
    assert(views(acc@) =~= Seq::<Seq<char>>::empty());
    while i < n
        invariant
            n == s@.len(),
            0 <= i <= n,
            (views(acc@), cur@) == scan_commas(s@.subrange(0, i as int)),
        decreases n - i,
    {
        let c = s.get_char(i);
        proof {
            assert(s@.subrange(0, i + 1).drop_last() =~= s@.subrange(0, i as int));
            assert(s@.subrange(0, i + 1).last() == c);
        }
        if c == ',' {
            let ghost before = acc@;
            let done = cur;
            let ghost d = done@;
            acc.push(done);
            assert(views(acc@) =~= views(before).push(d));
            cur = String::new();
            assert(cur@ =~= Seq::<char>::empty());
        } else {
            push_char(&mut cur, c);
        }
        i = i + 1;
    }
    assert(s@.subrange(0, n as int) =~= s@);
    let ghost before = acc@;
    let ghost last = cur@;
    acc.push(cur);
    assert(views(acc@) =~= views(before).push(last));
    acc
}

/// Whether a character may appear in an affinity mask: hexadecimal digits and `,`.
pub open spec fn mask_char(c: char) -> bool {
    is_hex_char(c) || c == ','
}

/// Why an affinity mask is refused, if it is (checked on the trimmed text): empty,
/// longer than 256 bytes, holding another character (the first such), or with an
/// empty comma-separated part.
pub open spec fn affinity_error(value: Seq<char>) -> Option<Seq<char>> {
    let v = trim(value);
    if v.len() == 0 {
        Some("smp_affinity must not be empty"@)
    } else if encode_utf8(v).len() > 256 {
        Some("smp_affinity is too long"@)
    } else if exists|i: int| 0 <= i < v.len() && !mask_char(#[trigger] v[i]) {
        let i = choose|i: int| 0 <= i < v.len() && !mask_char(v[i]) && forall|j: int| 0 <= j < i ==> mask_char(#[trigger] v[j]);
        Some("smp_affinity contains invalid character "@ + debug_char(v[i]))
    } else if exists|k: int| 0 <= k < comma_parts(v).len() && #[trigger] comma_parts(v)[k].len() == 0 {
        Some("smp_affinity contains an empty comma-separated component"@)
    } else {
        None
    }
}

/// The first character of `v` that may not appear in a mask, if any.
fn first_bad_mask_char(v: &str) -> (r: Option<char>)
    ensures
        r is None <==> forall|j: int| 0 <= j < v@.len() ==> mask_char(#[trigger] v@[j]),
        r matches Some(c) ==> c == v@[choose|i: int| 0 <= i < v@.len() && !mask_char(v@[i]) && forall|j: int| 0 <= j < i ==> mask_char(#[trigger] v@[j])],
{
    let n = v.unicode_len();
    let mut i: usize = 0;
    while i < n
        invariant
            n == v@.len(),
            0 <= i <= n,
            forall|j: int| 0 <= j < i ==> mask_char(#[trigger] v@[j]),
        decreases n - i,
    {
        let c = v.get_char(i);
        let ok = ('0' <= c && c <= '9') || ('a' <= c && c <= 'f') || ('A' <= c && c <= 'F') || c == ',';
        if !ok {
            proof {
                assert(!mask_char(v@[i as int]));
                let k = choose|k: int| 0 <= k < v@.len() && !mask_char(v@[k]) && forall|j: int| 0 <= j < k ==> mask_char(#[trigger] v@[j]);
                if k < i {
                    assert(mask_char(v@[k]));
                } else if k > i {
                    assert(mask_char(v@[i as int]));
                }
                assert(k == i);
            }
            return Some(c);
        }
        i = i + 1;
    }
    None
}

/// Checks an affinity mask.
pub fn validate_affinity_value(value: &str) -> (r: Result<(), ActionBoundaryError>)
    ensures
        affinity_error(value@) is None <==> r is Ok,
        r matches Err(e) ==> is_invalid_value(e, "irq_affinity"@, "smp_affinity"@, affinity_error(value@)->0),
{
    let v = trim_text(value);
    let n = v.unicode_len();
    if n == 0 {
        return Err(ActionBoundaryError::InvalidValue {
            action_kind: "irq_affinity",
            field: "smp_affinity".to_owned(),
            reason: "smp_affinity must not be empty".to_owned(),
        });
    }
    let bytes = v.as_str().as_bytes();
    if bytes.len() > 256 {
        return Err(ActionBoundaryError::InvalidValue {
            action_kind: "irq_affinity",
            field: "smp_affinity".to_owned(),
            reason: "smp_affinity is too long".to_owned(),
        });
    }
    match first_bad_mask_char(v.as_str()) {
        Some(c) => {
            let q = crate::text::debug_char_text(c);
            return Err(ActionBoundaryError::InvalidValue {
                action_kind: "irq_affinity",
                field: "smp_affinity".to_owned(),
                reason: cat("smp_affinity contains invalid character ", q.as_str()),
            });
        },
        None => {},
    }
    let parts = split_commas(v.as_str());
    let mut k: usize = 0;
    while k < parts.len()
        invariant
            0 <= k <= parts@.len(),
            v@ == trim(value@),
            v@.len() > 0,
            encode_utf8(v@).len() <= 256,
            forall|j: int| 0 <= j < v@.len() ==> mask_char(#[trigger] v@[j]),
            views(parts@) == comma_parts(v@),
            forall|j: int| 0 <= j < k ==> #[trigger] comma_parts(v@)[j].len() != 0,
        decreases parts@.len() - k,
    {
        assert(views(parts@)[k as int] == parts@[k as int]@);
        if parts[k].unicode_len() == 0 {
            assert(comma_parts(v@)[k as int].len() == 0);
            return Err(ActionBoundaryError::InvalidValue {
                action_kind: "irq_affinity",
                field: "smp_affinity".to_owned(),
                reason: "smp_affinity contains an empty comma-separated component".to_owned(),
            });
        }
        k = k + 1;
    }
    Ok(())
}

/// A text without its leading `0` characters.
pub open spec fn strip_zeros(s: Seq<char>) -> Seq<char>
    decreases s.len(),
{
    if s.len() > 0 && s[0] == '0' {
        strip_zeros(s.drop_first())
    } else {
        s
    }
}

/// The normal form of one part of a mask: no leading zeros (`0` when nothing is left),
/// lower case.
pub open spec fn normal_part(p: Seq<char>) -> Seq<char> {
    if strip_zeros(p).len() == 0 {
        "0"@
    } else {
        ascii_lower(strip_zeros(p))
    }
}

/// The normal form of an affinity mask: trimmed, each part normal, joined with `,`.
pub open spec fn normal_affinity(value: Seq<char>) -> Seq<char> {
    join(comma_parts(trim(value)).map_values(|p: Seq<char>| normal_part(p)), ","@)
}

fn normalize_part(p: &str) -> (r: String)
    ensures
        r@ == normal_part(p@),
{
    proof {
        reveal_strlit("0");
    }
    let n = p.unicode_len();
    let mut i: usize = 0;
    assert(p@.subrange(0, n as int) =~= p@);
    while i < n && p.get_char(i) == '0'
        invariant
            n == p@.len(),
            0 <= i <= n,
            strip_zeros(p@) == strip_zeros(p@.subrange(i as int, n as int)),
        decreases n - i,
    {
        assert(p@.subrange(i + 1, n as int) =~= p@.subrange(i as int, n as int).drop_first());
        i = i + 1;
    }
    assert(strip_zeros(p@.subrange(i as int, n as int)) == p@.subrange(i as int, n as int));
    if i == n {
        return "0".to_owned();
    }
    let mut out = String::new();
    let mut k: usize = i;
    while k < n
        invariant
            n == p@.len(),
            i <= k <= n,
            out@ =~= ascii_lower(p@.subrange(i as int, k as int)),
        decreases n - k,
    {
        push_char(&mut out, lower_ascii_char(p.get_char(k)));
        assert(p@.subrange(i as int, k + 1) =~= p@.subrange(i as int, k as int).push(p@[k as int]));
        k = k + 1;
    }
    out
}

/// The normal form of an affinity mask, for comparing masks written differently.
pub fn normalize_affinity(value: &str) -> (r: String)
    ensures
        r@ == normal_affinity(value@),
{
    let t = trim_text(value);
    let parts = split_commas(t.as_str());
    let mut out: Vec<String> = Vec::new();
    let mut i: usize = 0;
    while i < parts.len()
        invariant
            0 <= i <= parts@.len(),
            views(parts@) == comma_parts(trim(value@)),
            views(out@) =~= comma_parts(trim(value@)).map_values(|p: Seq<char>| normal_part(p)).take(i as int),
        decreases parts@.len() - i,
    {
        let ghost before = out@;
        out.push(normalize_part(parts[i].as_str()));
        assert(views(parts@)[i as int] == parts@[i as int]@);
        assert(views(out@) =~= views(before).push(normal_part(parts@[i as int]@)));
        assert(comma_parts(trim(value@)).map_values(|p: Seq<char>| normal_part(p)).take(i + 1) =~= comma_parts(trim(value@)).map_values(|p: Seq<char>| normal_part(p)).take(i as int).push(normal_part(parts@[i as int]@)));
        i = i + 1;
    }
    assert(comma_parts(trim(value@)).map_values(|p: Seq<char>| normal_part(p)).take(parts@.len() as int) =~= comma_parts(trim(value@)).map_values(|p: Seq<char>| normal_part(p)));
    join_strings(&out, ",")
}

/// The device hint of an IRQ directory: its trimmed `actions` file when not empty, else
/// its trimmed `name` file when not empty.
pub open spec fn device_hint_of(actions: FileRead, name: FileRead) -> Option<Seq<char>> {
    if actions matches FileRead::Contents(a) && trim(a@).len() > 0 {
        Some(trim(actions->Contents_0@))
    } else if name matches FileRead::Contents(n) && trim(n@).len() > 0 {
        Some(trim(name->Contents_0@))
    } else {
        None
    }
}

/// The text of the error for an IRQ directory without a device hint.
pub open spec fn no_hint_text(irq_dir: Seq<char>) -> Seq<char> {
    "neither "@ + join_path(irq_dir, "actions"@) + " nor "@ + join_path(irq_dir, "name"@) + " contained a device hint"@
}

/// The device hint of the IRQ directory `irq_dir`, from its `actions` and `name` files.
pub fn read_irq_device_hint(irq_dir: &str, actions: &FileRead, name: &FileRead) -> (r: Result<String, ActionBoundaryError>)
    ensures
        match device_hint_of(*actions, *name) {
            Some(h) => r matches Ok(x) && x@ == h,
            None => r matches Err(e) && is_invalid_value(e, "irq_affinity"@, "device_hint"@, no_hint_text(irq_dir@)),
        },
{
    match actions {
        FileRead::Contents(a) => {
            let t = trim_text(a.as_str());
            if t.unicode_len() > 0 {
                return Ok(t);
            }
        },
        _ => {},
    }
    match name {
        FileRead::Contents(n) => {
            let t = trim_text(n.as_str());
            if t.unicode_len() > 0 {
                return Ok(t);
            }
        },
        _ => {},
    }
    let ap = path_join(irq_dir, "actions");
    let np = path_join(irq_dir, "name");
    let mut reason = cat3("neither ", ap.as_str(), " nor ");
    reason.append(np.as_str());
    reason.append(" contained a device hint");
    Err(ActionBoundaryError::InvalidValue { action_kind: "irq_affinity", field: "device_hint".to_owned(), reason })
}

/// What procfs shows of the IRQ's directory.
#[derive(Debug, Clone, PartialEq, Eq)]
pub struct IrqObservation {
    pub dir_exists: bool,
    pub smp_affinity: SysfsFileObservation,
    pub actions: FileRead,
    pub name: FileRead,
}

/// The IRQ as it was found: its device hint and current mask (trimmed).
#[derive(Debug, Clone, PartialEq, Eq)]
pub struct IrqAffinitySnapshot {
    pub irq: u32,
    pub device_hint: String,
    pub smp_affinity: String,
}

/// The IRQ's directory under the IRQ root.
pub open spec fn irq_dir_of(a: IrqAffinityAction) -> Seq<char> {
    join_path(a.irq_root@, decimal(a.irq as nat))
}

/// Whether the request and the IRQ's directory pass.
pub open spec fn irq_snapshot_passes(a: IrqAffinityAction, policy: IrqAffinityPolicy, o: IrqObservation) -> bool {
    &&& irq_request_passes(a, policy)
    &&& !critical_irq_hint(a.device_hint@)
    &&& affinity_error(a.smp_affinity@) is None
    &&& o.dir_exists
    &&& o.smp_affinity.access == FileAccess::Writable
    &&& o.smp_affinity.contents is Contents
    &&& device_hint_of(o.actions, o.name) == Some(a.device_hint@)
}

/// `e` is the failure of a snapshot that did not pass, in check order.
pub open spec fn irq_snapshot_failure(a: IrqAffinityAction, policy: IrqAffinityPolicy, o: IrqObservation, e: ActionSourceError) -> bool {
    let dir = irq_dir_of(a);
    let path = join_path(dir, "smp_affinity"@);
    if !irq_request_passes(a, policy) {
        e matches ActionSourceError::Boundary(b) && irq_request_refusal(a, policy, b)
    } else if critical_irq_hint(a.device_hint@) {
        e matches ActionSourceError::Boundary(b) && is_invalid_request(
            b,
            "irq_affinity"@,
            "refusing to change system-critical IRQ "@ + decimal(a.irq as nat) + " ("@ + a.device_hint@ + ")"@,
        )
    } else if affinity_error(a.smp_affinity@) is Some {
        e matches ActionSourceError::Boundary(b) && is_invalid_value(b, "irq_affinity"@, "smp_affinity"@, affinity_error(a.smp_affinity@)->0)
    } else if !o.dir_exists {
        e matches ActionSourceError::Boundary(ActionBoundaryError::MissingPath { action_kind, path: p }) && action_kind@
            == "irq_affinity"@ && p@ == dir
    } else if o.smp_affinity.access == FileAccess::Missing {
        e matches ActionSourceError::Boundary(ActionBoundaryError::MissingPath { action_kind, path: p }) && action_kind@
            == "irq_affinity"@ && p@ == path
    } else if o.smp_affinity.access is NotWritable {
        e matches ActionSourceError::Message(m) && m@ == "required IRQ affinity file is not writable: "@ + path + ": "@
            + o.smp_affinity.access->error@
    } else if !(o.smp_affinity.contents is Contents) {
        e matches ActionSourceError::Message(m) && m@ == "failed to read "@ + path + ": "@ + match o.smp_affinity.contents {
            FileRead::Failed(x) => x@,
            _ => Seq::empty(),
        }
    } else if device_hint_of(o.actions, o.name) is None {
        e matches ActionSourceError::Boundary(b) && is_invalid_value(b, "irq_affinity"@, "device_hint"@, no_hint_text(dir))
    } else {
        e matches ActionSourceError::Boundary(b) && is_invalid_request(
            b,
            "irq_affinity"@,
            "IRQ "@ + decimal(a.irq as nat) + " device mapping changed: expected "@ + debug_quoted(a.device_hint@)
                + ", actual "@ + debug_quoted(device_hint_of(o.actions, o.name)->0),
        )
    }
}

impl IrqAffinityAction {
    /// Whether applying writes the mask: the IRQ does not hold the requested mask yet
    /// (both taken trimmed).
    pub fn needs_write(&self, snapshot: &IrqAffinitySnapshot) -> (r: bool)
        ensures
            r == (trim(snapshot.smp_affinity@) != trim(self.smp_affinity@)),
    {
        let a = trim_text(snapshot.smp_affinity.as_str());
        let b = trim_text(self.smp_affinity.as_str());
        !str_eq(a.as_str(), b.as_str())
    }

    /// The IRQ's directory.
    pub fn irq_dir(&self) -> (r: String)
        ensures
            r@ == irq_dir_of(*self),
    {
        let n = u64_to_string(self.irq as u64);
        path_join(self.irq_root.as_str(), n.as_str())
    }

    /// The IRQ's `smp_affinity` file.
    pub fn smp_affinity_path(&self) -> (r: String)
        ensures
            r@ == join_path(irq_dir_of(*self), "smp_affinity"@),
    {
        let d = self.irq_dir();
        path_join(d.as_str(), "smp_affinity")
    }

    /// The IRQ as it is now, after checking the request, the mask and the directory.
    pub fn collect_snapshot(&self, policy: &IrqAffinityPolicy, o: &IrqObservation) -> (r: Result<IrqAffinitySnapshot, ActionSourceError>)
        ensures
            irq_snapshot_passes(*self, *policy, *o) <==> r is Ok,
            r matches Err(e) ==> irq_snapshot_failure(*self, *policy, *o, e),
            r matches Ok(s) ==> s.irq == self.irq && s.device_hint@ == self.device_hint@ && s.smp_affinity@ == trim(
                o.smp_affinity.contents->Contents_0@,
            ),
    {
        proof {
            reveal_strlit("smp_affinity");
        }
        match validate_irq_request(self, policy) {
            Err(b) => return Err(ActionSourceError::Boundary(b)),
            Ok(()) => {},
        }
        match validate_irq_identity(self) {
            Err(b) => return Err(ActionSourceError::Boundary(b)),
            Ok(()) => {},
        }
        match validate_affinity_value(self.smp_affinity.as_str()) {
            Err(b) => return Err(ActionSourceError::Boundary(b)),
            Ok(()) => {},
        }
        let dir = self.irq_dir();
        if !o.dir_exists {
            return Err(ActionSourceError::Boundary(ActionBoundaryError::MissingPath { action_kind: "irq_affinity", path: dir }));
        }
        let path = path_join(dir.as_str(), "smp_affinity");
        match &o.smp_affinity.access {
            FileAccess::Missing => {
                return Err(ActionSourceError::Boundary(ActionBoundaryError::MissingPath { action_kind: "irq_affinity", path }));
            },
            FileAccess::NotWritable { error } => {
                let mut m = cat3("required IRQ affinity file is not writable: ", path.as_str(), ": ");
                m.append(error.as_str());
                return Err(ActionSourceError::Message(m));
            },
            FileAccess::Writable => {},
        }
        let current = match read_trimmed(path.as_str(), &o.smp_affinity.contents) {
            Ok(v) => v,
            Err(e) => return Err(e),
        };
        let hint = match read_irq_device_hint(dir.as_str(), &o.actions, &o.name) {
            Ok(h) => h,
            Err(b) => return Err(ActionSourceError::Boundary(b)),
        };
        if !str_eq(hint.as_str(), self.device_hint.as_str()) {
            let n = u64_to_string(self.irq as u64);
            let a = debug_quote(self.device_hint.as_str());
            let b = debug_quote(hint.as_str());
            let mut reason = cat3("IRQ ", n.as_str(), " device mapping changed: expected ");
            reason.append(a.as_str());
            reason.append(", actual ");
            reason.append(b.as_str());
            return Err(ActionSourceError::Boundary(ActionBoundaryError::InvalidRequest { action_kind: "irq_affinity", reason }));
        }
        Ok(IrqAffinitySnapshot { irq: self.irq, device_hint: hint, smp_affinity: current })
    }

    /// The preflight under `policy`: a warning when the IRQ already has the mask.
    pub fn preflight_with_policy(&self, policy: &IrqAffinityPolicy, o: &IrqObservation) -> (r: Result<Vec<ActionWarning>, ActionSourceError>)
        ensures
            irq_snapshot_passes(*self, *policy, *o) <==> r is Ok,
            r matches Err(e) ==> irq_snapshot_failure(*self, *policy, *o, e),
            r matches Ok(w) ==> if trim(o.smp_affinity.contents->Contents_0@) == trim(self.smp_affinity@) {
                w@.len() == 1 && w@[0].message@ == "IRQ "@ + decimal(self.irq as nat) + " already has requested smp_affinity "@
                    + self.smp_affinity@
            } else {
                w@.len() == 0
            },
    {
        let snap = match self.collect_snapshot(policy, o) {
            Ok(s) => s,
            Err(e) => return Err(e),
        };
        let mut warnings: Vec<ActionWarning> = Vec::new();
        let req = trim_text(self.smp_affinity.as_str());
        if str_eq(snap.smp_affinity.as_str(), req.as_str()) {
            let n = u64_to_string(self.irq as u64);
            warnings.push(ActionWarning {
                message: cat4("IRQ ", n.as_str(), " already has requested smp_affinity ", self.smp_affinity.as_str()),
            });
        }
        Ok(warnings)
    }

    /// The dry run under `policy`: one pending change when the mask differs.
    pub fn dry_run_with_policy(&self, policy: &IrqAffinityPolicy, o: &IrqObservation) -> (r: Result<ActionState, ActionSourceError>)
        ensures
            irq_snapshot_passes(*self, *policy, *o) <==> r is Ok,
            r matches Err(e) ==> irq_snapshot_failure(*self, *policy, *o, e),
            r matches Ok(st) ==> !st.applied && st.checked_tasks == 1 && st.pending_changes == (if trim(
                o.smp_affinity.contents->Contents_0@,
            ) != trim(self.smp_affinity@) { 1usize } else { 0usize }) && st.affected_tasks == st.pending_changes
                && st.warnings@.len() == 0,
    {
        let snap = match self.collect_snapshot(policy, o) {
            Ok(s) => s,
            Err(e) => return Err(e),
        };
        let req = trim_text(self.smp_affinity.as_str());
        let pending: usize = if str_eq(snap.smp_affinity.as_str(), req.as_str()) { 0 } else { 1 };
        Ok(ActionState { applied: false, affected_tasks: pending, checked_tasks: 1, pending_changes: pending, warnings: Vec::new() })
    }

    /// The verify phase under `policy`: applied when the mask matches.
    pub fn verify_with_policy(&self, policy: &IrqAffinityPolicy, o: &IrqObservation) -> (r: Result<ActionState, ActionSourceError>)
        ensures
            irq_snapshot_passes(*self, *policy, *o) <==> r is Ok,
            r matches Err(e) ==> irq_snapshot_failure(*self, *policy, *o, e),
            r matches Ok(st) ==> st.affected_tasks == 1 && st.checked_tasks == 1 && st.pending_changes == (if trim(
                o.smp_affinity.contents->Contents_0@,
            ) != trim(self.smp_affinity@) { 1usize } else { 0usize }) && st.applied == (st.pending_changes == 0)
                && st.warnings@.len() == 0,
    {
        let snap = match self.collect_snapshot(policy, o) {
            Ok(s) => s,
            Err(e) => return Err(e),
        };
        let req = trim_text(self.smp_affinity.as_str());
        let pending: usize = if str_eq(snap.smp_affinity.as_str(), req.as_str()) { 0 } else { 1 };
        Ok(ActionState { applied: pending == 0, affected_tasks: 1, checked_tasks: 1, pending_changes: pending, warnings: Vec::new() })
    }
}

/// Checks the mask written by what the file holds afterwards: equal masks after
/// normalisation pass; a failed read or another mask fails the apply.
pub fn check_irq_write(irq: u32, path: &str, requested: &str, after: &FileRead) -> (r: Result<(), ActionSourceError>)
    ensures
        (after matches FileRead::Contents(c) && normal_affinity(trim(c@)) == normal_affinity(requested@)) <==> r is Ok,
        r matches Err(e) ==> match *after {
            FileRead::Contents(c) => e matches ActionSourceError::Boundary(ActionBoundaryError::RestoreFailed { action_kind, message })
                && action_kind@ == "irq_affinity"@ && message@ == "IRQ "@ + decimal(irq as nat)
                + " smp_affinity verification failed: requested="@ + requested@ + " actual="@ + trim(c@),
            FileRead::Failed(x) => e matches ActionSourceError::Message(m) && m@ == "failed to verify IRQ "@ + decimal(irq as nat)
                + " smp_affinity write: failed to read "@ + path@ + ": "@ + x@,
            FileRead::Unread => e matches ActionSourceError::Message(m) && m@ == "failed to verify IRQ "@ + decimal(irq as nat)
                + " smp_affinity write: failed to read "@ + path@ + ": "@,
        },
{
    let n = u64_to_string(irq as u64);
    match after {
        FileRead::Contents(c) => {
            let actual = trim_text(c.as_str());
            let a = normalize_affinity(actual.as_str());
            let b = normalize_affinity(requested);
            if str_eq(a.as_str(), b.as_str()) {
                Ok(())
            } else {
                let mut m = cat3("IRQ ", n.as_str(), " smp_affinity verification failed: requested=");
                m.append(requested);
                m.append(" actual=");
                m.append(actual.as_str());
                Err(ActionSourceError::Boundary(ActionBoundaryError::restore_failed("irq_affinity", m.as_str())))
            }
        },
        FileRead::Failed(x) => {
            let mut m = cat3("failed to verify IRQ ", n.as_str(), " smp_affinity write: failed to read ");
            m.append(path);
            m.append(": ");
            m.append(x.as_str());
            Err(ActionSourceError::Message(m))
        },
        FileRead::Unread => {
            let mut m = cat3("failed to verify IRQ ", n.as_str(), " smp_affinity write: failed to read ");
            m.append(path);
            m.append(": ");
            Err(ActionSourceError::Message(m))
        },
    }
}

impl IrqAffinityAction {
    /// The apply under `policy`: the IRQ is checked as for a preflight; when its mask
    /// differs from the request the mask is written, and `write` tells how that went
    /// (ignored when nothing is written). The token records the mask found.
    pub fn apply_with_policy(
        &self,
        policy: &IrqAffinityPolicy,
        o: &IrqObservation,
        write: &ApplyWrite,
    ) -> (r: Result<RollbackToken, ActionSourceError>)
        ensures
            !irq_snapshot_passes(*self, *policy, *o) ==> (r matches Err(e) && irq_snapshot_failure(*self, *policy, *o, e)),
            irq_snapshot_passes(*self, *policy, *o) ==> {
                let current = trim(o.smp_affinity.contents->Contents_0@);
                let path = join_path(irq_dir_of(*self), "smp_affinity"@);
                if trim(current) == trim(self.smp_affinity@) {
                    irq_apply_token(r, *self, current)
                } else {
                    match *write {
                        ApplyWrite::WriteFailed { error } => r matches Err(ActionSourceError::Message(m)) && m@
                            == "failed to write IRQ "@ + decimal(self.irq as nat) + " smp_affinity: "@ + error@,
                        ApplyWrite::ReadBack(after) => if after matches FileRead::Contents(c) && normal_affinity(trim(c@))
                            == normal_affinity(self.smp_affinity@) {
                            irq_apply_token(r, *self, current)
                        } else {
                            r matches Err(e) && irq_write_failure(e, self.irq, path, self.smp_affinity@, after)
                        },
                    }
                }
            },
    {
        let snap = match self.collect_snapshot(policy, o) {
            Ok(s) => s,
            Err(e) => return Err(e),
        };
        if self.needs_write(&snap) {
            match write {
                ApplyWrite::WriteFailed { error } => {
                    let n = u64_to_string(self.irq as u64);
                    let mut m = cat3("failed to write IRQ ", n.as_str(), " smp_affinity: ");
                    m.append(error.as_str());
                    return Err(ActionSourceError::Message(m));
                },
                ApplyWrite::ReadBack(after) => {
                    let path = self.smp_affinity_path();
                    match check_irq_write(self.irq, path.as_str(), self.smp_affinity.as_str(), after) {
                        Ok(()) => {},
                        Err(e) => return Err(e),
                    }
                },
            }
        }
        let rec = irq_restore_record(&snap);
        let mut records: Vec<IrqAffinityRestoreRecord> = Vec::new();
        records.push(rec);
        Ok(RollbackToken::IrqAffinityRestore { records })
    }
}

/// `r` is the token of an applied IRQ: one record, with the IRQ, its device hint and
/// the mask found.
pub open spec fn irq_apply_token(r: Result<RollbackToken, ActionSourceError>, a: IrqAffinityAction, current: Seq<char>) -> bool {
    r matches Ok(RollbackToken::IrqAffinityRestore { records }) && records@.len() == 1 && records@[0].irq == a.irq
        && records@[0].device_hint@ == a.device_hint@ && records@[0].original_smp_affinity@ == current
}

/// `e` is how a read-back of the mask fails the apply, as `check_irq_write` states it.
pub open spec fn irq_write_failure(e: ActionSourceError, irq: u32, path: Seq<char>, requested: Seq<char>, after: FileRead) -> bool {
    match after {
        FileRead::Contents(c) => e matches ActionSourceError::Boundary(ActionBoundaryError::RestoreFailed { action_kind, message })
            && action_kind@ == "irq_affinity"@ && message@ == "IRQ "@ + decimal(irq as nat)
            + " smp_affinity verification failed: requested="@ + requested + " actual="@ + trim(c@),
        FileRead::Failed(x) => e matches ActionSourceError::Message(m) && m@ == "failed to verify IRQ "@ + decimal(irq as nat)
            + " smp_affinity write: failed to read "@ + path + ": "@ + x@,
        FileRead::Unread => e matches ActionSourceError::Message(m) && m@ == "failed to verify IRQ "@ + decimal(irq as nat)
            + " smp_affinity write: failed to read "@ + path + ": "@,
    }
}

/// The record applying keeps: the IRQ, its device hint and its mask before the write.
pub fn irq_restore_record(snap: &IrqAffinitySnapshot) -> (r: IrqAffinityRestoreRecord)
    ensures
        r.irq == snap.irq,
        r.device_hint == snap.device_hint,
        r.original_smp_affinity == snap.smp_affinity,
{
    IrqAffinityRestoreRecord {
        irq: snap.irq,
        device_hint: snap.device_hint.clone(),
        original_smp_affinity: snap.smp_affinity.clone(),
    }
}

/// What procfs shows of a recorded IRQ during a rollback, and how the write back went
/// (`write_error`: the write's error, if it was made and failed; `read_back`: what the
/// file held afterwards).
#[derive(Debug, Clone, PartialEq, Eq)]
pub struct IrqRollbackObservation {
    pub dir_exists: bool,
    pub actions: FileRead,
    pub name: FileRead,
    pub write_error: Option<String>,
    pub read_back: FileRead,
}

/// The text a device hint that could not be read is reported with.
pub open spec fn unreadable_hint_text(dir: Seq<char>) -> Seq<char> {
    "action_invalid_value: "@ + "irq_affinity"@ + " field "@ + "device_hint"@ + ": "@ + no_hint_text(dir)
}

/// The failure the action's rollback reports for one record, if any.
pub open spec fn irq_rollback_failure(root: Seq<char>, rec: IrqAffinityRestoreRecord, o: IrqRollbackObservation) -> Option<Seq<char>> {
    let irq = decimal(rec.irq as nat);
    let dir = join_path(root, irq);
    let path = join_path(dir, "smp_affinity"@);
    if !o.dir_exists {
        Some("IRQ "@ + irq + " directory disappeared"@)
    } else if device_hint_of(o.actions, o.name) is None {
        Some("IRQ "@ + irq + " device mapping unreadable during rollback: "@ + unreadable_hint_text(dir))
    } else if device_hint_of(o.actions, o.name)->0 != rec.device_hint@ {
        Some("IRQ "@ + irq + " device mapping changed during rollback: expected "@ + debug_quoted(rec.device_hint@)
            + ", actual "@ + debug_quoted(device_hint_of(o.actions, o.name)->0))
    } else if o.write_error is Some {
        Some("IRQ "@ + irq + " rollback write failed for "@ + path + ": failed to write "@ + trim(rec.original_smp_affinity@)
            + " to "@ + path + ": "@ + o.write_error->0@)
    } else {
        match o.read_back {
            FileRead::Contents(c) => if normal_affinity(trim(c@)) == normal_affinity(rec.original_smp_affinity@) {
                None
            } else {
                Some("IRQ "@ + irq + " rollback verification failed: requested="@ + rec.original_smp_affinity@ + " actual="@ + trim(c@))
            },
            FileRead::Failed(x) => Some("IRQ "@ + irq + " rollback verification read failed: failed to read "@ + path + ": "@ + x@),
            FileRead::Unread => Some("IRQ "@ + irq + " rollback verification read failed: failed to read "@ + path + ": "@),
        }
    }
}

/// The failure of one record, if any.
pub fn irq_rollback_record_failure(root: &str, rec: &IrqAffinityRestoreRecord, o: &IrqRollbackObservation) -> (r: Option<String>)
    ensures
        crate::sysfs::opt_text_eq(r, irq_rollback_failure(root@, *rec, *o)),
{
    proof {
        reveal_strlit("smp_affinity");
    }
    let irq = u64_to_string(rec.irq as u64);
    let dir = path_join(root, irq.as_str());
    let path = path_join(dir.as_str(), "smp_affinity");
    if !o.dir_exists {
        return Some(cat3("IRQ ", irq.as_str(), " directory disappeared"));
    }
    match read_irq_device_hint(dir.as_str(), &o.actions, &o.name) {
        Err(b) => {
            let t = b.message();
            let mut m = cat3("IRQ ", irq.as_str(), " device mapping unreadable during rollback: ");
            m.append(t.as_str());
            return Some(m);
        },
        Ok(h) => {
            if !str_eq(h.as_str(), rec.device_hint.as_str()) {
                let a = debug_quote(rec.device_hint.as_str());
                let b = debug_quote(h.as_str());
                let mut m = cat3("IRQ ", irq.as_str(), " device mapping changed during rollback: expected ");
                m.append(a.as_str());
                m.append(", actual ");
                m.append(b.as_str());
                return Some(m);
            }
        },
    }
    match &o.write_error {
        Some(e) => {
            let v = trim_text(rec.original_smp_affinity.as_str());
            let mut m = cat4("IRQ ", irq.as_str(), " rollback write failed for ", path.as_str());
            m.append(": failed to write ");
            m.append(v.as_str());
            m.append(" to ");
            m.append(path.as_str());
            m.append(": ");
            m.append(e.as_str());
            return Some(m);
        },
        None => {},
    }
    match &o.read_back {
        FileRead::Contents(c) => {
            let actual = trim_text(c.as_str());
            let a = normalize_affinity(actual.as_str());
            let b = normalize_affinity(rec.original_smp_affinity.as_str());
            if str_eq(a.as_str(), b.as_str()) {
                None
            } else {
                let mut m = cat3("IRQ ", irq.as_str(), " rollback verification failed: requested=");
                m.append(rec.original_smp_affinity.as_str());
                m.append(" actual=");
                m.append(actual.as_str());
                Some(m)
            }
        },
        FileRead::Failed(x) => {
            let mut m = cat4("IRQ ", irq.as_str(), " rollback verification read failed: failed to read ", path.as_str());
            m.append(": ");
            m.append(x.as_str());
            Some(m)
        },
        FileRead::Unread => {
            let mut m = cat4("IRQ ", irq.as_str(), " rollback verification read failed: failed to read ", path.as_str());
            m.append(": ");
            Some(m)
        },
    }
}

/// The observation of the `i`th record, or one of a vanished directory.
pub open spec fn irq_obs_at(obs: Seq<IrqRollbackObservation>, i: int) -> IrqRollbackObservation {
    if 0 <= i < obs.len() {
        obs[i]
    } else {
        IrqRollbackObservation {
            dir_exists: false,
            actions: FileRead::Unread,
            name: FileRead::Unread,
            write_error: None,
            read_back: FileRead::Unread,
        }
    }
}

/// The failures of the first `n` records, in order.
pub open spec fn irq_rollback_failures(root: Seq<char>, recs: Seq<IrqAffinityRestoreRecord>, obs: Seq<IrqRollbackObservation>, n: int) -> Seq<Seq<char>>
    decreases n,
{
    if n <= 0 {
        Seq::empty()
    } else {
        let rest = irq_rollback_failures(root, recs, obs, n - 1);
        match irq_rollback_failure(root, recs[n - 1], irq_obs_at(obs, n - 1)) {
            Some(f) => rest.push(f),
            None => rest,
        }
    }
}

impl IrqAffinityAction {
    /// The outcome of the action's rollback of `token`, given what was observed of each
    /// record (the `i`th observation belongs to the `i`th record): a restore failure
    /// naming every record that did not come back.
    pub fn rollback_outcome(&self, token: &RollbackToken, obs: &Vec<IrqRollbackObservation>) -> (r: Result<(), ActionSourceError>)
        ensures
            match *token {
                RollbackToken::IrqAffinityRestore { records } => {
                    let f = irq_rollback_failures(self.irq_root@, records@, obs@, records@.len() as int);
                    &&& f.len() == 0 <==> r is Ok
                    &&& r matches Err(e) ==> (e matches ActionSourceError::Boundary(ActionBoundaryError::RestoreFailed { action_kind, message })
                        && action_kind@ == "irq_affinity"@ && message@ == "failed to rollback IRQ affinity: "@ + join(f, "; "@))
                },
                _ => r matches Err(e) && is_wrong_token_for(e, "irq-affinity-restore"@, *token),
            },
    {
        let records = match token.as_irq_affinity_restore() {
            Some(r) => r,
            None => return Err(ActionSourceError::Action(ActionError::invalid_rollback_token_kind(token.kind_error("irq-affinity-restore")))),
        };
        let mut failures: Vec<String> = Vec::new();
        let mut i: usize = 0;
        while i < records.len()
            invariant
                0 <= i <= records@.len(),
                views(failures@) == irq_rollback_failures(self.irq_root@, records@, obs@, i as int),
            decreases records@.len() - i,
        {
            let vanished = IrqRollbackObservation {
                dir_exists: false,
                actions: FileRead::Unread,
                name: FileRead::Unread,
                write_error: None,
                read_back: FileRead::Unread,
            };
            let o: &IrqRollbackObservation = if i < obs.len() { &obs[i] } else { &vanished };
            assert(*o == irq_obs_at(obs@, i as int));
            let ghost before = failures@;
            match irq_rollback_record_failure(self.irq_root.as_str(), &records[i], o) {
                Some(f) => {
                    failures.push(f);
                    assert(views(failures@) =~= views(before).push(irq_rollback_failure(self.irq_root@, records@[i as int], *o)->0));
                },
                None => {},
            }
            i = i + 1;
        }
        if failures.len() == 0 {
            return Ok(());
        }
        let joined = join_strings(&failures, "; ");
        let m = cat("failed to rollback IRQ affinity: ", joined.as_str());
        Err(ActionSourceError::Boundary(ActionBoundaryError::restore_failed("irq_affinity", m.as_str())))
    }
}

/// What the IRQ affinity rollback handler previews: its own tokens only.
pub fn irq_handler_dry_run_token(token: &RollbackToken) -> (r: Result<RollbackPreview, ActionBoundaryError>)
    ensures
        token_kind(*token) != "irq-affinity-restore"@ ==> (r matches Err(e) && is_unsupported_token(
            e,
            "irq-affinity-rollback",
            "irq-affinity-restore",
            token_kind(*token),
        )),
        token_kind(*token) == "irq-affinity-restore"@ ==> (r matches Ok(p) && is_token_preview(
            p,
            "irq-affinity-rollback",
            "irq-affinity-restore"@,
            *token,
        )),
{
    token_handler_dry_run("irq-affinity-rollback", "irq-affinity-restore", token)
}


/// What the IRQ affinity rollback handler makes of one record of a token: skipped with a
/// message, restored, or a failed write that stops the restore.
pub enum IrqHandlerStep {
    Skipped(Seq<char>),
    Restored,
    Failed(Seq<char>),
}

/// The handler's step for record `rec`, given what was observed of its IRQ directory
/// under `/proc/irq` and, where the write was made, its error.
pub open spec fn irq_handler_step(rec: IrqAffinityRestoreRecord, o: IrqRollbackObservation) -> IrqHandlerStep {
    let irq = decimal(rec.irq as nat);
    let dir = join_path("/proc/irq"@, irq);
    let path = join_path(dir, "smp_affinity"@);
    if !o.dir_exists {
        IrqHandlerStep::Skipped("IRQ "@ + irq + " directory disappeared"@)
    } else if device_hint_of(o.actions, o.name) is None {
        IrqHandlerStep::Skipped("IRQ "@ + irq + " device mapping unreadable during rollback: "@ + unreadable_hint_text(dir))
    } else if device_hint_of(o.actions, o.name)->0 != rec.device_hint@ {
        IrqHandlerStep::Skipped("IRQ "@ + irq + " device mapping changed: expected "@ + debug_quoted(rec.device_hint@)
            + ", actual "@ + debug_quoted(device_hint_of(o.actions, o.name)->0))
    } else if o.write_error is Some {
        IrqHandlerStep::Failed("failed to restore IRQ "@ + irq + " smp_affinity via "@ + path + ": failed to write "@
            + trim(rec.original_smp_affinity@) + " to "@ + path + ": "@ + o.write_error->0@)
    } else {
        IrqHandlerStep::Restored
    }
}

/// The restored count, skipped count and messages over the first `n` records, or the
/// first failed write's text.
pub open spec fn irq_handler_upto(
    recs: Seq<IrqAffinityRestoreRecord>,
    obs: Seq<IrqRollbackObservation>,
    n: int,
) -> Result<(nat, nat, Seq<Seq<char>>), Seq<char>>
    decreases n,
{
    if n <= 0 {
        Ok((0, 0, Seq::empty()))
    } else {
        match irq_handler_upto(recs, obs, n - 1) {
            Err(m) => Err(m),
            Ok((restored, skipped, msgs)) => match irq_handler_step(recs[n - 1], irq_obs_at(obs, n - 1)) {
                IrqHandlerStep::Skipped(m) => Ok((restored, skipped + 1, msgs.push(m))),
                IrqHandlerStep::Restored => Ok((restored + 1, skipped, msgs)),
                IrqHandlerStep::Failed(m) => Err(m),
            },
        }
    }
}

proof fn lemma_irq_handler_bound(recs: Seq<IrqAffinityRestoreRecord>, obs: Seq<IrqRollbackObservation>, n: int)
    requires
        0 <= n,
    ensures
        irq_handler_upto(recs, obs, n) matches Ok((a, b, _)) ==> a + b <= n,
    decreases n,
{
    if n > 0 {
        lemma_irq_handler_bound(recs, obs, n - 1);
    }
}

proof fn lemma_irq_handler_err_stays(recs: Seq<IrqAffinityRestoreRecord>, obs: Seq<IrqRollbackObservation>, k: int, n: int)
    requires
        0 <= k <= n,
        irq_handler_upto(recs, obs, k) is Err,
    ensures
        irq_handler_upto(recs, obs, n) == irq_handler_upto(recs, obs, k),
    decreases n - k,
{
    if k < n {
        lemma_irq_handler_err_stays(recs, obs, k, n - 1);
    }
}

/// The handler's step for one record, as exec values: `Ok(None)` restored, `Ok(Some(m))`
/// skipped with `m`, `Err(m)` a failed write.
fn irq_handler_record(rec: &IrqAffinityRestoreRecord, o: &IrqRollbackObservation) -> (r: Result<Option<String>, String>)
    ensures
        match irq_handler_step(*rec, *o) {
            IrqHandlerStep::Skipped(m) => r matches Ok(Some(x)) && x@ == m,
            IrqHandlerStep::Restored => r matches Ok(None),
            IrqHandlerStep::Failed(m) => r matches Err(x) && x@ == m,
        },
{
    proof {
        reveal_strlit("smp_affinity");
    }
    let irq = u64_to_string(rec.irq as u64);
    let dir = path_join("/proc/irq", irq.as_str());
    if !o.dir_exists {
        return Ok(Some(cat3("IRQ ", irq.as_str(), " directory disappeared")));
    }
    match read_irq_device_hint(dir.as_str(), &o.actions, &o.name) {
        Err(b) => {
            let t = b.message();
            let mut m = cat3("IRQ ", irq.as_str(), " device mapping unreadable during rollback: ");
            m.append(t.as_str());
            return Ok(Some(m));
        },
        Ok(h) => {
            if !str_eq(h.as_str(), rec.device_hint.as_str()) {
                let a = debug_quote(rec.device_hint.as_str());
                let b = debug_quote(h.as_str());
                let mut m = cat3("IRQ ", irq.as_str(), " device mapping changed: expected ");
                m.append(a.as_str());
                m.append(", actual ");
                m.append(b.as_str());
                return Ok(Some(m));
            }
        },
    }
    match &o.write_error {
        Some(e) => {
            let path = path_join(dir.as_str(), "smp_affinity");
            let v = trim_text(rec.original_smp_affinity.as_str());
            let mut m = cat4("failed to restore IRQ ", irq.as_str(), " smp_affinity via ", path.as_str());
            m.append(": failed to write ");
            m.append(v.as_str());
            m.append(" to ");
            m.append(path.as_str());
            m.append(": ");
            m.append(e.as_str());
            Err(m)
        },
        None => Ok(None),
    }
}

/// An exact copy of a file read.
fn copy_file_read(f: &FileRead) -> (r: FileRead)
    ensures
        r == *f,
{
    match f {
        FileRead::Contents(c) => FileRead::Contents(c.clone()),
        FileRead::Failed(e) => FileRead::Failed(e.clone()),
        FileRead::Unread => FileRead::Unread,
    }
}

/// Whether the handler writes record `rec` back, given what was observed of its IRQ
/// directory: it does unless the record is skipped (whatever the write would give).
pub fn irq_handler_writes(rec: &IrqAffinityRestoreRecord, o: &IrqRollbackObservation) -> (r: bool)
    ensures
        r == !(irq_handler_step(*rec, *o) is Skipped),
{
    let probe = IrqRollbackObservation {
        dir_exists: o.dir_exists,
        actions: copy_file_read(&o.actions),
        name: copy_file_read(&o.name),
        write_error: None,
        read_back: FileRead::Unread,
    };
    assert(irq_handler_step(*rec, probe) is Skipped == irq_handler_step(*rec, *o) is Skipped);
    match irq_handler_record(rec, &probe) {
        Ok(Some(_)) => false,
        _ => true,
    }
}

/// What the IRQ affinity rollback handler's restore of `token` comes to, given what was
/// observed of each record (the `i`th observation belongs to the `i`th record): records
/// whose IRQ vanished or changed device are skipped with a message, the others are
/// written back, and the first failed write fails the restore.
pub fn irq_handler_restore_token(token: &RollbackToken, obs: &Vec<IrqRollbackObservation>) -> (r: Result<
    RollbackResult,
    ActionSourceError,
>)
    ensures
        match *token {
            RollbackToken::IrqAffinityRestore { records } => match irq_handler_upto(
                records@,
                obs@,
                records@.len() as int,
            ) {
                Err(m) => r matches Err(ActionSourceError::Message(x)) && x@ == m,
                Ok((restored, skipped, msgs)) => r matches Ok(res) && {
                    &&& res.handler_id == "irq-affinity-rollback"
                    &&& res.restore_path@ == Seq::<char>::empty()
                    &&& res.restored == restored
                    &&& res.skipped_dead == skipped
                    &&& res.skipped_identity_mismatch == 0
                    &&& res.legacy_unverified == 0
                    &&& res.errors == 0
                    &&& views(res.messages@) == msgs
                },
            },
            _ => r matches Err(ActionSourceError::Boundary(e)) && is_unsupported_token(
                e,
                "irq-affinity-rollback",
                "irq-affinity-restore",
                token_kind(*token),
            ),
        },
{
    let records = match token.as_irq_affinity_restore() {
        Some(r) => r,
        None => return Err(
            ActionSourceError::Boundary(
                ActionBoundaryError::unsupported_rollback_token(
                    "irq-affinity-rollback",
                    "irq-affinity-restore",
                    token.kind(),
                ),
            ),
        ),
    };
    let mut restored: usize = 0;
    let mut skipped: usize = 0;
    let mut messages: Vec<String> = Vec::new();
    let mut i: usize = 0;
    while i < records.len()
        invariant
            0 <= i <= records@.len(),
            *token == (RollbackToken::IrqAffinityRestore { records: *records }),
            irq_handler_upto(records@, obs@, i as int) matches Ok((a, b, m)) && restored == a && skipped == b
                && views(messages@) == m,
        decreases records@.len() - i,
    {
        proof {
            lemma_irq_handler_bound(records@, obs@, i as int);
        }
        let vanished = IrqRollbackObservation {
            dir_exists: false,
            actions: FileRead::Unread,
            name: FileRead::Unread,
            write_error: None,
            read_back: FileRead::Unread,
        };
        let o: &IrqRollbackObservation = if i < obs.len() { &obs[i] } else { &vanished };
        assert(*o == irq_obs_at(obs@, i as int));
        let ghost before = messages@;
        match irq_handler_record(&records[i], o) {
            Ok(Some(m)) => {
                skipped = skipped + 1;
                messages.push(m);
                assert(views(messages@) =~= views(before).push(messages@.last()@));
            },
            Ok(None) => {
                restored = restored + 1;
            },
            Err(m) => {
                proof {
                    lemma_irq_handler_err_stays(records@, obs@, i + 1, records@.len() as int);
                }
                return Err(ActionSourceError::Message(m));
            },
        }
        i = i + 1;
    }
    Ok(token_restore_result("irq-affinity-rollback", token, restored, skipped, messages))
}

} // verus!
