//! Cgroup placement: the path rules for cgroup paths (normalisation, resolution under
//! the cgroup root), the validation of a placement request, and what placing explicit
//! tasks checks, reports and records for its rollback.
use vstd::prelude::*;

use crate::error::{
    context_ok, with_context, is_invalid_policy, is_wrong_token_for, source_text, ActionError, PartialApplyError, is_invalid_request, is_invalid_value, is_missing_targets, is_policy_denied,
    ActionBoundaryError, ActionSourceError,
};
use crate::model::{
    copy_opt_string, ActionId, ActionState, ActionWarning, CgroupCpusetRestoreRecord,
    CgroupRestoreRecord, SafetyClass, TaskIdentity, TaskRestoreIdentity,
};
use crate::token::RollbackToken;
use crate::rollback::{cap, RollbackResult};
use crate::restore::{counts_match, RestoreCounts, TaskRestoreEvent};
use crate::tasks::{
    append_warnings, check_task_target, comm_value, identity_warning_texts, identity_warnings, target_check_ok,
    target_passes, task_file, task_file_path, warning_texts, ObservedTask, TaskObservation,
};
use crate::text::{
    cat, cat3, cat4, debug_char, debug_char_text, is_digit_char, join, join_path, join_strings,
    path_join, push_char, str_eq, trim, trim_text, views, decimal, decimal_list, join_u64s,
    u64_to_string, opt_text,
};
use crate::procfs::{last_index_of, rfind_char};
use vstd::utf8::encode_utf8;

verus! {

/// The scan of a path's characters so far: the parts completed and the part being read.
pub open spec fn scan_parts(s: Seq<char>) -> (Seq<Seq<char>>, Seq<char>)
    decreases s.len(),
{
    if s.len() == 0 {
        (Seq::empty(), Seq::empty())
    } else {
        let (acc, cur) = scan_parts(s.drop_last());
        if s.last() == '/' {
            (flush_part(acc, cur), Seq::empty())
        } else {
            (acc, cur.push(s.last()))
        }
    }
}

/// A part read between separators joins the parts unless it is empty or `.`.
pub open spec fn flush_part(acc: Seq<Seq<char>>, cur: Seq<char>) -> Seq<Seq<char>> {
    if cur.len() == 0 || cur == seq!['.'] {
        acc
    } else {
        acc.push(cur)
    }
}

/// The named parts of a path (its components other than the root and `.`), as
/// `Path::components` yields them on Linux: runs between `/` separators, with empty runs
/// and `.` left out (`..` stays).
pub open spec fn path_parts(s: Seq<char>) -> Seq<Seq<char>> {
    flush_part(scan_parts(s).0, scan_parts(s).1)
}

/// Whether a path is absolute.
pub open spec fn path_is_absolute(s: Seq<char>) -> bool {
    s.len() > 0 && s[0] == '/'
}

/// Whether a relative path starts with a `.` component.
pub open spec fn path_leading_dot(s: Seq<char>) -> bool {
    !path_is_absolute(s) && s.len() > 0 && s[0] == '.' && (s.len() == 1 || s[1] == '/')
}

/// The components of a path: `/` for the root, `.` for a leading current directory, then
/// the named parts.
pub open spec fn path_comps(s: Seq<char>) -> Seq<Seq<char>> {
    if path_is_absolute(s) {
        seq![seq!['/']] + path_parts(s)
    } else if path_leading_dot(s) {
        seq![seq!['.']] + path_parts(s)
    } else {
        path_parts(s)
    }
}

/// Whether the components of `root` begin those of `path` (`Path::starts_with`).
pub open spec fn path_starts_with(path: Seq<char>, root: Seq<char>) -> bool {
    path_comps(root).len() <= path_comps(path).len() && path_comps(path).take(
        path_comps(root).len() as int,
    ) == path_comps(root)
}

/// Whether any part is `..`.
pub open spec fn has_parent_part(parts: Seq<Seq<char>>) -> bool {
    exists|i: int| 0 <= i < parts.len() && #[trigger] parts[i] == seq!['.', '.']
}

/// The normal form of a cgroup path: `/` and its parts joined with `/`; a path with a
/// `..` part has none.
pub open spec fn normalized(s: Seq<char>) -> Option<Seq<char>> {
    if has_parent_part(path_parts(s)) {
        None
    } else {
        Some("/"@ + join(path_parts(s), "/"@))
    }
}

/// A part the scan can yield: not empty, not `.`, and without `/`.
pub open spec fn valid_part(p: Seq<char>) -> bool {
    p.len() > 0 && p != seq!['.'] && !p.contains('/')
}

/// The scan only yields valid parts, and the part being read holds no `/`.
proof fn lemma_scan_valid(s: Seq<char>)
    ensures
        forall|i: int| 0 <= i < scan_parts(s).0.len() ==> valid_part(#[trigger] scan_parts(s).0[i]),
        !scan_parts(s).1.contains('/'),
    decreases s.len(),
{
    if s.len() > 0 {
        lemma_scan_valid(s.drop_last());
        let (acc, cur) = scan_parts(s.drop_last());
        if s.last() != '/' {
            assert forall|c: char| cur.push(s.last()).contains(c) implies c != '/' by {
                let k = choose|k: int| 0 <= k < cur.push(s.last()).len() && cur.push(s.last())[k] == c;
                if k < cur.len() {
                    assert(cur.contains(cur[k]));
                }
            }
        }
    }
}

/// Reading characters without `/` only extends the part being read.
proof fn lemma_scan_append_part(s: Seq<char>, t: Seq<char>)
    requires
        !t.contains('/'),
    ensures
        scan_parts(s + t) == (scan_parts(s).0, scan_parts(s).1 + t),
    decreases t.len(),
{
    if t.len() == 0 {
        assert(s + t =~= s);
        assert(scan_parts(s).1 + t =~= scan_parts(s).1);
    } else {
        let u = t.drop_last();
        assert(!u.contains('/')) by {
            if u.contains('/') {
                let k = choose|k: int| 0 <= k < u.len() && u[k] == '/';
                assert(t[k] == '/');
            }
        }
        lemma_scan_append_part(s, u);
        assert((s + t).drop_last() =~= s + u);
        assert((s + t).last() == t.last());
        assert(t.last() != '/') by {
            assert(t[t.len() - 1] == t.last());
        }
        assert((scan_parts(s).1 + u).push(t.last()) =~= scan_parts(s).1 + t);
    }
}

/// The scan of the root path has read nothing.
proof fn lemma_scan_root()
    ensures
        scan_parts(seq!['/']) == (Seq::<Seq<char>>::empty(), Seq::<char>::empty()),
{
    let r = seq!['/'];
    assert(r.drop_last() =~= Seq::<char>::empty());
    assert(r.last() == '/');
    assert(scan_parts(Seq::<char>::empty()) == (Seq::<Seq<char>>::empty(), Seq::<char>::empty()));
    assert(flush_part(Seq::<Seq<char>>::empty(), Seq::<char>::empty()) == Seq::<Seq<char>>::empty());
}

/// The scan of `/` followed by valid parts joined with `/` has read every part but the
/// last, and is reading the last.
proof fn lemma_scan_joined(ps: Seq<Seq<char>>)
    requires
        ps.len() > 0,
        forall|i: int| 0 <= i < ps.len() ==> valid_part(#[trigger] ps[i]),
    ensures
        scan_parts("/"@ + join(ps, "/"@)) == (ps.drop_last(), ps.last()),
    decreases ps.len(),
{
    reveal_strlit("/");
    let p = ps.last();
    assert(valid_part(ps[ps.len() - 1]));
    if ps.len() == 1 {
        assert(join(ps, "/"@) == ps[0]);
        lemma_scan_root();
        lemma_scan_append_part(seq!['/'], p);
        assert("/"@ + join(ps, "/"@) =~= seq!['/'] + p);
        assert(Seq::<char>::empty() + p =~= p);
        assert(ps.drop_last() =~= Seq::<Seq<char>>::empty());
    } else {
        let qs = ps.drop_last();
        assert forall|i: int| 0 <= i < qs.len() implies valid_part(#[trigger] qs[i]) by {
            assert(qs[i] == ps[i]);
        }
        lemma_scan_joined(qs);
        let x = "/"@ + join(qs, "/"@);
        let y = x.push('/');
        assert(y.drop_last() =~= x);
        assert(scan_parts(y) == (flush_part(qs.drop_last(), qs.last()), Seq::<char>::empty()));
        assert(valid_part(qs[qs.len() - 1]));
        assert(flush_part(qs.drop_last(), qs.last()) =~= qs);
        lemma_scan_append_part(y, p);
        assert("/"@ + join(ps, "/"@) =~= y + p);
        assert(Seq::<char>::empty() + p =~= p);
    }
}

/// The parts of a path read back from its normal form are its parts.
proof fn lemma_parts_of_joined(ps: Seq<Seq<char>>)
    requires
        forall|i: int| 0 <= i < ps.len() ==> valid_part(#[trigger] ps[i]),
    ensures
        path_parts("/"@ + join(ps, "/"@)) == ps,
{
    reveal_strlit("/");
    if ps.len() == 0 {
        assert("/"@ + join(ps, "/"@) =~= seq!['/']);
        lemma_scan_root();
        assert(path_parts(seq!['/']) =~= ps);
    } else {
        lemma_scan_joined(ps);
        assert(valid_part(ps[ps.len() - 1]));
        assert(ps.drop_last().push(ps.last()) =~= ps);
    }
}

/// Normalizing a normal form changes nothing: the normal form of a cgroup path is
/// its own normal form.
pub proof fn lemma_normalize_idempotent(s: Seq<char>)
    requires
        normalized(s) is Some,
    ensures
        normalized(normalized(s)->0) == normalized(s),
{
    lemma_scan_valid(s);
    let ps = path_parts(s);
    let (acc, cur) = scan_parts(s);
    assert forall|i: int| 0 <= i < ps.len() implies valid_part(#[trigger] ps[i]) by {
        if cur.len() == 0 || cur == seq!['.'] {
            assert(ps == acc);
        } else {
            assert(ps == acc.push(cur));
            if i == acc.len() {
                assert(ps[i] == cur);
            } else {
                assert(ps[i] == acc[i]);
            }
        }
    }
    lemma_parts_of_joined(ps);
}

/// The error text for a cgroup path with a `..` part.
pub open spec fn traversal_text(path: Seq<char>) -> Seq<char> {
    "cgroup path must not contain parent traversal: "@ + path
}

fn flush(acc: &mut Vec<String>, cur: String)
    ensures
        views(final(acc)@) == flush_part(views(old(acc)@), cur@),
{
    let ghost before = acc@;
    let n = cur.unicode_len();
    if n == 0 {
        return;
    }
    if n == 1 && cur.get_char(0) == '.' {
        assert(cur@ =~= seq!['.']);
        return;
    }
    assert(cur@ != seq!['.']) by {
        if cur@ == seq!['.'] {
            assert(cur@.len() == 1 && cur@[0] == '.');
        }
    }
    acc.push(cur);
    assert(views(acc@) =~= views(before).push(cur@));
}

/// The named parts of a path.
pub fn path_parts_of(s: &str) -> (r: Vec<String>)
    ensures
        views(r@) == path_parts(s@),
{
    let n = s.unicode_len();
    let mut acc: Vec<String> = Vec::new();
    let mut cur = String::new();
    let mut i: usize = 0;
    assert(s@.subrange(0, 0) =~= Seq::<char>::empty());
    assert(views(acc@) =~= Seq::<Seq<char>>::empty());
    while i < n
        invariant
            n == s@.len(),
            0 <= i <= n,
            (views(acc@), cur@) == scan_parts(s@.subrange(0, i as int)),
        decreases n - i,
    {
        let c = s.get_char(i);
        proof {
            assert(s@.subrange(0, i + 1).drop_last() =~= s@.subrange(0, i as int));
            assert(s@.subrange(0, i + 1).last() == c);
        }
        if c == '/' {
            let done = cur;
            cur = String::new();
            flush(&mut acc, done);
            assert(cur@ =~= Seq::<char>::empty());
        } else {
            push_char(&mut cur, c);
        }
        i = i + 1;
    }
    assert(s@.subrange(0, n as int) =~= s@);
    flush(&mut acc, cur);
    acc
}

/// The components of a path.
pub fn path_components(s: &str) -> (r: Vec<String>)
    ensures
        views(r@) == path_comps(s@),
{
    proof {
        reveal_strlit("/");
        reveal_strlit(".");
    }
    let parts = path_parts_of(s);
    let n = s.unicode_len();
    let mut out: Vec<String> = Vec::new();
    let ghost lead: Seq<Seq<char>> = if path_is_absolute(s@) {
        seq![seq!['/']]
    } else if path_leading_dot(s@) {
        seq![seq!['.']]
    } else {
        Seq::empty()
    };
    if n > 0 && s.get_char(0) == '/' {
        out.push("/".to_owned());
        assert("/"@ =~= seq!['/']);
    } else if n > 0 && s.get_char(0) == '.' && (n == 1 || s.get_char(1) == '/') {
        out.push(".".to_owned());
        assert("."@ =~= seq!['.']);
    }
    assert(views(out@) =~= lead);
    let mut i: usize = 0;
    while i < parts.len()
        invariant
            0 <= i <= parts@.len(),
            views(out@) =~= lead + views(parts@).take(i as int),
        decreases parts@.len() - i,
    {
        let ghost before = out@;
        out.push(parts[i].clone());
        assert(views(out@) =~= views(before).push(parts@[i as int]@));
        assert(views(parts@).take(i + 1) =~= views(parts@).take(i as int).push(parts@[i as int]@));
        i = i + 1;
    }
    assert(views(parts@).take(parts@.len() as int) =~= views(parts@));
    out
}

/// Whether the components of `root` begin those of `path`.
pub fn starts_with_path(path: &str, root: &str) -> (r: bool)
    ensures
        r == path_starts_with(path@, root@),
{
    let pc = path_components(path);
    let rc = path_components(root);
    if rc.len() > pc.len() {
        return false;
    }
    let mut i: usize = 0;
    while i < rc.len()
        invariant
            rc@.len() <= pc@.len(),
            0 <= i <= rc@.len(),
            forall|j: int| 0 <= j < i ==> views(pc@)[j] == views(rc@)[j],
            views(pc@) == path_comps(path@),
            views(rc@) == path_comps(root@),
        decreases rc@.len() - i,
    {
        if !str_eq(pc[i].as_str(), rc[i].as_str()) {
            assert(views(pc@)[i as int] == pc@[i as int]@);
            assert(views(rc@)[i as int] == rc@[i as int]@);
            assert(views(pc@).take(rc@.len() as int)[i as int] != views(rc@)[i as int]);
            return false;
        }
        i = i + 1;
    }
    assert(views(pc@).take(rc@.len() as int) =~= views(rc@));
    true
}

/// Whether a part is `..`.
fn is_parent(part: &String) -> (r: bool)
    ensures
        r == (part@ == seq!['.', '.']),
{
    let n = part.unicode_len();
    if n == 2 && part.get_char(0) == '.' && part.get_char(1) == '.' {
        assert(part@ =~= seq!['.', '.']);
        true
    } else {
        false
    }
}

/// Whether any of `parts` is `..`.
fn any_parent(parts: &Vec<String>) -> (r: bool)
    ensures
        r == has_parent_part(views(parts@)),
{
    let mut i: usize = 0;
    while i < parts.len()
        invariant
            0 <= i <= parts@.len(),
            forall|j: int| 0 <= j < i ==> views(parts@)[j] != seq!['.', '.'],
        decreases parts@.len() - i,
    {
        if is_parent(&parts[i]) {
            assert(views(parts@)[i as int] == seq!['.', '.']);
            return true;
        }
        i = i + 1;
    }
    false
}

/// The normal form of a cgroup path: `/` and its named parts; a `..` part is refused.
pub fn normalize_cgroup_path(path: &str) -> (r: Result<String, ActionSourceError>)
    ensures
        match normalized(path@) {
            Some(n) => r matches Ok(s) && s@ == n,
            None => r matches Err(ActionSourceError::Message(m)) && m@ == traversal_text(path@),
        },
{
    let parts = path_parts_of(path);
    if any_parent(&parts) {
        return Err(ActionSourceError::Message(cat("cgroup path must not contain parent traversal: ", path)));
    }
    let joined = join_strings(&parts, "/");
    Ok(cat("/", joined.as_str()))
}

/// A path without its leading `/` characters.
pub open spec fn strip_leading_slashes(s: Seq<char>) -> Seq<char>
    decreases s.len(),
{
    if s.len() > 0 && s[0] == '/' {
        strip_leading_slashes(s.drop_first())
    } else {
        s
    }
}

/// A cgroup path relative to the cgroup root (`Path::strip_prefix("/")`).
pub fn strip_cgroup_leading_slash(path: &str) -> (r: String)
    ensures
        r@ == strip_leading_slashes(path@),
{
    let n = path.unicode_len();
    let mut i: usize = 0;
    assert(path@.subrange(0, n as int) =~= path@);
    while i < n && path.get_char(i) == '/'
        invariant
            n == path@.len(),
            0 <= i <= n,
            strip_leading_slashes(path@) == strip_leading_slashes(path@.subrange(i as int, n as int)),
        decreases n - i,
    {
        assert(path@.subrange(i + 1, n as int) =~= path@.subrange(i as int, n as int).drop_first());
        i = i + 1;
    }
    let mut out = String::new();
    let mut k: usize = i;
    while k < n
        invariant
            n == path@.len(),
            i <= k <= n,
            out@ == path@.subrange(i as int, k as int),
        decreases n - k,
    {
        push_char(&mut out, path.get_char(k));
        assert(path@.subrange(i as int, k + 1) =~= path@.subrange(i as int, k as int).push(path@[k as int]));
        k = k + 1;
    }
    out
}

/// The error text for a target outside the cgroup root.
pub open spec fn outside_root_text(root: Seq<char>, path: Seq<char>) -> Seq<char> {
    "target cgroup "@ + path + " is outside cgroup root "@ + root
}

/// Checks that `path` lies under `root`.
pub fn ensure_path_under_root(root: &str, path: &str) -> (r: Result<(), ActionSourceError>)
    ensures
        path_starts_with(path@, root@) ==> r is Ok,
        !path_starts_with(path@, root@) ==> (r matches Err(ActionSourceError::Message(m)) && m@
            == outside_root_text(root@, path@)),
{
    if !starts_with_path(path, root) {
        let mut m = cat3("target cgroup ", path, " is outside cgroup root ");
        m.append(root);
        return Err(ActionSourceError::Message(m));
    }
    Ok(())
}

/// Whether `path` is resolved relative to `root` (it starts with `root`'s components,
/// and `root` has some).
pub open spec fn resolves_under_root(root: Seq<char>, path: Seq<char>) -> bool {
    path_starts_with(path, root) && path_comps(root).len() > 0
}

/// The parts a path resolves to under `root`: what follows `root` when the path starts
/// with it, else the path's own parts.
pub open spec fn resolved_parts(root: Seq<char>, path: Seq<char>) -> Seq<Seq<char>> {
    if resolves_under_root(root, path) {
        path_comps(path).skip(path_comps(root).len() as int)
    } else {
        path_parts(path)
    }
}

/// How the path being normalised is shown in a traversal error.
pub open spec fn resolved_display(root: Seq<char>, path: Seq<char>) -> Seq<char> {
    if resolves_under_root(root, path) {
        join(resolved_parts(root, path), "/"@)
    } else {
        path
    }
}

/// The filesystem path of a cgroup path (absolute under `root`, or relative to it):
/// `root` joined with its normal form, relative; a `..` part is refused.
pub fn cgroup_fs_path(root: &str, path: &str) -> (r: Result<String, ActionSourceError>)
    ensures
        has_parent_part(resolved_parts(root@, path@)) ==> (r matches Err(ActionSourceError::Message(m))
            && m@ == traversal_text(resolved_display(root@, path@))),
        !has_parent_part(resolved_parts(root@, path@)) ==> (r matches Ok(p) && p@ == join_path(
            root@,
            strip_leading_slashes("/"@ + join(resolved_parts(root@, path@), "/"@)),
        )),
{
    let under = starts_with_path(path, root);
    let rc = path_components(root);
    let rest: Vec<String>;
    let display: String;
    if under && rc.len() > 0 {
        let pc = path_components(path);
        let mut out: Vec<String> = Vec::new();
        let mut i: usize = rc.len();
        let ghost k = rc@.len() as int;
        assert(rc@.len() <= pc@.len());
        while i < pc.len()
            invariant
                k <= i <= pc@.len(),
                k == rc@.len(),
                views(out@) =~= views(pc@).subrange(k, i as int),
            decreases pc@.len() - i,
        {
            let ghost before = out@;
            out.push(pc[i].clone());
            assert(views(out@) =~= views(before).push(pc@[i as int]@));
            assert(views(pc@).subrange(k, i + 1) =~= views(pc@).subrange(k, i as int).push(pc@[i as int]@));
            i = i + 1;
        }
        assert(views(out@) =~= path_comps(path@).skip(k));
        display = join_strings(&out, "/");
        rest = out;
    } else {
        rest = path_parts_of(path);
        display = path.to_owned();
    }
    if any_parent(&rest) {
        return Err(ActionSourceError::Message(cat("cgroup path must not contain parent traversal: ", display.as_str())));
    }
    let joined = join_strings(&rest, "/");
    let normal = cat("/", joined.as_str());
    let relative = strip_cgroup_leading_slash(normal.as_str());
    Ok(path_join(root, relative.as_str()))
}

/// The class of a task, as the process classifier names it.
#[derive(Debug, Clone, Copy, PartialEq, Eq, Hash, Structural)]
pub enum TaskClass {
    Game,
    AudioRealtime,
    Input,
    KernelThread,
    IrqThread,
    Service,
    NetworkDaemon,
    StorageDaemon,
    Unknown,
}

/// The name of a class.
pub open spec fn task_class_name(c: TaskClass) -> Seq<char> {
    match c {
        TaskClass::Game => "game"@,
        TaskClass::AudioRealtime => "audio_realtime"@,
        TaskClass::Input => "input"@,
        TaskClass::KernelThread => "kernel_thread"@,
        TaskClass::IrqThread => "irq_thread"@,
        TaskClass::Service => "service"@,
        TaskClass::NetworkDaemon => "network_daemon"@,
        TaskClass::StorageDaemon => "storage_daemon"@,
        TaskClass::Unknown => "unknown"@,
    }
}

impl TaskClass {
    /// The class's name.
    pub fn name(self) -> (r: &'static str)
        ensures
            r@ == task_class_name(self),
    {
        match self {
            TaskClass::Game => "game",
            TaskClass::AudioRealtime => "audio_realtime",
            TaskClass::Input => "input",
            TaskClass::KernelThread => "kernel_thread",
            TaskClass::IrqThread => "irq_thread",
            TaskClass::Service => "service",
            TaskClass::NetworkDaemon => "network_daemon",
            TaskClass::StorageDaemon => "storage_daemon",
            TaskClass::Unknown => "unknown",
        }
    }
}

/// Whether tasks of a class may be moved between cgroups (only games may).
pub open spec fn class_movable(c: TaskClass) -> bool {
    c == TaskClass::Game
}

/// Refuses to move system or critical tasks: every class but games.
pub fn validate_target_class(class: TaskClass) -> (r: Result<(), ActionBoundaryError>)
    ensures
        class_movable(class) <==> r is Ok,
        r matches Err(e) ==> is_invalid_request(
            e,
            "cgroup"@,
            "refusing to move system/critical task class "@ + task_class_name(class),
        ),
{
    match class {
        TaskClass::Game => Ok(()),
        _ => Err(
            ActionBoundaryError::InvalidRequest {
                action_kind: "cgroup",
                reason: cat("refusing to move system/critical task class ", class.name()),
            },
        ),
    }
}

/// Whether a character may appear in a cpuset list: digits, `,` and `-`.
pub open spec fn cpuset_char(c: char) -> bool {
    is_digit_char(c) || c == ',' || c == '-'
}

/// Why a cpuset value is refused, if it is: empty after trimming, surrounded by
/// whitespace, or holding a character other than digits, `,` and `-` (the first such).
pub open spec fn cpuset_value_error(name: Seq<char>, value: Seq<char>) -> Option<Seq<char>> {
    if trim(value).len() == 0 {
        Some(name + " must not be empty"@)
    } else if trim(value) != value {
        Some(name + " must not contain leading or trailing whitespace"@)
    } else if exists|i: int| 0 <= i < value.len() && !cpuset_char(#[trigger] value[i]) {
        let i = choose|i: int|
            0 <= i < value.len() && !cpuset_char(value[i]) && forall|j: int|
                0 <= j < i ==> cpuset_char(#[trigger] value[j]);
        Some(name + " contains invalid character "@ + debug_char(value[i]))
    } else {
        None
    }
}

/// Checks a value for the cpuset file `name`.
pub fn validate_cpuset_value(name: &str, value: &str) -> (r: Result<(), ActionBoundaryError>)
    ensures
        cpuset_value_error(name@, value@) is None <==> r is Ok,
        r matches Err(e) ==> is_invalid_value(e, "cgroup"@, name@, cpuset_value_error(name@, value@)->0),
{
    let t = trim_text(value);
    if t.unicode_len() == 0 {
        return Err(
            ActionBoundaryError::InvalidValue {
                action_kind: "cgroup",
                field: name.to_owned(),
                reason: cat(name, " must not be empty"),
            },
        );
    }
    if !str_eq(t.as_str(), value) {
        return Err(
            ActionBoundaryError::InvalidValue {
                action_kind: "cgroup",
                field: name.to_owned(),
                reason: cat(name, " must not contain leading or trailing whitespace"),
            },
        );
    }
    let n = value.unicode_len();
    let mut i: usize = 0;
    while i < n
        invariant
            n == value@.len(),
            0 <= i <= n,
            trim(value@).len() != 0,
            trim(value@) == value@,
            forall|j: int| 0 <= j < i ==> cpuset_char(#[trigger] value@[j]),
        decreases n - i,
    {
        let c = value.get_char(i);
        if !(('0' <= c && c <= '9') || c == ',' || c == '-') {
            proof {
                let k = choose|k: int|
                    0 <= k < value@.len() && !cpuset_char(value@[k]) && forall|j: int|
                        0 <= j < k ==> cpuset_char(#[trigger] value@[j]);
                assert(0 <= i < value@.len() && !cpuset_char(value@[i as int]) && forall|j: int|
                    0 <= j < i ==> cpuset_char(#[trigger] value@[j]));
                if k < i {
                    assert(cpuset_char(value@[k]));
                } else if k > i {
                    assert(cpuset_char(value@[i as int]));
                }
                assert(k == i);
            }
            let q = debug_char_text(c);
            return Err(
                ActionBoundaryError::InvalidValue {
                    action_kind: "cgroup",
                    field: name.to_owned(),
                    reason: cat3(name, " contains invalid character ", q.as_str()),
                },
            );
        }
        i = i + 1;
    }
    Ok(())
}

/// What a placement request is allowed.
#[derive(Debug, Clone, PartialEq, Eq)]
pub struct CgroupPlacementPolicy {
    pub allow_cgroup_moves: bool,
    pub allow_cpuset_changes: bool,
    pub allow_nested_cgroups: bool,
}

impl Default for CgroupPlacementPolicy {
    /// Everything allowed.
    fn default() -> (r: Self)
        ensures
            r == (CgroupPlacementPolicy {
                allow_cgroup_moves: true,
                allow_cpuset_changes: true,
                allow_nested_cgroups: true,
            }),
    {
        CgroupPlacementPolicy { allow_cgroup_moves: true, allow_cpuset_changes: true, allow_nested_cgroups: true }
    }
}

/// A task to place, with its class.
#[derive(Debug, Clone, PartialEq, Eq)]
pub struct CgroupPlacementTarget {
    pub identity: TaskIdentity,
    pub class: TaskClass,
}

/// A request to move explicit tasks into a cgroup, optionally setting its cpuset.
#[derive(Debug, Clone)]
pub struct CgroupPlacementAction {
    pub cgroup_root: String,
    pub target_cgroup: String,
    pub targets: Vec<CgroupPlacementTarget>,
    pub cpuset_cpus: Option<String>,
    pub cpuset_mems: Option<String>,
}

/// Whether the request sets any cpuset file.
pub open spec fn sets_cpuset(a: CgroupPlacementAction) -> bool {
    a.cpuset_cpus is Some || a.cpuset_mems is Some
}

/// Whether a normal cgroup path is nested (more than one part below the root).
pub open spec fn is_nested(normal: Seq<char>) -> bool {
    path_comps(normal).len() > 2
}

/// Whether `policy` admits the request `a`.
pub open spec fn placement_request_passes(a: CgroupPlacementAction, policy: CgroupPlacementPolicy) -> bool {
    &&& policy.allow_cgroup_moves
    &&& a.targets.len() > 0
    &&& normalized(a.target_cgroup@) is Some
    &&& !(!policy.allow_nested_cgroups && is_nested(normalized(a.target_cgroup@)->0))
    &&& !(sets_cpuset(a) && !policy.allow_cpuset_changes)
    &&& (a.cpuset_cpus matches Some(v) ==> cpuset_value_error("cpuset.cpus"@, v@) is None)
    &&& (a.cpuset_mems matches Some(v) ==> cpuset_value_error("cpuset.mems"@, v@) is None)
}

/// `e` is the refusal of the request `a` under `policy`, checked in this order: moves
/// allowed, targets named, target path normal, nesting allowed, cpuset changes allowed,
/// cpuset values valid.
pub open spec fn placement_request_refusal(
    a: CgroupPlacementAction,
    policy: CgroupPlacementPolicy,
    e: ActionSourceError,
) -> bool {
    if !policy.allow_cgroup_moves {
        e matches ActionSourceError::Boundary(b) && is_policy_denied(b, "cgroup"@, "allow_cgroup_moves"@)
    } else if a.targets.len() == 0 {
        e matches ActionSourceError::Boundary(b) && is_missing_targets(b, "cgroup"@)
    } else if normalized(a.target_cgroup@) is None {
        e matches ActionSourceError::Message(m) && m@ == traversal_text(a.target_cgroup@)
    } else if !policy.allow_nested_cgroups && is_nested(normalized(a.target_cgroup@)->0) {
        e matches ActionSourceError::Boundary(b) && is_invalid_policy(
            b,
            "cgroup"@,
            "policy does not allow nested cgroups: "@ + normalized(a.target_cgroup@)->0,
        )
    } else if sets_cpuset(a) && !policy.allow_cpuset_changes {
        e matches ActionSourceError::Boundary(b) && is_policy_denied(b, "cgroup"@, "allow_cpuset_changes"@)
    } else if a.cpuset_cpus matches Some(v) && cpuset_value_error("cpuset.cpus"@, v@) is Some {
        e matches ActionSourceError::Boundary(b) && is_invalid_value(
            b,
            "cgroup"@,
            "cpuset.cpus"@,
            cpuset_value_error("cpuset.cpus"@, a.cpuset_cpus->0@)->0,
        )
    } else {
        e matches ActionSourceError::Boundary(b) && is_invalid_value(
            b,
            "cgroup"@,
            "cpuset.mems"@,
            cpuset_value_error("cpuset.mems"@, a.cpuset_mems->0@)->0,
        )
    }
}

/// Checks the request `action` against `policy`.
pub fn validate_action_request(action: &CgroupPlacementAction, policy: &CgroupPlacementPolicy) -> (r: Result<
    (),
    ActionSourceError,
>)
    ensures
        placement_request_passes(*action, *policy) <==> r is Ok,
        r matches Err(e) ==> placement_request_refusal(*action, *policy, e),
{
    if !policy.allow_cgroup_moves {
        return Err(
            ActionSourceError::Boundary(
                ActionBoundaryError::PolicyDenied { action_kind: "cgroup", requirement: "allow_cgroup_moves" },
            ),
        );
    }
    if action.targets.len() == 0 {
        return Err(ActionSourceError::Boundary(ActionBoundaryError::MissingExplicitTargets { action_kind: "cgroup" }));
    }
    let target_rel = match normalize_cgroup_path(action.target_cgroup.as_str()) {
        Ok(p) => p,
        Err(e) => return Err(e),
    };
    if !policy.allow_nested_cgroups {
        let comps = path_components(target_rel.as_str());
        if comps.len() > 2 {
            return Err(
                ActionSourceError::Boundary(
                    ActionBoundaryError::InvalidPolicy {
                        action_kind: "cgroup",
                        reason: cat("policy does not allow nested cgroups: ", target_rel.as_str()),
                    },
                ),
            );
        }
    }
    if (action.cpuset_cpus.is_some() || action.cpuset_mems.is_some()) && !policy.allow_cpuset_changes {
        return Err(
            ActionSourceError::Boundary(
                ActionBoundaryError::PolicyDenied { action_kind: "cgroup", requirement: "allow_cpuset_changes" },
            ),
        );
    }
    match &action.cpuset_cpus {
        Some(v) => match validate_cpuset_value("cpuset.cpus", v.as_str()) {
            Err(e) => return Err(ActionSourceError::Boundary(e)),
            Ok(()) => {},
        },
        None => {},
    }
    match &action.cpuset_mems {
        Some(v) => match validate_cpuset_value("cpuset.mems", v.as_str()) {
            Err(e) => return Err(ActionSourceError::Boundary(e)),
            Ok(()) => {},
        },
        None => {},
    }
    Ok(())
}

/// The filesystem path of a normal cgroup path under `root`.
pub open spec fn abs_under_root(root: Seq<char>, normal: Seq<char>) -> Seq<char> {
    join_path(root, strip_leading_slashes(normal))
}

impl CgroupPlacementAction {
    /// The target cgroup's filesystem path: the root joined with its normal form.
    pub fn target_cgroup_abs(&self) -> (r: Result<String, ActionSourceError>)
        ensures
            match normalized(self.target_cgroup@) {
                Some(n) => r matches Ok(p) && p@ == abs_under_root(self.cgroup_root@, n),
                None => r matches Err(ActionSourceError::Message(m)) && m@ == traversal_text(
                    self.target_cgroup@,
                ),
            },
    {
        let rel = match normalize_cgroup_path(self.target_cgroup.as_str()) {
            Ok(p) => p,
            Err(e) => return Err(e),
        };
        let stripped = strip_cgroup_leading_slash(rel.as_str());
        Ok(path_join(self.cgroup_root.as_str(), stripped.as_str()))
    }

    /// The action's identifier: `cgroup:place:<target>:targets:<count>`, with the target's
    /// normal form (or, when it has none, the path as given).
    pub fn id(&self) -> (r: ActionId)
        ensures
            r.id@ == "cgroup:place:"@ + match normalized(self.target_cgroup@) {
                Some(n) => n,
                None => self.target_cgroup@,
            } + ":targets:"@ + decimal(self.targets.len() as nat),
    {
        let shown = match normalize_cgroup_path(self.target_cgroup.as_str()) {
            Ok(p) => p,
            Err(_) => self.target_cgroup.clone(),
        };
        let n = u64_to_string(self.targets.len() as u64);
        let mut id = cat3("cgroup:place:", shown.as_str(), ":targets:");
        id.append(n.as_str());
        ActionId::new(id)
    }

    /// A description naming the tids and the target cgroup.
    pub fn describe(&self) -> (r: String)
        ensures
            r@ == "move task(s) ["@ + decimal_list(placement_tids(self.targets@), ","@) + "] to cgroup "@
                + self.target_cgroup@,
    {
        let mut tids: Vec<u64> = Vec::new();
        let mut i: usize = 0;
        while i < self.targets.len()
            invariant
                0 <= i <= self.targets@.len(),
                tids@ =~= placement_tids(self.targets@).take(i as int),
            decreases self.targets@.len() - i,
        {
            tids.push(self.targets[i].identity.tid as u64);
            assert(placement_tids(self.targets@).take(i + 1) =~= placement_tids(self.targets@).take(
                i as int,
            ).push(self.targets@[i as int].identity.tid as u64));
            i = i + 1;
        }
        assert(placement_tids(self.targets@).take(self.targets@.len() as int) =~= placement_tids(
            self.targets@,
        ));
        let list = join_u64s(&tids, ",");
        let mut s = cat3("move task(s) [", list.as_str(), "] to cgroup ");
        s.append(self.target_cgroup.as_str());
        s
    }

    /// Moving tasks between cgroups is reversible at medium risk.
    pub fn safety_class(&self) -> (r: SafetyClass)
        ensures
            r == SafetyClass::ReversibleMediumRisk,
    {
        SafetyClass::ReversibleMediumRisk
    }
}

/// The tids of placement targets, in order.
pub open spec fn placement_tids(targets: Seq<CgroupPlacementTarget>) -> Seq<u64> {
    targets.map_values(|t: CgroupPlacementTarget| t.identity.tid as u64)
}

/// A line without one trailing carriage return.
pub open spec fn strip_cr(l: Seq<char>) -> Seq<char> {
    if l.len() > 0 && l.last() == '\r' {
        l.drop_last()
    } else {
        l
    }
}

/// The scan of text so far: the lines completed and the line being read.
pub open spec fn scan_lines(s: Seq<char>) -> (Seq<Seq<char>>, Seq<char>)
    decreases s.len(),
{
    if s.len() == 0 {
        (Seq::empty(), Seq::empty())
    } else {
        let (acc, cur) = scan_lines(s.drop_last());
        if s.last() == '\n' {
            (acc.push(strip_cr(cur)), Seq::empty())
        } else {
            (acc, cur.push(s.last()))
        }
    }
}

/// The lines of a text, as `str::lines` yields them: split at `\n`, a `\r` before it
/// dropped, and no empty line after a final `\n`.
pub open spec fn text_lines(s: Seq<char>) -> Seq<Seq<char>> {
    if scan_lines(s).1.len() > 0 {
        scan_lines(s).0.push(scan_lines(s).1)
    } else {
        scan_lines(s).0
    }
}

/// The cgroup path a line of `/proc/<tid>/cgroup` names: what follows its last `:`,
/// trimmed, when that is not empty.
pub open spec fn line_cgroup_path(line: Seq<char>) -> Option<Seq<char>> {
    match last_index_of(line, ':') {
        Some(i) => if trim(line.skip(i + 1)).len() > 0 {
            Some(trim(line.skip(i + 1)))
        } else {
            None
        },
        None => None,
    }
}

/// The length of a text in UTF-8 bytes.
pub open spec fn byte_len(s: Seq<char>) -> nat {
    encode_utf8(s).len()
}

/// The longest path the first `n` lines name (the last of equally long ones).
pub open spec fn longest_path(lines: Seq<Seq<char>>, n: int) -> Option<Seq<char>>
    decreases n,
{
    if n <= 0 {
        None
    } else {
        let prev = longest_path(lines, n - 1);
        match line_cgroup_path(lines[n - 1]) {
            None => prev,
            Some(p) => match prev {
                None => Some(p),
                Some(b) => if byte_len(p) >= byte_len(b) {
                    Some(p)
                } else {
                    Some(b)
                },
            },
        }
    }
}

/// The cgroup path the contents of `/proc/<tid>/cgroup` name: the longest path of its
/// lines.
pub open spec fn proc_cgroup_path(contents: Seq<char>) -> Option<Seq<char>> {
    longest_path(text_lines(contents), text_lines(contents).len() as int)
}

/// The text of the error for a cgroup file that names no path.
pub open spec fn no_cgroup_path_text() -> Seq<char> {
    "proc cgroup file did not contain a cgroup v2 path"@
}

/// The lines of `s`.
pub fn lines_of(s: &str) -> (r: Vec<String>)
    ensures
        views(r@) == text_lines(s@),
{
    let n = s.unicode_len();
    let mut acc: Vec<String> = Vec::new();
    let mut cur = String::new();
    let mut i: usize = 0;
    assert(s@.subrange(0, 0) =~= Seq::<char>::empty());
    assert(views(acc@) =~= Seq::<Seq<char>>::empty());
    while i < n
        invariant
            n == s@.len(),
            0 <= i <= n,
            (views(acc@), cur@) == scan_lines(s@.subrange(0, i as int)),
        decreases n - i,
    {
        let c = s.get_char(i);
        proof {
            assert(s@.subrange(0, i + 1).drop_last() =~= s@.subrange(0, i as int));
            assert(s@.subrange(0, i + 1).last() == c);
        }
        if c == '\n' {
            let m = cur.unicode_len();
            let line = if m > 0 && cur.get_char(m - 1) == '\r' {
                let mut l = String::new();
                let mut k: usize = 0;
                while k < m - 1
                    invariant
                        m == cur@.len(),
                        m > 0,
                        0 <= k <= m - 1,
                        l@ == cur@.subrange(0, k as int),
                    decreases m - 1 - k,
                {
                    push_char(&mut l, cur.get_char(k));
                    assert(cur@.subrange(0, k + 1) =~= cur@.subrange(0, k as int).push(cur@[k as int]));
                    k = k + 1;
                }
                assert(l@ =~= cur@.drop_last());
                l
            } else {
                cur.clone()
            };
            let ghost before = acc@;
            acc.push(line);
            assert(views(acc@) =~= views(before).push(strip_cr(cur@)));
            cur = String::new();
            assert(cur@ =~= Seq::<char>::empty());
        } else {
            push_char(&mut cur, c);
        }
        i = i + 1;
    }
    assert(s@.subrange(0, n as int) =~= s@);
    if cur.unicode_len() > 0 {
        let ghost before = acc@;
        acc.push(cur);
        assert(views(acc@) =~= views(before).push(scan_lines(s@).1));
    }
    acc
}

/// The characters of `s` from `start` on.
fn skip_chars(s: &str, start: usize) -> (r: String)
    requires
        start <= s@.len(),
    ensures
        r@ == s@.skip(start as int),
{
    let n = s.unicode_len();
    let mut out = String::new();
    let mut k: usize = start;
    while k < n
        invariant
            n == s@.len(),
            start <= k <= n,
            out@ == s@.subrange(start as int, k as int),
        decreases n - k,
    {
        push_char(&mut out, s.get_char(k));
        assert(s@.subrange(start as int, k + 1) =~= s@.subrange(start as int, k as int).push(s@[k as int]));
        k = k + 1;
    }
    assert(s@.subrange(start as int, n as int) =~= s@.skip(start as int));
    out
}

/// The cgroup path a line names, if any.
pub fn line_path(line: &str) -> (r: Option<String>)
    ensures
        opt_text(r) == line_cgroup_path(line@),
{
    let n = line.unicode_len();
    match rfind_char(line, ':') {
        None => None,
        Some(i) => {
            let rest = skip_chars(line, i + 1);
            let t = trim_text(rest.as_str());
            if t.unicode_len() > 0 {
                Some(t)
            } else {
                None
            }
        },
    }
}

/// The cgroup path the contents of `/proc/<tid>/cgroup` name, in normal form.
pub fn read_proc_cgroup_path(contents: &str) -> (r: Result<String, ActionSourceError>)
    ensures
        match proc_cgroup_path(contents@) {
            None => r matches Err(ActionSourceError::Message(m)) && m@ == no_cgroup_path_text(),
            Some(p) => match normalized(p) {
                Some(n) => r matches Ok(x) && x@ == n,
                None => r matches Err(ActionSourceError::Message(m)) && m@ == traversal_text(p),
            },
        },
{
    let lines = lines_of(contents);
    let mut best: Option<String> = None;
    let mut i: usize = 0;
    while i < lines.len()
        invariant
            0 <= i <= lines@.len(),
            views(lines@) == text_lines(contents@),
            opt_text(best) == longest_path(views(lines@), i as int),
        decreases lines@.len() - i,
    {
        assert(views(lines@)[i as int] == lines@[i as int]@);
        let ghost prev = best;
        match line_path(lines[i].as_str()) {
            None => {},
            Some(p) => {
                let replace = match &best {
                    None => true,
                    Some(b) => {
                        let pb = p.as_str().as_bytes();
                        let bb = b.as_str().as_bytes();
                        pb.len() >= bb.len()
                    },
                };
                if replace {
                    best = Some(p);
                }
            },
        }
        i = i + 1;
    }
    match best {
        None => Err(ActionSourceError::Message("proc cgroup file did not contain a cgroup v2 path".to_owned())),
        Some(p) => normalize_cgroup_path(p.as_str()),
    }
}

/// Whether a file can be written: missing, present but refusing writes (with the
/// error), or writable.
#[derive(Debug, Clone, PartialEq, Eq)]
pub enum FileAccess {
    Missing,
    NotWritable { error: String },
    Writable,
}

/// `r` is what checking that `path` is a writable file gives: a missing file is a missing
/// path of the cgroup action.
pub open spec fn writable_outcome(path: Seq<char>, access: FileAccess, r: Result<(), ActionSourceError>) -> bool {
    match access {
        FileAccess::Missing => r matches Err(ActionSourceError::Boundary(ActionBoundaryError::MissingPath { action_kind, path: p }))
            && action_kind@ == "cgroup"@ && p@ == path,
        FileAccess::NotWritable { error } => r matches Err(ActionSourceError::Message(m)) && m@
            == "required cgroup file is not writable: "@ + path + ": "@ + error@,
        FileAccess::Writable => r is Ok,
    }
}

/// Checks that `path` is a writable file, given how it was found.
pub fn ensure_writable_file(path: &str, access: &FileAccess) -> (r: Result<(), ActionSourceError>)
    ensures
        writable_outcome(path@, *access, r),
{
    match access {
        FileAccess::Missing => Err(
            ActionSourceError::Boundary(ActionBoundaryError::MissingPath { action_kind: "cgroup", path: path.to_owned() }),
        ),
        FileAccess::NotWritable { error } => {
            let mut m = cat3("required cgroup file is not writable: ", path, ": ");
            m.append(error.as_str());
            Err(ActionSourceError::Message(m))
        },
        FileAccess::Writable => Ok(()),
    }
}

/// How the target cgroup's files were found.
#[derive(Debug, Clone, PartialEq, Eq)]
pub struct CgroupFileObservation {
    pub target_is_dir: bool,
    pub procs: FileAccess,
    pub cpuset_cpus: FileAccess,
    pub cpuset_mems: FileAccess,
}

/// Whether the target cgroup's files admit the request (after the request passed).
pub open spec fn files_pass(a: CgroupPlacementAction, policy: CgroupPlacementPolicy, f: CgroupFileObservation) -> bool {
    let abs = abs_under_root(a.cgroup_root@, normalized(a.target_cgroup@)->0);
    &&& f.target_is_dir
    &&& path_starts_with(abs, a.cgroup_root@)
    &&& f.procs == FileAccess::Writable
    &&& (a.cpuset_cpus is Some ==> policy.allow_cpuset_changes && f.cpuset_cpus == FileAccess::Writable)
    &&& (a.cpuset_mems is Some ==> policy.allow_cpuset_changes && f.cpuset_mems == FileAccess::Writable)
}

/// `e` is the failure of the file checks that did not pass, in order: the directory,
/// the root, `cgroup.procs`, then each cpuset file asked for.
pub open spec fn files_failure(
    a: CgroupPlacementAction,
    policy: CgroupPlacementPolicy,
    f: CgroupFileObservation,
    e: ActionSourceError,
) -> bool {
    let abs = abs_under_root(a.cgroup_root@, normalized(a.target_cgroup@)->0);
    if !f.target_is_dir {
        e matches ActionSourceError::Boundary(ActionBoundaryError::MissingPath { action_kind, path })
            && action_kind@ == "cgroup"@ && path@ == abs
    } else if !path_starts_with(abs, a.cgroup_root@) {
        e matches ActionSourceError::Message(m) && m@ == outside_root_text(a.cgroup_root@, abs)
    } else if f.procs != FileAccess::Writable {
        writable_outcome(join_path(abs, "cgroup.procs"@), f.procs, Err(e))
    } else if a.cpuset_cpus is Some && !(policy.allow_cpuset_changes && f.cpuset_cpus == FileAccess::Writable) {
        if !policy.allow_cpuset_changes {
            e matches ActionSourceError::Boundary(b) && is_policy_denied(b, "cgroup"@, "allow_cpuset_changes"@)
        } else {
            writable_outcome(join_path(abs, "cpuset.cpus"@), f.cpuset_cpus, Err(e))
        }
    } else {
        if !policy.allow_cpuset_changes {
            e matches ActionSourceError::Boundary(b) && is_policy_denied(b, "cgroup"@, "allow_cpuset_changes"@)
        } else {
            writable_outcome(join_path(abs, "cpuset.mems"@), f.cpuset_mems, Err(e))
        }
    }
}

/// A cpuset file may be changed: the policy allows it and the file is writable.
fn ensure_cpuset_available(abs: &str, file_name: &str, access: &FileAccess, policy: &CgroupPlacementPolicy) -> (r:
    Result<(), ActionSourceError>)
    ensures
        !policy.allow_cpuset_changes ==> (r matches Err(ActionSourceError::Boundary(b)) && is_policy_denied(
            b,
            "cgroup"@,
            "allow_cpuset_changes"@,
        )),
        policy.allow_cpuset_changes ==> writable_outcome(join_path(abs@, file_name@), *access, r),
{
    if !policy.allow_cpuset_changes {
        return Err(
            ActionSourceError::Boundary(
                ActionBoundaryError::PolicyDenied { action_kind: "cgroup", requirement: "allow_cpuset_changes" },
            ),
        );
    }
    let path = path_join(abs, file_name);
    ensure_writable_file(path.as_str(), access)
}

/// Checks the target cgroup's files: the directory exists under the root, and the
/// files the request writes are writable.
pub fn preflight_cgroup_files(
    action: &CgroupPlacementAction,
    policy: &CgroupPlacementPolicy,
    files: &CgroupFileObservation,
) -> (r: Result<(), ActionSourceError>)
    requires
        normalized(action.target_cgroup@) is Some,
    ensures
        files_pass(*action, *policy, *files) <==> r is Ok,
        r matches Err(e) ==> files_failure(*action, *policy, *files, e),
{
    proof {
        reveal_strlit("cgroup.procs");
        reveal_strlit("cpuset.cpus");
        reveal_strlit("cpuset.mems");
    }
    let abs = match action.target_cgroup_abs() {
        Ok(p) => p,
        Err(e) => return Err(e),
    };
    if !files.target_is_dir {
        return Err(ActionSourceError::Boundary(ActionBoundaryError::MissingPath { action_kind: "cgroup", path: abs }));
    }
    match ensure_path_under_root(action.cgroup_root.as_str(), abs.as_str()) {
        Err(e) => return Err(e),
        Ok(()) => {},
    }
    let procs = path_join(abs.as_str(), "cgroup.procs");
    match ensure_writable_file(procs.as_str(), &files.procs) {
        Err(e) => return Err(e),
        Ok(()) => {},
    }
    if action.cpuset_cpus.is_some() {
        match ensure_cpuset_available(abs.as_str(), "cpuset.cpus", &files.cpuset_cpus, policy) {
            Err(e) => return Err(e),
            Ok(()) => {},
        }
    }
    if action.cpuset_mems.is_some() {
        match ensure_cpuset_available(abs.as_str(), "cpuset.mems", &files.cpuset_mems, policy) {
            Err(e) => return Err(e),
            Ok(()) => {},
        }
    }
    Ok(())
}

/// The contents of a file, or the error that reading it gave.
#[derive(Debug, Clone, PartialEq, Eq)]
pub enum FileRead {
    Contents(String),
    Failed(String),
    /// Nothing was read (reported as a failure with no error text).
    Unread,
}

/// What procfs shows of a placement target: its task files and its cgroup file.
#[derive(Debug, Clone, PartialEq, Eq)]
pub struct CgroupTaskObservation {
    pub task: TaskObservation,
    pub cgroup_file: FileRead,
}

/// A target as it was found, with the cgroup it is in now (normal form).
#[derive(Debug, Clone, PartialEq, Eq)]
pub struct CgroupTargetSnapshot {
    pub task: ObservedTask,
    pub original_cgroup: String,
}

/// The observation that stands for a target nothing was read for.
pub open spec fn unread_cgroup_task() -> CgroupTaskObservation {
    CgroupTaskObservation {
        task: TaskObservation { stat: None, comm: None, exe: None },
        cgroup_file: FileRead::Unread,
    }
}

/// The observation of the `i`th target: the `i`th one handed in, or none.
pub open spec fn cgroup_obs_at(obs: Seq<CgroupTaskObservation>, i: int) -> CgroupTaskObservation {
    if 0 <= i < obs.len() {
        obs[i]
    } else {
        unread_cgroup_task()
    }
}

/// The cgroup a passing target is in now (normal form).
pub open spec fn current_cgroup(obs: CgroupTaskObservation) -> Seq<char> {
    normalized(proc_cgroup_path(obs.cgroup_file->Contents_0@)->0)->0
}

/// Whether a target yields a snapshot: it passes the task check and its cgroup file names
/// a normal path.
pub open spec fn cgroup_snapshot_passes(target: TaskIdentity, obs: CgroupTaskObservation) -> bool {
    &&& target_passes(target, obs.task)
    &&& obs.cgroup_file matches FileRead::Contents(c)
    &&& proc_cgroup_path(c@) matches Some(p)
    &&& normalized(p) is Some
}

/// The context of a failure to read a target's cgroup.
pub open spec fn cgroup_read_text(tid: u32) -> Seq<char> {
    "failed to read cgroup path for tid="@ + decimal(tid as nat)
}

/// `r` is what reading the snapshot of `target` gives.
pub open spec fn cgroup_snapshot_outcome(
    proc_root: Seq<char>,
    target: TaskIdentity,
    obs: CgroupTaskObservation,
    r: Result<CgroupTargetSnapshot, ActionSourceError>,
) -> bool {
    if !target_passes(target, obs.task) {
        r matches Err(e) && target_check_ok(
            "cgroup",
            proc_root,
            target,
            obs.task,
            Err::<ObservedTask, ActionSourceError>(e),
        )
    } else {
        match obs.cgroup_file {
            FileRead::Failed(io) => r matches Err(ActionSourceError::Message(m)) && m@ == cgroup_read_text(target.tid)
                + ": failed to read "@ + task_file_path(proc_root, target.tid, "cgroup"@) + ": "@ + io@,
            FileRead::Unread => r matches Err(ActionSourceError::Message(m)) && m@ == cgroup_read_text(target.tid)
                + ": failed to read "@ + task_file_path(proc_root, target.tid, "cgroup"@) + ": "@,
            FileRead::Contents(c) => match proc_cgroup_path(c@) {
                None => r matches Err(ActionSourceError::Message(m)) && m@ == cgroup_read_text(target.tid)
                    + ": "@ + no_cgroup_path_text(),
                Some(p) => match normalized(p) {
                    None => r matches Err(ActionSourceError::Message(m)) && m@ == cgroup_read_text(
                        target.tid,
                    ) + ": "@ + traversal_text(p),
                    Some(n) => r matches Ok(s) && target_check_ok(
                        "cgroup",
                        proc_root,
                        target,
                        obs.task,
                        Ok::<ObservedTask, ActionSourceError>(s.task),
                    ) && s.original_cgroup@ == n,
                },
            },
        }
    }
}

/// Reads the snapshot of one target from its observation.
pub fn read_cgroup_snapshot(proc_root: &str, target: &TaskIdentity, obs: &CgroupTaskObservation) -> (r: Result<
    CgroupTargetSnapshot,
    ActionSourceError,
>)
    ensures
        cgroup_snapshot_outcome(proc_root@, *target, *obs, r),
        r is Ok <==> cgroup_snapshot_passes(*target, *obs),
{
    let task = match check_task_target("cgroup", proc_root, target, &obs.task) {
        Ok(t) => t,
        Err(e) => return Err(e),
    };
    let t = u64_to_string(target.tid as u64);
    let ctx = cat("failed to read cgroup path for tid=", t.as_str());
    match &obs.cgroup_file {
        FileRead::Failed(io) => {
            let path = task_file(proc_root, target.tid, "cgroup");
            let mut m = cat3(ctx.as_str(), ": failed to read ", path.as_str());
            m.append(": ");
            m.append(io.as_str());
            Err(ActionSourceError::Message(m))
        },
        FileRead::Unread => {
            let path = task_file(proc_root, target.tid, "cgroup");
            let mut m = cat3(ctx.as_str(), ": failed to read ", path.as_str());
            m.append(": ");
            Err(ActionSourceError::Message(m))
        },
        FileRead::Contents(contents) => match read_proc_cgroup_path(contents.as_str()) {
            Ok(original_cgroup) => Ok(CgroupTargetSnapshot { task, original_cgroup }),
            Err(e) => {
                let inner = e.message();
                Err(ActionSourceError::Message(cat3(ctx.as_str(), ": ", inner.as_str())))
            },
        },
    }
}

/// Whether a placement target passes: its class may be moved and it yields a snapshot.
pub open spec fn placement_target_passes(t: CgroupPlacementTarget, obs: CgroupTaskObservation) -> bool {
    class_movable(t.class) && cgroup_snapshot_passes(t.identity, obs)
}

/// `e` is the failure of a placement target that did not pass: its class's refusal, or
/// its snapshot's error under the preflight context.
pub open spec fn placement_target_failure(
    proc_root: Seq<char>,
    t: CgroupPlacementTarget,
    obs: CgroupTaskObservation,
    e: ActionSourceError,
) -> bool {
    if !class_movable(t.class) {
        e matches ActionSourceError::Boundary(b) && is_invalid_request(
            b,
            "cgroup"@,
            "refusing to move system/critical task class "@ + task_class_name(t.class),
        )
    } else {
        exists|inner: ActionSourceError|
            #![trigger cgroup_snapshot_outcome(proc_root, t.identity, obs, Err::<CgroupTargetSnapshot, ActionSourceError>(inner))]
            cgroup_snapshot_outcome(
                proc_root,
                t.identity,
                obs,
                Err::<CgroupTargetSnapshot, ActionSourceError>(inner),
            ) && context_ok(inner, "failed to preflight cgroup target tid="@ + decimal(t.identity.tid as nat), e)
    }
}

/// Whether every target passes.
pub open spec fn all_placements_pass(targets: Seq<CgroupPlacementTarget>, obs: Seq<CgroupTaskObservation>) -> bool {
    forall|i: int| 0 <= i < targets.len() ==> #[trigger] placement_target_passes(targets[i], cgroup_obs_at(obs, i))
}

/// Whether the request, the files and every target pass.
pub open spec fn placement_collect_passes(
    a: CgroupPlacementAction,
    policy: CgroupPlacementPolicy,
    files: CgroupFileObservation,
    obs: Seq<CgroupTaskObservation>,
) -> bool {
    placement_request_passes(a, policy) && files_pass(a, policy, files) && all_placements_pass(a.targets@, obs)
}

/// `e` is the failure of a collection that did not pass: the request's, the files', or
/// the first failing target's.
pub open spec fn placement_collect_failure(
    a: CgroupPlacementAction,
    policy: CgroupPlacementPolicy,
    proc_root: Seq<char>,
    files: CgroupFileObservation,
    obs: Seq<CgroupTaskObservation>,
    e: ActionSourceError,
) -> bool {
    if !placement_request_passes(a, policy) {
        placement_request_refusal(a, policy, e)
    } else if !files_pass(a, policy, files) {
        files_failure(a, policy, files, e)
    } else {
        exists|i: int|
            #![trigger placement_target_failure(proc_root, a.targets@[i], cgroup_obs_at(obs, i), e)]
            0 <= i < a.targets@.len() && (forall|j: int|
                0 <= j < i ==> #[trigger] placement_target_passes(a.targets@[j], cgroup_obs_at(obs, j)))
                && !placement_target_passes(a.targets@[i], cgroup_obs_at(obs, i))
                && placement_target_failure(proc_root, a.targets@[i], cgroup_obs_at(obs, i), e)
    }
}

/// `snaps` are the snapshots and warnings of the targets, one for each, in order.
pub open spec fn placement_snapshots_match(
    proc_root: Seq<char>,
    targets: Seq<CgroupPlacementTarget>,
    obs: Seq<CgroupTaskObservation>,
    snaps: Seq<(CgroupTargetSnapshot, Vec<ActionWarning>)>,
) -> bool {
    snaps.len() == targets.len() && forall|i: int|
        0 <= i < snaps.len() ==> cgroup_snapshot_outcome(
            proc_root,
            targets[i].identity,
            cgroup_obs_at(obs, i),
            Ok::<CgroupTargetSnapshot, ActionSourceError>(#[trigger] snaps[i].0),
        ) && warning_texts(snaps[i].1@) == identity_warning_texts(
            targets[i].identity,
            comm_value(cgroup_obs_at(obs, i).task.comm),
        )
}

/// One placement target: its class check, then its snapshot and warnings.
fn placement_target_step(proc_root: &str, target: &CgroupPlacementTarget, obs: &CgroupTaskObservation) -> (r:
    Result<(CgroupTargetSnapshot, Vec<ActionWarning>), ActionSourceError>)
    ensures
        r is Ok <==> placement_target_passes(*target, *obs),
        r matches Err(e) ==> placement_target_failure(proc_root@, *target, *obs, e),
        r matches Ok(pair) ==> cgroup_snapshot_outcome(
            proc_root@,
            target.identity,
            *obs,
            Ok::<CgroupTargetSnapshot, ActionSourceError>(pair.0),
        ) && warning_texts(pair.1@) == identity_warning_texts(target.identity, comm_value(obs.task.comm)),
{
    match validate_target_class(target.class) {
        Err(b) => return Err(ActionSourceError::Boundary(b)),
        Ok(()) => {},
    }
    match read_cgroup_snapshot(proc_root, &target.identity, obs) {
        Ok(snap) => {
            let warnings = identity_warnings(&target.identity, &snap.task.comm);
            proof {
                assert(opt_text(snap.task.comm) == comm_value(obs.task.comm));
            }
            Ok((snap, warnings))
        },
        Err(inner) => {
            let t = u64_to_string(target.identity.tid as u64);
            let ctx = cat("failed to preflight cgroup target tid=", t.as_str());
            let e = with_context(inner, ctx.as_str());
            proof {
                assert(cgroup_snapshot_outcome(
                    proc_root@,
                    target.identity,
                    *obs,
                    Err::<CgroupTargetSnapshot, ActionSourceError>(inner),
                ));
            }
            Err(e)
        },
    }
}

impl CgroupPlacementAction {
    /// The snapshots and warnings of every target, after checking the request and the
    /// target cgroup's files (the `i`th observation belongs to the `i`th target).
    pub fn collect_target_snapshots(
        &self,
        policy: &CgroupPlacementPolicy,
        proc_root: &str,
        files: &CgroupFileObservation,
        observations: &Vec<CgroupTaskObservation>,
    ) -> (r: Result<Vec<(CgroupTargetSnapshot, Vec<ActionWarning>)>, ActionSourceError>)
        ensures
            r is Ok <==> placement_collect_passes(*self, *policy, *files, observations@),
            r matches Err(e) ==> placement_collect_failure(*self, *policy, proc_root@, *files, observations@, e),
            r matches Ok(snaps) ==> placement_snapshots_match(proc_root@, self.targets@, observations@, snaps@),
    {
        match validate_action_request(self, policy) {
            Err(e) => return Err(e),
            Ok(()) => {},
        }
        match preflight_cgroup_files(self, policy, files) {
            Err(e) => return Err(e),
            Ok(()) => {},
        }
        let mut out: Vec<(CgroupTargetSnapshot, Vec<ActionWarning>)> = Vec::new();
        let mut i: usize = 0;
        while i < self.targets.len()
            invariant
                0 <= i <= self.targets@.len(),
                placement_request_passes(*self, *policy),
                files_pass(*self, *policy, *files),
                out@.len() == i,
                forall|j: int|
                    0 <= j < i ==> #[trigger] placement_target_passes(self.targets@[j], cgroup_obs_at(observations@, j)),
                forall|j: int|
                    0 <= j < i ==> cgroup_snapshot_outcome(
                        proc_root@,
                        self.targets@[j].identity,
                        cgroup_obs_at(observations@, j),
                        Ok::<CgroupTargetSnapshot, ActionSourceError>(#[trigger] out@[j].0),
                    ) && warning_texts(out@[j].1@) == identity_warning_texts(
                        self.targets@[j].identity,
                        comm_value(cgroup_obs_at(observations@, j).task.comm),
                    ),
            decreases self.targets@.len() - i,
        {
            let target = &self.targets[i];
            let unread = CgroupTaskObservation {
                task: TaskObservation { stat: None, comm: None, exe: None },
                cgroup_file: FileRead::Unread,
            };
            let obs: &CgroupTaskObservation = if i < observations.len() {
                &observations[i]
            } else {
                &unread
            };
            assert(*obs == cgroup_obs_at(observations@, i as int));
            match placement_target_step(proc_root, target, obs) {
                Ok(pair) => {
                    out.push(pair);
                },
                Err(e) => {
                    return Err(e);
                },
            }
            i = i + 1;
        }
        Ok(out)
    }
}

/// The warnings of the first `n` targets, in order.
pub open spec fn placement_warnings_upto(
    targets: Seq<CgroupPlacementTarget>,
    obs: Seq<CgroupTaskObservation>,
    n: int,
) -> Seq<Seq<char>>
    decreases n,
{
    if n <= 0 {
        Seq::empty()
    } else {
        placement_warnings_upto(targets, obs, n - 1) + identity_warning_texts(
            targets[n - 1].identity,
            comm_value(cgroup_obs_at(obs, n - 1).task.comm),
        )
    }
}

/// How many of the first `n` targets are in a cgroup other than `target_abs` now.
pub open spec fn placements_pending_upto(
    root: Seq<char>,
    target_abs: Seq<char>,
    obs: Seq<CgroupTaskObservation>,
    n: int,
) -> nat
    decreases n,
{
    if n <= 0 {
        0
    } else {
        placements_pending_upto(root, target_abs, obs, n - 1) + if abs_under_root(
            root,
            current_cgroup(cgroup_obs_at(obs, n - 1)),
        ) != target_abs {
            1nat
        } else {
            0nat
        }
    }
}

/// The move records of the snapshots whose cgroup is not `target_abs`, in order.
pub open spec fn planned_moves(
    root: Seq<char>,
    target_abs: Seq<char>,
    snaps: Seq<(CgroupTargetSnapshot, Vec<ActionWarning>)>,
) -> Seq<CgroupRestoreRecord>
    decreases snaps.len(),
{
    if snaps.len() == 0 {
        Seq::empty()
    } else {
        let rest = planned_moves(root, target_abs, snaps.drop_last());
        let s = snaps.last().0;
        if abs_under_root(root, s.original_cgroup@) != target_abs {
            rest.push(
                CgroupRestoreRecord {
                    tid: s.task.tid,
                    original_cgroup: s.original_cgroup,
                    identity: Some(
                        TaskRestoreIdentity {
                            tid: s.task.tid,
                            process_pid: s.task.process_pid,
                            starttime_ticks: s.task.starttime_ticks,
                            comm: s.task.comm,
                            exe: s.task.exe,
                            process_starttime_ticks: None,
                        },
                    ),
                },
            )
        } else {
            rest
        }
    }
}

/// The warnings of the snapshots, how many are not in `target_abs`, and the restore
/// records of those, in order.
#[verifier::spinoff_prover]
#[verifier::rlimit(40)]
fn sum_placements(
    root: &str,
    target_abs: &str,
    snaps: &Vec<(CgroupTargetSnapshot, Vec<ActionWarning>)>,
    Ghost(proc_root): Ghost<Seq<char>>,
    Ghost(targets): Ghost<Seq<CgroupPlacementTarget>>,
    Ghost(obs): Ghost<Seq<CgroupTaskObservation>>,
) -> (r: (Vec<ActionWarning>, usize, Vec<CgroupRestoreRecord>))
    requires
        placement_snapshots_match(proc_root, targets, obs, snaps@),
        all_placements_pass(targets, obs),
    ensures
        warning_texts(r.0@) == placement_warnings_upto(targets, obs, targets.len() as int),
        r.1 == placements_pending_upto(root@, target_abs@, obs, targets.len() as int),
        r.1 <= targets.len(),
        r.2@ == planned_moves(root@, target_abs@, snaps@),
{
    let mut warnings: Vec<ActionWarning> = Vec::new();
    let mut pending: usize = 0;
    let mut moves: Vec<CgroupRestoreRecord> = Vec::new();
    let mut i: usize = 0;
    while i < snaps.len()
        invariant
            0 <= i <= snaps@.len(),
            placement_snapshots_match(proc_root, targets, obs, snaps@),
            all_placements_pass(targets, obs),
            warning_texts(warnings@) == placement_warnings_upto(targets, obs, i as int),
            pending == placements_pending_upto(root@, target_abs@, obs, i as int),
            pending <= i,
            moves@ == planned_moves(root@, target_abs@, snaps@.take(i as int)),
        decreases snaps@.len() - i,
    {
        proof {
            assert(cgroup_snapshot_outcome(
                proc_root,
                targets[i as int].identity,
                cgroup_obs_at(obs, i as int),
                Ok::<CgroupTargetSnapshot, ActionSourceError>(snaps@[i as int].0),
            ));
            assert(placement_target_passes(targets[i as int], cgroup_obs_at(obs, i as int)));
            assert(snaps@.take(i + 1).drop_last() =~= snaps@.take(i as int));
        }
        append_warnings(&mut warnings, &snaps[i].1);
        let s = &snaps[i].0;
        let rel = strip_cgroup_leading_slash(s.original_cgroup.as_str());
        let current = path_join(root, rel.as_str());
        if !str_eq(current.as_str(), target_abs) {
            pending = pending + 1;
            let identity = TaskRestoreIdentity::observed(
                s.task.tid,
                s.task.process_pid,
                copy_opt_string(&s.task.comm),
                s.task.starttime_ticks,
                copy_opt_string(&s.task.exe),
            );
            moves.push(CgroupRestoreRecord::new(identity, s.original_cgroup.clone()));
        }
        i = i + 1;
    }
    assert(snaps@.take(snaps@.len() as int) =~= snaps@);
    (warnings, pending, moves)
}

impl CgroupPlacementAction {
    /// The preflight under `policy`: the request, the target cgroup's files and every
    /// target are checked; the warnings are the targets' identity warnings, in order.
    pub fn preflight_with_policy(
        &self,
        policy: &CgroupPlacementPolicy,
        proc_root: &str,
        files: &CgroupFileObservation,
        observations: &Vec<CgroupTaskObservation>,
    ) -> (r: Result<Vec<ActionWarning>, ActionSourceError>)
        ensures
            r is Ok <==> placement_collect_passes(*self, *policy, *files, observations@),
            r matches Err(e) ==> placement_collect_failure(*self, *policy, proc_root@, *files, observations@, e),
            r matches Ok(w) ==> warning_texts(w@) == placement_warnings_upto(
                self.targets@,
                observations@,
                self.targets@.len() as int,
            ),
    {
        let snaps = match self.collect_target_snapshots(policy, proc_root, files, observations) {
            Ok(s) => s,
            Err(e) => return Err(e),
        };
        let target_abs = match self.target_cgroup_abs() {
            Ok(p) => p,
            Err(e) => return Err(e),
        };
        let (warnings, _, _) = sum_placements(
            self.cgroup_root.as_str(),
            target_abs.as_str(),
            &snaps,
            Ghost(proc_root@),
            Ghost(self.targets@),
            Ghost(observations@),
        );
        Ok(warnings)
    }

    /// The dry run under `policy`: how many targets would move, plus one when cpuset
    /// files would be written.
    pub fn dry_run_with_policy(
        &self,
        policy: &CgroupPlacementPolicy,
        proc_root: &str,
        files: &CgroupFileObservation,
        observations: &Vec<CgroupTaskObservation>,
    ) -> (r: Result<ActionState, ActionSourceError>)
        ensures
            r is Ok <==> placement_collect_passes(*self, *policy, *files, observations@),
            r matches Err(e) ==> placement_collect_failure(*self, *policy, proc_root@, *files, observations@, e),
            r matches Ok(st) ==> {
                let moving = placements_pending_upto(
                    self.cgroup_root@,
                    abs_under_root(self.cgroup_root@, normalized(self.target_cgroup@)->0),
                    observations@,
                    self.targets@.len() as int,
                );
                &&& !st.applied
                &&& st.pending_changes == if sets_cpuset(*self) {
                    if moving < usize::MAX { moving + 1 } else { moving }
                } else {
                    moving
                }
                &&& st.affected_tasks == st.pending_changes
                &&& st.checked_tasks == self.targets@.len()
                &&& warning_texts(st.warnings@) == placement_warnings_upto(
                    self.targets@,
                    observations@,
                    self.targets@.len() as int,
                )
            },
    {
        let snaps = match self.collect_target_snapshots(policy, proc_root, files, observations) {
            Ok(s) => s,
            Err(e) => return Err(e),
        };
        let target_abs = match self.target_cgroup_abs() {
            Ok(p) => p,
            Err(e) => return Err(e),
        };
        let (warnings, moving, _) = sum_placements(
            self.cgroup_root.as_str(),
            target_abs.as_str(),
            &snaps,
            Ghost(proc_root@),
            Ghost(self.targets@),
            Ghost(observations@),
        );
        let pending = if self.cpuset_cpus.is_some() || self.cpuset_mems.is_some() {
            moving.saturating_add(1)
        } else {
            moving
        };
        Ok(
            ActionState {
                applied: false,
                affected_tasks: pending,
                checked_tasks: self.targets.len(),
                pending_changes: pending,
                warnings,
            },
        )
    }

    /// The cpuset restore record applying would need, given the cpuset files' values now
    /// (`None` for a file that does not exist): none when no cpuset file is written.
    pub fn cpuset_restore_record(
        &self,
        original_cpus: Option<String>,
        original_mems: Option<String>,
    ) -> (r: Option<CgroupCpusetRestoreRecord>)
        requires
            normalized(self.target_cgroup@) is Some,
        ensures
            !sets_cpuset(*self) ==> r is None,
            sets_cpuset(*self) ==> (r matches Some(rec) && rec.cgroup_path@ == normalized(
                self.target_cgroup@,
            )->0 && rec.original_cpuset_cpus == (if self.cpuset_cpus is Some {
                original_cpus
            } else {
                None
            }) && rec.original_cpuset_mems == (if self.cpuset_mems is Some {
                original_mems
            } else {
                None
            })),
    {
        if self.cpuset_cpus.is_none() && self.cpuset_mems.is_none() {
            return None;
        }
        let cgroup_path = match normalize_cgroup_path(self.target_cgroup.as_str()) {
            Ok(p) => p,
            Err(_) => self.target_cgroup.clone(),
        };
        Some(
            CgroupCpusetRestoreRecord {
                cgroup_path,
                original_cpuset_cpus: if self.cpuset_cpus.is_some() {
                    original_cpus
                } else {
                    None
                },
                original_cpuset_mems: if self.cpuset_mems.is_some() {
                    original_mems
                } else {
                    None
                },
            },
        )
    }

    /// What applying under `policy` moves: the restore records of the targets not yet in
    /// the target cgroup, in the order they are moved.
    pub fn apply_plan_with_policy(
        &self,
        policy: &CgroupPlacementPolicy,
        proc_root: &str,
        files: &CgroupFileObservation,
        observations: &Vec<CgroupTaskObservation>,
    ) -> (r: Result<Vec<CgroupRestoreRecord>, ActionSourceError>)
        ensures
            r is Ok <==> placement_collect_passes(*self, *policy, *files, observations@),
            r matches Err(e) ==> placement_collect_failure(*self, *policy, proc_root@, *files, observations@, e),
            r matches Ok(moves) ==> exists|snaps: Seq<(CgroupTargetSnapshot, Vec<ActionWarning>)>|
                #![trigger placement_snapshots_match(proc_root@, self.targets@, observations@, snaps)]
                placement_snapshots_match(proc_root@, self.targets@, observations@, snaps) && moves@
                    == planned_moves(
                    self.cgroup_root@,
                    abs_under_root(self.cgroup_root@, normalized(self.target_cgroup@)->0),
                    snaps,
                ),
    {
        let snaps = match self.collect_target_snapshots(policy, proc_root, files, observations) {
            Ok(s) => s,
            Err(e) => return Err(e),
        };
        let target_abs = match self.target_cgroup_abs() {
            Ok(p) => p,
            Err(e) => return Err(e),
        };
        let (_, _, moves) = sum_placements(
            self.cgroup_root.as_str(),
            target_abs.as_str(),
            &snaps,
            Ghost(proc_root@),
            Ghost(self.targets@),
            Ghost(observations@),
        );
        assert(placement_snapshots_match(proc_root@, self.targets@, observations@, snaps@));
        Ok(moves)
    }
}

/// The records and cpuset record a cgroup rollback restores; a token of another kind is
/// refused as an invalid rollback token.
pub fn cgroup_rollback_parts(token: &RollbackToken) -> (r: Result<
    (&Vec<CgroupRestoreRecord>, &Option<CgroupCpusetRestoreRecord>),
    ActionSourceError,
>)
    ensures
        match *token {
            RollbackToken::CgroupRestore { records, cpuset } => r matches Ok(p) && *p.0 == records && *p.1 == cpuset,
            _ => r matches Err(e) && is_wrong_token_for(e, "cgroup-restore"@, *token),
        },
{
    match token {
        RollbackToken::CgroupRestore { records, cpuset } => Ok((records, cpuset)),
        _ => Err(
            ActionSourceError::Action(ActionError::invalid_rollback_token_kind(token.kind_error("cgroup-restore"))),
        ),
    }
}

/// The token that undoes a partial apply: the moves made so far, and the cpuset record
/// when a cpuset file was written; none when nothing was changed.
pub fn cgroup_partial_token(
    records: Vec<CgroupRestoreRecord>,
    cpuset_changed: bool,
    cpuset: &Option<CgroupCpusetRestoreRecord>,
) -> (r: Option<RollbackToken>)
    ensures
        (records@.len() == 0 && !cpuset_changed) ==> r is None,
        !(records@.len() == 0 && !cpuset_changed) ==> r == Some(
            RollbackToken::CgroupRestore {
                records,
                cpuset: if cpuset_changed {
                    *cpuset
                } else {
                    None
                },
            },
        ),
{
    if records.len() == 0 && !cpuset_changed {
        None
    } else {
        let c = if cpuset_changed {
            match cpuset {
                Some(rec) => Some(
                    CgroupCpusetRestoreRecord {
                        cgroup_path: rec.cgroup_path.clone(),
                        original_cpuset_cpus: copy_opt_string(&rec.original_cpuset_cpus),
                        original_cpuset_mems: copy_opt_string(&rec.original_cpuset_mems),
                    },
                ),
                None => None,
            }
        } else {
            None
        };
        Some(RollbackToken::CgroupRestore { records, cpuset: c })
    }
}

/// The writes that restore a cpuset record, in order: `cpuset.cpus` then `cpuset.mems`,
/// each only where the record holds an original value, under the record's cgroup
/// resolved below `root`.
pub fn cpuset_restore_writes(root: &str, record: &CgroupCpusetRestoreRecord) -> (r: Result<
    Vec<(String, String)>,
    ActionSourceError,
>)
    ensures
        has_parent_part(resolved_parts(root@, record.cgroup_path@)) ==> (r matches Err(ActionSourceError::Message(m))
            && m@ == "failed to resolve cgroup cpuset restore path "@ + record.cgroup_path@ + ": "@
            + traversal_text(resolved_display(root@, record.cgroup_path@))),
        !has_parent_part(resolved_parts(root@, record.cgroup_path@)) ==> (r matches Ok(w) && {
            let dir = join_path(
                root@,
                strip_leading_slashes("/"@ + join(resolved_parts(root@, record.cgroup_path@), "/"@)),
            );
            let first: Seq<(Seq<char>, Seq<char>)> = match record.original_cpuset_cpus {
                Some(v) => seq![(join_path(dir, "cpuset.cpus"@), v@)],
                None => Seq::empty(),
            };
            let second: Seq<(Seq<char>, Seq<char>)> = match record.original_cpuset_mems {
                Some(v) => seq![(join_path(dir, "cpuset.mems"@), v@)],
                None => Seq::empty(),
            };
            w@.map_values(|p: (String, String)| (p.0@, p.1@)) == first + second
        }),
{
    proof {
        reveal_strlit("cpuset.cpus");
        reveal_strlit("cpuset.mems");
    }
    let dir = match cgroup_fs_path(root, record.cgroup_path.as_str()) {
        Ok(p) => p,
        Err(e) => {
            let inner = e.message();
            let mut m = cat3("failed to resolve cgroup cpuset restore path ", record.cgroup_path.as_str(), ": ");
            m.append(inner.as_str());
            return Err(ActionSourceError::Message(m));
        },
    };
    let mut w: Vec<(String, String)> = Vec::new();
    match &record.original_cpuset_cpus {
        Some(v) => {
            w.push((path_join(dir.as_str(), "cpuset.cpus"), v.clone()));
        },
        None => {},
    }
    let ghost mid = w@;
    match &record.original_cpuset_mems {
        Some(v) => {
            w.push((path_join(dir.as_str(), "cpuset.mems"), v.clone()));
        },
        None => {},
    }
    assert(w@.map_values(|p: (String, String)| (p.0@, p.1@)) =~= mid.map_values(|p: (String, String)| (p.0@, p.1@))
        + (if record.original_cpuset_mems is Some {
        seq![(join_path(dir@, "cpuset.mems"@), record.original_cpuset_mems->0@)]
    } else {
        Seq::empty()
    }));
    Ok(w)
}

/// A cgroup record that a restore visited: its tid, the cgroup directory it was to be
/// written back to, and how it came out.
#[derive(Debug, Clone, PartialEq, Eq)]
pub struct CgroupRestoreItem {
    pub tid: u32,
    pub cgroup_dir: String,
    pub event: TaskRestoreEvent,
}

/// The restore events of cgroup items.
pub open spec fn cgroup_events(items: Seq<CgroupRestoreItem>) -> Seq<TaskRestoreEvent> {
    items.map_values(|it: CgroupRestoreItem| it.event)
}

/// The messages the cgroup rollback handler reports for its records, in order.
pub open spec fn cgroup_handler_messages(items: Seq<CgroupRestoreItem>) -> Seq<Seq<char>>
    decreases items.len(),
{
    if items.len() == 0 {
        Seq::empty()
    } else {
        let rest = cgroup_handler_messages(items.drop_last());
        let it = items.last();
        match it.event {
            TaskRestoreEvent::Mismatch { reason } => rest.push(
                "cgroup restore identity mismatch for tid="@ + decimal(it.tid as nat) + ": "@ + reason@,
            ),
            TaskRestoreEvent::WriteFailed { error, .. } => rest.push(
                "failed to restore pid="@ + decimal(it.tid as nat) + " to cgroup "@ + it.cgroup_dir@ + ": "@
                    + error@,
            ),
            _ => rest,
        }
    }
}

/// The failures the cgroup action's rollback reports for its records, in order.
pub open spec fn cgroup_rollback_failures(items: Seq<CgroupRestoreItem>) -> Seq<Seq<char>>
    decreases items.len(),
{
    if items.len() == 0 {
        Seq::empty()
    } else {
        let rest = cgroup_rollback_failures(items.drop_last());
        let it = items.last();
        match it.event {
            TaskRestoreEvent::WriteFailed { error, .. } => rest.push(
                "tid="@ + decimal(it.tid as nat) + " original_cgroup="@ + it.cgroup_dir@ + " error="@ + error@,
            ),
            _ => rest,
        }
    }
}

/// Counts, messages and failures of a cgroup restore.
#[derive(Debug, Clone, PartialEq, Eq)]
pub struct CgroupRestoreTally {
    pub counts: RestoreCounts,
    pub messages: Vec<String>,
    pub failures: Vec<String>,
}

/// `t` tallies `items`.
pub open spec fn cgroup_tally_matches(items: Seq<CgroupRestoreItem>, t: CgroupRestoreTally) -> bool {
    &&& counts_match(cgroup_events(items), t.counts)
    &&& views(t.messages@) == cgroup_handler_messages(items)
    &&& views(t.failures@) == cgroup_rollback_failures(items)
}

/// Tallies the cgroup records a restore visited.
pub fn tally_cgroup_restores(items: &Vec<CgroupRestoreItem>) -> (r: CgroupRestoreTally)
    ensures
        cgroup_tally_matches(items@, r),
{
    let mut t = CgroupRestoreTally { counts: RestoreCounts::new(), messages: Vec::new(), failures: Vec::new() };
    let mut i: usize = 0;
    assert(items@.take(0) =~= Seq::<CgroupRestoreItem>::empty());
    assert(cgroup_events(items@.take(0)) =~= Seq::<TaskRestoreEvent>::empty());
    assert(views(t.messages@) =~= Seq::<Seq<char>>::empty());
    assert(views(t.failures@) =~= Seq::<Seq<char>>::empty());
    while i < items.len()
        invariant
            0 <= i <= items@.len(),
            cgroup_tally_matches(items@.take(i as int), t),
        decreases items@.len() - i,
    {
        let it = &items[i];
        proof {
            assert(items@.take(i + 1).drop_last() =~= items@.take(i as int));
            assert(cgroup_events(items@.take(i + 1)) =~= cgroup_events(items@.take(i as int)).push(it.event));
        }
        t.counts.add_event(&it.event, Ghost(cgroup_events(items@.take(i as int))));
        let tid = u64_to_string(it.tid as u64);
        match &it.event {
            TaskRestoreEvent::Mismatch { reason } => {
                let mut m = cat("cgroup restore identity mismatch for tid=", tid.as_str());
                m.append(": ");
                m.append(reason.as_str());
                let ghost before = t.messages@;
                t.messages.push(m);
                assert(views(t.messages@) =~= views(before).push(
                    "cgroup restore identity mismatch for tid="@ + decimal(it.tid as nat) + ": "@ + reason@,
                ));
            },
            TaskRestoreEvent::WriteFailed { error, .. } => {
                let mut m = cat("failed to restore pid=", tid.as_str());
                m.append(" to cgroup ");
                m.append(it.cgroup_dir.as_str());
                m.append(": ");
                m.append(error.as_str());
                let ghost before = t.messages@;
                t.messages.push(m);
                assert(views(t.messages@) =~= views(before).push(
                    "failed to restore pid="@ + decimal(it.tid as nat) + " to cgroup "@ + it.cgroup_dir@ + ": "@
                        + error@,
                ));
                let mut f = cat("tid=", tid.as_str());
                f.append(" original_cgroup=");
                f.append(it.cgroup_dir.as_str());
                f.append(" error=");
                f.append(error.as_str());
                let ghost before_f = t.failures@;
                t.failures.push(f);
                assert(views(t.failures@) =~= views(before_f).push(
                    "tid="@ + decimal(it.tid as nat) + " original_cgroup="@ + it.cgroup_dir@ + " error="@ + error@,
                ));
            },
            _ => {},
        }
        i = i + 1;
    }
    assert(items@.take(items@.len() as int) =~= items@);
    t
}

/// The directory a record's original cgroup resolves to for the rollback handler.
pub fn resolve_original_cgroup(root: &str, original: &str) -> (r: Result<String, ActionSourceError>)
    ensures
        has_parent_part(resolved_parts(root@, original@)) ==> (r matches Err(ActionSourceError::Message(m))
            && m@ == "failed to resolve original cgroup path "@ + original@ + ": "@ + traversal_text(
            resolved_display(root@, original@),
        )),
        !has_parent_part(resolved_parts(root@, original@)) ==> (r matches Ok(p) && p@ == join_path(
            root@,
            strip_leading_slashes("/"@ + join(resolved_parts(root@, original@), "/"@)),
        )),
{
    match cgroup_fs_path(root, original) {
        Ok(p) => Ok(p),
        Err(e) => {
            let inner = e.message();
            let mut m = cat3("failed to resolve original cgroup path ", original, ": ");
            m.append(inner.as_str());
            Err(ActionSourceError::Message(m))
        },
    }
}

/// What the cgroup rollback handler reports after visiting every record and, where the
/// token holds one, restoring the cpuset record (the number of files it wrote back, or
/// its error): a failure naming every message when anything failed, else the counts
/// (the restored count capped at the largest `usize`).
pub fn cgroup_handler_result(t: CgroupRestoreTally, cpuset: Option<Result<usize, String>>) -> (r: Result<
    RollbackResult,
    ActionSourceError,
>)
    ensures
        ({
            let errors = t.counts.errors + if cpuset matches Some(Err(_)) { 1int } else { 0int };
            let messages = views(t.messages@) + match cpuset {
                Some(Err(e)) => seq!["failed to restore cgroup cpuset state: "@ + e@],
                _ => Seq::<Seq<char>>::empty(),
            };
            &&& errors > 0 ==> (r matches Err(ActionSourceError::Message(m)) && m@
                == "failed to rollback cgroup placement: "@ + join(messages, "; "@))
            &&& errors == 0 ==> (r matches Ok(res) && res.handler_id@ == "cgroup-rollback"@
                && res.restore_path@ == Seq::<char>::empty() && res.restored == cap(t.counts.restored + match cpuset {
                Some(Ok(n)) => n as int,
                _ => 0int,
            }) && res.skipped_dead == t.counts.skipped_dead && res.skipped_identity_mismatch
                == t.counts.skipped_identity_mismatch && res.legacy_unverified == t.counts.legacy_unverified
                && res.errors == 0 && views(res.messages@) == messages)
        }),
{
    let mut restored = t.counts.restored;
    let mut failed = t.counts.errors > 0;
    let mut messages = t.messages;
    let ghost before = messages@;
    match cpuset {
        Some(Ok(n)) => {
            restored = if restored > usize::MAX - n {
                usize::MAX
            } else {
                restored + n
            };
        },
        Some(Err(e)) => {
            failed = true;
            messages.push(cat("failed to restore cgroup cpuset state: ", e.as_str()));
        },
        None => {},
    }
    assert(views(messages@) =~= views(before) + match cpuset {
        Some(Err(e)) => seq!["failed to restore cgroup cpuset state: "@ + e@],
        _ => Seq::<Seq<char>>::empty(),
    });
    if failed {
        let joined = join_strings(&messages, "; ");
        return Err(ActionSourceError::Message(cat("failed to rollback cgroup placement: ", joined.as_str())));
    }
    Ok(
        RollbackResult {
            handler_id: "cgroup-rollback",
            restore_path: String::new(),
            restored,
            skipped_dead: t.counts.skipped_dead,
            skipped_identity_mismatch: t.counts.skipped_identity_mismatch,
            legacy_unverified: t.counts.legacy_unverified,
            errors: 0,
            messages,
        },
    )
}

/// The outcome of the cgroup action's rollback after visiting every record and, where
/// the token holds one, restoring the cpuset record (`cpuset_error`: its error): a
/// failure with the counts and every failure when anything failed.
pub fn cgroup_rollback_outcome(t: &CgroupRestoreTally, cpuset_error: Option<String>) -> (r: Result<(), ActionSourceError>)
    requires
        t.counts.errors < usize::MAX,
    ensures
        ({
            let failed = t.counts.errors + if cpuset_error is Some { 1int } else { 0int };
            let failures = views(t.failures@) + match cpuset_error {
                Some(e) => seq!["cpuset_restore_error="@ + e@],
                None => Seq::<Seq<char>>::empty(),
            };
            &&& failed == 0 ==> r is Ok
            &&& failed > 0 ==> (r matches Err(ActionSourceError::Message(m)) && m@
                == "failed to rollback cgroup placement after attempting all records: restored="@
                + decimal(t.counts.restored as nat) + " skipped_missing="@ + decimal(t.counts.skipped_dead as nat)
                + " skipped_identity_mismatch="@ + decimal(t.counts.skipped_identity_mismatch as nat)
                + " failed="@ + decimal(failed as nat) + " errors="@ + join(failures, "; "@))
        }),
{
    let mut failed = t.counts.errors;
    let mut failures: Vec<String> = Vec::new();
    let mut i: usize = 0;
    while i < t.failures.len()
        invariant
            0 <= i <= t.failures@.len(),
            views(failures@) =~= views(t.failures@).take(i as int),
        decreases t.failures@.len() - i,
    {
        failures.push(t.failures[i].clone());
        assert(views(t.failures@).take(i + 1) =~= views(t.failures@).take(i as int).push(t.failures@[i as int]@));
        i = i + 1;
    }
    assert(views(t.failures@).take(t.failures@.len() as int) =~= views(t.failures@));
    let ghost before = failures@;
    match cpuset_error {
        Some(e) => {
            failed = failed + 1;
            failures.push(cat("cpuset_restore_error=", e.as_str()));
        },
        None => {},
    }
    assert(views(failures@) =~= views(before) + match cpuset_error {
        Some(e) => seq!["cpuset_restore_error="@ + e@],
        None => Seq::<Seq<char>>::empty(),
    });
    if failed == 0 {
        return Ok(());
    }
    let mut m = cat(
        "failed to rollback cgroup placement after attempting all records: restored=",
        u64_to_string(t.counts.restored as u64).as_str(),
    );
    m.append(" skipped_missing=");
    m.append(u64_to_string(t.counts.skipped_dead as u64).as_str());
    m.append(" skipped_identity_mismatch=");
    m.append(u64_to_string(t.counts.skipped_identity_mismatch as u64).as_str());
    m.append(" failed=");
    m.append(u64_to_string(failed as u64).as_str());
    m.append(" errors=");
    let joined = join_strings(&failures, "; ");
    m.append(joined.as_str());
    Err(ActionSourceError::Message(m))
}


/// The error of an apply that failed part way: the partial token, and the source error,
/// which also names the rollback's failure when the partial rollback (whose outcome is
/// `rollback_outcome`) failed.
pub fn partial_apply_error_after_rollback(
    source: ActionSourceError,
    rollback: Option<RollbackToken>,
    rollback_outcome: Result<(), ActionSourceError>,
) -> (r: PartialApplyError)
    ensures
        r.rollback == rollback,
        (rollback is None || rollback_outcome is Ok) ==> r.source == source,
        (rollback is Some && rollback_outcome is Err) ==> (r.source matches ActionSourceError::Message(m) && m@
            == "apply failed: "@ + source_text(source) + "; partial cgroup rollback failed: "@ + source_text(
            rollback_outcome->Err_0,
        )),
{
    let source = match (&rollback, rollback_outcome) {
        (Some(_), Err(re)) => {
            let a = source.message();
            let b = re.message();
            let mut m = cat3("apply failed: ", a.as_str(), "; partial cgroup rollback failed: ");
            m.append(b.as_str());
            ActionSourceError::Message(m)
        },
        _ => source,
    };
    PartialApplyError { source, rollback }
}

} // verus!
