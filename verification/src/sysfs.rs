//! Rules shared by the sysfs power actions: which values may be written, whether the
//! machine runs on battery, and how a restore of written files is checked.
use vstd::prelude::*;

use crate::cgroup::FileRead;
use crate::error::ActionSourceError;
use crate::text::{
    cat, cat3, cat4, debug_char, debug_char_text, debug_quote, debug_quoted, is_alnum_char, is_ws_char, join,
    join_strings, str_eq, trim, trim_end, trim_start, trim_text, views,
};
use vstd::utf8::encode_utf8;

verus! {

/// What a power supply directory shows: its `type`, `online` and `status` files.
#[derive(Debug, Clone, PartialEq, Eq)]
pub struct PowerSupplyEntry {
    pub supply_type: FileRead,
    pub online: FileRead,
    pub status: FileRead,
}

/// What the power supply class directory shows.
#[derive(Debug, Clone, PartialEq, Eq)]
pub enum PowerSupplyObservation {
    /// The directory does not exist.
    Absent,
    /// Listing the directory failed.
    ListFailed { error: String },
    /// Reading an entry of the listing failed.
    EntryFailed { error: String },
    /// The entries, in listing order.
    Entries(Vec<PowerSupplyEntry>),
}

/// A file's trimmed contents, or the empty text when it could not be read.
pub open spec fn value_or_empty(f: FileRead) -> Seq<char> {
    match f {
        FileRead::Contents(c) => trim(c@),
        _ => Seq::empty(),
    }
}

/// A file's trimmed contents, or the empty text when it could not be read.
pub fn read_value_or_empty(f: &FileRead) -> (r: String)
    ensures
        r@ == value_or_empty(*f),
{
    match f {
        FileRead::Contents(c) => trim_text(c.as_str()),
        _ => String::new(),
    }
}

/// Whether an entry is an external supply (mains or USB) that is online.
pub open spec fn external_online(e: PowerSupplyEntry) -> bool {
    let t = value_or_empty(e.supply_type);
    (t == "Mains"@ || t == "USB"@ || t == "USB_C"@) && value_or_empty(e.online) == "1"@
}

/// Whether an entry is a battery that discharges.
pub open spec fn battery_discharging(e: PowerSupplyEntry) -> bool {
    value_or_empty(e.supply_type) == "Battery"@ && (value_or_empty(e.status) == "Discharging"@
        || value_or_empty(e.status) == "Not charging"@)
}

/// Whether the machine runs on battery: no external supply is online, and some battery
/// discharges.
pub open spec fn on_battery(entries: Seq<PowerSupplyEntry>) -> bool {
    (forall|i: int| 0 <= i < entries.len() ==> !external_online(#[trigger] entries[i])) && exists|i: int|
        0 <= i < entries.len() && battery_discharging(#[trigger] entries[i])
}

/// Whether an entry is an external supply that is online.
fn is_external_online(e: &PowerSupplyEntry) -> (r: bool)
    ensures
        r == external_online(*e),
{
    proof {
        reveal_strlit("Mains");
        reveal_strlit("USB");
        reveal_strlit("USB_C");
        reveal_strlit("1");
    }
    let t = read_value_or_empty(&e.supply_type);
    if !(str_eq(t.as_str(), "Mains") || str_eq(t.as_str(), "USB") || str_eq(t.as_str(), "USB_C")) {
        return false;
    }
    let online = read_value_or_empty(&e.online);
    str_eq(online.as_str(), "1")
}

/// Whether an entry is a battery that discharges.
fn is_battery_discharging(e: &PowerSupplyEntry) -> (r: bool)
    ensures
        r == battery_discharging(*e),
{
    let t = read_value_or_empty(&e.supply_type);
    if !str_eq(t.as_str(), "Battery") {
        return false;
    }
    let status = read_value_or_empty(&e.status);
    str_eq(status.as_str(), "Discharging") || str_eq(status.as_str(), "Not charging")
}

/// Whether the machine runs on battery, given what the power supply directory (shown as
/// `root` in errors) holds: an absent directory means no battery.
pub fn is_on_battery(root: &str, obs: &PowerSupplyObservation) -> (r: Result<bool, ActionSourceError>)
    ensures
        match *obs {
            PowerSupplyObservation::Absent => r == Ok::<bool, ActionSourceError>(false),
            PowerSupplyObservation::ListFailed { error } => r matches Err(ActionSourceError::Message(m))
                && m@ == "failed to read "@ + root@ + ": "@ + error@,
            PowerSupplyObservation::EntryFailed { error } => r matches Err(ActionSourceError::Message(m))
                && m@ == "failed to read entry under "@ + root@ + ": "@ + error@,
            PowerSupplyObservation::Entries(v) => r == Ok::<bool, ActionSourceError>(on_battery(v@)),
        },
{
    match obs {
        PowerSupplyObservation::Absent => Ok(false),
        PowerSupplyObservation::ListFailed { error } => Err(
            ActionSourceError::Message(cat4("failed to read ", root, ": ", error.as_str())),
        ),
        PowerSupplyObservation::EntryFailed { error } => Err(
            ActionSourceError::Message(cat4("failed to read entry under ", root, ": ", error.as_str())),
        ),
        PowerSupplyObservation::Entries(v) => {
            let mut i: usize = 0;
            while i < v.len()
                invariant
                    0 <= i <= v@.len(),
                    *obs == PowerSupplyObservation::Entries(*v),
                    forall|j: int| 0 <= j < i ==> !external_online(#[trigger] v@[j]),
                decreases v@.len() - i,
            {
                if is_external_online(&v[i]) {
                    assert(external_online(v@[i as int]));
                    return Ok(false);
                }
                i = i + 1;
            }
            let mut k: usize = 0;
            while k < v.len()
                invariant
                    0 <= k <= v@.len(),
                    *obs == PowerSupplyObservation::Entries(*v),
                    forall|j: int| 0 <= j < v@.len() ==> !external_online(#[trigger] v@[j]),
                    forall|j: int| 0 <= j < k ==> !battery_discharging(#[trigger] v@[j]),
                decreases v@.len() - k,
            {
                if is_battery_discharging(&v[k]) {
                    assert(battery_discharging(v@[k as int]));
                    return Ok(true);
                }
                k = k + 1;
            }
            Ok(false)
        },
    }
}

/// Whether a character may appear in a sysfs value: ASCII letters, digits, `_`, `-`,
/// and, where `allow_space`, a space.
pub open spec fn sysfs_char(c: char, allow_space: bool) -> bool {
    is_alnum_char(c) || c == '_' || c == '-' || (allow_space && c == ' ')
}

/// Why a value for the sysfs file `name` is refused, if it is: empty after trimming,
/// surrounded by whitespace, longer than 64 bytes, or holding another character (the
/// first such).
pub open spec fn sysfs_value_error(name: Seq<char>, value: Seq<char>, allow_space: bool) -> Option<Seq<char>> {
    if trim(value).len() == 0 {
        Some(name + " value must not be empty"@)
    } else if trim(value) != value {
        Some(name + " value must not contain leading or trailing whitespace"@)
    } else if encode_utf8(value).len() > 64 {
        Some(name + " value is too long"@)
    } else if exists|i: int| 0 <= i < value.len() && !sysfs_char(#[trigger] value[i], allow_space) {
        let i = choose|i: int|
            0 <= i < value.len() && !sysfs_char(value[i], allow_space) && forall|j: int|
                0 <= j < i ==> sysfs_char(#[trigger] value[j], allow_space);
        Some(name + " value contains invalid character "@ + debug_char(value[i]))
    } else {
        None
    }
}

/// Characters below 128 take one byte each in UTF-8.
proof fn lemma_one_byte_chars(v: Seq<char>)
    requires
        forall|i: int| 0 <= i < v.len() ==> is_alnum_char(#[trigger] v[i]) || v[i] == '_',
    ensures
        encode_utf8(v).len() == v.len(),
    decreases v.len(),
{
    if v.len() > 0 {
        assert(is_alnum_char(v[0]) || v[0] == '_');
        assert forall|i: int| 0 <= i < v.drop_first().len() implies is_alnum_char(#[trigger] v.drop_first()[i])
            || v.drop_first()[i] == '_' by {
            assert(v.drop_first()[i] == v[i + 1]);
        }
        lemma_one_byte_chars(v.drop_first());
    }
}

/// A value of at most 64 characters, each an ASCII letter, digit or underscore, is a
/// well-formed sysfs value.
pub proof fn lemma_plain_value_is_clean(name: Seq<char>, v: Seq<char>, allow_space: bool)
    requires
        0 < v.len() <= 64,
        forall|i: int| 0 <= i < v.len() ==> is_alnum_char(#[trigger] v[i]) || v[i] == '_',
    ensures
        sysfs_value_error(name, v, allow_space) is None,
{
    assert(!is_ws_char(v[0]));
    assert(trim_start(v) == v);
    assert(!is_ws_char(v.last()));
    assert(trim_end(v) == v);
    lemma_one_byte_chars(v);
    assert forall|i: int| 0 <= i < v.len() implies sysfs_char(#[trigger] v[i], allow_space) by {}
}

/// Why a value for the sysfs file `name` is refused, if it is.
pub fn sysfs_value_problem(name: &str, value: &str, allow_space: bool) -> (r: Option<String>)
    ensures
        opt_text_eq(r, sysfs_value_error(name@, value@, allow_space)),
{
    let t = trim_text(value);
    if t.unicode_len() == 0 {
        return Some(cat(name, " value must not be empty"));
    }
    if !str_eq(t.as_str(), value) {
        return Some(cat(name, " value must not contain leading or trailing whitespace"));
    }
    let bytes = value.as_bytes();
    if bytes.len() > 64 {
        return Some(cat(name, " value is too long"));
    }
    let n = value.unicode_len();
    let mut i: usize = 0;
    while i < n
        invariant
            n == value@.len(),
            0 <= i <= n,
            trim(value@).len() != 0,
            trim(value@) == value@,
            encode_utf8(value@).len() <= 64,
            forall|j: int| 0 <= j < i ==> sysfs_char(#[trigger] value@[j], allow_space),
        decreases n - i,
    {
        let c = value.get_char(i);
        let ok = ('a' <= c && c <= 'z') || ('A' <= c && c <= 'Z') || ('0' <= c && c <= '9') || c == '_'
            || c == '-' || (allow_space && c == ' ');
        if !ok {
            proof {
                let k = choose|k: int|
                    0 <= k < value@.len() && !sysfs_char(value@[k], allow_space) && forall|j: int|
                        0 <= j < k ==> sysfs_char(#[trigger] value@[j], allow_space);
                assert(0 <= i < value@.len() && !sysfs_char(value@[i as int], allow_space) && forall|j: int|
                    0 <= j < i ==> sysfs_char(#[trigger] value@[j], allow_space));
                if k < i {
                    assert(sysfs_char(value@[k], allow_space));
                } else if k > i {
                    assert(sysfs_char(value@[i as int], allow_space));
                }
                assert(k == i);
            }
            let q = debug_char_text(c);
            return Some(cat3(name, " value contains invalid character ", q.as_str()));
        }
        i = i + 1;
    }
    None
}

/// `r` holds the text `t` when there is one.
pub open spec fn opt_text_eq(r: Option<String>, t: Option<Seq<char>>) -> bool {
    match (r, t) {
        (Some(s), Some(x)) => s@ == x,
        (None, None) => true,
        _ => false,
    }
}

/// A file's trimmed contents; a failed read is reported with the path.
pub fn read_trimmed(path: &str, f: &FileRead) -> (r: Result<String, ActionSourceError>)
    ensures
        match *f {
            FileRead::Contents(c) => r matches Ok(v) && v@ == trim(c@),
            FileRead::Failed(e) => r matches Err(ActionSourceError::Message(m)) && m@ == "failed to read "@
                + path@ + ": "@ + e@,
            FileRead::Unread => r matches Err(ActionSourceError::Message(m)) && m@ == "failed to read "@
                + path@ + ": "@,
        },
{
    match f {
        FileRead::Contents(c) => Ok(trim_text(c.as_str())),
        FileRead::Failed(e) => Err(ActionSourceError::Message(cat4("failed to read ", path, ": ", e.as_str()))),
        FileRead::Unread => Err(ActionSourceError::Message(cat3("failed to read ", path, ": "))),
    }
}

/// How restoring one sysfs file came out: the write failed, the read-back failed, or the
/// value read back.
#[derive(Debug, Clone, PartialEq, Eq)]
pub enum SysfsRestoreOutcome {
    WriteFailed { error: String },
    ReadFailed { error: String },
    ReadBack { value: String },
}

/// How one write of an apply went: the write's error, or what the file read back.
#[derive(Debug, Clone, PartialEq, Eq)]
pub enum ApplyWrite {
    WriteFailed { error: String },
    ReadBack(FileRead),
}

/// The outcome of the `k`th write: nothing read back past the end.
pub open spec fn apply_write_at(writes: Seq<ApplyWrite>, k: int) -> ApplyWrite {
    if 0 <= k < writes.len() {
        writes[k]
    } else {
        ApplyWrite::ReadBack(FileRead::Unread)
    }
}

/// A sysfs file a restore visited: its path, the value written back, and how it came out.
#[derive(Debug, Clone, PartialEq, Eq)]
pub struct SysfsRestoreItem {
    pub path: String,
    pub original_value: String,
    pub outcome: SysfsRestoreOutcome,
}

/// The failure a restored file reports, if any.
pub open spec fn sysfs_restore_failure(it: SysfsRestoreItem) -> Option<Seq<char>> {
    match it.outcome {
        SysfsRestoreOutcome::WriteFailed { error } => Some(
            it.path@ + " restore write failed: failed to write "@ + debug_quoted(trim(it.original_value@))
                + " to "@ + it.path@ + ": "@ + error@,
        ),
        SysfsRestoreOutcome::ReadFailed { error } => Some(
            it.path@ + " restore verification read failed: failed to read "@ + it.path@ + ": "@ + error@,
        ),
        SysfsRestoreOutcome::ReadBack { value } => if trim(value@) == it.original_value@ {
            None
        } else {
            Some(
                it.path@ + " restore verification failed: requested="@ + debug_quoted(it.original_value@)
                    + " actual="@ + debug_quoted(trim(value@)),
            )
        },
    }
}

/// The failures of a restore, in the order the files were visited.
pub open spec fn sysfs_restore_failures(items: Seq<SysfsRestoreItem>) -> Seq<Seq<char>>
    decreases items.len(),
{
    if items.len() == 0 {
        Seq::empty()
    } else {
        let rest = sysfs_restore_failures(items.drop_last());
        match sysfs_restore_failure(items.last()) {
            Some(f) => rest.push(f),
            None => rest,
        }
    }
}

/// The failures of a restore of sysfs files, in the order they were visited.
pub fn sysfs_restore_failure_list(items: &Vec<SysfsRestoreItem>) -> (r: Vec<String>)
    ensures
        views(r@) == sysfs_restore_failures(items@),
{
    let mut out: Vec<String> = Vec::new();
    let mut i: usize = 0;
    assert(items@.take(0) =~= Seq::<SysfsRestoreItem>::empty());
    assert(views(out@) =~= Seq::<Seq<char>>::empty());
    while i < items.len()
        invariant
            0 <= i <= items@.len(),
            views(out@) == sysfs_restore_failures(items@.take(i as int)),
        decreases items@.len() - i,
    {
        let it = &items[i];
        proof {
            assert(items@.take(i + 1).drop_last() =~= items@.take(i as int));
        }
        let ghost before = out@;
        match &it.outcome {
            SysfsRestoreOutcome::WriteFailed { error } => {
                let t = trim_text(it.original_value.as_str());
                let q = debug_quote(t.as_str());
                let mut m = cat3(it.path.as_str(), " restore write failed: failed to write ", q.as_str());
                m.append(" to ");
                m.append(it.path.as_str());
                m.append(": ");
                m.append(error.as_str());
                out.push(m);
                assert(views(out@) =~= views(before).push(sysfs_restore_failure(*it)->0));
            },
            SysfsRestoreOutcome::ReadFailed { error } => {
                let mut m = cat3(
                    it.path.as_str(),
                    " restore verification read failed: failed to read ",
                    it.path.as_str(),
                );
                m.append(": ");
                m.append(error.as_str());
                out.push(m);
                assert(views(out@) =~= views(before).push(sysfs_restore_failure(*it)->0));
            },
            SysfsRestoreOutcome::ReadBack { value } => {
                let actual = trim_text(value.as_str());
                if !str_eq(actual.as_str(), it.original_value.as_str()) {
                    let req = debug_quote(it.original_value.as_str());
                    let act = debug_quote(actual.as_str());
                    let mut m = cat3(it.path.as_str(), " restore verification failed: requested=", req.as_str());
                    m.append(" actual=");
                    m.append(act.as_str());
                    out.push(m);
                    assert(views(out@) =~= views(before).push(sysfs_restore_failure(*it)->0));
                }
            },
        }
        i = i + 1;
    }
    assert(items@.take(items@.len() as int) =~= items@);
    out
}

/// The writes that restore records of `(path, original value)`, latest first.
pub fn reversed_restore_writes(paths: &Vec<(String, String)>) -> (r: Vec<(String, String)>)
    ensures
        r@.len() == paths@.len(),
        forall|i: int| 0 <= i < r@.len() ==> #[trigger] r@[i] == paths@[paths@.len() - 1 - i],
{
    let mut out: Vec<(String, String)> = Vec::new();
    let mut i: usize = paths.len();
    while i > 0
        invariant
            0 <= i <= paths@.len(),
            out@.len() == paths@.len() - i,
            forall|k: int| 0 <= k < out@.len() ==> #[trigger] out@[k] == paths@[paths@.len() - 1 - k],
        decreases i,
    {
        let p = &paths[i - 1];
        out.push((p.0.clone(), p.1.clone()));
        i = i - 1;
    }
    out
}

} // verus!
