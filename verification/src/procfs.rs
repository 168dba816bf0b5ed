//! Parsing of the procfs text the actions read: `/proc/<tid>/stat` fields, the
//! `Tgid:` line of `/proc/<tid>/status`, and decimal numbers as `str::parse` reads them.
use vstd::prelude::*;

use crate::text::{is_digit_char, is_ws_char, char_is_ws};

verus! {

/// Every character of `s` is an ASCII digit.
pub open spec fn all_digits(s: Seq<char>) -> bool {
    forall|i: int| 0 <= i < s.len() ==> is_digit_char(#[trigger] s[i])
}

/// The value of a string of digits.
pub open spec fn digits_value(s: Seq<char>) -> nat
    decreases s.len(),
{
    if s.len() == 0 {
        0
    } else {
        digits_value(s.drop_last()) * 10 + ((s.last() as u32) - 48) as nat
    }
}

/// `s` without one leading `c`, if it starts with one.
pub open spec fn strip_one(s: Seq<char>, c: char) -> Seq<char> {
    if s.len() > 0 && s[0] == c {
        s.drop_first()
    } else {
        s
    }
}

/// The number an unsigned `str::parse` reads from `s`: an optional `+`, then one or
/// more digits, nothing else.
pub open spec fn parse_unsigned(s: Seq<char>) -> Option<nat> {
    let body = strip_one(s, '+');
    if body.len() > 0 && all_digits(body) {
        Some(digits_value(body))
    } else {
        None
    }
}

/// The number a signed `str::parse` reads from `s`: an optional sign, then one or more
/// digits, nothing else.
pub open spec fn parse_signed(s: Seq<char>) -> Option<int> {
    if s.len() > 0 && s[0] == '-' {
        let body = s.drop_first();
        if body.len() > 0 && all_digits(body) {
            Some(-(digits_value(body) as int))
        } else {
            None
        }
    } else {
        match parse_unsigned(s) {
            Some(v) => Some(v as int),
            None => None,
        }
    }
}

/// `s` split at whitespace into its non-empty fields, as `split_whitespace` yields them.
pub open spec fn ws_fields(s: Seq<char>) -> Seq<Seq<char>>
    decreases s.len(),
{
    if s.len() == 0 {
        Seq::empty()
    } else {
        let before = ws_fields(s.drop_last());
        let c = s.last();
        if is_ws_char(c) {
            before
        } else if s.len() >= 2 && !is_ws_char(s[s.len() - 2]) {
            before.update(before.len() - 1, before.last().push(c))
        } else {
            before.push(seq![c])
        }
    }
}

/// The index of the last `c` in `s`, as `rfind` gives it.
pub open spec fn last_index_of(s: Seq<char>, c: char) -> Option<int> {
    if exists|i: int| 0 <= i < s.len() && s[i] == c {
        Some(choose|i: int| 0 <= i < s.len() && s[i] == c && forall|j: int| i < j < s.len() ==> s[j] != c)
    } else {
        None
    }
}

/// The fields of a stat line after the closing parenthesis of the command name.
pub open spec fn stat_fields(stat: Seq<char>) -> Option<Seq<Seq<char>>> {
    match last_index_of(stat, ')') {
        Some(i) => Some(ws_fields(stat.subrange(i + 1, stat.len() as int))),
        None => None,
    }
}

/// The start time (field 19 after the command) of a stat line, if it parses as a `u64`.
pub open spec fn stat_starttime(stat: Seq<char>) -> Option<u64> {
    match stat_fields(stat) {
        Some(f) => if f.len() > 19 {
            match parse_unsigned(f[19]) {
                Some(v) => if v <= u64::MAX {
                    Some(v as u64)
                } else {
                    None
                },
                None => None,
            }
        } else {
            None
        },
        None => None,
    }
}

/// The nice value (field 16 after the command) of a stat line, if it parses as an `i32`.
pub open spec fn stat_nice(stat: Seq<char>) -> Option<i32> {
    match stat_fields(stat) {
        Some(f) => if f.len() > 16 {
            match parse_signed(f[16]) {
                Some(v) => if i32::MIN <= v <= i32::MAX {
                    Some(v as i32)
                } else {
                    None
                },
                None => None,
            }
        } else {
            None
        },
        None => None,
    }
}

proof fn lemma_digits_monotone(s: Seq<char>, i: int, j: int)
    requires
        0 <= i <= j <= s.len(),
        all_digits(s),
    ensures
        digits_value(s.take(i)) <= digits_value(s.take(j)),
    decreases j - i,
{
    if i < j {
        lemma_digits_monotone(s, i, j - 1);
        assert(s.take(j).drop_last() =~= s.take(j - 1));
    }
}

/// Reads the digits of `body` as a number that must fit a `u64`.
fn digits_to_u64(body: &str) -> (r: Option<u64>)
    ensures
        match r {
            Some(v) => all_digits(body@) && v == digits_value(body@),
            None => !all_digits(body@) || digits_value(body@) > u64::MAX,
        },
{
    let n = body.unicode_len();
    let mut acc: u64 = 0;
    let mut i: usize = 0;
    while i < n
        invariant
            n == body@.len(),
            0 <= i <= n,
            all_digits(body@.take(i as int)),
            acc == digits_value(body@.take(i as int)),
        decreases n - i,
    {
        let c = body.get_char(i);
        let u = c as u32;
        if u < 48 || u > 57 {
            return None;
        }
        proof {
            assert(body@.take(i + 1).drop_last() =~= body@.take(i as int));
            assert(body@.take(i + 1).last() == c);
        }
        let d = (u - 48) as u64;
        if acc > (u64::MAX - d) / 10 {
            proof {
                assert(digits_value(body@.take(i + 1)) > u64::MAX);
                assert forall|k: int| 0 <= k < i + 1 implies is_digit_char(
                    #[trigger] body@.take(i + 1)[k],
                ) by {
                    if k < i {
                        assert(body@.take(i + 1)[k] == body@.take(i as int)[k]);
                    }
                }
                if all_digits(body@) {
                    lemma_digits_monotone(body@, i + 1, n as int);
                    assert(body@.take(n as int) =~= body@);
                }
            }
            return None;
        }
        acc = acc * 10 + d;
        proof {
            assert forall|k: int| 0 <= k < i + 1 implies is_digit_char(
                #[trigger] body@.take(i + 1)[k],
            ) by {
                if k < i {
                    assert(body@.take(i + 1)[k] == body@.take(i as int)[k]);
                }
            }
        }
        i = i + 1;
    }
    assert(body@.take(n as int) =~= body@);
    Some(acc)
}

/// `s` without its first character.
fn rest_of(s: &str) -> (r: String)
    requires
        s@.len() > 0,
    ensures
        r@ == s@.drop_first(),
{
    let n = s.unicode_len();
    let mut out = String::new();
    let mut i: usize = 1;
    while i < n
        invariant
            n == s@.len(),
            1 <= i <= n,
            out@ == s@.subrange(1, i as int),
        decreases n - i,
    {
        crate::text::push_char(&mut out, s.get_char(i));
        assert(s@.subrange(1, i + 1) =~= s@.subrange(1, i as int).push(s@[i as int]));
        i = i + 1;
    }
    assert(s@.subrange(1, n as int) =~= s@.drop_first());
    out
}

/// `s` parsed as a `u64` the way `str::parse::<u64>` parses it.
pub fn parse_u64(s: &str) -> (r: Option<u64>)
    ensures
        r == (match parse_unsigned(s@) {
            Some(v) => if v <= u64::MAX {
                Some(v as u64)
            } else {
                None
            },
            None => None,
        }),
{
    let n = s.unicode_len();
    if n > 0 && s.get_char(0) == '+' {
        let body = rest_of(s);
        if body.unicode_len() == 0 {
            return None;
        }
        digits_to_u64(body.as_str())
    } else {
        if n == 0 {
            return None;
        }
        digits_to_u64(s)
    }
}

/// `s` parsed as an `i32` the way `str::parse::<i32>` parses it.
pub fn parse_i32(s: &str) -> (r: Option<i32>)
    ensures
        r == (match parse_signed(s@) {
            Some(v) => if i32::MIN <= v <= i32::MAX {
                Some(v as i32)
            } else {
                None
            },
            None => None,
        }),
{
    let n = s.unicode_len();
    if n > 0 && s.get_char(0) == '-' {
        let body = rest_of(s);
        if body.unicode_len() == 0 {
            return None;
        }
        match digits_to_u64(body.as_str()) {
            Some(v) => if v <= 2147483648 {
                Some((0i64 - v as i64) as i32)
            } else {
                None
            },
            None => None,
        }
    } else {
        match parse_u64(s) {
            Some(v) => if v <= 2147483647 {
                Some(v as i32)
            } else {
                None
            },
            None => None,
        }
    }
}

/// The fields of the characters of `s` from `start` on, split at whitespace.
pub fn split_ws_from(s: &str, start: usize) -> (r: Vec<Vec<char>>)
    requires
        start <= s@.len(),
    ensures
        r@.map_values(|f: Vec<char>| f@) == ws_fields(s@.subrange(start as int, s@.len() as int)),
{
    let n = s.unicode_len();
    let mut out: Vec<Vec<char>> = Vec::new();
    let mut i: usize = start;
    let mut prev_ws = true;
    assert(s@.subrange(start as int, start as int) =~= Seq::<char>::empty());
    while i < n
        invariant
            n == s@.len(),
            start <= i <= n,
            out@.map_values(|f: Vec<char>| f@) == ws_fields(s@.subrange(start as int, i as int)),
            prev_ws == (i == start || is_ws_char(s@[i - 1])),
            !prev_ws ==> out@.len() > 0,
        decreases n - i,
    {
        let c = s.get_char(i);
        let ghost sub = s@.subrange(start as int, i + 1);
        proof {
            assert(sub.drop_last() =~= s@.subrange(start as int, i as int));
            assert(sub.last() == c);
            if i > start {
                assert(sub[sub.len() - 2] == s@[i - 1]);
            }
        }
        if char_is_ws(c) {
            prev_ws = true;
        } else if prev_ws {
            let ghost before = out@;
            let mut f: Vec<char> = Vec::new();
            f.push(c);
            out.push(f);
            proof {
                assert(f@ =~= seq![c]);
                assert(out@.map_values(|f: Vec<char>| f@) =~= before.map_values(|f: Vec<char>| f@).push(
                    seq![c],
                ));
            }
            prev_ws = false;
        } else {
            let ghost before = out@;
            let mut last = out.pop().unwrap();
            let ghost mid = out@;
            last.push(c);
            out.push(last);
            proof {
                let bm = before.map_values(|f: Vec<char>| f@);
                assert(mid =~= before.drop_last());
                assert(out@.map_values(|f: Vec<char>| f@) =~= bm.update(
                    bm.len() - 1,
                    bm.last().push(c),
                ));
            }
        }
        i = i + 1;
    }
    out
}

/// The index of the last `c` in `s`.
pub fn rfind_char(s: &str, c: char) -> (r: Option<usize>)
    ensures
        match r {
            Some(i) => i < s@.len() && last_index_of(s@, c) == Some(i as int),
            None => last_index_of(s@, c) is None,
        },
{
    let n = s.unicode_len();
    let mut i: usize = n;
    while i > 0
        invariant
            n == s@.len(),
            0 <= i <= n,
            forall|j: int| i <= j < n ==> s@[j] != c,
        decreases i,
    {
        if s.get_char(i - 1) == c {
            proof {
                let k = (i - 1) as int;
                assert(s@[k] == c);
                assert(exists|x: int| 0 <= x < s@.len() && s@[x] == c);
                let w = last_index_of(s@, c)->0;
                assert(0 <= w < s@.len() && s@[w] == c && forall|j: int| w < j < s@.len() ==> s@[j] != c);
                if w < k {
                } else if w > k {
                }
                assert(w == k);
            }
            return Some(i - 1);
        }
        i = i - 1;
    }
    None
}

/// The fields of a stat line after the command's closing parenthesis.
pub fn stat_fields_of(stat: &str) -> (r: Option<Vec<Vec<char>>>)
    ensures
        match r {
            Some(f) => stat_fields(stat@) == Some(f@.map_values(|x: Vec<char>| x@)),
            None => stat_fields(stat@) is None,
        },
{
    let n = stat.unicode_len();
    match rfind_char(stat, ')') {
        Some(i) => {
            assert(i < n);
            Some(split_ws_from(stat, i + 1))
        },
        None => None,
    }
}

fn field_text(f: &Vec<char>) -> (r: String)
    ensures
        r@ == f@,
{
    let mut s = String::new();
    let mut i: usize = 0;
    while i < f.len()
        invariant
            0 <= i <= f@.len(),
            s@ == f@.take(i as int),
        decreases f@.len() - i,
    {
        crate::text::push_char(&mut s, f[i]);
        assert(f@.take(i + 1) =~= f@.take(i as int).push(f@[i as int]));
        i = i + 1;
    }
    assert(f@.take(f@.len() as int) =~= f@);
    s
}

/// The start time in clock ticks from a `/proc/<tid>/stat` line.
pub fn parse_stat_starttime(stat: &str) -> (r: Option<u64>)
    ensures
        r == stat_starttime(stat@),
{
    let fields = stat_fields_of(stat)?;
    if fields.len() <= 19 {
        return None;
    }
    let text = field_text(&fields[19]);
    proof {
        assert(fields@.map_values(|x: Vec<char>| x@)[19] == fields@[19]@);
    }
    parse_u64(text.as_str())
}

/// The nice value and start time from a `/proc/<tid>/stat` line.
pub fn parse_stat_nice_and_starttime(stat: &str) -> (r: Option<(i32, u64)>)
    ensures
        r == (match (stat_nice(stat@), stat_starttime(stat@)) {
            (Some(n), Some(t)) => Some((n, t)),
            _ => None,
        }),
{
    let fields = stat_fields_of(stat)?;
    if fields.len() <= 19 {
        return None;
    }
    proof {
        assert(fields@.map_values(|x: Vec<char>| x@)[16] == fields@[16]@);
        assert(fields@.map_values(|x: Vec<char>| x@)[19] == fields@[19]@);
    }
    let nice_text = field_text(&fields[16]);
    let start_text = field_text(&fields[19]);
    let nice = parse_i32(nice_text.as_str())?;
    let start = parse_u64(start_text.as_str())?;
    Some((nice, start))
}

} // verus!
