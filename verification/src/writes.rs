//! How the writes of an apply went: the `k`th write's error, where it failed, and the
//! first failure among a run of writes.
use vstd::prelude::*;

verus! {

/// The error of the `k`th planned write, where it failed; a write past the end succeeded.
pub open spec fn write_error_at(writes: Seq<Option<String>>, k: int) -> Option<String> {
    if 0 <= k < writes.len() {
        writes[k]
    } else {
        None
    }
}

/// The first `j` below `n` whose write (the `base + j`th) failed.
pub open spec fn first_failed_write(writes: Seq<Option<String>>, base: int, n: int) -> Option<int>
    decreases n,
{
    if n <= 0 {
        None
    } else {
        match first_failed_write(writes, base, n - 1) {
            Some(j) => Some(j),
            None => if write_error_at(writes, base + n - 1) is Some {
                Some(n - 1)
            } else {
                None
            },
        }
    }
}

/// Once a write has failed, it stays the first failure however many writes follow.
pub proof fn lemma_first_failed_stays(writes: Seq<Option<String>>, base: int, k: int, n: int)
    requires
        0 <= k <= n,
        first_failed_write(writes, base, k) is Some,
    ensures
        first_failed_write(writes, base, n) == first_failed_write(writes, base, k),
    decreases n - k,
{
    if k < n {
        lemma_first_failed_stays(writes, base, k, n - 1);
    }
}

/// The error of the `base + j`th planned write, where it failed.
pub fn write_error(writes: &Vec<Option<String>>, base: usize, j: usize) -> (r: Option<String>)
    ensures
        r == write_error_at(writes@, base + j),
{
    if j < writes.len() && base < writes.len() - j {
        match &writes[base + j] {
            Some(e) => Some(e.clone()),
            None => None,
        }
    } else {
        None
    }
}

} // verus!
