//! The cost metrics' listing order: the most recent entries first.

use vstd::prelude::*;

verus! {

/// The traces listing shows at most fifty entries.
pub const TRACE_LIMIT: usize = 50;

/// The positions of the newest `limit` of `len` recorded entries, newest first.
pub fn newest_first(len: usize, limit: usize) -> (r: Vec<usize>)
    ensures
        r@.len() == if limit < len { limit } else { len },
        forall|k: int| 0 <= k < r@.len() ==> #[trigger] r@[k] == len - 1 - k,
{
    let n = if limit < len { limit } else { len };
    let mut r: Vec<usize> = Vec::new();
    let mut k: usize = 0;
    while k < n
        invariant
            n <= len,
            k <= n,
            r@.len() == k,
            forall|j: int| 0 <= j < k ==> #[trigger] r@[j] == len - 1 - j,
        decreases n - k,
    {
        r.push(len - 1 - k);
        k = k + 1;
    }
    r
}

} // verus!
