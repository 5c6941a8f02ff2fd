//! Ordering the results a capacity sweep collects.
//!
//! The runs execute concurrently and finish in any order; the coordinator
//! re-imposes ascending capacity order when producing the final report, with
//! capacity as the join key.

use vstd::prelude::*;
use crate::sim::DeadTimeCounts;

verus! {

/// Does some entry of `results` carry the given capacity as its key?
pub open spec fn has_key(results: Seq<(u64, DeadTimeCounts)>, key: u64) -> bool {
    exists|j: int| 0 <= j < results.len() && results[j].0 == key
}

/// Is `row` one of the collected entries?
pub open spec fn row_from(results: Seq<(u64, DeadTimeCounts)>, row: (u64, DeadTimeCounts)) -> bool {
    exists|j: int| 0 <= j < results.len() && results[j] == row
}

/// Find the counts recorded for one capacity, if any entry carries it.
pub fn find_key(results: &Vec<(u64, DeadTimeCounts)>, key: u64) -> (r: Option<DeadTimeCounts>)
    ensures
        r.is_some() == has_key(results@, key),
        match r {
            Some(c) => row_from(results@, (key, c)),
            None => !has_key(results@, key),
        },
{
    let mut j: usize = 0;
    while j < results.len()
        invariant
            j <= results.len(),
            forall|k: int| 0 <= k < j ==> (#[trigger] results@[k]).0 != key,
        decreases results.len() - j,
    {
        if results[j].0 == key {
            return Some(results[j].1);
        }
        j = j + 1;
    }
    None
}

/// Arrange the collected results into one row per capacity in
/// `[min_limit, max_limit]` inclusive, in ascending order, regardless of the
/// order the runs finished in. Returns `None` exactly when some capacity in
/// the range has no collected result — a partial sweep is misleading output,
/// so the caller must treat that as fatal rather than omit a row.
pub fn collect_rows(min_limit: u64, max_limit: u64, results: &Vec<(u64, DeadTimeCounts)>) -> (r:
    Option<Vec<(u64, DeadTimeCounts)>>)
    requires
        min_limit <= max_limit ==> max_limit - min_limit < usize::MAX,
    ensures
        r.is_some() == (forall|l: u64| min_limit <= l <= max_limit ==> has_key(results@, l)),
        match r {
            Some(rows) => {
                &&& min_limit <= max_limit ==> rows@.len() == max_limit - min_limit + 1
                &&& min_limit > max_limit ==> rows@.len() == 0
                &&& forall|i: int|
                    0 <= i < rows@.len() ==> (#[trigger] rows@[i]).0 == min_limit + i
                &&& forall|i: int| 0 <= i < rows@.len() ==> row_from(results@, #[trigger] rows@[i])
            },
            None => exists|l: u64| min_limit <= l <= max_limit && !has_key(results@, l),
        },
{
    let mut rows: Vec<(u64, DeadTimeCounts)> = Vec::new();
    if min_limit > max_limit {
        return Some(rows);
    }
    let mut l: u64 = min_limit;
    loop
        invariant_except_break
            min_limit <= l <= max_limit,
            rows@.len() == l - min_limit,
        invariant
            forall|i: int| 0 <= i < rows@.len() ==> (#[trigger] rows@[i]).0 == min_limit + i,
            forall|i: int| 0 <= i < rows@.len() ==> row_from(results@, #[trigger] rows@[i]),
            forall|k: u64| min_limit <= k < l ==> has_key(results@, k),
        ensures
            rows@.len() == max_limit - min_limit + 1,
            forall|k: u64| min_limit <= k <= max_limit ==> has_key(results@, k),
        decreases max_limit - l,
    {
        match find_key(results, l) {
            Some(c) => {
                rows.push((l, c));
            },
            None => {
                return None;
            },
        }
        if l == max_limit {
            break ;
        }
        l = l + 1;
    }
    Some(rows)
}

} // verus!
