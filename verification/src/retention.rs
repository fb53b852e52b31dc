//! The retention rule: of a version list, newest first, the first versions are kept and
//! every later one is a candidate for deletion.

use crate::packages::Package;
use vstd::prelude::*;

verus! {

/// How many of the newest versions a collection pass keeps when it is told no number.
pub const DEFAULT_SKIP: usize = 4;

/// How many of the newest versions a collection pass keeps.
pub open spec fn kept(skip: Option<usize>) -> nat {
    match skip {
        Some(count) => count as nat,
        None => DEFAULT_SKIP as nat,
    }
}

/// The candidates for deletion: the records from position `skip` on, in the list's
/// order. The list is taken as it comes, not sorted, so a list that is not newest first
/// loses other versions than the oldest.
pub open spec fn candidates<T>(records: Seq<T>, skip: nat) -> Seq<T> {
    if skip < records.len() {
        records.subrange(skip as int, records.len() as int)
    } else {
        Seq::empty()
    }
}

/// How many of the newest versions a collection pass keeps.
pub fn skip_count(skip: Option<usize>) -> (count: usize)
    ensures
        count == kept(skip),
{
    match skip {
        Some(count) => count,
        None => DEFAULT_SKIP,
    }
}

/// The candidates for deletion among the records of a version list.
pub fn deletion_candidates(packages: Vec<Package>, skip: usize) -> (selected: Vec<Package>)
    ensures
        selected@ == candidates(packages@, skip as nat),
{
    let mut packages = packages;
    if skip < packages.len() {
        packages.split_off(skip)
    } else {
        Vec::new()
    }
}

/// Of a list of `L` records, a pass that keeps `N` deletes none where `L <= N`, and
/// otherwise exactly `L - N`: the records at the positions `N`, `N + 1`, ... of the
/// list, in that order.
pub proof fn lemma_candidates<T>(records: Seq<T>, skip: nat)
    ensures
        records.len() <= skip ==> candidates(records, skip).len() == 0,
        records.len() > skip ==> candidates(records, skip).len() == records.len() - skip,
        forall|k: int|
            0 <= k < candidates(records, skip).len() ==> #[trigger] candidates(records, skip)[k]
                == records[skip + k],
{
}

/// A pass that keeps nothing deletes every record, in the list's order.
pub proof fn lemma_candidates_of_none_kept<T>(records: Seq<T>)
    ensures
        candidates(records, 0) == records,
{
}

} // verus!
