use vstd::prelude::*;
use crate::entry::HistoryEntry;
use crate::ordering::{newest_first, sort_newest_first};

verus! {

/// How imported entries are combined with the stored ones.
#[derive(Clone, Copy, Debug, PartialEq, Eq, Structural)]
pub enum HistoryImportStrategy {
    /// Drop the stored entries; keep the imported ones, newest first.
    Replace,
    /// Put the imported entries, newest first, ahead of the stored ones.
    MergeAppend,
    /// Add only imported entries with an unknown id, then sort all newest first.
    MergeDeduplicate,
}

/// What an import reports.
#[derive(Clone, Copy, Debug, PartialEq, Eq, Structural)]
pub struct HistoryImportResult {
    pub success: bool,
    pub entries_imported: Option<usize>,
    pub entries_skipped: Option<usize>,
}

/// Some entry of `s` has identifier `id`.
pub open spec fn has_id(s: Seq<HistoryEntry>, id: Seq<char>) -> bool {
    exists|k: int| 0 <= k < s.len() && (#[trigger] s[k]).id@ == id
}

/// The entries of `incoming`, in order, whose id no entry of `current` has.
pub open spec fn fresh_entries(incoming: Seq<HistoryEntry>, current: Seq<HistoryEntry>) -> Seq<HistoryEntry>
    decreases incoming.len(),
{
    if incoming.len() == 0 {
        incoming
    } else {
        let rest = fresh_entries(incoming.drop_last(), current);
        if has_id(current, incoming.last().id@) {
            rest
        } else {
            rest.push(incoming.last())
        }
    }
}

/// How many entries of `incoming` have an id that some entry of `current` has.
pub open spec fn colliding_count(incoming: Seq<HistoryEntry>, current: Seq<HistoryEntry>) -> nat
    decreases incoming.len(),
{
    if incoming.len() == 0 {
        0
    } else {
        colliding_count(incoming.drop_last(), current) + if has_id(current, incoming.last().id@) {
            1nat
        } else {
            0nat
        }
    }
}

/// The combined entries that `strategy` gives, before the size cap.
pub open spec fn merged(
    current: Seq<HistoryEntry>,
    incoming: Seq<HistoryEntry>,
    strategy: HistoryImportStrategy,
) -> Seq<HistoryEntry> {
    match strategy {
        HistoryImportStrategy::Replace => newest_first(incoming),
        HistoryImportStrategy::MergeAppend => newest_first(incoming) + current,
        HistoryImportStrategy::MergeDeduplicate => newest_first(
            fresh_entries(incoming, current) + current,
        ),
    }
}

/// How many entries `strategy` takes in.
pub open spec fn imported_count(
    current: Seq<HistoryEntry>,
    incoming: Seq<HistoryEntry>,
    strategy: HistoryImportStrategy,
) -> nat {
    match strategy {
        HistoryImportStrategy::MergeDeduplicate => fresh_entries(incoming, current).len(),
        _ => incoming.len(),
    }
}

/// How many entries `strategy` leaves out.
pub open spec fn skipped_count(
    current: Seq<HistoryEntry>,
    incoming: Seq<HistoryEntry>,
    strategy: HistoryImportStrategy,
) -> nat {
    match strategy {
        HistoryImportStrategy::MergeDeduplicate => colliding_count(incoming, current),
        _ => 0,
    }
}

/// Every entry of `incoming` is either taken in or counted as a collision.
pub proof fn lemma_fresh_and_colliding(incoming: Seq<HistoryEntry>, current: Seq<HistoryEntry>)
    ensures
        fresh_entries(incoming, current).len() + colliding_count(incoming, current) == incoming.len(),
        forall|k: int| 0 <= k < fresh_entries(incoming, current).len()
            ==> !has_id(current, (#[trigger] fresh_entries(incoming, current)[k]).id@),
    decreases incoming.len(),
{
    if incoming.len() > 0 {
        lemma_fresh_and_colliding(incoming.drop_last(), current);
    }
}

/// Whether some entry of `s` has identifier `id`.
pub fn contains_id(s: &Vec<HistoryEntry>, id: &String) -> (r: bool)
    ensures
        r == has_id(s@, id@),
{
    let mut k: usize = 0;
    while k < s.len()
        invariant
            0 <= k <= s.len(),
            forall|j: int| 0 <= j < k ==> (#[trigger] s@[j]).id@ != id@,
        decreases s.len() - k,
    {
        if s[k].id == *id {
            return true;
        }
        k = k + 1;
    }
    false
}

/// The entries of `incoming` whose id is not found in `current`, in order.
pub fn filter_fresh(incoming: &Vec<HistoryEntry>, current: &Vec<HistoryEntry>) -> (r: Vec<HistoryEntry>)
    ensures
        r@ == fresh_entries(incoming@, current@),
{
    let mut out: Vec<HistoryEntry> = Vec::new();
    let mut i: usize = 0;
    while i < incoming.len()
        invariant
            0 <= i <= incoming.len(),
            out@ == fresh_entries(incoming@.take(i as int), current@),
        decreases incoming.len() - i,
    {
        proof {
            assert(incoming@.take(i + 1).drop_last() =~= incoming@.take(i as int));
        }
        if !contains_id(current, &incoming[i].id) {
            out.push(incoming[i].clone());
        }
        i = i + 1;
    }
    proof {
        assert(incoming@.take(incoming.len() as int) =~= incoming@);
    }
    out
}

/// Combines `current` with `incoming` under `strategy`; returns the combined
/// entries and how many were taken in and left out.
pub fn merge_entries(
    current: Vec<HistoryEntry>,
    incoming: Vec<HistoryEntry>,
    strategy: HistoryImportStrategy,
) -> (r: (Vec<HistoryEntry>, usize, usize))
    ensures
        r.0@ == merged(current@, incoming@, strategy),
        r.1 == imported_count(current@, incoming@, strategy),
        r.2 == skipped_count(current@, incoming@, strategy),
{
    match strategy {
        HistoryImportStrategy::Replace => {
            let n = incoming.len();
            (sort_newest_first(incoming), n, 0)
        },
        HistoryImportStrategy::MergeAppend => {
            let n = incoming.len();
            let mut combined = sort_newest_first(incoming);
            let mut rest = current;
            combined.append(&mut rest);
            (combined, n, 0)
        },
        HistoryImportStrategy::MergeDeduplicate => {
            let mut combined = filter_fresh(&incoming, &current);
            let n = combined.len();
            proof {
                lemma_fresh_and_colliding(incoming@, current@);
            }
            let skipped = incoming.len() - n;
            let mut rest = current;
            combined.append(&mut rest);
            (sort_newest_first(combined), n, skipped)
        },
    }
}

} // verus!
