use vstd::prelude::*;
use crate::MAX_HISTORY_ENTRIES;
use crate::entry::HistoryEntry;
use crate::ordering::{
    is_newest_first, lemma_newest_first_sorted, lemma_sorted_determined, newest_first,
    times_identify,
};
use crate::reconcile::{
    colliding_count, fresh_entries, has_id, imported_count, lemma_fresh_and_colliding, merged,
    skipped_count, HistoryImportStrategy,
};
use crate::store::{capped, listed, with_added};

verus! {

/// The entries after each of `adds` is added in turn to `s`, first to last.
pub open spec fn after_adds(s: Seq<HistoryEntry>, adds: Seq<HistoryEntry>) -> Seq<HistoryEntry>
    decreases adds.len(),
{
    if adds.len() == 0 {
        s
    } else {
        with_added(after_adds(s, adds.drop_last()), adds.last())
    }
}

proof fn lemma_capped_front(e: HistoryEntry, t: Seq<HistoryEntry>)
    ensures
        capped(seq![e] + capped(t)) == capped(seq![e] + t),
{
    assert(capped(seq![e] + capped(t)) =~= capped(seq![e] + t));
}

/// Adding entries one at a time lists them in reverse order of addition, the
/// latest first, ahead of what was there, cut to the cap.
pub proof fn lemma_adds_listed_latest_first(s: Seq<HistoryEntry>, adds: Seq<HistoryEntry>)
    requires
        s.len() <= MAX_HISTORY_ENTRIES,
    ensures
        listed(after_adds(s, adds), None) == capped(adds.reverse() + s),
    decreases adds.len(),
{
    if adds.len() > 0 {
        let init = adds.drop_last();
        lemma_adds_listed_latest_first(s, init);
        lemma_capped_front(adds.last(), init.reverse() + s);
        assert(adds.reverse() =~= seq![adds.last()] + init.reverse());
        assert(seq![adds.last()] + (init.reverse() + s) =~= adds.reverse() + s);
    } else {
        assert(adds.reverse() + s =~= s);
    }
}

/// Adding to a full log keeps it full: the new entry comes first and the
/// entry that was last is dropped.
pub proof fn lemma_add_to_full_drops_last(s: Seq<HistoryEntry>, e: HistoryEntry)
    requires
        s.len() == MAX_HISTORY_ENTRIES,
    ensures
        with_added(s, e).len() == MAX_HISTORY_ENTRIES,
        with_added(s, e) == seq![e] + s.take(MAX_HISTORY_ENTRIES - 1),
{
    assert(with_added(s, e) =~= seq![e] + s.take(MAX_HISTORY_ENTRIES - 1));
}

/// Every import leaves at most the cap.
pub proof fn lemma_import_within_cap(
    current: Seq<HistoryEntry>,
    incoming: Seq<HistoryEntry>,
    strategy: HistoryImportStrategy,
)
    ensures
        capped(merged(current, incoming, strategy)).len() <= MAX_HISTORY_ENTRIES,
{
}

/// Replacing with nothing empties the log; replacing with entries that fit
/// gives exactly those entries, newest first.
pub proof fn lemma_replace_sorts(current: Seq<HistoryEntry>, incoming: Seq<HistoryEntry>)
    requires
        incoming.len() <= MAX_HISTORY_ENTRIES,
    ensures
        incoming.len() == 0 ==> capped(merged(current, incoming, HistoryImportStrategy::Replace))
            == Seq::<HistoryEntry>::empty(),
        capped(merged(current, incoming, HistoryImportStrategy::Replace)) == newest_first(incoming),
        is_newest_first(capped(merged(current, incoming, HistoryImportStrategy::Replace))),
        capped(merged(current, incoming, HistoryImportStrategy::Replace)).to_multiset()
            == incoming.to_multiset(),
{
    lemma_newest_first_sorted(incoming);
}

/// Appending puts the imported entries, newest first, ahead of all stored ones,
/// duplicates kept, and counts every imported entry as taken in.
pub proof fn lemma_append_prepends(current: Seq<HistoryEntry>, incoming: Seq<HistoryEntry>)
    ensures
        merged(current, incoming, HistoryImportStrategy::MergeAppend) == newest_first(incoming)
            + current,
        merged(current, incoming, HistoryImportStrategy::MergeAppend).len() == incoming.len()
            + current.len(),
        imported_count(current, incoming, HistoryImportStrategy::MergeAppend) == incoming.len(),
        skipped_count(current, incoming, HistoryImportStrategy::MergeAppend) == 0,
{
    lemma_newest_first_sorted(incoming);
}

/// Deduplicating takes in only entries whose id is not stored yet, counts each
/// left out entry as skipped, and orders the whole result newest first.
pub proof fn lemma_dedup_skips_known_ids(current: Seq<HistoryEntry>, incoming: Seq<HistoryEntry>)
    ensures
        is_newest_first(merged(current, incoming, HistoryImportStrategy::MergeDeduplicate)),
        merged(current, incoming, HistoryImportStrategy::MergeDeduplicate).to_multiset()
            == fresh_entries(incoming, current).to_multiset().add(current.to_multiset()),
        forall|k: int|
            0 <= k < fresh_entries(incoming, current).len() ==> !has_id(
                current,
                (#[trigger] fresh_entries(incoming, current)[k]).id@,
            ),
        skipped_count(current, incoming, HistoryImportStrategy::MergeDeduplicate)
            == colliding_count(incoming, current),
        imported_count(current, incoming, HistoryImportStrategy::MergeDeduplicate) + skipped_count(
            current,
            incoming,
            HistoryImportStrategy::MergeDeduplicate,
        ) == incoming.len(),
{
    let combined = fresh_entries(incoming, current) + current;
    lemma_newest_first_sorted(combined);
    lemma_fresh_and_colliding(incoming, current);
    vstd::seq_lib::lemma_multiset_commutative::<HistoryEntry>(fresh_entries(incoming, current), current);
}

} // verus!

verus! {

/// Where entries with equal times are identical, replacing gives the same log
/// whatever order the imported entries come in.
pub proof fn lemma_replace_ignores_input_order(
    current1: Seq<HistoryEntry>,
    incoming1: Seq<HistoryEntry>,
    current2: Seq<HistoryEntry>,
    incoming2: Seq<HistoryEntry>,
)
    requires
        incoming1.to_multiset() == incoming2.to_multiset(),
        times_identify(incoming1.to_multiset()),
    ensures
        merged(current1, incoming1, HistoryImportStrategy::Replace) == merged(
            current2,
            incoming2,
            HistoryImportStrategy::Replace,
        ),
        capped(merged(current1, incoming1, HistoryImportStrategy::Replace)) == capped(
            merged(current2, incoming2, HistoryImportStrategy::Replace),
        ),
{
    lemma_newest_first_sorted(incoming1);
    lemma_newest_first_sorted(incoming2);
    lemma_sorted_determined(newest_first(incoming1), newest_first(incoming2));
}

} // verus!
