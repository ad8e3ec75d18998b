use vstd::prelude::*;
use crate::MAX_HISTORY_ENTRIES;
use crate::entry::{is_v4_uuid_text, HistoryEntry};
use crate::reconcile::{
    has_id, imported_count, merge_entries, merged, skipped_count, HistoryImportResult,
    HistoryImportStrategy,
};

verus! {

/// `s` cut down to the size cap, keeping its front.
pub open spec fn capped(s: Seq<HistoryEntry>) -> Seq<HistoryEntry> {
    if s.len() > MAX_HISTORY_ENTRIES {
        s.take(MAX_HISTORY_ENTRIES as int)
    } else {
        s
    }
}

/// The entries after `e` is added in front of `s`.
pub open spec fn with_added(s: Seq<HistoryEntry>, e: HistoryEntry) -> Seq<HistoryEntry> {
    capped(seq![e] + s)
}

/// The entries of `s`, in order, whose id is not `id`.
pub open spec fn without_id(s: Seq<HistoryEntry>, id: Seq<char>) -> Seq<HistoryEntry>
    decreases s.len(),
{
    if s.len() == 0 {
        s
    } else {
        let rest = without_id(s.drop_last(), id);
        if s.last().id@ == id {
            rest
        } else {
            rest.push(s.last())
        }
    }
}

/// The first `limit` entries of `s`, or all of them without a limit.
pub open spec fn listed(s: Seq<HistoryEntry>, limit: Option<usize>) -> Seq<HistoryEntry> {
    match limit {
        Some(n) => if n < s.len() {
            s.take(n as int)
        } else {
            s
        },
        None => s,
    }
}

/// Removing by id shortens `s` exactly when some entry has that id.
pub proof fn lemma_without_id_len(s: Seq<HistoryEntry>, id: Seq<char>)
    ensures
        without_id(s, id).len() <= s.len(),
        without_id(s, id).len() < s.len() <==> has_id(s, id),
        !has_id(s, id) ==> without_id(s, id) == s,
        !has_id(without_id(s, id), id),
    decreases s.len(),
{
    if s.len() > 0 {
        let t = s.drop_last();
        lemma_without_id_len(t, id);
        let w = without_id(s, id);
        if has_id(t, id) {
            let k = choose|k: int| 0 <= k < t.len() && (#[trigger] t[k]).id@ == id;
            assert(s[k] == t[k]);
        }
        if has_id(s, id) && !has_id(t, id) {
            let k = choose|k: int| 0 <= k < s.len() && (#[trigger] s[k]).id@ == id;
            if k < t.len() {
                assert(t[k] == s[k]);
            }
        }
        if !has_id(s, id) {
            assert(s[s.len() - 1].id@ != id);
            assert(s =~= t.push(s.last()));
        }
        if has_id(w, id) {
            let k = choose|k: int| 0 <= k < w.len() && (#[trigger] w[k]).id@ == id;
            let wt = without_id(t, id);
            if k < wt.len() {
                assert(wt[k] == w[k]);
            }
        }
    }
}

/// The history log: entries newest first, never more than the cap.
pub struct HistoryStorage {
    entries: Vec<HistoryEntry>,
}

impl View for HistoryStorage {
    type V = Seq<HistoryEntry>;

    closed spec fn view(&self) -> Seq<HistoryEntry> {
        self.entries@
    }
}

impl HistoryStorage {
    /// The size cap holds; every change but a deletion restores it, and a
    /// deletion keeps it.
    pub open spec fn wf(&self) -> bool {
        self@.len() <= MAX_HISTORY_ENTRIES
    }

    /// A log holding what was loaded, in the loaded order, or nothing where
    /// loading failed.
    pub fn new(loaded: Option<Vec<HistoryEntry>>) -> (r: Self)
        ensures
            r@ == match loaded {
                Some(v) => v@,
                None => Seq::<HistoryEntry>::empty(),
            },
    {
        match loaded {
            Some(v) => HistoryStorage { entries: v },
            None => HistoryStorage { entries: Vec::new() },
        }
    }

    /// Adds a new entry in front, dropping the oldest beyond the cap, and
    /// returns it.
    pub fn add_entry(&mut self, text: String, raw_text: String) -> (r: HistoryEntry)
        ensures
            final(self).wf(),
            final(self)@ == with_added(old(self)@, r),
            r.text == text,
            r.raw_text == raw_text,
            is_v4_uuid_text(r.id@),
    {
        let entry = HistoryEntry::new(text, raw_text);
        self.entries.insert(0, entry.clone());
        proof {
            assert(old(self)@.insert(0, entry) =~= seq![entry] + old(self)@);
        }
        self.entries.truncate(MAX_HISTORY_ENTRIES);
        entry
    }

    /// A copy of the first `limit` entries, or of all of them.
    pub fn get_all(&self, limit: Option<usize>) -> (r: Vec<HistoryEntry>)
        ensures
            r@ == listed(self@, limit),
    {
        let n: usize = match limit {
            Some(k) => if k < self.entries.len() {
                k
            } else {
                self.entries.len()
            },
            None => self.entries.len(),
        };
        let mut out: Vec<HistoryEntry> = Vec::new();
        let mut i: usize = 0;
        while i < n
            invariant
                n <= self.entries.len(),
                0 <= i <= n,
                out@ == self@.take(i as int),
            decreases n - i,
        {
            out.push(self.entries[i].clone());
            proof {
                assert(self@.take(i + 1) =~= self@.take(i as int).push(self@[i as int]));
            }
            i = i + 1;
        }
        proof {
            assert(self@.take(self@.len() as int) =~= self@);
        }
        out
    }

    /// Removes every entry with identifier `id`; tells whether any was.
    pub fn delete(&mut self, id: &str) -> (r: bool)
        ensures
            old(self).wf() ==> final(self).wf(),
            final(self)@.len() <= old(self)@.len(),
            final(self)@ == without_id(old(self)@, id@),
            r == has_id(old(self)@, id@),
            !r ==> final(self)@ == old(self)@,
    {
        let target: String = id.to_owned();
        let mut kept: Vec<HistoryEntry> = Vec::new();
        let mut i: usize = 0;
        while i < self.entries.len()
            invariant
                0 <= i <= self.entries.len(),
                target@ == id@,
                kept@ == without_id(self@.take(i as int), id@),
            decreases self.entries.len() - i,
        {
            proof {
                assert(self@.take(i + 1).drop_last() =~= self@.take(i as int));
            }
            if !(self.entries[i].id == target) {
                kept.push(self.entries[i].clone());
            }
            i = i + 1;
        }
        proof {
            assert(self@.take(self@.len() as int) =~= self@);
            lemma_without_id_len(old(self)@, id@);
        }
        let removed = kept.len() < self.entries.len();
        self.entries = kept;
        removed
    }

    /// Removes every entry.
    pub fn clear(&mut self)
        ensures
            final(self).wf(),
            final(self)@ == Seq::<HistoryEntry>::empty(),
    {
        self.entries.clear();
    }

    /// Combines `entries` with the log under `strategy`, then applies the cap.
    pub fn import_entries(
        &mut self,
        entries: Vec<HistoryEntry>,
        strategy: HistoryImportStrategy,
    ) -> (r: HistoryImportResult)
        ensures
            final(self).wf(),
            final(self)@ == capped(merged(old(self)@, entries@, strategy)),
            r.success,
            r.entries_imported == Some(imported_count(old(self)@, entries@, strategy) as usize),
            r.entries_skipped == Some(skipped_count(old(self)@, entries@, strategy) as usize),
    {
        let mut current: Vec<HistoryEntry> = Vec::new();
        std::mem::swap(&mut current, &mut self.entries);
        let (mut combined, imported, skipped) = merge_entries(current, entries, strategy);
        combined.truncate(MAX_HISTORY_ENTRIES);
        self.entries = combined;
        HistoryImportResult {
            success: true,
            entries_imported: Some(imported),
            entries_skipped: Some(skipped),
        }
    }
}

} // verus!
