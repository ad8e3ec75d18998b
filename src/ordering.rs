use vstd::prelude::*;
use vstd::multiset::Multiset;
use crate::entry::{later, HistoryEntry};

verus! {

/// `x` placed into `r` after every entry that is not strictly older than it,
/// so entries of equal time keep their order of arrival.
pub open spec fn insert_by_time(r: Seq<HistoryEntry>, x: HistoryEntry) -> Seq<HistoryEntry>
    decreases r.len(),
{
    if r.len() == 0 {
        seq![x]
    } else if later(x.timestamp, r[0].timestamp) {
        seq![x] + r
    } else {
        seq![r[0]] + insert_by_time(r.drop_first(), x)
    }
}

/// The stable sort of `s`, newest first.
pub open spec fn newest_first(s: Seq<HistoryEntry>) -> Seq<HistoryEntry>
    decreases s.len(),
{
    if s.len() == 0 {
        s
    } else {
        insert_by_time(newest_first(s.drop_last()), s.last())
    }
}

/// No entry of `s` is strictly later than one before it.
pub open spec fn is_newest_first(s: Seq<HistoryEntry>) -> bool {
    forall|i: int, j: int| 0 <= i < j < s.len() ==> !later(#[trigger] s[j].timestamp, #[trigger] s[i].timestamp)
}

proof fn lemma_later_total(a: HistoryEntry, b: HistoryEntry)
    ensures
        !later(a.timestamp, b.timestamp) && !later(b.timestamp, a.timestamp) ==> a.timestamp == b.timestamp,
        later(a.timestamp, b.timestamp) ==> !later(b.timestamp, a.timestamp),
{
}

proof fn lemma_insert_at(r: Seq<HistoryEntry>, x: HistoryEntry, i: int)
    requires
        0 <= i <= r.len(),
        forall|j: int| 0 <= j < i ==> !later(x.timestamp, #[trigger] r[j].timestamp),
        i < r.len() ==> later(x.timestamp, r[i].timestamp),
    ensures
        insert_by_time(r, x) == r.insert(i, x),
    decreases i,
{
    if r.len() == 0 {
        assert(r.insert(i, x) =~= seq![x]);
    } else if i == 0 {
        assert(r.insert(i, x) =~= seq![x] + r);
    } else {
        let t = r.drop_first();
        assert forall|j: int| 0 <= j < i - 1 implies !later(x.timestamp, #[trigger] t[j].timestamp) by {
            assert(t[j] == r[j + 1]);
        }
        lemma_insert_at(t, x, i - 1);
        assert(r.insert(i, x) =~= seq![r[0]] + t.insert(i - 1, x));
    }
}

proof fn lemma_insert_sorted(r: Seq<HistoryEntry>, x: HistoryEntry)
    requires
        is_newest_first(r),
    ensures
        is_newest_first(insert_by_time(r, x)),
        insert_by_time(r, x).to_multiset() == r.to_multiset().insert(x),
        insert_by_time(r, x).len() == r.len() + 1,
    decreases r.len(),
{
    broadcast use vstd::seq_lib::group_seq_properties;
    if r.len() == 0 {
        assert(seq![x] =~= Seq::<HistoryEntry>::empty().push(x));
        Seq::<HistoryEntry>::empty().to_multiset_ensures();
    } else if later(x.timestamp, r[0].timestamp) {
        let s = seq![x] + r;
        assert forall|i: int, j: int| 0 <= i < j < s.len() implies !later(#[trigger] s[j].timestamp, #[trigger] s[i].timestamp) by {
            if i == 0 {
                lemma_later_total(s[j], r[0]);
            }
        }
        assert(s =~= r.insert(0, x));
        r.to_multiset_ensures();
        vstd::seq_lib::lemma_multiset_commutative::<HistoryEntry>(seq![x], r);
    } else {
        let t = r.drop_first();
        assert(is_newest_first(t));
        lemma_insert_sorted(t, x);
        let u = insert_by_time(t, x);
        let s = seq![r[0]] + u;
        assert forall|i: int, j: int| 0 <= i < j < s.len() implies !later(#[trigger] s[j].timestamp, #[trigger] s[i].timestamp) by {
            if i == 0 {
                assert(u.to_multiset().count(s[j]) > 0) by {
                    assert(s[j] == u[j - 1]);
                }
                assert(t.to_multiset().insert(x).count(s[j]) > 0);
                if s[j] != x {
                    assert(t.to_multiset().count(s[j]) > 0);
                    let k = choose|k: int| 0 <= k < t.len() && t[k] == s[j];
                    assert(r[k + 1] == t[k]);
                } else {
                    lemma_later_total(x, r[0]);
                }
            } else {
                assert(s[i] == u[i - 1] && s[j] == u[j - 1]);
            }
        }
        assert(r =~= seq![r[0]] + t);
        vstd::seq_lib::lemma_multiset_commutative::<HistoryEntry>(seq![r[0]], u);
        vstd::seq_lib::lemma_multiset_commutative::<HistoryEntry>(seq![r[0]], t);
    }
}

/// Sorting newest first yields an ordered arrangement of exactly the same entries.
pub proof fn lemma_newest_first_sorted(s: Seq<HistoryEntry>)
    ensures
        is_newest_first(newest_first(s)),
        newest_first(s).to_multiset() == s.to_multiset(),
        newest_first(s).len() == s.len(),
    decreases s.len(),
{
    broadcast use vstd::seq_lib::group_seq_properties;
    if s.len() > 0 {
        lemma_newest_first_sorted(s.drop_last());
        lemma_insert_sorted(newest_first(s.drop_last()), s.last());
        assert(s =~= s.drop_last().push(s.last()));
        s.drop_last().to_multiset_ensures();
    }
}

/// Inserts `x` into `v` at the place that `insert_by_time` gives.
pub fn insert_newest_first(v: &mut Vec<HistoryEntry>, x: HistoryEntry)
    ensures
        final(v)@ == insert_by_time(old(v)@, x),
{
    let mut i: usize = 0;
    while i < v.len() && !x.timestamp.is_later_than(&v[i].timestamp)
        invariant
            0 <= i <= v.len(),
            forall|j: int| 0 <= j < i ==> !later(x.timestamp, #[trigger] v@[j].timestamp),
        decreases v.len() - i,
    {
        i = i + 1;
    }
    proof {
        lemma_insert_at(v@, x, i as int);
    }
    v.insert(i, x);
}

/// The entries of `v`, stably sorted newest first.
pub fn sort_newest_first(v: Vec<HistoryEntry>) -> (r: Vec<HistoryEntry>)
    ensures
        r@ == newest_first(v@),
{
    let mut out: Vec<HistoryEntry> = Vec::new();
    let n = v.len();
    let mut i: usize = 0;
    while i < n
        invariant
            n == v.len(),
            0 <= i <= n,
            out@ == newest_first(v@.take(i as int)),
        decreases n - i,
    {
        let x = v[i].clone();
        proof {
            assert(v@.take(i + 1).drop_last() =~= v@.take(i as int));
        }
        insert_newest_first(&mut out, x);
        i = i + 1;
    }
    proof {
        assert(v@.take(n as int) =~= v@);
    }
    out
}

} // verus!

verus! {

/// Two entries found in `m` with the same time are the same entry.
pub open spec fn times_identify(m: Multiset<HistoryEntry>) -> bool {
    forall|a: HistoryEntry, b: HistoryEntry|
        #![trigger m.count(a), m.count(b)]
        m.count(a) > 0 && m.count(b) > 0 && a.timestamp == b.timestamp ==> a == b
}

/// Where equal times mean equal entries, the ordered arrangement of a set of
/// entries is unique.
pub proof fn lemma_sorted_determined(s1: Seq<HistoryEntry>, s2: Seq<HistoryEntry>)
    requires
        is_newest_first(s1),
        is_newest_first(s2),
        s1.to_multiset() == s2.to_multiset(),
        times_identify(s1.to_multiset()),
    ensures
        s1 == s2,
    decreases s1.len(),
{
    broadcast use vstd::seq_lib::to_multiset_contains;

    s1.to_multiset_ensures();
    s2.to_multiset_ensures();
    if s1.len() == 0 {
        assert(s1 =~= s2);
    } else {
        let a = s1[0];
        let b = s2[0];
        assert(s2.contains(b));
        assert(s1.to_multiset().count(b) > 0);
        assert(s1.contains(b));
        let m = choose|m: int| 0 <= m < s1.len() && s1[m] == b;
        assert(s1.contains(a));
        assert(s2.to_multiset().count(a) > 0);
        assert(s2.contains(a));
        let k = choose|k: int| 0 <= k < s2.len() && s2[k] == a;
        if m > 0 {
            assert(!later(s1[m].timestamp, s1[0].timestamp));
        }
        if k > 0 {
            assert(!later(s2[k].timestamp, s2[0].timestamp));
        }
        lemma_later_total(a, b);
        assert(s1.to_multiset().count(a) > 0 && s1.to_multiset().count(b) > 0);
        assert(a == b);
        let t1 = s1.drop_first();
        let t2 = s2.drop_first();
        assert(s1.remove(0) =~= t1);
        assert(s2.remove(0) =~= t2);
        assert(t1.to_multiset() =~= t2.to_multiset());
        assert forall|x: HistoryEntry, y: HistoryEntry|
            #![trigger t1.to_multiset().count(x), t1.to_multiset().count(y)]
            t1.to_multiset().count(x) > 0 && t1.to_multiset().count(y) > 0 && x.timestamp
                == y.timestamp implies x == y by {
            assert(t1.contains(x) && t1.contains(y));
            let p = choose|p: int| 0 <= p < t1.len() && t1[p] == x;
            let q = choose|q: int| 0 <= q < t1.len() && t1[q] == y;
            assert(s1[p + 1] == x && s1[q + 1] == y);
            assert(s1.contains(x) && s1.contains(y));
            assert(s1.to_multiset().count(x) > 0 && s1.to_multiset().count(y) > 0);
        }
        assert forall|i: int, j: int| 0 <= i < j < t1.len() implies !later(#[trigger] t1[j].timestamp, #[trigger] t1[i].timestamp) by {
            assert(t1[i] == s1[i + 1] && t1[j] == s1[j + 1]);
        }
        assert forall|i: int, j: int| 0 <= i < j < t2.len() implies !later(#[trigger] t2[j].timestamp, #[trigger] t2[i].timestamp) by {
            assert(t2[i] == s2[i + 1] && t2[j] == s2[j + 1]);
        }
        lemma_sorted_determined(t1, t2);
        assert(s1 =~= seq![a] + t1);
        assert(s2 =~= seq![b] + t2);
    }
}

} // verus!
