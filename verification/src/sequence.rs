//! Depth ordering of a frame's batch list.
//!
//! The draw stage replays batch items in ascending sort-key order, with the
//! scan order of the batch list as the tie-break, so that a frame's command
//! sequence is a pure function of its batch list: sequencing the same list
//! again — or sequencing its own output — reproduces it exactly.

use vstd::prelude::*;
use vstd::relations::sorted_by;
use vstd::relations::total_ordering;
use vstd::seq_lib::lemma_sorted_unique;

use crate::batch::BatchItem;

verus! {

/// A sort entry pairing an item's sort key with its scan position.
#[derive(Clone, Copy, Debug, PartialEq, Eq, Structural)]
pub struct SortEntry {
    pub key: i64,
    pub pos: usize,
}

/// The draw order: ascending key, with the scan position breaking ties.
/// Positions are distinct, so this orders a frame's entries totally.
pub open spec fn entry_leq(a: SortEntry, b: SortEntry) -> bool {
    a.key < b.key || (a.key == b.key && a.pos <= b.pos)
}

/// The draw order as a relation value, shared by every use.
pub open spec fn entry_order() -> spec_fn(SortEntry, SortEntry) -> bool {
    |a: SortEntry, b: SortEntry| entry_leq(a, b)
}

/// The draw order is a total ordering.
pub proof fn lemma_entry_order_total()
    ensures
        total_ordering(entry_order()),
{
}

/// The sort entries of a batch list, in scan order.
pub open spec fn entries_of(s: Seq<BatchItem>) -> Seq<SortEntry> {
    Seq::new(s.len(), |i: int| SortEntry { key: s[i].sort_key, pos: i as usize })
}

/// The batch list in draw order: its entries sorted by the draw order,
/// mapped back to the items they index.
pub open spec fn sequenced(s: Seq<BatchItem>) -> Seq<BatchItem> {
    entries_of(s).sort_by(entry_order()).map_values(|e: SortEntry| s[e.pos as int])
}

/// Every entry of the sorted entry list is an entry of the original list:
/// its position indexes the batch list and its key is that item's sort key.
proof fn lemma_sorted_entries_wf(s: Seq<BatchItem>)
    requires
        s.len() <= usize::MAX,
    ensures
        entries_of(s).sort_by(entry_order()).len() == s.len(),
        forall|t: int|
            0 <= t < s.len() ==> {
                let e = #[trigger] entries_of(s).sort_by(entry_order())[t];
                &&& 0 <= e.pos < s.len()
                &&& e.key == s[e.pos as int].sort_key
            },
{
    broadcast use vstd::seq_lib::group_to_multiset_ensures;

    let entries = entries_of(s);
    lemma_entry_order_total();
    entries.lemma_sort_by_ensures(entry_order());
    let sorted = entries.sort_by(entry_order());
    assert(sorted.len() == s.len()) by {
        assert(entries.to_multiset().len() == entries.len());
        assert(sorted.to_multiset().len() == sorted.len());
    }
    assert forall|t: int| 0 <= t < s.len() implies {
        let e = #[trigger] sorted[t];
        &&& 0 <= e.pos < s.len()
        &&& e.key == s[e.pos as int].sort_key
    } by {
        let e = sorted[t];
        assert(sorted.to_multiset().contains(e)) by {
            assert(sorted.to_multiset().count(e) > 0);
        }
        assert(entries.to_multiset().contains(e));
        assert(entries.contains(e));
        let i = choose|i: int| 0 <= i < entries.len() && entries[i] == e;
        assert(e.pos == i as usize);
    }
}

/// The draw order of a frame is ascending in the sort key.
pub proof fn lemma_sequenced_sorted(s: Seq<BatchItem>)
    requires
        s.len() <= usize::MAX,
    ensures
        sequenced(s).len() == s.len(),
        forall|a: int, b: int|
            0 <= a < b < s.len() ==> #[trigger] sequenced(s)[a].sort_key <= #[trigger] sequenced(
                s,
            )[b].sort_key,
{
    lemma_entry_order_total();
    lemma_sorted_entries_wf(s);
    entries_of(s).lemma_sort_by_ensures(entry_order());
    let sorted = entries_of(s).sort_by(entry_order());
    assert forall|a: int, b: int| 0 <= a < b < s.len() implies #[trigger] sequenced(s)[a].sort_key
        <= #[trigger] sequenced(s)[b].sort_key by {
        assert(sorted_by(sorted, entry_order()));
        assert(entry_order()(sorted[a], sorted[b]));
        assert(sequenced(s)[a] == s[sorted[a].pos as int]);
        assert(sequenced(s)[b] == s[sorted[b].pos as int]);
    }
}

/// Sequencing is idempotent: running the draw ordering on an already
/// ordered batch list reproduces it unchanged, so re-sequencing a frame's
/// output is the output itself.
pub proof fn lemma_sequenced_idempotent(s: Seq<BatchItem>)
    requires
        s.len() <= usize::MAX,
    ensures
        sequenced(sequenced(s)) == sequenced(s),
{
    broadcast use vstd::seq_lib::group_to_multiset_ensures;

    lemma_entry_order_total();
    lemma_sorted_entries_wf(s);
    lemma_sequenced_sorted(s);
    let t = sequenced(s);
    let sorted_s = entries_of(s).sort_by(entry_order());
    // The entries of the ordered list are themselves sorted: keys ascend,
    // and positions ascend within equal keys by construction.
    assert(sorted_by(entries_of(t), entry_order())) by {
        assert forall|a: int, b: int| 0 <= a < b < entries_of(t).len() implies #[trigger] entry_order()(
            entries_of(t)[a],
            entries_of(t)[b],
        ) by {
            assert(entries_of(t)[a].key == t[a].sort_key);
            assert(entries_of(t)[b].key == t[b].sort_key);
        }
    }
    entries_of(t).lemma_sort_by_ensures(entry_order());
    lemma_sorted_unique(
        entries_of(t).sort_by(entry_order()),
        entries_of(t),
        entry_order(),
    );
    assert(entries_of(t).sort_by(entry_order()) == entries_of(t));
    assert(sequenced(t) =~= t) by {
        assert forall|k: int| 0 <= k < t.len() implies sequenced(t)[k] == t[k] by {
            assert(entries_of(t)[k].pos == k as usize);
        }
    }
}

/// In an ordered frame, every composite quad — carrying the fixed late
/// overlay sort key — draws after every item whose key lies below it, so
/// compositing follows all direct lighting of the frame.
pub proof fn lemma_composite_draws_last(s: Seq<BatchItem>, a: int, b: int)
    requires
        s.len() <= usize::MAX,
        0 <= a < s.len(),
        0 <= b < s.len(),
        sequenced(s)[a].sort_key == crate::batch::OVERLAY_SORT_KEY,
        sequenced(s)[b].sort_key < crate::batch::OVERLAY_SORT_KEY,
    ensures
        b < a,
{
    lemma_sequenced_sorted(s);
    if a < b {
        assert(sequenced(s)[a].sort_key <= sequenced(s)[b].sort_key);
    }
}

/// Compares two sort entries in the draw order.
fn entry_le(a: &SortEntry, b: &SortEntry) -> (r: bool)
    ensures
        r <==> entry_leq(*a, *b),
{
    a.key < b.key || (a.key == b.key && a.pos <= b.pos)
}

/// Sorts the entry list by the draw order, in place.
fn sort_entries(v: &mut Vec<SortEntry>)
    ensures
        final(v)@.len() == old(v)@.len(),
        sorted_by(final(v)@, entry_order()),
        final(v)@.to_multiset() == old(v)@.to_multiset(),
{
    broadcast use vstd::seq_lib::group_to_multiset_ensures;
    broadcast use vstd::seq_lib::to_multiset_update;

    let n = v.len();
    let mut i: usize = 1;
    while i < n
        invariant
            n == v@.len(),
            1 <= i,
            v@.to_multiset() == old(v)@.to_multiset(),
            forall|a: int, b: int|
                0 <= a < b < i && b < n ==> #[trigger] entry_leq(v@[a], v@[b]),
        decreases n - i,
    {
        let mut j: usize = i;
        while j > 0 && !entry_le(&v[j - 1], &v[j])
            invariant
                n == v@.len(),
                0 <= j <= i < n,
                v@.to_multiset() == old(v)@.to_multiset(),
                forall|a: int, b: int|
                    0 <= a < b <= i as int && a != j && b != j ==> #[trigger] entry_leq(
                        v@[a],
                        v@[b],
                    ),
                forall|t: int| j < t <= i as int ==> #[trigger] entry_leq(v@[j as int], v@[t]),
            decreases j,
        {
            let prev = v[j - 1];
            let cur = v[j];
            let ghost s0 = v@;
            v.set(j - 1, cur);
            let ghost s1 = v@;
            v.set(j, prev);
            proof {
                broadcast use vstd::multiset::group_multiset_axioms;
                broadcast use vstd::seq_lib::to_multiset_update;
                broadcast use vstd::seq_lib::group_to_multiset_ensures;

                assert(s1 == s0.update(j - 1, cur));
                assert(v@ == s1.update(j as int, prev));
                assert(s0.update(j - 1, cur).to_multiset() == s0.to_multiset().insert(cur).remove(
                    s0[j - 1],
                ));
                assert(s1.update(j as int, prev).to_multiset() == s1.to_multiset().insert(
                    prev,
                ).remove(s1[j as int]));
                assert(s1[j as int] == cur);
                assert(s0[j - 1] == prev);
                assert(s0[j as int] == cur);
                assert(s0.to_multiset().count(prev) > 0) by {
                    assert(s0.contains(prev));
                }
                assert(s0.to_multiset().count(cur) > 0) by {
                    assert(s0.contains(cur));
                }
                assert(v@.to_multiset() =~= s0.to_multiset());
            }
            j = j - 1;
        }
        proof {
            assert forall|a: int, b: int| 0 <= a < b <= i as int implies #[trigger] entry_leq(
                v@[a],
                v@[b],
            ) by {
                if a == j as int {
                    assert(entry_leq(v@[j as int], v@[b]));
                } else if b == j as int {
                    assert(entry_leq(v@[j - 1], v@[j as int]));
                    if a < j - 1 {
                        assert(entry_leq(v@[a], v@[j - 1]));
                    }
                } else {
                    assert(entry_leq(v@[a], v@[b]));
                }
            }
        }
        i = i + 1;
    }
    proof {
        assert(sorted_by(v@, entry_order())) by {
            assert forall|a: int, b: int| 0 <= a < b < v@.len() implies #[trigger] entry_order()(
                v@[a],
                v@[b],
            ) by {
                assert(entry_leq(v@[a], v@[b]));
            }
        }
    }
}

/// Orders a frame's batch list for the draw stage: ascending sort key,
/// scan order breaking ties. The result is a pure function of the input
/// list, so replaying the same batch list yields the same order.
pub fn sequence_items(items: &Vec<BatchItem>) -> (out: Vec<BatchItem>)
    ensures
        out@ == sequenced(items@),
        out@.len() == items@.len(),
        forall|a: int, b: int|
            0 <= a < b < out@.len() ==> #[trigger] out@[a].sort_key <= #[trigger] out@[b].sort_key,
{
    broadcast use vstd::seq_lib::group_to_multiset_ensures;

    let n = items.len();
    let mut entries: Vec<SortEntry> = Vec::new();
    let mut i: usize = 0;
    while i < n
        invariant
            n == items@.len(),
            i <= n,
            entries@ == entries_of(items@).subrange(0, i as int),
        decreases n - i,
    {
        entries.push(SortEntry { key: items[i].sort_key, pos: i });
        proof {
            assert(entries_of(items@).subrange(0, i + 1) =~= entries_of(items@).subrange(
                0,
                i as int,
            ).push(entries_of(items@)[i as int]));
        }
        i = i + 1;
    }
    proof {
        assert(entries@ =~= entries_of(items@));
    }
    sort_entries(&mut entries);
    proof {
        lemma_entry_order_total();
        entries_of(items@).lemma_sort_by_ensures(entry_order());
        lemma_sorted_unique(entries@, entries_of(items@).sort_by(entry_order()), entry_order());
        lemma_sorted_entries_wf(items@);
    }
    let mut out: Vec<BatchItem> = Vec::new();
    let mut t: usize = 0;
    let m = entries.len();
    while t < m
        invariant
            m == entries@.len(),
            entries@ == entries_of(items@).sort_by(entry_order()),
            m == items@.len(),
            t <= m,
            forall|q: int|
                0 <= q < m ==> {
                    let e = #[trigger] entries@[q];
                    &&& 0 <= e.pos < items@.len()
                    &&& e.key == items@[e.pos as int].sort_key
                },
            out@ == sequenced(items@).subrange(0, t as int),
        decreases m - t,
    {
        let e = entries[t];
        out.push(items[e.pos]);
        proof {
            assert(sequenced(items@).subrange(0, t + 1) =~= sequenced(items@).subrange(
                0,
                t as int,
            ).push(sequenced(items@)[t as int]));
        }
        t = t + 1;
    }
    proof {
        assert(out@ =~= sequenced(items@));
        lemma_sequenced_sorted(items@);
    }
    out
}

} // verus!
