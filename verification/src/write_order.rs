//! The live segments in the order they were written: a stable sort of a
//! folder listing by write time, which the listing itself does not
//! guarantee.
use vstd::prelude::*;
use crate::replay_window::{seg_view, seg_views, SegView, SegmentEntry};

verus! {

/// Where index `i` goes in `order`: before the first listed segment written
/// later than it (so that segments written at the same time keep their
/// listing order).
pub open spec fn insert_pos(es: Seq<SegView>, order: Seq<int>, i: int, p: int) -> int
    decreases order.len() - p,
{
    if p >= order.len() || p < 0 {
        order.len() as int
    } else if es[order[p]].modified > es[i].modified {
        p
    } else {
        insert_pos(es, order, i, p + 1)
    }
}

/// The indices of the first `n` segments, sorted by write time, ties in
/// listing order.
pub open spec fn write_order_prefix(es: Seq<SegView>, n: int) -> Seq<int>
    decreases n,
{
    if n <= 0 {
        Seq::empty()
    } else {
        let prev = write_order_prefix(es, n - 1);
        prev.insert(insert_pos(es, prev, n - 1, 0), n - 1)
    }
}

/// The indices of all segments in write-time order.
pub open spec fn write_order(es: Seq<SegView>) -> Seq<int> {
    write_order_prefix(es, es.len() as int)
}

/// The segments in write-time order.
pub open spec fn in_write_order(es: Seq<SegView>) -> Seq<SegView> {
    write_order(es).map_values(|i: int| es[i])
}

/// Ascending write time along `order`.
pub open spec fn ordered_by_write_time(es: Seq<SegView>, order: Seq<int>) -> bool {
    forall|a: int, b: int|
        0 <= a < b < order.len() ==> es[order[a]].modified <= es[order[b]].modified
}

pub open spec fn indices_below(order: Seq<int>, n: int) -> bool {
    forall|k: int| 0 <= k < order.len() ==> 0 <= #[trigger] order[k] < n
}

proof fn lemma_insert_pos_bounds(es: Seq<SegView>, order: Seq<int>, i: int, p: int)
    requires
        0 <= p <= order.len(),
    ensures
        p <= insert_pos(es, order, i, p) <= order.len(),
    decreases order.len() - p,
{
    if p < order.len() && !(es[order[p]].modified > es[i].modified) {
        lemma_insert_pos_bounds(es, order, i, p + 1);
    }
}

proof fn lemma_insert_pos_split(es: Seq<SegView>, order: Seq<int>, i: int, p: int)
    requires
        0 <= p <= order.len(),
        ordered_by_write_time(es, order),
        indices_below(order, es.len() as int),
        0 <= i < es.len(),
    ensures
        forall|k: int|
            p <= k < insert_pos(es, order, i, p) ==> es[#[trigger] order[k]].modified
                <= es[i].modified,
        forall|k: int|
            insert_pos(es, order, i, p) <= k < order.len() ==> es[#[trigger] order[k]].modified
                > es[i].modified,
    decreases order.len() - p,
{
    if p < order.len() {
        if es[order[p]].modified > es[i].modified {
            assert forall|k: int| p <= k < order.len() implies es[#[trigger] order[k]].modified
                > es[i].modified by {
                if k > p {
                    assert(es[order[p]].modified <= es[order[k]].modified);
                }
            }
        } else {
            lemma_insert_pos_split(es, order, i, p + 1);
        }
    }
}

/// The write order lists every index below `n` once, in ascending write
/// time.
pub proof fn lemma_write_order_prefix(es: Seq<SegView>, n: int)
    requires
        0 <= n <= es.len(),
    ensures
        write_order_prefix(es, n).len() == n,
        indices_below(write_order_prefix(es, n), n),
        write_order_prefix(es, n).no_duplicates(),
        ordered_by_write_time(es, write_order_prefix(es, n)),
    decreases n,
{
    if n > 0 {
        lemma_write_order_prefix(es, n - 1);
        let prev = write_order_prefix(es, n - 1);
        let p = insert_pos(es, prev, n - 1, 0);
        lemma_insert_pos_bounds(es, prev, n - 1, 0);
        lemma_insert_pos_split(es, prev, n - 1, 0);
        let next = prev.insert(p, n - 1);
        assert(next == write_order_prefix(es, n));
        assert forall|k: int| 0 <= k < next.len() implies 0 <= #[trigger] next[k] < n by {
            if k < p {
                assert(next[k] == prev[k]);
            } else if k > p {
                assert(next[k] == prev[k - 1]);
            }
        }
        assert forall|a: int, b: int| 0 <= a < b < next.len() implies next[a] != next[b] by {
            if a < p && b < p {
                assert(next[a] == prev[a] && next[b] == prev[b]);
            } else if a < p && b == p {
                assert(next[a] == prev[a]);
            } else if a < p && b > p {
                assert(next[a] == prev[a] && next[b] == prev[b - 1]);
            } else if a == p {
                assert(next[b] == prev[b - 1]);
            } else {
                assert(next[a] == prev[a - 1] && next[b] == prev[b - 1]);
            }
        }
        assert forall|a: int, b: int|
            0 <= a < b < next.len() implies es[next[a]].modified <= es[next[b]].modified by {
            if a < p && b < p {
                assert(next[a] == prev[a] && next[b] == prev[b]);
            } else if a < p && b == p {
                assert(next[a] == prev[a]);
                assert(es[prev[a]].modified <= es[n - 1].modified);
            } else if a < p && b > p {
                assert(next[a] == prev[a] && next[b] == prev[b - 1]);
            } else if a == p {
                assert(next[b] == prev[b - 1]);
                assert(es[prev[b - 1]].modified > es[n - 1].modified);
            } else {
                assert(next[a] == prev[a - 1] && next[b] == prev[b - 1]);
            }
        }
    }
}

/// The segments in write order come out in ascending write time.
pub proof fn in_write_order_is_ascending(es: Seq<SegView>)
    ensures
        in_write_order(es).len() == es.len(),
        forall|a: int, b: int|
            0 <= a < b < es.len() ==> in_write_order(es)[a].modified <= in_write_order(
                es,
            )[b].modified,
{
    lemma_write_order_prefix(es, es.len() as int);
}

fn find_insert_pos(entries: &Vec<SegmentEntry>, order: &Vec<usize>, i: usize) -> (r: usize)
    requires
        i < entries.len(),
        forall|k: int| 0 <= k < order@.len() ==> #[trigger] order@[k] < entries.len(),
    ensures
        r as int == insert_pos(
            seg_views(entries@),
            order@.map_values(|x: usize| x as int),
            i as int,
            0,
        ),
{
    let ghost es = seg_views(entries@);
    let ghost ord = order@.map_values(|x: usize| x as int);
    let mut p: usize = 0;
    while p < order.len()
        invariant
            p <= order.len(),
            i < entries.len(),
            es == seg_views(entries@),
            ord == order@.map_values(|x: usize| x as int),
            forall|k: int| 0 <= k < order@.len() ==> #[trigger] order@[k] < entries.len(),
            insert_pos(es, ord, i as int, 0) == insert_pos(es, ord, i as int, p as int),
        decreases order.len() - p,
    {
        let j = order[p];
        proof {
            assert(es[j as int] == seg_view(entries@[j as int]));
            assert(es[i as int] == seg_view(entries@[i as int]));
            assert(ord[p as int] == j as int);
        }
        if entries[j].modified_ms > entries[i].modified_ms {
            return p;
        }
        p = p + 1;
    }
    p
}

/// The indices of the listing in write-time order (ties in listing order).
pub fn write_order_indices(entries: &Vec<SegmentEntry>) -> (r: Vec<usize>)
    ensures
        r@.map_values(|x: usize| x as int) == write_order(seg_views(entries@)),
        forall|k: int| 0 <= k < r@.len() ==> #[trigger] r@[k] < entries.len(),
        r@.len() == entries.len(),
{
    let ghost es = seg_views(entries@);
    let mut order: Vec<usize> = Vec::new();
    let mut i: usize = 0;
    assert(order@.map_values(|x: usize| x as int) =~= write_order_prefix(es, 0));
    while i < entries.len()
        invariant
            i <= entries.len(),
            es == seg_views(entries@),
            es.len() == entries.len(),
            order@.map_values(|x: usize| x as int) == write_order_prefix(es, i as int),
            forall|k: int| 0 <= k < order@.len() ==> #[trigger] order@[k] < i,
            order@.len() == i,
        decreases entries.len() - i,
    {
        let p = find_insert_pos(entries, &order, i);
        proof {
            lemma_insert_pos_bounds(
                es,
                order@.map_values(|x: usize| x as int),
                i as int,
                0,
            );
        }
        let ghost before = order@;
        order.insert(p, i);
        proof {
            let prev = write_order_prefix(es, i as int);
            assert(order@ == before.insert(p as int, i));
            assert(order@.map_values(|x: usize| x as int) =~= prev.insert(p as int, i as int));
            assert forall|k: int| 0 <= k < order@.len() implies #[trigger] order@[k] < i + 1 by {
                if k < p {
                    assert(order@[k] == before[k]);
                } else if k > p {
                    assert(order@[k] == before[k - 1]);
                }
            }
        }
        i = i + 1;
    }
    order
}

fn copy_entry(e: &SegmentEntry) -> (r: SegmentEntry)
    ensures
        seg_view(r) == seg_view(*e),
        r.size_bytes == e.size_bytes,
{
    let session_id = match &e.session_id {
        Some(s) => {
            let mut c: Vec<char> = Vec::new();
            let mut k: usize = 0;
            while k < s.len()
                invariant
                    k <= s.len(),
                    c@ == s@.take(k as int),
                decreases s.len() - k,
            {
                c.push(s[k]);
                assert(c@ =~= s@.take(k + 1));
                k = k + 1;
            }
            assert(s@.take(s.len() as int) =~= s@);
            Some(c)
        },
        None => None,
    };
    SegmentEntry {
        modified_ms: e.modified_ms,
        session_id,
        segment_index: e.segment_index,
        size_bytes: e.size_bytes,
    }
}

/// The listing sorted by write time (ties in listing order).
pub fn sort_by_write_time(entries: &Vec<SegmentEntry>) -> (r: Vec<SegmentEntry>)
    ensures
        seg_views(r@) == in_write_order(seg_views(entries@)),
{
    let ghost es = seg_views(entries@);
    let order = write_order_indices(entries);
    let ghost ord = order@.map_values(|x: usize| x as int);
    let mut out: Vec<SegmentEntry> = Vec::new();
    let mut k: usize = 0;
    while k < order.len()
        invariant
            k <= order.len(),
            es == seg_views(entries@),
            ord == order@.map_values(|x: usize| x as int),
            ord == write_order(es),
            forall|j: int| 0 <= j < order@.len() ==> #[trigger] order@[j] < entries.len(),
            seg_views(out@) == ord.take(k as int).map_values(|i: int| es[i]),
        decreases order.len() - k,
    {
        let j = order[k];
        let c = copy_entry(&entries[j]);
        let ghost before = out@;
        out.push(c);
        proof {
            assert(es[j as int] == seg_view(entries@[j as int]));
            assert(ord[k as int] == j as int);
            assert(seg_views(out@) =~= seg_views(before).push(seg_view(c)));
            assert(ord.take(k + 1).map_values(|i: int| es[i]) =~= ord.take(k as int).map_values(
                |i: int| es[i],
            ).push(es[j as int]));
        }
        k = k + 1;
    }
    assert(ord.take(order.len() as int) =~= ord);
    out
}

} // verus!
