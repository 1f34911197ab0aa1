//! Which live segments a save takes: the window ends at the newest segment
//! written at or before the trigger (preferring the running session) and
//! reaches back over consecutive segments until it covers the requested
//! length or meets the first break in continuity — a session boundary, a
//! timeline gap, or a segment index out of order or skipping.
//!
//! Times are epoch milliseconds; lengths are milliseconds.
use vstd::prelude::*;
use crate::seqs::{filter_seq, lemma_filter_all, lemma_filter_step};
use crate::text::chars_eq;
use crate::write_order::{
    in_write_order, in_write_order_is_ascending, lemma_write_order_prefix, sort_by_write_time,
    write_order,
};

verus! {

/// A segment of the live buffer: when it was last written, the session
/// that wrote it and its index in that session, when its name tells them,
/// and its size in bytes.
pub struct SegmentEntry {
    pub modified_ms: u64,
    pub session_id: Option<Vec<char>>,
    pub segment_index: Option<u64>,
    pub size_bytes: u64,
}

pub struct SegView {
    pub modified: u64,
    pub session: Option<Seq<char>>,
    pub index: Option<u64>,
}

pub open spec fn seg_view(e: SegmentEntry) -> SegView {
    SegView {
        modified: e.modified_ms,
        session: match e.session_id {
            Some(s) => Some(s@),
            None => None,
        },
        index: e.segment_index,
    }
}

pub open spec fn seg_views(es: Seq<SegmentEntry>) -> Seq<SegView> {
    es.map_values(|e: SegmentEntry| seg_view(e))
}

/// Why a selection is shorter than asked for.
#[derive(Debug, Clone, Copy, PartialEq, Eq, Structural)]
pub enum PartialReasonCode {
    SessionBoundary,
    TimelineGap,
    SegmentIndexOrder,
    SegmentIndexGap,
    AnchorLag,
    InsufficientContiguousHistory,
}

pub open spec fn partial_code_text(c: PartialReasonCode) -> Seq<char> {
    match c {
        PartialReasonCode::SessionBoundary => "session_boundary"@,
        PartialReasonCode::TimelineGap => "timeline_gap"@,
        PartialReasonCode::SegmentIndexOrder => "segment_index_order"@,
        PartialReasonCode::SegmentIndexGap => "segment_index_gap"@,
        PartialReasonCode::AnchorLag => "anchor_lag"@,
        PartialReasonCode::InsufficientContiguousHistory => "insufficient_contiguous_history"@,
    }
}

pub open spec fn partial_reason_text(c: PartialReasonCode) -> Option<Seq<char>> {
    match c {
        PartialReasonCode::SessionBoundary => Some(
            "capture restart/session boundary in rolling buffer"@,
        ),
        PartialReasonCode::TimelineGap => Some("capture restart/discontinuity in rolling buffer"@),
        PartialReasonCode::SegmentIndexOrder => Some(
            "non-monotonic segment index near hotkey anchor"@,
        ),
        PartialReasonCode::SegmentIndexGap => Some("segment index gap in rolling buffer"@),
        PartialReasonCode::AnchorLag => None,
        PartialReasonCode::InsufficientContiguousHistory => Some(
            "insufficient contiguous history at trigger time"@,
        ),
    }
}

impl PartialReasonCode {
    /// The machine code.
    pub fn as_code(self) -> (r: &'static str)
        ensures
            r@ == partial_code_text(self),
    {
        match self {
            PartialReasonCode::SessionBoundary => "session_boundary",
            PartialReasonCode::TimelineGap => "timeline_gap",
            PartialReasonCode::SegmentIndexOrder => "segment_index_order",
            PartialReasonCode::SegmentIndexGap => "segment_index_gap",
            PartialReasonCode::AnchorLag => "anchor_lag",
            PartialReasonCode::InsufficientContiguousHistory => "insufficient_contiguous_history",
        }
    }

    /// The explanation shown; a lagging anchor is explained with its lag in
    /// seconds, which the shell renders.
    pub fn reason_text(self) -> (r: Option<&'static str>)
        ensures
            match partial_reason_text(self) {
                Some(t) => r matches Some(s) && s@ == t,
                None => r is None,
            },
    {
        match self {
            PartialReasonCode::SessionBoundary => Some(
                "capture restart/session boundary in rolling buffer",
            ),
            PartialReasonCode::TimelineGap => Some("capture restart/discontinuity in rolling buffer"),
            PartialReasonCode::SegmentIndexOrder => Some(
                "non-monotonic segment index near hotkey anchor",
            ),
            PartialReasonCode::SegmentIndexGap => Some("segment index gap in rolling buffer"),
            PartialReasonCode::AnchorLag => None,
            PartialReasonCode::InsufficientContiguousHistory => Some(
                "insufficient contiguous history at trigger time",
            ),
        }
    }
}

/// The state of the walk back from the anchor.
pub struct WalkState {
    pub avail: int,
    pub end: u64,
    pub session: Option<Seq<char>>,
    pub index: Option<u64>,
    pub boundaries: u8,
    pub gap: Option<u64>,
    pub code: Option<PartialReasonCode>,
    pub selected_rev: Seq<int>,
    pub done: bool,
}

pub open spec fn sat_sub(a: u64, b: u64) -> u64 {
    if a >= b {
        (a - b) as u64
    } else {
        0
    }
}

pub open spec fn inc_u8(x: u8) -> u8 {
    if x == 255 {
        255
    } else {
        (x + 1) as u8
    }
}

/// One step of the walk: the segment at `i` is taken, skipped, or ends the
/// walk at a continuity break.
pub open spec fn walk_step(
    es: Seq<SegView>,
    i: int,
    st: WalkState,
    active: Seq<char>,
    anchor_active: bool,
    threshold: u64,
    seg_ms: u64,
    requested: int,
) -> WalkState {
    let c = es[i];
    if anchor_active && c.session != Some(active) {
        st
    } else {
        let delta = sat_sub(st.end, c.modified);
        if c.session != st.session {
            if anchor_active {
                st
            } else {
                WalkState {
                    boundaries: inc_u8(st.boundaries),
                    gap: Some(delta),
                    code: Some(PartialReasonCode::SessionBoundary),
                    done: true,
                    ..st
                }
            }
        } else if delta > threshold {
            WalkState {
                gap: Some(delta),
                code: Some(PartialReasonCode::TimelineGap),
                done: true,
                ..st
            }
        } else {
            let step: Option<int> = match (st.index, c.index) {
                (Some(cur), Some(ci)) => if cur <= ci {
                    None
                } else if cur - ci != 1 {
                    None
                } else {
                    Some(seg_ms as int)
                },
                _ => Some(
                    if delta < seg_ms {
                        delta as int
                    } else {
                        seg_ms as int
                    },
                ),
            };
            match step {
                None => WalkState {
                    gap: Some(delta),
                    code: Some(
                        if st.index->0 <= c.index->0 {
                            PartialReasonCode::SegmentIndexOrder
                        } else {
                            PartialReasonCode::SegmentIndexGap
                        },
                    ),
                    done: true,
                    ..st
                },
                Some(s) => {
                    let avail = st.avail + s;
                    WalkState {
                        avail,
                        end: c.modified,
                        session: c.session,
                        index: c.index,
                        selected_rev: st.selected_rev.push(i),
                        done: avail >= requested,
                        ..st
                    }
                },
            }
        }
    }
}

/// The walk over the segments below index `i` (from `i - 1` down to 0).
pub open spec fn walk(
    es: Seq<SegView>,
    i: int,
    st: WalkState,
    active: Seq<char>,
    anchor_active: bool,
    threshold: u64,
    seg_ms: u64,
    requested: int,
) -> WalkState
    decreases i,
{
    if i <= 0 || st.done {
        st
    } else {
        walk(
            es,
            i - 1,
            walk_step(es, i - 1, st, active, anchor_active, threshold, seg_ms, requested),
            active,
            anchor_active,
            threshold,
            seg_ms,
            requested,
        )
    }
}

/// Index of the last segment satisfying `p`.
pub open spec fn rposition(es: Seq<SegView>, p: spec_fn(SegView) -> bool, n: int) -> Option<int>
    decreases n,
{
    if n <= 0 {
        None
    } else if p(es[n - 1]) {
        Some(n - 1)
    } else {
        rposition(es, p, n - 1)
    }
}

pub open spec fn at_or_before(anchor: u64) -> spec_fn(SegView) -> bool {
    |e: SegView| e.modified <= anchor
}

pub open spec fn active_at_or_before(anchor: u64, active: Seq<char>) -> spec_fn(SegView) -> bool {
    |e: SegView| e.modified <= anchor && e.session == Some(active)
}

/// Sessions other than the active one that wrote segments between
/// `horizon` and `anchor`, each once, in order of first appearance.
pub open spec fn foreign_sessions(
    es: Seq<SegView>,
    n: int,
    horizon: u64,
    anchor: u64,
    active: Seq<char>,
) -> Seq<Seq<char>>
    decreases n,
{
    if n <= 0 {
        Seq::empty()
    } else {
        let prev = foreign_sessions(es, n - 1, horizon, anchor, active);
        let e = es[n - 1];
        if e.modified < horizon || e.modified > anchor {
            prev
        } else {
            match e.session {
                Some(s) => if s != active && !prev.contains(s) {
                    prev.push(s)
                } else {
                    prev
                },
                None => prev,
            }
        }
    }
}

/// The chosen window: the segments taken (indices into the segments at or
/// before the trigger, oldest first), its lengths, where it starts and
/// ends, and why it is short when it is.
pub struct ReplayWindow {
    pub selected: Vec<usize>,
    pub available_ms: u64,
    pub target_trim_ms: u64,
    pub window_start_ms: u64,
    pub window_end_ms: u64,
    pub partial_history: bool,
    pub partial_reason_code: Option<PartialReasonCode>,
    pub anchor_lag_ms: u64,
    pub discontinuity_gap_ms: Option<u64>,
    pub session_boundary_count: u8,
}

pub struct WindowView {
    pub selected: Seq<int>,
    pub available: int,
    pub target: int,
    pub start: u64,
    pub end: u64,
    pub partial: bool,
    pub code: Option<PartialReasonCode>,
    pub anchor_lag: u64,
    pub gap: Option<u64>,
    pub boundaries: u8,
}

pub open spec fn max_u64(a: u64, b: u64) -> u64 {
    if a >= b {
        a
    } else {
        b
    }
}

/// The window a save takes from the segments `all` (in write order) at the
/// trigger `anchor`, for `requested` milliseconds, with segments of
/// `seg_ms` and continuity broken by gaps above `threshold`; none when no
/// segment was written at or before the trigger.
pub open spec fn spec_select_window(
    all: Seq<SegView>,
    anchor: u64,
    requested: u64,
    seg_ms: u64,
    threshold: u64,
    active: Seq<char>,
) -> Option<WindowView> {
    let es = filter_seq(all, at_or_before(anchor));
    let active_anchor = rposition(es, active_at_or_before(anchor, active), es.len() as int);
    let anchor_index = match active_anchor {
        Some(a) => Some(a),
        None => rposition(es, at_or_before(anchor), es.len() as int),
    };
    match anchor_index {
        None => None,
        Some(ai) => {
            let anchor_active = active_anchor == Some(ai);
            let horizon = sat_sub(anchor, max_u64(requested, seg_ms));
            let foreign = foreign_sessions(es, es.len() as int, horizon, anchor, active).len();
            let foreign_count: u8 = if foreign > 255 {
                255
            } else {
                foreign as u8
            };
            let a = es[ai];
            let start = WalkState {
                avail: seg_ms as int,
                end: a.modified,
                session: a.session,
                index: a.index,
                boundaries: 0,
                gap: None,
                code: None,
                selected_rev: seq![ai],
                done: false,
            };
            let w = walk(es, ai, start, active, anchor_active, threshold, seg_ms, requested as int);
            let selected_ms = if w.avail >= seg_ms {
                w.avail
            } else {
                seg_ms as int
            };
            let t0 = if (requested as int) < selected_ms {
                requested as int
            } else {
                selected_ms
            };
            let t1 = if t0 < seg_ms {
                seg_ms as int
            } else {
                t0
            };
            let target = if 2 * (selected_ms - t1) <= seg_ms {
                selected_ms
            } else {
                t1
            };
            let partial = target < requested;
            let anchor_lag = sat_sub(anchor, a.modified);
            let code1 = if partial && w.code is None {
                Some(
                    if anchor_lag > threshold {
                        PartialReasonCode::AnchorLag
                    } else {
                        PartialReasonCode::InsufficientContiguousHistory
                    },
                )
            } else {
                w.code
            };
            let promote = partial && anchor_active && foreign_count > 0 && (code1 is None || code1
                == Some(PartialReasonCode::AnchorLag) || code1 == Some(
                PartialReasonCode::InsufficientContiguousHistory,
            ));
            Some(
                WindowView {
                    selected: w.selected_rev.reverse(),
                    available: selected_ms,
                    target,
                    start: if a.modified as int >= target {
                        (a.modified - target) as u64
                    } else {
                        0
                    },
                    end: a.modified,
                    partial,
                    code: if promote {
                        Some(PartialReasonCode::SessionBoundary)
                    } else {
                        code1
                    },
                    anchor_lag,
                    gap: w.gap,
                    boundaries: if promote && foreign_count > w.boundaries {
                        foreign_count
                    } else {
                        w.boundaries
                    },
                },
            )
        },
    }
}

} // verus!

verus! {

pub open spec fn ints(v: Seq<usize>) -> Seq<int> {
    v.map_values(|x: usize| x as int)
}

pub open spec fn opt_chars(o: Option<Vec<char>>) -> Option<Seq<char>> {
    match o {
        Some(s) => Some(s@),
        None => None,
    }
}

fn clone_chars(v: &Vec<char>) -> (r: Vec<char>)
    ensures
        r@ == v@,
{
    let mut r: Vec<char> = Vec::new();
    let mut i: usize = 0;
    while i < v.len()
        invariant
            i <= v.len(),
            r@ == v@.take(i as int),
        decreases v.len() - i,
    {
        r.push(v[i]);
        i = i + 1;
        assert(r@ =~= v@.take(i as int));
    }
    assert(v@.take(v.len() as int) =~= v@);
    r
}

fn clone_opt_chars(o: &Option<Vec<char>>) -> (r: Option<Vec<char>>)
    ensures
        opt_chars(r) == opt_chars(*o),
{
    match o {
        Some(v) => Some(clone_chars(v)),
        None => None,
    }
}

fn opt_chars_eq(a: &Option<Vec<char>>, b: &Option<Vec<char>>) -> (r: bool)
    ensures
        r == (opt_chars(*a) == opt_chars(*b)),
{
    match (a, b) {
        (Some(x), Some(y)) => chars_eq(x, y),
        (None, None) => true,
        _ => false,
    }
}

fn is_active(o: &Option<Vec<char>>, active: &Vec<char>) -> (r: bool)
    ensures
        r == (opt_chars(*o) == Some(active@)),
{
    match o {
        Some(x) => chars_eq(x, active),
        None => false,
    }
}

fn clone_entry(e: &SegmentEntry) -> (r: SegmentEntry)
    ensures
        seg_view(r) == seg_view(*e),
{
    SegmentEntry {
        modified_ms: e.modified_ms,
        session_id: clone_opt_chars(&e.session_id),
        segment_index: e.segment_index,
        size_bytes: e.size_bytes,
    }
}

fn entries_at_or_before(entries: &Vec<SegmentEntry>, anchor_ms: u64) -> (r: Vec<SegmentEntry>)
    ensures
        seg_views(r@) == filter_seq(seg_views(entries@), at_or_before(anchor_ms)),
{
    let ghost all = seg_views(entries@);
    let ghost f = at_or_before(anchor_ms);
    let mut out: Vec<SegmentEntry> = Vec::new();
    let mut i: usize = 0;
    assert(all.take(0) =~= Seq::<SegView>::empty());
    assert(seg_views(out@) =~= Seq::<SegView>::empty());
    while i < entries.len()
        invariant
            i <= entries.len(),
            all == seg_views(entries@),
            f == at_or_before(anchor_ms),
            seg_views(out@) == filter_seq(all.take(i as int), f),
        decreases entries.len() - i,
    {
        proof {
            lemma_filter_step(all, f, i as int);
            assert(all[i as int] == seg_view(entries@[i as int]));
        }
        if entries[i].modified_ms <= anchor_ms {
            let c = clone_entry(&entries[i]);
            let ghost before = out@;
            out.push(c);
            assert(seg_views(out@) =~= seg_views(before).push(seg_view(c)));
        }
        i = i + 1;
    }
    assert(all.take(entries.len() as int) =~= all);
    out
}

fn rposition_at_or_before(es: &Vec<SegmentEntry>, anchor_ms: u64, active: Option<&Vec<char>>) -> (r:
    Option<usize>)
    ensures
        ({
            let p = match active {
                Some(a) => active_at_or_before(anchor_ms, a@),
                None => at_or_before(anchor_ms),
            };
            match r {
                Some(i) => rposition(seg_views(es@), p, es@.len() as int) == Some(i as int),
                None => rposition(seg_views(es@), p, es@.len() as int) is None,
            }
        }),
{
    let ghost esv = seg_views(es@);
    let ghost p = match active {
        Some(a) => active_at_or_before(anchor_ms, a@),
        None => at_or_before(anchor_ms),
    };
    let mut n = es.len();
    while n > 0
        invariant
            n <= es.len(),
            esv == seg_views(es@),
            p == (match active {
                Some(a) => active_at_or_before(anchor_ms, a@),
                None => at_or_before(anchor_ms),
            }),
            rposition(esv, p, es@.len() as int) == rposition(esv, p, n as int),
        decreases n,
    {
        let e = &es[n - 1];
        proof {
            assert(esv[n - 1] == seg_view(es@[n - 1]));
        }
        let hit = match active {
            Some(a) => e.modified_ms <= anchor_ms && is_active(&e.session_id, a),
            None => e.modified_ms <= anchor_ms,
        };
        if hit {
            return Some(n - 1);
        }
        n = n - 1;
    }
    None
}

fn contains_chars(list: &Vec<Vec<char>>, s: &Vec<char>) -> (r: bool)
    ensures
        r == crate::text::views(list@).contains(s@),
{
    let mut i: usize = 0;
    while i < list.len()
        invariant
            i <= list.len(),
            forall|k: int| 0 <= k < i ==> crate::text::views(list@)[k] != s@,
        decreases list.len() - i,
    {
        if chars_eq(&list[i], s) {
            assert(crate::text::views(list@)[i as int] == s@);
            return true;
        }
        i = i + 1;
    }
    false
}

/// The sessions are gathered in a vector kept free of duplicates rather
/// than in a `HashSet` of session names: with string keys, vstd's
/// specification of `HashSet` does not let Verus prove what an insertion
/// does to the set, so a set of names would give no provable count.
fn count_foreign_sessions(es: &Vec<SegmentEntry>, horizon: u64, anchor: u64, active: &Vec<char>) -> (r:
    usize)
    ensures
        r == foreign_sessions(seg_views(es@), es@.len() as int, horizon, anchor, active@).len(),
{
    let ghost esv = seg_views(es@);
    let mut seen: Vec<Vec<char>> = Vec::new();
    let mut i: usize = 0;
    assert(crate::text::views(seen@) =~= Seq::<Seq<char>>::empty());
    while i < es.len()
        invariant
            i <= es.len(),
            esv == seg_views(es@),
            crate::text::views(seen@) == foreign_sessions(esv, i as int, horizon, anchor, active@),
        decreases es.len() - i,
    {
        let e = &es[i];
        proof {
            assert(esv[i as int] == seg_view(es@[i as int]));
        }
        if !(e.modified_ms < horizon || e.modified_ms > anchor) {
            match &e.session_id {
                Some(s) => {
                    if !chars_eq(s, active) && !contains_chars(&seen, s) {
                        let c = clone_chars(s);
                        let ghost before = seen@;
                        seen.push(c);
                        assert(crate::text::views(seen@) =~= crate::text::views(before).push(s@));
                    }
                },
                None => {},
            }
        }
        i = i + 1;
    }
    seen.len()
}

} // verus!

verus! {

pub open spec fn walk_view(
    avail: u64,
    end: u64,
    session: Option<Vec<char>>,
    index: Option<u64>,
    boundaries: u8,
    gap: Option<u64>,
    code: Option<PartialReasonCode>,
    sel_rev: Seq<usize>,
    done: bool,
) -> WalkState {
    WalkState {
        avail: avail as int,
        end,
        session: opt_chars(session),
        index,
        boundaries,
        gap,
        code,
        selected_rev: ints(sel_rev),
        done,
    }
}

fn reversed(v: &Vec<usize>) -> (r: Vec<usize>)
    ensures
        ints(r@) == ints(v@).reverse(),
{
    let mut r: Vec<usize> = Vec::new();
    let mut i = v.len();
    while i > 0
        invariant
            i <= v.len(),
            r@.len() == v@.len() - i,
            forall|k: int| 0 <= k < r@.len() ==> r@[k] == v@[v@.len() - 1 - k],
        decreases i,
    {
        r.push(v[i - 1]);
        i = i - 1;
    }
    assert(ints(r@) =~= ints(v@).reverse());
    r
}

/// The window a save takes; see `spec_select_window`.
pub fn select_replay_window(
    entries: &Vec<SegmentEntry>,
    anchor_ms: u64,
    requested_ms: u64,
    segment_ms: u64,
    continuity_threshold_ms: u64,
    active_session_id: &Vec<char>,
) -> (r: Option<ReplayWindow>)
    requires
        requested_ms <= 1_000_000_000_000,
        segment_ms <= 1_000_000_000_000,
    ensures
        match spec_select_window(
            seg_views(entries@),
            anchor_ms,
            requested_ms,
            segment_ms,
            continuity_threshold_ms,
            active_session_id@,
        ) {
            None => r is None,
            Some(w) => r matches Some(rw) && {
                &&& ints(rw.selected@) == w.selected
                &&& rw.available_ms == w.available
                &&& rw.target_trim_ms == w.target
                &&& rw.window_start_ms == w.start
                &&& rw.window_end_ms == w.end
                &&& rw.partial_history == w.partial
                &&& rw.partial_reason_code == w.code
                &&& rw.anchor_lag_ms == w.anchor_lag
                &&& rw.discontinuity_gap_ms == w.gap
                &&& rw.session_boundary_count == w.boundaries
            },
        },
{
    let es = entries_at_or_before(entries, anchor_ms);
    let ghost esv = seg_views(es@);
    let active_anchor = rposition_at_or_before(&es, anchor_ms, Some(active_session_id));
    let ai = match active_anchor {
        Some(a) => a,
        None => match rposition_at_or_before(&es, anchor_ms, None) {
            Some(a) => a,
            None => {
                return None;
            },
        },
    };
    proof {
        let p = match active_anchor {
            Some(a) => a as int,
            None => 0,
        };
    }
    assert(ai < es.len()) by {
        if active_anchor is None {
            lemma_rposition_bound(esv, at_or_before(anchor_ms), es@.len() as int);
        } else {
            lemma_rposition_bound(
                esv,
                active_at_or_before(anchor_ms, active_session_id@),
                es@.len() as int,
            );
        }
    }
    let anchor_active = match active_anchor {
        Some(a) => a == ai,
        None => false,
    };
    let horizon_len = if requested_ms >= segment_ms {
        requested_ms
    } else {
        segment_ms
    };
    let horizon = if anchor_ms >= horizon_len {
        anchor_ms - horizon_len
    } else {
        0
    };
    let foreign = count_foreign_sessions(&es, horizon, anchor_ms, active_session_id);
    let foreign_count: u8 = if foreign > 255 {
        255
    } else {
        foreign as u8
    };
    let a = &es[ai];
    proof {
        assert(esv[ai as int] == seg_view(es@[ai as int]));
    }
    let anchor_end = a.modified_ms;
    let mut avail: u64 = segment_ms;
    let mut end: u64 = a.modified_ms;
    let mut session = clone_opt_chars(&a.session_id);
    let mut index = a.segment_index;
    let mut boundaries: u8 = 0;
    let mut gap: Option<u64> = None;
    let mut code: Option<PartialReasonCode> = None;
    let mut sel_rev: Vec<usize> = vec![ai];
    let mut done = false;
    let ghost st0 = walk_view(avail, end, session, index, boundaries, gap, code, sel_rev@, done);
    assert(ints(sel_rev@) =~= seq![ai as int]);
    let mut i = ai;
    while i > 0 && !done
        invariant
            i <= ai < es.len(),
            esv == seg_views(es@),
            avail <= (if requested_ms >= segment_ms {
                requested_ms
            } else {
                segment_ms
            }) + segment_ms,
            walk(
                esv,
                ai as int,
                st0,
                active_session_id@,
                anchor_active,
                continuity_threshold_ms,
                segment_ms,
                requested_ms as int,
            ) == walk(
                esv,
                i as int,
                walk_view(avail, end, session, index, boundaries, gap, code, sel_rev@, done),
                active_session_id@,
                anchor_active,
                continuity_threshold_ms,
                segment_ms,
                requested_ms as int,
            ),
            !done ==> avail < requested_ms || avail == segment_ms,
            requested_ms <= 1_000_000_000_000,
            segment_ms <= 1_000_000_000_000,
        decreases i,
    {
        let ghost cur = walk_view(avail, end, session, index, boundaries, gap, code, sel_rev@, done);
        let c = &es[i - 1];
        proof {
            assert(esv[i - 1] == seg_view(es@[i - 1]));
        }
        let ghost next = walk_step(
            esv,
            i - 1,
            cur,
            active_session_id@,
            anchor_active,
            continuity_threshold_ms,
            segment_ms,
            requested_ms as int,
        );
        if anchor_active && !is_active(&c.session_id, active_session_id) {
            // skipped: another session's segment inside the active session's window
        } else {
            let delta = if end >= c.modified_ms {
                end - c.modified_ms
            } else {
                0
            };
            if !opt_chars_eq(&c.session_id, &session) {
                if !anchor_active {
                    boundaries = if boundaries == 255 {
                        255
                    } else {
                        boundaries + 1
                    };
                    gap = Some(delta);
                    code = Some(PartialReasonCode::SessionBoundary);
                    done = true;
                }
            } else if delta > continuity_threshold_ms {
                gap = Some(delta);
                code = Some(PartialReasonCode::TimelineGap);
                done = true;
            } else {
                let step: Option<u64> = match (index, c.segment_index) {
                    (Some(cur_idx), Some(ci)) => {
                        if cur_idx <= ci {
                            None
                        } else if cur_idx - ci != 1 {
                            None
                        } else {
                            Some(segment_ms)
                        }
                    },
                    _ => Some(
                        if delta < segment_ms {
                            delta
                        } else {
                            segment_ms
                        },
                    ),
                };
                match step {
                    None => {
                        gap = Some(delta);
                        code = Some(
                            if index.unwrap() <= c.segment_index.unwrap() {
                                PartialReasonCode::SegmentIndexOrder
                            } else {
                                PartialReasonCode::SegmentIndexGap
                            },
                        );
                        done = true;
                    },
                    Some(s) => {
                        avail = avail + s;
                        end = c.modified_ms;
                        session = clone_opt_chars(&c.session_id);
                        index = c.segment_index;
                        let ghost before = sel_rev@;
                        sel_rev.push(i - 1);
                        assert(ints(sel_rev@) =~= ints(before).push((i - 1) as int));
                        done = avail >= requested_ms;
                    },
                }
            }
        }
        proof {
            assert(walk_view(avail, end, session, index, boundaries, gap, code, sel_rev@, done)
                == next);
        }
        i = i - 1;
    }
    let selected = reversed(&sel_rev);
    let selected_ms = if avail >= segment_ms {
        avail
    } else {
        segment_ms
    };
    let t0 = if requested_ms < selected_ms {
        requested_ms
    } else {
        selected_ms
    };
    let t1 = if t0 < segment_ms {
        segment_ms
    } else {
        t0
    };
    let target = if 2 * (selected_ms - t1) <= segment_ms {
        selected_ms
    } else {
        t1
    };
    let partial = target < requested_ms;
    let anchor_lag = if anchor_ms >= anchor_end {
        anchor_ms - anchor_end
    } else {
        0
    };
    let code1 = if partial && code.is_none() {
        Some(
            if anchor_lag > continuity_threshold_ms {
                PartialReasonCode::AnchorLag
            } else {
                PartialReasonCode::InsufficientContiguousHistory
            },
        )
    } else {
        code
    };
    let promote = partial && anchor_active && foreign_count > 0 && (code1.is_none() || code1 == Some(
        PartialReasonCode::AnchorLag,
    ) || code1 == Some(PartialReasonCode::InsufficientContiguousHistory));
    Some(
        ReplayWindow {
            selected,
            available_ms: selected_ms,
            target_trim_ms: target,
            window_start_ms: if anchor_end >= target {
                anchor_end - target
            } else {
                0
            },
            window_end_ms: anchor_end,
            partial_history: partial,
            partial_reason_code: if promote {
                Some(PartialReasonCode::SessionBoundary)
            } else {
                code1
            },
            anchor_lag_ms: anchor_lag,
            discontinuity_gap_ms: gap,
            session_boundary_count: if promote && foreign_count > boundaries {
                foreign_count
            } else {
                boundaries
            },
        },
    )
}

pub proof fn lemma_rposition_bound(es: Seq<SegView>, p: spec_fn(SegView) -> bool, n: int)
    ensures
        rposition(es, p, n) matches Some(i) ==> 0 <= i < n && p(es[i]),
    decreases n,
{
    if n > 0 && !p(es[n - 1]) {
        lemma_rposition_bound(es, p, n - 1);
    }
}

} // verus!

verus! {

/// The walk's picks so far: valid indices, strictly decreasing, none below
/// `bound`, and all from the active session when the anchor is.
pub open spec fn picks_ok(
    es: Seq<SegView>,
    sel: Seq<int>,
    bound: int,
    active: Seq<char>,
    anchor_active: bool,
) -> bool {
    &&& forall|k: int| 0 <= k < sel.len() ==> 0 <= #[trigger] sel[k] < es.len()
    &&& anchor_active ==> forall|k: int|
        0 <= k < sel.len() ==> es[#[trigger] sel[k]].session == Some(active)
    &&& forall|j: int, k: int| 0 <= j < k < sel.len() ==> #[trigger] sel[j] > #[trigger] sel[k]
    &&& forall|k: int| 0 <= k < sel.len() ==> #[trigger] sel[k] >= bound
}

pub proof fn lemma_walk_picks(
    es: Seq<SegView>,
    i: int,
    st: WalkState,
    active: Seq<char>,
    anchor_active: bool,
    threshold: u64,
    seg_ms: u64,
    requested: int,
)
    requires
        0 <= i <= es.len(),
        picks_ok(es, st.selected_rev, i, active, anchor_active),
        st.selected_rev.len() >= 1,
    ensures
        ({
            let w = walk(es, i, st, active, anchor_active, threshold, seg_ms, requested);
            &&& picks_ok(es, w.selected_rev, 0, active, anchor_active)
            &&& w.selected_rev.len() >= 1
            &&& w.selected_rev[0] == st.selected_rev[0]
        }),
    decreases i,
{
    if i > 0 && !st.done {
        let next = walk_step(es, i - 1, st, active, anchor_active, threshold, seg_ms, requested);
        let sel = st.selected_rev;
        if next.selected_rev.len() != sel.len() {
            assert(next.selected_rev == sel.push(i - 1));
            assert forall|j: int, k: int|
                0 <= j < k < next.selected_rev.len() implies #[trigger] next.selected_rev[j]
                > #[trigger] next.selected_rev[k] by {
                if k == sel.len() {
                    assert(sel[j] >= i);
                }
            }
        }
        lemma_walk_picks(
            es,
            i - 1,
            next,
            active,
            anchor_active,
            threshold,
            seg_ms,
            requested,
        );
    }
}

/// The window a save takes ends at the segment it is anchored at, the
/// newest written at or before the trigger, preferring the running
/// session; it takes segments in write order, all written at or before the
/// trigger, and only the running session's when the anchor is one of its
/// segments. It is short exactly when it covers less than asked for, never
/// less than one segment and never more than what it selected.
pub proof fn replay_window_is_anchored_at_trigger(
    all: Seq<SegView>,
    anchor: u64,
    requested: u64,
    seg_ms: u64,
    threshold: u64,
    active: Seq<char>,
)
    ensures
        spec_select_window(all, anchor, requested, seg_ms, threshold, active) matches Some(w) ==> {
            let es = filter_seq(all, at_or_before(anchor));
            &&& w.selected.len() >= 1
            &&& forall|k: int|
                0 <= k < w.selected.len() ==> 0 <= #[trigger] w.selected[k] < es.len()
                    && es[w.selected[k]].modified <= anchor
            &&& forall|j: int, k: int|
                0 <= j < k < w.selected.len() ==> #[trigger] w.selected[j]
                    < #[trigger] w.selected[k]
            &&& es[w.selected[w.selected.len() - 1]].modified == w.end
            &&& w.end <= anchor
            &&& (exists|k: int|
                0 <= k < es.len() && #[trigger] es[k].session == Some(active)) ==> forall|k: int|
                0 <= k < w.selected.len() ==> es[#[trigger] w.selected[k]].session == Some(active)
            &&& w.partial == (w.target < requested)
            &&& seg_ms <= w.target <= w.available
        },
{
    let es = filter_seq(all, at_or_before(anchor));
    lemma_filter_all(all, at_or_before(anchor));
    let active_anchor = rposition(es, active_at_or_before(anchor, active), es.len() as int);
    lemma_rposition_bound(es, active_at_or_before(anchor, active), es.len() as int);
    lemma_rposition_bound(es, at_or_before(anchor), es.len() as int);
    lemma_rposition_finds(es, active_at_or_before(anchor, active), es.len() as int);
    match spec_select_window(all, anchor, requested, seg_ms, threshold, active) {
        None => {},
        Some(w) => {
            let ai = match active_anchor {
                Some(a) => a,
                None => rposition(es, at_or_before(anchor), es.len() as int)->0,
            };
            let anchor_active = active_anchor == Some(ai);
            let a = es[ai];
            let st0 = WalkState {
                avail: seg_ms as int,
                end: a.modified,
                session: a.session,
                index: a.index,
                boundaries: 0,
                gap: None,
                code: None,
                selected_rev: seq![ai],
                done: false,
            };
            assert(at_or_before(anchor)(es[ai]));
            assert(picks_ok(es, st0.selected_rev, ai, active, anchor_active));
            lemma_walk_picks(es, ai, st0, active, anchor_active, threshold, seg_ms, requested as int);
            let wk = walk(es, ai, st0, active, anchor_active, threshold, seg_ms, requested as int);
            let sel = wk.selected_rev;
            assert(w.selected == sel.reverse());
            assert forall|k: int| 0 <= k < w.selected.len() implies 0 <= #[trigger] w.selected[k]
                < es.len() && es[w.selected[k]].modified <= anchor by {
                assert(w.selected[k] == sel[sel.len() - 1 - k]);
                assert(at_or_before(anchor)(es[w.selected[k]]));
            }
            assert forall|j: int, k: int| 0 <= j < k < w.selected.len() implies #[trigger] w.selected[j]
                < #[trigger] w.selected[k] by {
                assert(w.selected[j] == sel[sel.len() - 1 - j]);
                assert(w.selected[k] == sel[sel.len() - 1 - k]);
            }
            assert(w.selected[w.selected.len() - 1] == sel[0]);
            if exists|k: int| 0 <= k < es.len() && #[trigger] es[k].session == Some(active) {
                let k0 = choose|k: int| 0 <= k < es.len() && #[trigger] es[k].session == Some(active);
                assert(at_or_before(anchor)(es[k0]));
                assert(active_at_or_before(anchor, active)(es[k0]));
                assert(active_anchor is Some);
                assert forall|k: int| 0 <= k < w.selected.len() implies es[
                    #[trigger] w.selected[k]].session == Some(active) by {
                    assert(w.selected[k] == sel[sel.len() - 1 - k]);
                }
            }
        },
    }
}

/// When some segment satisfies `p`, the last search finds one.
pub proof fn lemma_rposition_finds(es: Seq<SegView>, p: spec_fn(SegView) -> bool, n: int)
    requires
        0 <= n <= es.len(),
    ensures
        (exists|k: int| 0 <= k < n && #[trigger] p(es[k])) ==> rposition(es, p, n) is Some,
    decreases n,
{
    if n > 0 && !p(es[n - 1]) {
        lemma_rposition_finds(es, p, n - 1);
        if exists|k: int| 0 <= k < n && #[trigger] p(es[k]) {
            let k = choose|k: int| 0 <= k < n && #[trigger] p(es[k]);
            assert(k < n - 1);
        }
    }
}

} // verus!

verus! {

pub open spec fn leq_u64() -> spec_fn(u64, u64) -> bool {
    |a: u64, b: u64| a <= b
}

pub proof fn lemma_leq_total()
    ensures
        vstd::relations::total_ordering(leq_u64()),
{
    assert(vstd::relations::reflexive(leq_u64()));
    assert(vstd::relations::antisymmetric(leq_u64()));
    assert(vstd::relations::transitive(leq_u64()));
    assert(vstd::relations::strongly_connected(leq_u64()));
}

/// The values in ascending order.
pub fn sorted_copy(v: &Vec<u64>) -> (r: Vec<u64>)
    ensures
        r@ == v@.sort_by(leq_u64()),
{
    broadcast use vstd::seq_lib::group_to_multiset_ensures;

    let mut r: Vec<u64> = Vec::new();
    let mut i: usize = 0;
    assert(v@.take(0) =~= Seq::<u64>::empty());
    while i < v.len()
        invariant
            i <= v.len(),
            vstd::relations::sorted_by(r@, leq_u64()),
            r@.to_multiset() == v@.take(i as int).to_multiset(),
        decreases v.len() - i,
    {
        let x = v[i];
        let mut pos: usize = 0;
        while pos < r.len() && r[pos] <= x
            invariant
                pos <= r.len(),
                forall|k: int| 0 <= k < pos ==> r@[k] <= x,
            decreases r.len() - pos,
        {
            pos = pos + 1;
        }
        let ghost before = r@;
        r.insert(pos, x);
        proof {
            assert(r@ == before.insert(pos as int, x));
            before.insert_ensures(pos as int, x);
            assert(v@.take(i + 1) =~= v@.take(i as int).push(x));
            vstd::seq_lib::to_multiset_insert(before, pos as int, x);
            vstd::seq_lib::to_multiset_build(v@.take(i as int), x);
            assert forall|j: int, k: int| 0 <= j < k < r@.len() implies #[trigger] leq_u64()(
                r@[j],
                r@[k],
            ) by {
                if k < pos {
                } else if k == pos {
                    assert(r@[j] == before[j]);
                } else if j < pos {
                    assert(r@[k] == before[k - 1]);
                    if pos < before.len() {
                        assert(leq_u64()(before[pos as int], before[k - 1]));
                    }
                } else if j == pos {
                    assert(r@[k] == before[k - 1]);
                    assert(leq_u64()(before[pos as int], before[k - 1]));
                } else {
                    assert(r@[j] == before[j - 1]);
                    assert(r@[k] == before[k - 1]);
                    assert(leq_u64()(before[j - 1], before[k - 1]));
                }
            }
        }
        i = i + 1;
    }
    proof {
        assert(v@.take(v.len() as int) =~= v@);
        lemma_leq_total();
        v@.lemma_sort_by_ensures(leq_u64());
        vstd::seq_lib::lemma_sorted_unique(r@, v@.sort_by(leq_u64()), leq_u64());
    }
    r
}

/// Twice the median of a sorted sequence (the sum of the two middle values
/// when the count is even).
pub open spec fn twice_median(s: Seq<u64>) -> int {
    let mid = (s.len() / 2) as int;
    if s.len() % 2 == 0 {
        s[mid - 1] + s[mid]
    } else {
        2 * s[mid]
    }
}

/// Gaps between consecutive segments `lo - 1 .. n - 1` that look like the
/// cadence: positive and under 8 s.
pub open spec fn cadence_deltas(es: Seq<SegView>, lo: int, n: int) -> Seq<u64>
    decreases n - lo,
{
    if n <= lo {
        Seq::empty()
    } else {
        let prev = cadence_deltas(es, lo, n - 1);
        let a = es[n - 2].modified;
        let b = es[n - 1].modified;
        if b >= a && b - a > 0 && b - a < 8000 {
            prev.push((b - a) as u64)
        } else {
            prev
        }
    }
}

/// The gap that breaks continuity near the anchor: 3.5 times the median
/// cadence of the last twelve gaps up to the anchor (the segment length
/// when there is none), kept within 1 s and 4 s.
pub open spec fn spec_continuity_threshold_ms(es: Seq<SegView>, anchor_index: int, seg_ms: u64) -> u64 {
    let lo = if anchor_index >= 12 {
        anchor_index - 12
    } else {
        0
    };
    let deltas = cadence_deltas(es, lo + 1, anchor_index + 1);
    let base2: int = if deltas.len() == 0 {
        2 * seg_ms
    } else {
        twice_median(deltas.sort_by(leq_u64()))
    };
    let t = base2 * 7 / 4;
    if t < 1000 {
        1000
    } else if t > 4000 {
        4000
    } else {
        t as u64
    }
}

pub fn replay_continuity_gap_threshold_ms(
    entries: &Vec<SegmentEntry>,
    anchor_index: usize,
    segment_ms: u64,
) -> (r: u64)
    requires
        anchor_index < entries.len(),
        segment_ms <= 1_000_000_000_000,
    ensures
        r == spec_continuity_threshold_ms(seg_views(entries@), anchor_index as int, segment_ms),
{
    let ghost esv = seg_views(entries@);
    let lo: usize = if anchor_index >= 12 {
        anchor_index - 12
    } else {
        0
    };
    let mut deltas: Vec<u64> = Vec::new();
    let mut n: usize = lo + 1;
    assert(deltas@ =~= cadence_deltas(esv, lo + 1, lo + 1));
    while n <= anchor_index
        invariant
            lo + 1 <= n <= anchor_index + 1,
            anchor_index < entries.len(),
            esv == seg_views(entries@),
            deltas@ == cadence_deltas(esv, lo + 1, n as int),
            forall|k: int| 0 <= k < deltas@.len() ==> deltas@[k] < 8000,
        decreases anchor_index + 1 - n,
    {
        proof {
            assert(esv[n - 1] == seg_view(entries@[n - 1]));
            assert(esv[n as int] == seg_view(entries@[n as int]));
        }
        let a = entries[n - 1].modified_ms;
        let b = entries[n].modified_ms;
        if b >= a && b - a > 0 && b - a < 8000 {
            deltas.push(b - a);
        }
        n = n + 1;
    }
    let base2: u64 = if deltas.len() == 0 {
        2 * segment_ms
    } else {
        let s = sorted_copy(&deltas);
        proof {
            lemma_leq_total();
            deltas@.lemma_sort_by_ensures(leq_u64());
            assert forall|k: int| 0 <= k < s@.len() implies s@[k] < 8000 by {
                assert(s@.contains(s@[k]));
                vstd::seq_lib::to_multiset_contains(s@, s@[k]);
                vstd::seq_lib::to_multiset_contains(deltas@, s@[k]);
                assert(deltas@.contains(s@[k]));
            }
            vstd::seq_lib::to_multiset_len(s@);
            vstd::seq_lib::to_multiset_len(deltas@);
        }
        let mid = s.len() / 2;
        if s.len() % 2 == 0 {
            s[mid - 1] + s[mid]
        } else {
            2 * s[mid]
        }
    };
    let t = base2 * 7 / 4;
    if t < 1000 {
        1000
    } else if t > 4000 {
        4000
    } else {
        t
    }
}

/// A segment a save may take: written at or before the trigger, untouched
/// for the settling time at `now`, and no older than the history kept
/// (`max_age_ms`).
pub open spec fn settled_for_save(now: u64, anchor: u64, max_age_ms: u64) -> spec_fn(SegView) -> bool {
    |e: SegView|
        e.modified <= anchor && e.modified <= now && now - e.modified >= 500 && now - e.modified
            <= max_age_ms
}

/// The history a save may reach into: the buffer's length and fifteen
/// seconds more, in milliseconds.
pub open spec fn history_age_ms(buffer_duration_secs: u16) -> u64 {
    ((buffer_duration_secs as int + 15) * 1000) as u64
}

/// The segments a save chooses among: the settled ones of the listing, in
/// write-time order.
pub open spec fn save_candidates(
    all: Seq<SegView>,
    now: u64,
    anchor: u64,
    buffer_duration_secs: u16,
) -> Seq<SegView> {
    in_write_order(
        filter_seq(all, settled_for_save(now, anchor, history_age_ms(buffer_duration_secs))),
    )
}

pub open spec fn spec_window_anchor(es: Seq<SegView>, anchor: u64, active: Seq<char>) -> Option<int> {
    match rposition(es, active_at_or_before(anchor, active), es.len() as int) {
        Some(a) => Some(a),
        None => rposition(es, at_or_before(anchor), es.len() as int),
    }
}

/// The segment length the capture cuts, in milliseconds.
pub open spec fn clamped_segment_ms(segment_time_ms: u16) -> u64 {
    if segment_time_ms < 250 {
        250
    } else if segment_time_ms > 2000 {
        2000
    } else {
        segment_time_ms as u64
    }
}

/// The window of a save triggered at `anchor` (seen at `now`): among the
/// candidate segments (`save_candidates`), the window of
/// `spec_select_window` for the replay length, with the continuity
/// threshold of the segment it ends at.
pub open spec fn spec_replay_selection(
    all: Seq<SegView>,
    now: u64,
    anchor: u64,
    buffer_duration_secs: u16,
    replay_duration_secs: u16,
    segment_time_ms: u16,
    active: Seq<char>,
) -> Option<WindowView> {
    let es = save_candidates(all, now, anchor, buffer_duration_secs);
    let seg = clamped_segment_ms(segment_time_ms);
    match spec_window_anchor(es, anchor, active) {
        None => None,
        Some(ai) => spec_select_window(
            es,
            anchor,
            (replay_duration_secs as int * 1000) as u64,
            seg,
            spec_continuity_threshold_ms(es, ai, seg),
            active,
        ),
    }
}

fn settled_entries(entries: &Vec<SegmentEntry>, now_ms: u64, anchor_ms: u64, max_age_ms: u64) -> (r:
    Vec<SegmentEntry>)
    ensures
        seg_views(r@) == filter_seq(seg_views(entries@), settled_for_save(now_ms, anchor_ms, max_age_ms)),
{
    let ghost all = seg_views(entries@);
    let ghost f = settled_for_save(now_ms, anchor_ms, max_age_ms);
    let mut out: Vec<SegmentEntry> = Vec::new();
    let mut i: usize = 0;
    assert(all.take(0) =~= Seq::<SegView>::empty());
    assert(seg_views(out@) =~= Seq::<SegView>::empty());
    while i < entries.len()
        invariant
            i <= entries.len(),
            all == seg_views(entries@),
            f == settled_for_save(now_ms, anchor_ms, max_age_ms),
            seg_views(out@) == filter_seq(all.take(i as int), f),
        decreases entries.len() - i,
    {
        proof {
            lemma_filter_step(all, f, i as int);
            assert(all[i as int] == seg_view(entries@[i as int]));
        }
        let m = entries[i].modified_ms;
        if m <= anchor_ms && m <= now_ms && now_ms - m >= 500 && now_ms - m <= max_age_ms {
            let c = clone_entry(&entries[i]);
            let ghost before = out@;
            out.push(c);
            assert(seg_views(out@) =~= seg_views(before).push(seg_view(c)));
        }
        i = i + 1;
    }
    assert(all.take(entries.len() as int) =~= all);
    out
}

/// The window a save triggered at `anchor_ms` takes from a listing in any
/// order; see `spec_replay_selection`. Returns the candidate segments, in
/// write-time order, with it: the window's indices point into them.
pub fn replay_selection_for_save_at(
    entries: &Vec<SegmentEntry>,
    now_ms: u64,
    anchor_ms: u64,
    buffer_duration_secs: u16,
    replay_duration_secs: u16,
    segment_time_ms: u16,
    active_session_id: &Vec<char>,
) -> (r: (Vec<SegmentEntry>, Option<ReplayWindow>))
    ensures
        seg_views(r.0@) == save_candidates(seg_views(entries@), now_ms, anchor_ms, buffer_duration_secs),
        match spec_replay_selection(
            seg_views(entries@),
            now_ms,
            anchor_ms,
            buffer_duration_secs,
            replay_duration_secs,
            segment_time_ms,
            active_session_id@,
        ) {
            None => r.1 is None,
            Some(w) => r.1 matches Some(rw) && {
                &&& ints(rw.selected@) == w.selected
                &&& rw.available_ms == w.available
                &&& rw.target_trim_ms == w.target
                &&& rw.window_start_ms == w.start
                &&& rw.window_end_ms == w.end
                &&& rw.partial_history == w.partial
                &&& rw.partial_reason_code == w.code
                &&& rw.anchor_lag_ms == w.anchor_lag
                &&& rw.discontinuity_gap_ms == w.gap
                &&& rw.session_boundary_count == w.boundaries
            },
        },
{
    let max_age_ms: u64 = (buffer_duration_secs as u64 + 15) * 1000;
    let settled = settled_entries(entries, now_ms, anchor_ms, max_age_ms);
    let es = sort_by_write_time(&settled);
    let ghost esv = seg_views(es@);
    let seg: u64 = if segment_time_ms < 250 {
        250
    } else if segment_time_ms > 2000 {
        2000
    } else {
        segment_time_ms as u64
    };
    let ai = match rposition_at_or_before(&es, anchor_ms, Some(active_session_id)) {
        Some(a) => {
            proof {
                lemma_rposition_bound(
                    esv,
                    active_at_or_before(anchor_ms, active_session_id@),
                    es@.len() as int,
                );
            }
            a
        },
        None => match rposition_at_or_before(&es, anchor_ms, None) {
            Some(a) => {
                proof {
                    lemma_rposition_bound(esv, at_or_before(anchor_ms), es@.len() as int);
                }
                a
            },
            None => {
                return (es, None);
            },
        },
    };
    let threshold = replay_continuity_gap_threshold_ms(&es, ai, seg);
    let requested_ms: u64 = replay_duration_secs as u64 * 1000;
    let w = select_replay_window(&es, anchor_ms, requested_ms, seg, threshold, active_session_id);
    (es, w)
}

proof fn lemma_filter_keeps_all(s: Seq<SegView>, p: spec_fn(SegView) -> bool)
    requires
        forall|k: int| 0 <= k < s.len() ==> p(#[trigger] s[k]),
    ensures
        filter_seq(s, p) == s,
    decreases s.len(),
{
    if s.len() > 0 {
        lemma_filter_keeps_all(s.drop_last(), p);
        assert(p(s[s.len() - 1]));
        assert(s.drop_last().push(s.last()) =~= s);
    }
}

proof fn lemma_rposition_last(es: Seq<SegView>, p: spec_fn(SegView) -> bool, n: int)
    requires
        n <= es.len(),
    ensures
        rposition(es, p, n) matches Some(i) ==> forall|k: int| i < k < n ==> !p(#[trigger] es[k]),
    decreases n,
{
    if n > 0 && !p(es[n - 1]) {
        lemma_rposition_last(es, p, n - 1);
    }
}

/// A save's window comes out in write-time order whatever order the
/// listing arrives in; when the running session has a candidate segment,
/// the window takes only that session's segments and ends at its newest.
pub proof fn save_window_follows_write_time(
    all: Seq<SegView>,
    now: u64,
    anchor: u64,
    buffer_duration_secs: u16,
    replay_duration_secs: u16,
    segment_time_ms: u16,
    active: Seq<char>,
)
    ensures
        spec_replay_selection(
            all,
            now,
            anchor,
            buffer_duration_secs,
            replay_duration_secs,
            segment_time_ms,
            active,
        ) matches Some(w) ==> {
            let es = save_candidates(all, now, anchor, buffer_duration_secs);
            &&& forall|k: int| 0 <= k < w.selected.len() ==> 0 <= #[trigger] w.selected[k] < es.len()
            &&& forall|j: int, k: int|
                0 <= j < k < w.selected.len() ==> es[#[trigger] w.selected[j]].modified
                    <= es[#[trigger] w.selected[k]].modified
            &&& forall|k: int|
                0 <= k < es.len() && #[trigger] es[k].session == Some(active) ==> es[k].modified
                    <= w.end
            &&& (exists|k: int| 0 <= k < es.len() && #[trigger] es[k].session == Some(active))
                ==> forall|k: int|
                0 <= k < w.selected.len() ==> es[#[trigger] w.selected[k]].session == Some(active)
        },
{
    let f = settled_for_save(now, anchor, history_age_ms(buffer_duration_secs));
    let filtered = filter_seq(all, f);
    let es = save_candidates(all, now, anchor, buffer_duration_secs);
    lemma_filter_all(all, f);
    lemma_write_order_prefix(filtered, filtered.len() as int);
    in_write_order_is_ascending(filtered);
    let ord = write_order(filtered);
    assert forall|k: int| 0 <= k < es.len() implies at_or_before(anchor)(#[trigger] es[k]) by {
        assert(es[k] == filtered[ord[k]]);
        assert(f(filtered[ord[k]]));
    }
    lemma_filter_keeps_all(es, at_or_before(anchor));
    let seg = clamped_segment_ms(segment_time_ms);
    match spec_window_anchor(es, anchor, active) {
        None => {},
        Some(ai) => {
            let threshold = spec_continuity_threshold_ms(es, ai, seg);
            let requested = (replay_duration_secs as int * 1000) as u64;
            replay_window_is_anchored_at_trigger(es, anchor, requested, seg, threshold, active);
            let pa = active_at_or_before(anchor, active);
            lemma_rposition_last(es, pa, es.len() as int);
            lemma_rposition_bound(es, pa, es.len() as int);
            lemma_rposition_finds(es, pa, es.len() as int);
            match spec_select_window(es, anchor, requested, seg, threshold, active) {
                None => {},
                Some(w) => {
                    assert forall|k: int|
                        0 <= k < es.len() && #[trigger] es[k].session == Some(
                            active,
                        ) implies es[k].modified <= w.end by {
                        assert(pa(es[k]));
                        let i = rposition(es, pa, es.len() as int)->0;
                        assert(k <= i);
                    }
                },
            }
        },
    }
}

/// Along the picks (newest first), neighbours that both carry a segment
/// index are numbered one apart, and the walk's current index is the last
/// pick's.
pub open spec fn index_chain(es: Seq<SegView>, sel: Seq<int>, cur: Option<u64>) -> bool {
    &&& sel.len() >= 1
    &&& es[sel[sel.len() - 1]].index == cur
    &&& forall|j: int, k: int|
        0 <= j && k == j + 1 && k < sel.len() && (#[trigger] es[sel[j]]).index is Some && (
        #[trigger] es[sel[k]]).index is Some ==> es[sel[j]].index->0 == es[sel[k]].index->0 + 1
}

proof fn lemma_walk_chain(
    es: Seq<SegView>,
    i: int,
    st: WalkState,
    active: Seq<char>,
    anchor_active: bool,
    threshold: u64,
    seg_ms: u64,
    requested: int,
)
    requires
        0 <= i <= es.len(),
        picks_ok(es, st.selected_rev, i, active, anchor_active),
        index_chain(es, st.selected_rev, st.index),
    ensures
        ({
            let w = walk(es, i, st, active, anchor_active, threshold, seg_ms, requested);
            index_chain(es, w.selected_rev, w.index)
        }),
    decreases i,
{
    if i > 0 && !st.done {
        let next = walk_step(es, i - 1, st, active, anchor_active, threshold, seg_ms, requested);
        let sel = st.selected_rev;
        if next.selected_rev.len() != sel.len() {
            let ns = next.selected_rev;
            assert(ns == sel.push(i - 1));
            assert(next.index == es[i - 1].index);
            assert forall|j: int, k: int|
                0 <= j && k == j + 1 && k < ns.len() && (#[trigger] es[ns[j]]).index is Some && (
                #[trigger] es[ns[k]]).index is Some implies es[ns[j]].index->0 == es[ns[k]].index->0
                + 1 by {
                if k == sel.len() {
                    assert(ns[j] == sel[sel.len() - 1]);
                    assert(ns[k] == i - 1);
                } else {
                    assert(ns[j] == sel[j] && ns[k] == sel[k]);
                }
            }
            assert forall|j: int, k: int| 0 <= j < k < ns.len() implies #[trigger] ns[j]
                > #[trigger] ns[k] by {
                if k == sel.len() {
                    assert(sel[j] >= i);
                }
            }
        }
        lemma_walk_chain(es, i - 1, next, active, anchor_active, threshold, seg_ms, requested);
    }
}

/// A save never splices over a missing segment: of two neighbouring
/// segments in the window that both carry a segment index, the later one
/// is numbered exactly one after the earlier.
pub proof fn replay_window_never_skips_a_segment_index(
    all: Seq<SegView>,
    anchor: u64,
    requested: u64,
    seg_ms: u64,
    threshold: u64,
    active: Seq<char>,
)
    ensures
        spec_select_window(all, anchor, requested, seg_ms, threshold, active) matches Some(w) ==> {
            let es = filter_seq(all, at_or_before(anchor));
            forall|j: int|
                0 <= j < w.selected.len() - 1 && (#[trigger] es[w.selected[j]]).index is Some
                    && es[w.selected[j + 1]].index is Some ==> es[w.selected[j + 1]].index->0
                    == es[w.selected[j]].index->0 + 1
        },
{
    let es = filter_seq(all, at_or_before(anchor));
    let active_anchor = rposition(es, active_at_or_before(anchor, active), es.len() as int);
    lemma_rposition_bound(es, active_at_or_before(anchor, active), es.len() as int);
    lemma_rposition_bound(es, at_or_before(anchor), es.len() as int);
    match spec_select_window(all, anchor, requested, seg_ms, threshold, active) {
        None => {},
        Some(w) => {
            let ai = match active_anchor {
                Some(a) => a,
                None => rposition(es, at_or_before(anchor), es.len() as int)->0,
            };
            let anchor_active = active_anchor == Some(ai);
            let a = es[ai];
            let st0 = WalkState {
                avail: seg_ms as int,
                end: a.modified,
                session: a.session,
                index: a.index,
                boundaries: 0,
                gap: None,
                code: None,
                selected_rev: seq![ai],
                done: false,
            };
            assert(picks_ok(es, st0.selected_rev, ai, active, anchor_active));
            assert(index_chain(es, st0.selected_rev, st0.index));
            lemma_walk_picks(es, ai, st0, active, anchor_active, threshold, seg_ms, requested as int);
            lemma_walk_chain(es, ai, st0, active, anchor_active, threshold, seg_ms, requested as int);
            let wk = walk(es, ai, st0, active, anchor_active, threshold, seg_ms, requested as int);
            let sel = wk.selected_rev;
            assert(w.selected == sel.reverse());
            assert forall|j: int|
                0 <= j < w.selected.len() - 1 && (#[trigger] es[w.selected[j]]).index is Some
                    && es[w.selected[j + 1]].index is Some implies es[w.selected[j + 1]].index->0
                == es[w.selected[j]].index->0 + 1 by {
                let n = sel.len();
                assert(w.selected[j] == sel[n - 1 - j]);
                assert(w.selected[j + 1] == sel[n - 2 - j]);
                let jj = n - 2 - j;
                let kk = n - 1 - j;
                assert(kk == jj + 1);
                assert(es[sel[jj]].index is Some && es[sel[kk]].index is Some);
            }
        },
    }
}


/// The segment written just before `o` is from the same session, follows
/// within `threshold`, and is numbered more than one below it.
pub open spec fn index_gap_before(es: Seq<SegView>, o: int, threshold: u64) -> bool {
    &&& 0 < o < es.len()
    &&& es[o - 1].session == es[o].session
    &&& sat_sub(es[o].modified, es[o - 1].modified) <= threshold
    &&& es[o].index is Some
    &&& es[o - 1].index is Some
    &&& es[o - 1].index->0 + 1 < es[o].index->0
}

proof fn lemma_walk_stops_at_gap(
    es: Seq<SegView>,
    i: int,
    st: WalkState,
    active: Seq<char>,
    anchor_active: bool,
    threshold: u64,
    seg_ms: u64,
    requested: int,
)
    requires
        0 <= i <= es.len(),
        picks_ok(es, st.selected_rev, i, active, anchor_active),
        st.selected_rev.len() >= 1,
        st.end == es[st.selected_rev.last()].modified,
        st.session == es[st.selected_rev.last()].session,
        st.index == es[st.selected_rev.last()].index,
        forall|k: int|
            i <= k < st.selected_rev.last() ==> anchor_active && (#[trigger] es[k]).session != Some(
                active,
            ),
        st.done ==> st.avail >= requested,
    ensures
        ({
            let w = walk(es, i, st, active, anchor_active, threshold, seg_ms, requested);
            let o = w.selected_rev.last();
            w.avail < requested && index_gap_before(es, o, threshold) ==> w.code == Some(
                PartialReasonCode::SegmentIndexGap,
            ) && w.gap == Some(sat_sub(es[o].modified, es[o - 1].modified))
        }),
    decreases i,
{
    let sel = st.selected_rev;
    let last = sel.last();
    assert(sel[sel.len() - 1] == last);
    if i > 0 && !st.done {
        let next = walk_step(es, i - 1, st, active, anchor_active, threshold, seg_ms, requested);
        if anchor_active {
            assert(es[last].session == Some(active));
        }
        if next.selected_rev.len() != sel.len() {
            let ns = next.selected_rev;
            assert(ns == sel.push(i - 1));
            assert(ns.last() == i - 1);
            assert forall|j: int, k: int| 0 <= j < k < ns.len() implies #[trigger] ns[j]
                > #[trigger] ns[k] by {
                if k == sel.len() {
                    assert(sel[j] >= i);
                }
            }
            lemma_walk_stops_at_gap(
                es,
                i - 1,
                next,
                active,
                anchor_active,
                threshold,
                seg_ms,
                requested,
            );
        } else if next == st {
            lemma_walk_stops_at_gap(
                es,
                i - 1,
                next,
                active,
                anchor_active,
                threshold,
                seg_ms,
                requested,
            );
        } else {
            assert(next.done);
            assert(walk(es, i - 1, next, active, anchor_active, threshold, seg_ms, requested)
                == next);
            if index_gap_before(es, last, threshold) {
                if i < last {
                    assert(anchor_active && es[last - 1].session != Some(active));
                }
                assert(i == last);
            }
        }
    }
}

/// A window that falls short of the request because of a skipped segment
/// index says so: when the segment written just before the window's oldest
/// one is from the same session, follows it within the continuity
/// threshold and is numbered more than one below it, the window is partial,
/// reports a segment index gap, and gives the time between the two as the
/// discontinuity.
pub proof fn short_window_reports_index_gap(
    all: Seq<SegView>,
    anchor: u64,
    requested: u64,
    seg_ms: u64,
    threshold: u64,
    active: Seq<char>,
)
    ensures
        spec_select_window(all, anchor, requested, seg_ms, threshold, active) matches Some(w) ==> {
            let es = filter_seq(all, at_or_before(anchor));
            let o = w.selected[0];
            w.available < requested && index_gap_before(es, o, threshold) ==> {
                &&& w.partial
                &&& w.code == Some(PartialReasonCode::SegmentIndexGap)
                &&& w.gap == Some(sat_sub(es[o].modified, es[o - 1].modified))
            }
        },
{
    let es = filter_seq(all, at_or_before(anchor));
    let active_anchor = rposition(es, active_at_or_before(anchor, active), es.len() as int);
    lemma_rposition_bound(es, active_at_or_before(anchor, active), es.len() as int);
    lemma_rposition_bound(es, at_or_before(anchor), es.len() as int);
    match spec_select_window(all, anchor, requested, seg_ms, threshold, active) {
        None => {},
        Some(w) => {
            let ai = match active_anchor {
                Some(a) => a,
                None => rposition(es, at_or_before(anchor), es.len() as int)->0,
            };
            let anchor_active = active_anchor == Some(ai);
            let a = es[ai];
            let st0 = WalkState {
                avail: seg_ms as int,
                end: a.modified,
                session: a.session,
                index: a.index,
                boundaries: 0,
                gap: None,
                code: None,
                selected_rev: seq![ai],
                done: false,
            };
            assert(picks_ok(es, st0.selected_rev, ai, active, anchor_active));
            lemma_walk_picks(es, ai, st0, active, anchor_active, threshold, seg_ms, requested as int);
            lemma_walk_stops_at_gap(
                es,
                ai,
                st0,
                active,
                anchor_active,
                threshold,
                seg_ms,
                requested as int,
            );
            let wk = walk(es, ai, st0, active, anchor_active, threshold, seg_ms, requested as int);
            let sel = wk.selected_rev;
            assert(w.selected == sel.reverse());
            assert(w.selected[0] == sel.last());
        },
    }
}

} // verus!
