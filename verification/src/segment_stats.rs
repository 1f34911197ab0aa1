//! What the live segments tell about the running capture: how many
//! sessions wrote recently, how old the session's newest segment is,
//! whether a settled segment exists; and whether the display changed for
//! long enough to restart.
//!
//! Segments are listed oldest first; times are epoch milliseconds.
use vstd::prelude::*;
use crate::replay_window::{seg_view, seg_views, SegView, SegmentEntry};
use crate::seqs::{filter_seq, last_n, lemma_filter_step};
use crate::text::{chars_eq, views};

verus! {

/// A segment of at least this size holds real frames.
pub const STARTUP_MIN_SEGMENT_BYTES: u64 = 32 * 1024;

/// A segment untouched this long is settled.
pub const SEGMENT_STABLE_GRACE_MS: u64 = 500;

/// Walking back over the last `k` segments: the sessions met (newest
/// first, each once) and whether the walk stopped at a segment older than
/// `horizon`.
pub open spec fn recent_walk(es: Seq<SegView>, k: int, horizon: u64) -> (Seq<Seq<char>>, bool)
    decreases k,
{
    if k <= 0 {
        (Seq::empty(), false)
    } else {
        let (prev, stopped) = recent_walk(es, k - 1, horizon);
        if stopped {
            (prev, true)
        } else {
            let e = es[es.len() - k];
            if e.modified < horizon {
                (prev, true)
            } else {
                match e.session {
                    Some(s) => if prev.contains(s) {
                        (prev, false)
                    } else {
                        (prev.push(s), false)
                    },
                    None => (prev, false),
                }
            }
        }
    }
}

pub open spec fn replay_horizon(now_ms: u64, replay_duration_secs: u16) -> u64 {
    let span: int = (if replay_duration_secs < 1 {
        1
    } else {
        replay_duration_secs as int
    }) * 1000;
    if now_ms >= span {
        (now_ms - span) as u64
    } else {
        0
    }
}

/// The number of sessions that wrote the segments of the last replay
/// length (at most 255); none when no such segment names a session.
pub open spec fn spec_concurrent_session_count(
    es: Seq<SegView>,
    now_ms: u64,
    replay_duration_secs: u16,
) -> Option<u8> {
    let n = recent_walk(es, es.len() as int, replay_horizon(now_ms, replay_duration_secs)).0.len();
    if n == 0 {
        None
    } else if n >= 255 {
        Some(255)
    } else {
        Some(n as u8)
    }
}

fn list_contains(list: &Vec<Vec<char>>, s: &Vec<char>) -> (r: bool)
    ensures
        r == views(list@).contains(s@),
{
    let mut i: usize = 0;
    while i < list.len()
        invariant
            i <= list.len(),
            forall|k: int| 0 <= k < i ==> views(list@)[k] != s@,
        decreases list.len() - i,
    {
        if chars_eq(&list[i], s) {
            assert(views(list@)[i as int] == s@);
            return true;
        }
        i = i + 1;
    }
    false
}

fn copy_chars(s: &Vec<char>) -> (r: Vec<char>)
    ensures
        r@ == s@,
{
    let mut r: Vec<char> = Vec::new();
    let mut i: usize = 0;
    while i < s.len()
        invariant
            i <= s.len(),
            r@ == s@.take(i as int),
        decreases s.len() - i,
    {
        r.push(s[i]);
        assert(r@ =~= s@.take(i + 1));
        i = i + 1;
    }
    assert(s@.take(s.len() as int) =~= s@);
    r
}

pub fn concurrent_session_count(entries: &Vec<SegmentEntry>, now_ms: u64, replay_duration_secs: u16) -> (r:
    Option<u8>)
    ensures
        r == spec_concurrent_session_count(seg_views(entries@), now_ms, replay_duration_secs),
{
    let ghost es = seg_views(entries@);
    let secs: u64 = if replay_duration_secs < 1 {
        1
    } else {
        replay_duration_secs as u64
    };
    let span = secs * 1000;
    let horizon = if now_ms >= span {
        now_ms - span
    } else {
        0
    };
    let mut sessions: Vec<Vec<char>> = Vec::new();
    let mut stopped = false;
    let mut k: usize = 0;
    assert(views(sessions@) =~= Seq::<Seq<char>>::empty());
    while k < entries.len()
        invariant
            k <= entries.len(),
            es == seg_views(entries@),
            es.len() == entries.len(),
            horizon == replay_horizon(now_ms, replay_duration_secs),
            (views(sessions@), stopped) == recent_walk(es, k as int, horizon),
        decreases entries.len() - k,
    {
        if !stopped {
            let e = &entries[entries.len() - 1 - k];
            proof {
                assert(es[es.len() - (k + 1)] == seg_view(entries@[entries.len() - 1 - k]));
            }
            if e.modified_ms < horizon {
                stopped = true;
            } else {
                match &e.session_id {
                    Some(s) => {
                        if !list_contains(&sessions, s) {
                            let c = copy_chars(s);
                            let ghost before = sessions@;
                            sessions.push(c);
                            assert(views(sessions@) =~= views(before).push(s@));
                        }
                    },
                    None => {},
                }
            }
        }
        k = k + 1;
    }
    let n = sessions.len();
    if n == 0 {
        None
    } else if n >= 255 {
        Some(255)
    } else {
        Some(n as u8)
    }
}

/// The newest segment of the session, by index into the list.
pub open spec fn newest_of_session(es: Seq<SegView>, session: Seq<char>, n: int) -> Option<int>
    decreases n,
{
    if n <= 0 {
        None
    } else if es[n - 1].session == Some(session) {
        Some(n - 1)
    } else {
        newest_of_session(es, session, n - 1)
    }
}

/// How long ago the session last wrote a segment; none without one, or
/// when its time lies ahead of `now_ms`.
pub open spec fn spec_latest_segment_age_ms(es: Seq<SegView>, session: Seq<char>, now_ms: u64) -> Option<
    u64,
> {
    match newest_of_session(es, session, es.len() as int) {
        None => None,
        Some(i) => if es[i].modified > now_ms {
            None
        } else {
            Some((now_ms - es[i].modified) as u64)
        },
    }
}

pub fn latest_segment_age_ms(entries: &Vec<SegmentEntry>, session_id: &Vec<char>, now_ms: u64) -> (r:
    Option<u64>)
    ensures
        r == spec_latest_segment_age_ms(seg_views(entries@), session_id@, now_ms),
{
    let ghost es = seg_views(entries@);
    let mut n = entries.len();
    while n > 0
        invariant
            n <= entries.len(),
            es == seg_views(entries@),
            es.len() == entries.len(),
            newest_of_session(es, session_id@, entries.len() as int) == newest_of_session(
                es,
                session_id@,
                n as int,
            ),
        decreases n,
    {
        let e = &entries[n - 1];
        proof {
            assert(es[n - 1] == seg_view(entries@[n - 1]));
        }
        let hit = match &e.session_id {
            Some(s) => chars_eq(s, session_id),
            None => false,
        };
        if hit {
            if e.modified_ms > now_ms {
                return None;
            }
            return Some(now_ms - e.modified_ms);
        }
        n = n - 1;
    }
    None
}

/// A segment that holds real frames and has not been written to for the
/// grace time (one dated ahead of `now_ms` is not settled).
pub open spec fn settled(e: SegmentEntry, now_ms: u64) -> bool {
    e.size_bytes >= STARTUP_MIN_SEGMENT_BYTES && e.modified_ms <= now_ms && now_ms - e.modified_ms
        >= SEGMENT_STABLE_GRACE_MS
}

/// Some segment is settled: a save can start.
pub fn save_ready(entries: &Vec<SegmentEntry>, now_ms: u64) -> (r: bool)
    ensures
        r == exists|i: int| 0 <= i < entries@.len() && settled(#[trigger] entries@[i], now_ms),
{
    let mut i: usize = 0;
    while i < entries.len()
        invariant
            i <= entries.len(),
            forall|k: int| 0 <= k < i ==> !settled(#[trigger] entries@[k], now_ms),
        decreases entries.len() - i,
    {
        let e = &entries[i];
        if e.size_bytes >= STARTUP_MIN_SEGMENT_BYTES && e.modified_ms <= now_ms && now_ms
            - e.modified_ms >= SEGMENT_STABLE_GRACE_MS {
            return true;
        }
        i = i + 1;
    }
    false
}

pub open spec fn of_session(e: SegmentEntry, session: Seq<char>) -> bool {
    match e.session_id {
        Some(s) => s@ == session,
        None => false,
    }
}

/// Some segment of the session is settled.
pub fn current_session_has_stable_segment(
    entries: &Vec<SegmentEntry>,
    session_id: &Vec<char>,
    now_ms: u64,
) -> (r: bool)
    ensures
        r == exists|i: int|
            0 <= i < entries@.len() && of_session(#[trigger] entries@[i], session_id@) && settled(
                entries@[i],
                now_ms,
            ),
{
    let mut i: usize = 0;
    while i < entries.len()
        invariant
            i <= entries.len(),
            forall|k: int|
                0 <= k < i ==> !(of_session(#[trigger] entries@[k], session_id@) && settled(
                    entries@[k],
                    now_ms,
                )),
        decreases entries.len() - i,
    {
        let e = &entries[i];
        let mine = match &e.session_id {
            Some(s) => chars_eq(s, session_id),
            None => false,
        };
        if mine && e.size_bytes >= STARTUP_MIN_SEGMENT_BYTES && e.modified_ms <= now_ms && now_ms
            - e.modified_ms >= SEGMENT_STABLE_GRACE_MS {
            return true;
        }
        i = i + 1;
    }
    false
}

/// When a display change was first seen, while it lasts.
#[derive(Debug, Clone, Copy, PartialEq, Eq, Structural)]
pub struct DisplayChangeWatch {
    pub first_seen_ms: Option<u64>,
}

/// One look at the display: a signature of zero (unknown) says nothing; a
/// signature other than the capture's counts as a change once it has lasted
/// the debounce time since first seen; the capture's own ends the watch.
pub open spec fn spec_display_step(
    first_seen: Option<u64>,
    capture_signature: u64,
    current_signature: u64,
    now_ms: u64,
    debounce_ms: u64,
) -> (Option<u64>, bool) {
    if current_signature == 0 || capture_signature == 0 {
        (first_seen, false)
    } else if current_signature != capture_signature {
        match first_seen {
            Some(t) => (first_seen, now_ms >= t && now_ms - t >= debounce_ms),
            None => (Some(now_ms), false),
        }
    } else {
        (None, false)
    }
}

impl DisplayChangeWatch {
    pub fn new() -> (r: Self)
        ensures
            r.first_seen_ms is None,
    {
        DisplayChangeWatch { first_seen_ms: None }
    }

    pub fn has_display_changed(
        &mut self,
        capture_signature: u64,
        current_signature: u64,
        now_ms: u64,
        debounce_ms: u64,
    ) -> (r: bool)
        ensures
            (final(self).first_seen_ms, r) == spec_display_step(
                old(self).first_seen_ms,
                capture_signature,
                current_signature,
                now_ms,
                debounce_ms,
            ),
    {
        if current_signature == 0 || capture_signature == 0 {
            return false;
        }
        if current_signature != capture_signature {
            match self.first_seen_ms {
                Some(t) => {
                    return now_ms >= t && now_ms - t >= debounce_ms;
                },
                None => {
                    self.first_seen_ms = Some(now_ms);
                    return false;
                },
            }
        }
        self.first_seen_ms = None;
        false
    }
}

/// A display change is never reported on the look that first sees it.
pub proof fn display_change_needs_a_second_look(
    capture_signature: u64,
    current_signature: u64,
    now_ms: u64,
    debounce_ms: u64,
)
    ensures
        !spec_display_step(None, capture_signature, current_signature, now_ms, debounce_ms).1,
{
}

/// How long the segments cover, in milliseconds: their number times the
/// segment length, at most the buffer's length.
pub open spec fn spec_buffer_fill_ms(segment_count: int, segment_ms: u64, buffer_duration_secs: u16) -> int {
    let fill = segment_count * segment_ms;
    if fill < buffer_duration_secs as int * 1000 {
        fill
    } else {
        buffer_duration_secs as int * 1000
    }
}

pub fn buffer_fill_ms(segment_count: usize, segment_ms: u64, buffer_duration_secs: u16) -> (r: u64)
    requires
        segment_ms <= 1_000_000,
        segment_count <= 1_000_000_000,
    ensures
        r as int == spec_buffer_fill_ms(segment_count as int, segment_ms, buffer_duration_secs),
{
    assert(segment_count as int * segment_ms as int <= 1_000_000_000 * 1_000_000) by (nonlinear_arith)
        requires
            segment_ms <= 1_000_000,
            segment_count <= 1_000_000_000,
    ;
    let fill = segment_count as u64 * segment_ms;
    let cap = buffer_duration_secs as u64 * 1000;
    if fill < cap {
        fill
    } else {
        cap
    }
}

pub open spec fn session_pred(session: Seq<char>) -> spec_fn(SegView) -> bool {
    |e: SegView| e.session == Some(session)
}

/// The positive gaps between consecutive write times: their sum and count.
pub open spec fn positive_gaps(ms: Seq<SegView>, n: int) -> (int, int)
    decreases n,
{
    if n <= 1 {
        (0, 0)
    } else {
        let (sum, count) = positive_gaps(ms, n - 1);
        if ms[n - 1].modified > ms[n - 2].modified {
            (sum + ms[n - 1].modified - ms[n - 2].modified, count + 1)
        } else {
            (sum, count)
        }
    }
}

/// The cadence of the session's last twelve segments: the sum and the
/// number of the positive gaps between them; none with fewer than two
/// segments or no positive gap. (Playback speed is the segment length over
/// the mean gap.)
pub open spec fn spec_recent_cadence(es: Seq<SegView>, session: Seq<char>) -> Option<(u64, u64)> {
    let mine = last_n(filter_seq(es, session_pred(session)), 12);
    if mine.len() < 2 {
        None
    } else {
        let (sum, count) = positive_gaps(mine, mine.len() as int);
        if count == 0 {
            None
        } else {
            Some(
                (
                    if sum > u64::MAX {
                        u64::MAX
                    } else {
                        sum as u64
                    },
                    count as u64,
                ),
            )
        }
    }
}

proof fn lemma_positive_gaps_bound(ms: Seq<SegView>, n: int)
    requires
        0 <= n <= ms.len(),
    ensures
        0 <= positive_gaps(ms, n).0 <= (if n >= 1 {
            n
        } else {
            1
        }) * 0x1_0000_0000_0000_0000,
        0 <= positive_gaps(ms, n).1 <= n,
    decreases n,
{
    if n > 1 {
        lemma_positive_gaps_bound(ms, n - 1);
    }
}

pub fn recent_cadence(entries: &Vec<SegmentEntry>, session_id: &Vec<char>) -> (r: Option<(u64, u64)>)
    ensures
        r == spec_recent_cadence(seg_views(entries@), session_id@),
{
    let ghost es = seg_views(entries@);
    let ghost p = session_pred(session_id@);
    let mut mine: Vec<u64> = Vec::new();
    let mut i: usize = 0;
    assert(es.take(0) =~= Seq::<SegView>::empty());
    while i < entries.len()
        invariant
            i <= entries.len(),
            es == seg_views(entries@),
            p == session_pred(session_id@),
            mine@.len() == filter_seq(es.take(i as int), p).len(),
            forall|k: int|
                0 <= k < mine@.len() ==> mine@[k] == #[trigger] filter_seq(es.take(i as int), p)[k].modified,
        decreases entries.len() - i,
    {
        proof {
            lemma_filter_step(es, p, i as int);
            assert(es[i as int] == seg_view(entries@[i as int]));
        }
        let hit = match &entries[i].session_id {
            Some(s) => chars_eq(s, session_id),
            None => false,
        };
        if hit {
            mine.push(entries[i].modified_ms);
        }
        i = i + 1;
    }
    assert(es.take(entries.len() as int) =~= es);
    let ghost f = filter_seq(es, p);
    let ghost w = last_n(f, 12);
    let start: usize = if mine.len() > 12 {
        mine.len() - 12
    } else {
        0
    };
    let n = mine.len() - start;
    assert(w.len() == n);
    assert(forall|k: int| 0 <= k < n ==> #[trigger] w[k].modified == mine@[start + k]);
    if n < 2 {
        return None;
    }
    let mut sum: u128 = 0;
    let mut count: u64 = 0;
    let mut j: usize = 1;
    proof {
        lemma_positive_gaps_bound(w, 1);
    }
    while j < n
        invariant
            1 <= j <= n,
            n <= 12,
            start + n == mine.len(),
            w.len() == n,
            forall|k: int| 0 <= k < n ==> #[trigger] w[k].modified == mine@[start + k],
            (sum as int, count as int) == positive_gaps(w, j as int),
            sum as int <= j * 0x1_0000_0000_0000_0000,
            count <= j,
        decreases n - j,
    {
        let a = mine[start + j - 1];
        let b = mine[start + j];
        proof {
            assert(w[j as int].modified == b);
            assert(w[j as int - 1].modified == a);
        }
        if b > a {
            sum = sum + (b - a) as u128;
            count = count + 1;
        }
        j = j + 1;
    }
    if count == 0 {
        return None;
    }
    proof {
        lemma_positive_gaps_bound(w, n as int);
    }
    let s64: u64 = if sum > u64::MAX as u128 {
        u64::MAX
    } else {
        sum as u64
    };
    Some((s64, count))
}

} // verus!
