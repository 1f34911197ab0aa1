//! Capture ownership and capture worker processes: the capture lock file's
//! payload, recognising stale capture workers in a `ps` listing, and picking
//! the ones to sweep.
use vstd::prelude::*;
use std::collections::HashSet;
use crate::text::{
    append_str, chars_to_string, contains, contains_str, decimal, lines, lower, lower_chars,
    nonws_skip, parse_i64, parse_i64_range, parse_u32, parse_u32_range, push_decimal,
    push_signed_decimal, signed_decimal, skip_nonws, skip_ws, split_lines, starts_with, str_chars,
    strip_prefix_chars, sub_chars, trim, trim_chars, trim_start, views, is_ws, is_digit,
    lemma_decimal_digits, lemma_parse_decimal, lemma_parse_signed_decimal, lemma_trim_unchanged,
    lemma_lines_three,
};

verus! {

pub const CAPTURE_LOCK_FILENAME: &'static str = "capture.lock";

pub const CAPTURE_LOCK_SESSION_PENDING: &'static str = "pending";

/// What the capture lock file records about its owner.
#[derive(Debug, Clone)]
pub struct CaptureLockPayload {
    pub owner_pid: Option<u32>,
    pub started_epoch_ms: Option<i64>,
    pub session_id: Option<String>,
}

/// Abstract view of a lock payload.
pub struct LockView {
    pub owner_pid: Option<u32>,
    pub started_epoch_ms: Option<i64>,
    pub session_id: Option<Seq<char>>,
}

impl CaptureLockPayload {
    pub open spec fn view(&self) -> LockView {
        LockView {
            owner_pid: self.owner_pid,
            started_epoch_ms: self.started_epoch_ms,
            session_id: match self.session_id {
                Some(s) => Some(s@),
                None => None,
            },
        }
    }
}

pub open spec fn empty_lock_view() -> LockView {
    LockView { owner_pid: None, started_epoch_ms: None, session_id: None }
}

/// Effect of one line of the lock file: `owner_pid=` and `started_epoch_ms=`
/// set (or clear, when the value does not parse) their field; a non-empty
/// `session_id=` sets the session; other lines change nothing.
pub open spec fn apply_lock_line(p: LockView, line: Seq<char>) -> LockView {
    let t = trim(line);
    if starts_with(t, "owner_pid="@) {
        LockView { owner_pid: parse_u32(trim(t.skip("owner_pid="@.len() as int))), ..p }
    } else if starts_with(t, "started_epoch_ms="@) {
        LockView {
            started_epoch_ms: parse_i64(trim(t.skip("started_epoch_ms="@.len() as int))),
            ..p
        }
    } else if starts_with(t, "session_id="@) {
        let v = trim(t.skip("session_id="@.len() as int));
        if v.len() > 0 {
            LockView { session_id: Some(v), ..p }
        } else {
            p
        }
    } else {
        p
    }
}

pub open spec fn fold_lock_lines(ls: Seq<Seq<char>>) -> LockView
    decreases ls.len(),
{
    if ls.len() == 0 {
        empty_lock_view()
    } else {
        apply_lock_line(fold_lock_lines(ls.drop_last()), ls.last())
    }
}

pub open spec fn spec_parse_capture_lock_payload(content: Seq<char>) -> LockView {
    fold_lock_lines(lines(content))
}

/// Reads the lock payload from the text of the lock file, line by line.
pub fn parse_capture_lock_payload(content: &str) -> (r: CaptureLockPayload)
    ensures
        r.view() == spec_parse_capture_lock_payload(content@),
{
    let ls = split_lines(&str_chars(content));
    let ghost l = lines(content@);
    let mut payload = CaptureLockPayload { owner_pid: None, started_epoch_ms: None, session_id: None };
    let mut i: usize = 0;
    proof {
        assert(l.take(0) =~= Seq::<Seq<char>>::empty());
    }
    while i < ls.len()
        invariant
            i <= ls.len(),
            views(ls@) == l,
            payload.view() == fold_lock_lines(l.take(i as int)),
        decreases ls.len() - i,
    {
        proof {
            assert(ls@[i as int]@ == l[i as int]);
            assert(l.take(i + 1).drop_last() =~= l.take(i as int));
            assert(l.take(i + 1).last() == l[i as int]);
        }
        let t = trim_chars(&ls[i]);
        if let Some(v) = strip_prefix_chars(&t, "owner_pid=") {
            let tv = trim_chars(&v);
            proof {
                assert(tv@.subrange(0, tv@.len() as int) =~= tv@);
            }
            payload.owner_pid = parse_u32_range(&tv, 0, tv.len());
        } else if let Some(v) = strip_prefix_chars(&t, "started_epoch_ms=") {
            let tv = trim_chars(&v);
            proof {
                assert(tv@.subrange(0, tv@.len() as int) =~= tv@);
            }
            payload.started_epoch_ms = parse_i64_range(&tv, 0, tv.len());
        } else if let Some(v) = strip_prefix_chars(&t, "session_id=") {
            let tv = trim_chars(&v);
            if tv.len() > 0 {
                payload.session_id = Some(chars_to_string(&tv));
            }
        }
        i = i + 1;
    }
    proof {
        assert(l.take(ls.len() as int) =~= l);
    }
    payload
}

/// The payload, unless the text records none of its fields.
pub fn lock_payload_from_text(content: &str) -> (r: Option<CaptureLockPayload>)
    ensures
        ({
            let p = spec_parse_capture_lock_payload(content@);
            if p.owner_pid is None && p.started_epoch_ms is None && p.session_id is None {
                r is None
            } else {
                r is Some && r->0.view() == p
            }
        }),
{
    let parsed = parse_capture_lock_payload(content);
    if parsed.owner_pid.is_none() && parsed.started_epoch_ms.is_none()
        && parsed.session_id.is_none() {
        return None;
    }
    Some(parsed)
}

/// The text written into the lock file.
pub open spec fn spec_lock_payload_text(owner_pid: u32, session_id: Seq<char>, started_epoch_ms: i64) -> Seq<
    char,
> {
    "owner_pid="@ + decimal(owner_pid as nat) + "\n"@ + "started_epoch_ms="@ + signed_decimal(
        started_epoch_ms as int,
    ) + "\n"@ + "session_id="@ + session_id + "\n"@
}

/// `owner_pid=..`, `started_epoch_ms=..` and `session_id=..`, one per line.
pub fn format_capture_lock_payload(owner_pid: u32, session_id: &str, started_epoch_ms: i64) -> (r:
    String)
    ensures
        r@ == spec_lock_payload_text(owner_pid, session_id@, started_epoch_ms),
{
    let mut v: Vec<char> = Vec::new();
    append_str(&mut v, "owner_pid=");
    push_decimal(&mut v, owner_pid as u64);
    append_str(&mut v, "\n");
    append_str(&mut v, "started_epoch_ms=");
    push_signed_decimal(&mut v, started_epoch_ms);
    append_str(&mut v, "\n");
    append_str(&mut v, "session_id=");
    append_str(&mut v, session_id);
    append_str(&mut v, "\n");
    assert(v@ =~= spec_lock_payload_text(owner_pid, session_id@, started_epoch_ms));
    chars_to_string(&v)
}

pub open spec fn spec_is_rewinder_capture_process_command(command: Seq<char>) -> bool {
    let lw = lower(command);
    if contains(lw, "rewinder-sck-capture"@) {
        true
    } else if !contains(lw, "ffmpeg"@) {
        false
    } else if contains(lw, ".rewinder-live"@) || contains(lw, "video.pipe"@) || contains(
        lw,
        "system_audio.pipe"@,
    ) || contains(lw, "mic_audio.pipe"@) {
        true
    } else {
        contains(lw, "seg_"@) && contains(lw, ".mp4"@) && contains(lw, "rewinder"@)
    }
}

fn rewinder_command_in_lower(lw: &Vec<char>) -> (r: bool)
    ensures
        forall|c: Seq<char>| lower(c) == lw@ ==> r == spec_is_rewinder_capture_process_command(c),
{
    if contains_str(lw, "rewinder-sck-capture") {
        return true;
    }
    if !contains_str(lw, "ffmpeg") {
        return false;
    }
    if contains_str(lw, ".rewinder-live") || contains_str(lw, "video.pipe") || contains_str(
        lw,
        "system_audio.pipe",
    ) || contains_str(lw, "mic_audio.pipe") {
        return true;
    }
    contains_str(lw, "seg_") && contains_str(lw, ".mp4") && contains_str(lw, "rewinder")
}

/// The command line is the capture helper, or an ffmpeg writing the live
/// segments or reading the capture pipes.
pub fn is_rewinder_capture_process_command(command: &str) -> (r: bool)
    ensures
        r == spec_is_rewinder_capture_process_command(command@),
{
    rewinder_command_in_lower(&lower_chars(&str_chars(command)))
}

/// The pid of one `pid command` line of `ps -axo pid=,command=` when the
/// command is a capture worker: the line without leading whitespace is split
/// at its first whitespace; the pid part must parse, the command part (then
/// trimmed) must be recognised.
pub open spec fn candidate_of_line(line: Seq<char>) -> Option<u32> {
    let t = trim_start(line);
    if t.len() == 0 {
        None
    } else {
        let e = nonws_skip(t, 0);
        if e >= t.len() {
            None
        } else {
            let pid_part = t.take(e);
            let command_part = t.skip(e + 1);
            match parse_u32(trim(pid_part)) {
                None => None,
                Some(pid) => if spec_is_rewinder_capture_process_command(trim(command_part)) {
                    Some(pid)
                } else {
                    None
                },
            }
        }
    }
}

pub open spec fn collect_candidates(ls: Seq<Seq<char>>) -> Seq<u32>
    decreases ls.len(),
{
    if ls.len() == 0 {
        Seq::empty()
    } else {
        match candidate_of_line(ls.last()) {
            Some(pid) => collect_candidates(ls.drop_last()).push(pid),
            None => collect_candidates(ls.drop_last()),
        }
    }
}

pub open spec fn spec_parse_capture_process_candidates(ps_output: Seq<char>) -> Seq<u32> {
    collect_candidates(lines(ps_output))
}

fn candidate_of_line_exec(line: &Vec<char>) -> (r: Option<u32>)
    ensures
        r == candidate_of_line(line@),
{
    let a = skip_ws(line, 0);
    let t = sub_chars(line, a, line.len());
    proof {
        assert(t@ =~= trim_start(line@));
    }
    if t.len() == 0 {
        return None;
    }
    let e = skip_nonws(&t, 0);
    if e >= t.len() {
        return None;
    }
    let pid_part = sub_chars(&t, 0, e);
    let command_part = sub_chars(&t, e + 1, t.len());
    proof {
        assert(pid_part@ =~= t@.take(e as int));
        assert(command_part@ =~= t@.skip(e + 1));
    }
    let pid_trim = trim_chars(&pid_part);
    proof {
        assert(pid_trim@.subrange(0, pid_trim@.len() as int) =~= pid_trim@);
    }
    let pid = match parse_u32_range(&pid_trim, 0, pid_trim.len()) {
        None => {
            return None;
        },
        Some(p) => p,
    };
    let cmd = trim_chars(&command_part);
    if rewinder_command_in_lower(&lower_chars(&cmd)) {
        Some(pid)
    } else {
        None
    }
}

/// Pids of the capture workers in a `ps -axo pid=,command=` listing, in
/// listing order.
pub fn parse_capture_process_candidates(ps_output: &str) -> (r: Vec<u32>)
    ensures
        r@ == spec_parse_capture_process_candidates(ps_output@),
{
    let ls = split_lines(&str_chars(ps_output));
    let ghost l = lines(ps_output@);
    let mut out: Vec<u32> = Vec::new();
    let mut i: usize = 0;
    proof {
        assert(l.take(0) =~= Seq::<Seq<char>>::empty());
        assert(out@ =~= Seq::<u32>::empty());
    }
    while i < ls.len()
        invariant
            i <= ls.len(),
            views(ls@) == l,
            out@ == collect_candidates(l.take(i as int)),
        decreases ls.len() - i,
    {
        proof {
            assert(ls@[i as int]@ == l[i as int]);
            assert(l.take(i + 1).drop_last() =~= l.take(i as int));
            assert(l.take(i + 1).last() == l[i as int]);
        }
        if let Some(pid) = candidate_of_line_exec(&ls[i]) {
            out.push(pid);
        }
        i = i + 1;
    }
    proof {
        assert(l.take(ls.len() as int) =~= l);
    }
    out
}

/// Candidates in listing order, without `self_pid`, without the excluded
/// pids, and each pid once (its first occurrence).
pub open spec fn sweep_selection(cands: Seq<u32>, self_pid: u32, excluded: Set<u32>) -> Seq<u32>
    decreases cands.len(),
{
    if cands.len() == 0 {
        Seq::empty()
    } else {
        let prev = sweep_selection(cands.drop_last(), self_pid, excluded);
        let pid = cands.last();
        if pid == self_pid || excluded.contains(pid) || cands.drop_last().contains(pid) {
            prev
        } else {
            prev.push(pid)
        }
    }
}

/// The capture workers to terminate: every candidate of the listing except
/// this process and the excluded pids, each once, in listing order.
pub fn select_capture_process_sweep_candidates(
    ps_output: &str,
    self_pid: u32,
    exclude_pids: &HashSet<u32>,
) -> (r: Vec<u32>)
    ensures
        r@ == sweep_selection(spec_parse_capture_process_candidates(ps_output@), self_pid, exclude_pids@),
{
    broadcast use vstd::std_specs::hash::group_hash_axioms;

    let cands = parse_capture_process_candidates(ps_output);
    let mut selected: Vec<u32> = Vec::new();
    let mut seen: HashSet<u32> = HashSet::new();
    let mut i: usize = 0;
    proof {
        assert(cands@.take(0) =~= Seq::<u32>::empty());
        assert(selected@ =~= Seq::<u32>::empty());
        assert(seen@ =~= Set::<u32>::empty());
    }
    while i < cands.len()
        invariant
            i <= cands.len(),
            selected@ == sweep_selection(cands@.take(i as int), self_pid, exclude_pids@),
            forall|p: u32| seen@.contains(p) <==> cands@.take(i as int).contains(p),
        decreases cands.len() - i,
    {
        let pid = cands[i];
        let ghost prefix = cands@.take(i as int);
        proof {
            assert(cands@.take(i + 1).drop_last() =~= prefix);
            assert(cands@.take(i + 1).last() == pid);
        }
        let already = seen.contains(&pid);
        seen.insert(pid);
        if !(pid == self_pid || exclude_pids.contains(&pid) || already) {
            selected.push(pid);
        }
        proof {
            assert forall|p: u32| seen@.contains(p) <==> cands@.take(i + 1).contains(p) by {
                if cands@.take(i + 1).contains(p) {
                    let k = choose|k: int| 0 <= k < i + 1 && #[trigger] cands@.take(i + 1)[k] == p;
                    if k < i {
                        assert(prefix[k] == p);
                    }
                }
                if prefix.contains(p) {
                    let k = choose|k: int| 0 <= k < i && #[trigger] prefix[k] == p;
                    assert(cands@.take(i + 1)[k] == p);
                }
                if p == pid {
                    assert(cands@.take(i + 1)[i as int] == p);
                }
            }
        }
        i = i + 1;
    }
    proof {
        assert(cands@.take(cands.len() as int) =~= cands@);
    }
    selected
}

pub proof fn lemma_sweep_selection_props(cands: Seq<u32>, self_pid: u32, excluded: Set<u32>)
    ensures
        forall|k: int|
            0 <= k < sweep_selection(cands, self_pid, excluded).len() ==> {
                let p = #[trigger] sweep_selection(cands, self_pid, excluded)[k];
                &&& p != self_pid
                &&& !excluded.contains(p)
                &&& cands.contains(p)
            },
        forall|j: int, k: int|
            0 <= j < k < sweep_selection(cands, self_pid, excluded).len() ==> sweep_selection(
                cands,
                self_pid,
                excluded,
            )[j] != sweep_selection(cands, self_pid, excluded)[k],
    decreases cands.len(),
{
    if cands.len() > 0 {
        let d = cands.drop_last();
        lemma_sweep_selection_props(d, self_pid, excluded);
        let prev = sweep_selection(d, self_pid, excluded);
        let pid = cands.last();
        assert forall|k: int| 0 <= k < prev.len() implies cands.contains(#[trigger] prev[k]) by {
            let q = prev[k];
            assert(d.contains(q));
            let t = choose|t: int| 0 <= t < d.len() && #[trigger] d[t] == q;
            assert(cands[t] == q);
        }
        if !(pid == self_pid || excluded.contains(pid) || d.contains(pid)) {
            let cur = prev.push(pid);
            assert(cands[cands.len() - 1] == pid);
            assert forall|k: int| 0 <= k < prev.len() implies prev[k] != pid by {
                assert(d.contains(prev[k]));
            }
            assert forall|j: int, k: int| 0 <= j < k < cur.len() implies cur[j] != cur[k] by {
                if k == cur.len() - 1 {
                    assert(cur[j] == prev[j]);
                }
            }
        }
    }
}

/// The sweep never targets this process or an excluded pid, targets only
/// listed capture workers, and targets each of them at most once.
pub proof fn sweep_targets_only_foreign_workers_once(ps_output: Seq<char>, self_pid: u32, excluded: Set<u32>)
    ensures
        ({
            let cands = spec_parse_capture_process_candidates(ps_output);
            let sel = sweep_selection(cands, self_pid, excluded);
            &&& forall|k: int|
                0 <= k < sel.len() ==> #[trigger] sel[k] != self_pid && !excluded.contains(sel[k])
                    && cands.contains(sel[k])
            &&& forall|j: int, k: int| 0 <= j < k < sel.len() ==> sel[j] != sel[k]
        }),
{
    lemma_sweep_selection_props(spec_parse_capture_process_candidates(ps_output), self_pid, excluded);
}

/// The first non-empty line of `ps -o ppid=` output, parsed as a pid.
pub open spec fn spec_parse_single_pid(output: Seq<char>) -> Option<u32> {
    let ls = lines(output);
    if exists|i: int| 0 <= i < ls.len() && trim(#[trigger] ls[i]).len() > 0 {
        let i = choose|i: int|
            0 <= i < ls.len() && trim(#[trigger] ls[i]).len() > 0 && forall|j: int|
                0 <= j < i ==> trim(#[trigger] ls[j]).len() == 0;
        parse_u32(trim(ls[i]))
    } else {
        None
    }
}

pub fn parse_single_pid(output: &str) -> (r: Option<u32>)
    ensures
        r == spec_parse_single_pid(output@),
{
    let ls = split_lines(&str_chars(output));
    let ghost l = lines(output@);
    let mut i: usize = 0;
    while i < ls.len()
        invariant
            i <= ls.len(),
            views(ls@) == l,
            l == lines(output@),
            forall|j: int| 0 <= j < i ==> trim(#[trigger] l[j]).len() == 0,
        decreases ls.len() - i,
    {
        proof {
            assert(ls@[i as int]@ == l[i as int]);
        }
        let t = trim_chars(&ls[i]);
        if t.len() > 0 {
            proof {
                let w = choose|w: int|
                    0 <= w < l.len() && trim(#[trigger] l[w]).len() > 0 && forall|j: int|
                        0 <= j < w ==> trim(#[trigger] l[j]).len() == 0;
                assert(0 <= i < l.len() && trim(l[i as int]).len() > 0 && forall|j: int|
                    0 <= j < i ==> trim(#[trigger] l[j]).len() == 0);
                if w < i {
                    assert(trim(l[w]).len() == 0);
                } else if w > i {
                    assert(trim(l[i as int]).len() == 0);
                }
                assert(t@.subrange(0, t@.len() as int) =~= t@);
            }
            return parse_u32_range(&t, 0, t.len());
        }
        i = i + 1;
    }
    None
}

} // verus!

verus! {

/// A session id that survives a round trip through the lock file: non-empty,
/// without surrounding whitespace and on one line.
pub open spec fn is_lock_session_text(session: Seq<char>) -> bool {
    &&& session.len() > 0
    &&& !is_ws(session[0])
    &&& !is_ws(session.last())
    &&& forall|k: int| 0 <= k < session.len() ==> session[k] != '\n'
}

proof fn lemma_lock_line_owner(p: LockView, owner_pid: u32)
    ensures
        apply_lock_line(p, "owner_pid="@ + decimal(owner_pid as nat)) == (LockView {
            owner_pid: Some(owner_pid),
            ..p
        }),
{
    reveal_strlit("owner_pid=");
    let d = decimal(owner_pid as nat);
    let l = "owner_pid="@ + d;
    lemma_decimal_digits(owner_pid as nat);
    lemma_parse_decimal(owner_pid as nat);
    assert(l.last() == d.last());
    assert(is_digit(d.last()));
    assert(d[0] == l[10]);
    lemma_trim_unchanged(l);
    lemma_trim_unchanged(d);
    assert(l.skip(10) =~= d);
    assert(starts_with(l, "owner_pid="@));
}

proof fn lemma_lock_line_started(p: LockView, started_epoch_ms: i64)
    ensures
        apply_lock_line(p, "started_epoch_ms="@ + signed_decimal(started_epoch_ms as int)) == (
        LockView { started_epoch_ms: Some(started_epoch_ms), ..p }),
{
    reveal_strlit("owner_pid=");
    reveal_strlit("started_epoch_ms=");
    let d = signed_decimal(started_epoch_ms as int);
    let l = "started_epoch_ms="@ + d;
    if started_epoch_ms < 0 {
        let m = (-(started_epoch_ms as int)) as nat;
        lemma_decimal_digits(m);
        assert(d =~= seq!['-'] + decimal(m));
        assert(d.last() == decimal(m).last());
        assert(is_digit(decimal(m).last()));
    } else {
        lemma_decimal_digits(started_epoch_ms as nat);
        assert(is_digit(d[0]));
        assert(is_digit(d.last()));
    }
    lemma_parse_signed_decimal(started_epoch_ms);
    assert(l.last() == d.last());
    assert(d[0] == l[17]);
    lemma_trim_unchanged(l);
    lemma_trim_unchanged(d);
    assert(l.skip(17) =~= d);
    assert(!starts_with(l, "owner_pid="@)) by {
        assert(l[1] != "owner_pid="@[1]);
    }
    assert(starts_with(l, "started_epoch_ms="@));
}

proof fn lemma_lock_line_session(p: LockView, session_id: Seq<char>)
    requires
        is_lock_session_text(session_id),
    ensures
        apply_lock_line(p, "session_id="@ + session_id) == (LockView {
            session_id: Some(session_id),
            ..p
        }),
{
    reveal_strlit("owner_pid=");
    reveal_strlit("started_epoch_ms=");
    reveal_strlit("session_id=");
    let l = "session_id="@ + session_id;
    assert(l.last() == session_id.last());
    lemma_trim_unchanged(l);
    lemma_trim_unchanged(session_id);
    assert(l.skip(11) =~= session_id);
    assert(!starts_with(l, "owner_pid="@)) by {
        assert(l[1] != "owner_pid="@[1]);
    }
    assert(!starts_with(l, "started_epoch_ms="@)) by {
        assert(l[1] != "started_epoch_ms="@[1]);
    }
    assert(starts_with(l, "session_id="@));
}

proof fn lemma_lock_text_lines(owner_pid: u32, session_id: Seq<char>, started_epoch_ms: i64)
    requires
        is_lock_session_text(session_id),
    ensures
        lines(spec_lock_payload_text(owner_pid, session_id, started_epoch_ms)) == seq![
            "owner_pid="@ + decimal(owner_pid as nat),
            "started_epoch_ms="@ + signed_decimal(started_epoch_ms as int),
            "session_id="@ + session_id,
        ],
{
    reveal_strlit("owner_pid=");
    reveal_strlit("started_epoch_ms=");
    reveal_strlit("session_id=");
    reveal_strlit("\n");
    let d1 = decimal(owner_pid as nat);
    let d2 = signed_decimal(started_epoch_ms as int);
    let l1 = "owner_pid="@ + d1;
    let l2 = "started_epoch_ms="@ + d2;
    let l3 = "session_id="@ + session_id;
    lemma_decimal_digits(owner_pid as nat);
    if started_epoch_ms < 0 {
        let m = (-(started_epoch_ms as int)) as nat;
        lemma_decimal_digits(m);
        assert(d2 =~= seq!['-'] + decimal(m));
        assert forall|k: int| 0 <= k < d2.len() implies d2[k] != '\n' by {
            if k > 0 {
                assert(d2[k] == decimal(m)[k - 1]);
                assert(is_digit(decimal(m)[k - 1]));
            }
        }
        assert(d2.last() == decimal(m).last());
        assert(is_digit(decimal(m).last()));
    } else {
        lemma_decimal_digits(started_epoch_ms as nat);
        assert forall|k: int| 0 <= k < d2.len() implies d2[k] != '\n' by {
            assert(is_digit(d2[k]));
        }
        assert(is_digit(d2.last()));
    }
    assert forall|k: int| 0 <= k < l1.len() implies l1[k] != '\n' by {
        if k >= 10 {
            assert(l1[k] == d1[k - 10]);
            assert(is_digit(d1[k - 10]));
        }
    }
    assert forall|k: int| 0 <= k < l2.len() implies l2[k] != '\n' by {
        if k >= 17 {
            assert(l2[k] == d2[k - 17]);
        }
    }
    assert forall|k: int| 0 <= k < l3.len() implies l3[k] != '\n' by {
        if k >= 11 {
            assert(l3[k] == session_id[k - 11]);
        }
    }
    assert(spec_lock_payload_text(owner_pid, session_id, started_epoch_ms) =~= l1 + seq!['\n']
        + l2 + seq!['\n'] + l3 + seq!['\n']);
    lemma_lines_three(l1, l2, l3);
    assert(l1.last() == d1.last());
    assert(is_digit(d1.last()));
    assert(l2.last() == d2.last());
    assert(l3.last() == session_id.last());
}

/// Reading back what the lock file was written with gives the owner pid,
/// the start time and the session id that were written.
pub proof fn lock_payload_round_trip(owner_pid: u32, session_id: Seq<char>, started_epoch_ms: i64)
    requires
        is_lock_session_text(session_id),
    ensures
        spec_parse_capture_lock_payload(
            spec_lock_payload_text(owner_pid, session_id, started_epoch_ms),
        ) == (LockView {
            owner_pid: Some(owner_pid),
            started_epoch_ms: Some(started_epoch_ms),
            session_id: Some(session_id),
        }),
{
    let l1 = "owner_pid="@ + decimal(owner_pid as nat);
    let l2 = "started_epoch_ms="@ + signed_decimal(started_epoch_ms as int);
    let l3 = "session_id="@ + session_id;
    let ls = seq![l1, l2, l3];
    lemma_lock_text_lines(owner_pid, session_id, started_epoch_ms);
    assert(ls.drop_last().drop_last().drop_last() =~= Seq::<Seq<char>>::empty());
    assert(ls.drop_last().drop_last() =~= seq![l1]);
    assert(ls.drop_last() =~= seq![l1, l2]);
    let p0 = empty_lock_view();
    lemma_lock_line_owner(p0, owner_pid);
    let p1 = LockView { owner_pid: Some(owner_pid), ..p0 };
    lemma_lock_line_started(p1, started_epoch_ms);
    let p2 = LockView { started_epoch_ms: Some(started_epoch_ms), ..p1 };
    lemma_lock_line_session(p2, session_id);
    assert(fold_lock_lines(seq![l1]) == p1) by {
        assert(seq![l1].drop_last() =~= Seq::<Seq<char>>::empty());
        assert(fold_lock_lines(Seq::<Seq<char>>::empty()) == p0);
        assert(seq![l1].last() == l1);
    }
    assert(fold_lock_lines(seq![l1, l2]) == p2) by {
        assert(seq![l1, l2].drop_last() =~= seq![l1]);
        assert(seq![l1, l2].last() == l2);
    }
    assert(fold_lock_lines(ls) == apply_lock_line(p2, l3));
}

} // verus!
