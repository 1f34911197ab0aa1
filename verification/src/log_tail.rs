//! Short summaries of the capture log: its last non-empty lines, and at
//! startup the lines of the capture helper and of ffmpeg apart.
use vstd::prelude::*;
use crate::seqs::{filter_seq, join, join_strings, last_n, lemma_filter_step};
use crate::text::{
    chars_to_string, contains, contains_str, lines, split_lines, str_chars, texts, trim,
    trim_chars, views,
};

verus! {

pub open spec fn non_empty() -> spec_fn(Seq<char>) -> bool {
    |l: Seq<char>| l.len() > 0
}

pub open spec fn trimmed_lines(s: Seq<char>) -> Seq<Seq<char>> {
    lines(s).map_values(|l: Seq<char>| trim(l))
}

/// The log's lines, trimmed, without the empty ones.
pub open spec fn log_lines_of(s: Seq<char>) -> Seq<Seq<char>> {
    filter_seq(trimmed_lines(s), non_empty())
}

/// The content's lines, trimmed, without the empty ones.
pub fn log_lines(content: &str) -> (r: Vec<String>)
    ensures
        texts(r@) == log_lines_of(content@),
{
    let chars = str_chars(content);
    let ls = split_lines(&chars);
    let ghost tl = trimmed_lines(content@);
    let ghost p = non_empty();
    let mut out: Vec<String> = Vec::new();
    let mut i: usize = 0;
    assert(views(ls@).len() == ls@.len());
    assert(tl.take(0) =~= Seq::<Seq<char>>::empty());
    while i < ls.len()
        invariant
            i <= ls.len(),
            tl == trimmed_lines(content@),
            p == non_empty(),
            views(ls@) == lines(content@),
            tl.len() == ls.len(),
            texts(out@) == filter_seq(tl.take(i as int), p),
        decreases ls.len() - i,
    {
        let t = trim_chars(&ls[i]);
        proof {
            assert(views(ls@)[i as int] == ls@[i as int]@);
            assert(tl[i as int] == t@);
            lemma_filter_step(tl, p, i as int);
        }
        if t.len() > 0 {
            let s = chars_to_string(&t);
            out.push(s);
            assert(texts(out@) =~= filter_seq(tl.take(i as int), p).push(t@));
        }
        i = i + 1;
    }
    assert(tl.take(ls.len() as int) =~= tl);
    out
}

/// `lines` keeps the last `n` of them.
pub fn last_lines(lines_in: &Vec<String>, n: usize) -> (r: Vec<String>)
    ensures
        texts(r@) == last_n(texts(lines_in@), n as nat),
{
    let start = if n >= lines_in.len() {
        0
    } else {
        lines_in.len() - n
    };
    let mut out: Vec<String> = Vec::new();
    let mut i = start;
    while i < lines_in.len()
        invariant
            start <= i <= lines_in.len(),
            texts(out@) == texts(lines_in@).subrange(start as int, i as int),
        decreases lines_in.len() - i,
    {
        let l = lines_in[i].clone();
        assert(l@ == lines_in@[i as int]@);
        let ghost before = out@;
        out.push(l);
        assert(out@ == before.push(l));
        assert(texts(out@) =~= texts(before).push(l@));
        assert(texts(out@) =~= texts(lines_in@).subrange(start as int, i + 1));
        i = i + 1;
    }
    assert(texts(lines_in@).subrange(start as int, lines_in.len() as int) =~= last_n(
        texts(lines_in@),
        n as nat,
    ));
    out
}

/// The last `max_lines` lines joined with ` | `; `none` without lines.
pub open spec fn spec_tail_join(ls: Seq<Seq<char>>, max_lines: nat) -> Seq<char> {
    if ls.len() == 0 {
        "none"@
    } else {
        join(last_n(ls, max_lines), " | "@)
    }
}

pub fn tail_join(lines_in: &Vec<String>, max_lines: usize) -> (r: String)
    ensures
        r@ == spec_tail_join(texts(lines_in@), max_lines as nat),
{
    if lines_in.len() == 0 {
        return "none".to_string();
    }
    join_strings(&last_lines(lines_in, max_lines), " | ")
}

/// The last `max_lines` non-empty lines of the log, joined with ` | `; none
/// when the log has no such line.
pub open spec fn spec_capture_log_tail(content: Seq<char>, max_lines: nat) -> Option<Seq<char>> {
    let ls = log_lines_of(content);
    if ls.len() == 0 {
        None
    } else {
        Some(join(last_n(ls, max_lines), " | "@))
    }
}

pub fn capture_log_tail(content: &str, max_lines: usize) -> (r: Option<String>)
    ensures
        match spec_capture_log_tail(content@, max_lines as nat) {
            Some(t) => r matches Some(s) && s@ == t,
            None => r is None,
        },
{
    let ls = log_lines(content);
    if ls.len() == 0 {
        return None;
    }
    Some(join_strings(&last_lines(&ls, max_lines), " | "))
}

/// A line written by the capture helper.
pub open spec fn is_helper_line(l: Seq<char>) -> bool {
    contains(l, "sck helper args:"@) || contains(l, "ScreenCaptureKit"@) || contains(
        l,
        "stream start requested"@,
    ) || contains(l, "stream started"@) || contains(l, "first video frame delivered"@)
        || contains(l, "first system audio frame delivered"@) || contains(
        l,
        "first microphone audio frame delivered"@,
    )
}

/// A line of the engine's own bookkeeping.
pub open spec fn is_housekeeping_line(l: Seq<char>) -> bool {
    contains(l, "=== backend:"@) || contains(l, "=== audio mode:"@) || contains(
        l,
        "ScreenCaptureKit config:"@,
    ) || contains(l, "phase:"@) || contains(l, "ffmpeg args:"@)
}

pub open spec fn helper_pred() -> spec_fn(Seq<char>) -> bool {
    |l: Seq<char>| is_helper_line(l)
}

pub open spec fn ffmpeg_pred() -> spec_fn(Seq<char>) -> bool {
    |l: Seq<char>| !is_helper_line(l) && !is_housekeeping_line(l)
}

fn helper_line(l: &Vec<char>) -> (r: bool)
    ensures
        r == is_helper_line(l@),
{
    contains_str(l, "sck helper args:") || contains_str(l, "ScreenCaptureKit") || contains_str(
        l,
        "stream start requested",
    ) || contains_str(l, "stream started") || contains_str(l, "first video frame delivered")
        || contains_str(l, "first system audio frame delivered") || contains_str(
        l,
        "first microphone audio frame delivered",
    )
}

fn housekeeping_line(l: &Vec<char>) -> (r: bool)
    ensures
        r == is_housekeeping_line(l@),
{
    contains_str(l, "=== backend:") || contains_str(l, "=== audio mode:") || contains_str(
        l,
        "ScreenCaptureKit config:",
    ) || contains_str(l, "phase:") || contains_str(l, "ffmpeg args:")
}

/// The tails of a startup log: the helper's lines, ffmpeg's lines (neither
/// the helper's nor bookkeeping), and all lines; placeholders for the first
/// two and an empty third when the log has no line.
pub open spec fn spec_startup_log_tails(content: Seq<char>, max_lines: nat) -> (
    Seq<char>,
    Seq<char>,
    Seq<char>,
) {
    let ls = log_lines_of(content);
    if ls.len() == 0 {
        ("no helper log lines"@, "no ffmpeg log lines"@, Seq::empty())
    } else {
        (
            spec_tail_join(filter_seq(ls, helper_pred()), max_lines),
            spec_tail_join(filter_seq(ls, ffmpeg_pred()), max_lines),
            spec_tail_join(ls, max_lines),
        )
    }
}

pub fn capture_startup_log_tails(content: &str, max_lines: usize) -> (r: (String, String, String))
    ensures
        (r.0@, r.1@, r.2@) == spec_startup_log_tails(content@, max_lines as nat),
{
    let ls = log_lines(content);
    if ls.len() == 0 {
        return ("no helper log lines".to_string(), "no ffmpeg log lines".to_string(), String::new());
    }
    let ghost lv = texts(ls@);
    let ghost hp = helper_pred();
    let ghost fp = ffmpeg_pred();
    let mut helper: Vec<String> = Vec::new();
    let mut ffmpeg: Vec<String> = Vec::new();
    let mut i: usize = 0;
    assert(lv.take(0) =~= Seq::<Seq<char>>::empty());
    while i < ls.len()
        invariant
            i <= ls.len(),
            lv == texts(ls@),
            hp == helper_pred(),
            fp == ffmpeg_pred(),
            texts(helper@) == filter_seq(lv.take(i as int), hp),
            texts(ffmpeg@) == filter_seq(lv.take(i as int), fp),
        decreases ls.len() - i,
    {
        let l = str_chars(ls[i].as_str());
        proof {
            lemma_filter_step(lv, hp, i as int);
            lemma_filter_step(lv, fp, i as int);
        }
        let is_helper = helper_line(&l);
        if is_helper {
            helper.push(ls[i].clone());
            assert(texts(helper@) =~= filter_seq(lv.take(i as int), hp).push(lv[i as int]));
        } else if !housekeeping_line(&l) {
            ffmpeg.push(ls[i].clone());
            assert(texts(ffmpeg@) =~= filter_seq(lv.take(i as int), fp).push(lv[i as int]));
        }
        i = i + 1;
    }
    assert(lv.take(ls.len() as int) =~= lv);
    (tail_join(&helper, max_lines), tail_join(&ffmpeg, max_lines), tail_join(&ls, max_lines))
}

/// Where a read of the log's last `window` bytes starts: not before
/// `min_offset`, not past the end.
pub fn tail_window_start(file_len: u64, window: u64, min_offset: u64) -> (r: u64)
    ensures
        r == ({
            let w: int = if file_len >= window {
                file_len - window
            } else {
                0
            };
            let s: int = if w >= min_offset {
                w
            } else {
                min_offset as int
            };
            if s <= file_len {
                s
            } else {
                file_len as int
            }
        }),
{
    let w = if file_len >= window {
        file_len - window
    } else {
        0
    };
    let s = if w >= min_offset {
        w
    } else {
        min_offset
    };
    if s <= file_len {
        s
    } else {
        file_len
    }
}

/// A read that starts inside the log drops the partial first line: all up
/// to and including the first newline (nothing without one).
pub open spec fn spec_drop_partial_first_line(s: Seq<char>) -> Seq<char> {
    match crate::text::find(s, seq!['\n']) {
        Some(i) => s.skip(i + 1),
        None => s,
    }
}

pub fn drop_partial_first_line(content: &str) -> (r: String)
    ensures
        r@ == spec_drop_partial_first_line(content@),
{
    let chars = str_chars(content);
    let nl: Vec<char> = vec!['\n'];
    assert(nl@ =~= seq!['\n']);
    proof {
        crate::text::lemma_find_from_props(chars@, nl@, 0);
    }
    match crate::text::find_exec(&chars, &nl) {
        Some(i) => {
            assert(crate::text::matches_at(chars@, nl@, i as int));
            assert(i < chars.len());
            crate::text::slice_to_string(&chars, i + 1, chars.len())
        },
        None => content.to_string(),
    }
}

} // verus!
