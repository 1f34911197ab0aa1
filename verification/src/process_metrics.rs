//! Memory of the capture stack, read from `ps -o rss=,%cpu=` output: the
//! resident sizes of its processes summed. (The CPU column is fractional
//! and summed by the application shell.)
use vstd::prelude::*;
use crate::text::{first_token, first_token_exec, lines, parse_u64, parse_u64_range, split_lines, str_chars, views};

verus! {

/// The resident size (KiB) that a row of the output names: its first
/// column as an unsigned integer.
pub open spec fn row_rss_kb(row: Seq<char>) -> Option<u64> {
    match first_token(row) {
        Some(t) => parse_u64(t),
        None => None,
    }
}

pub open spec fn sat_add(a: u64, b: u64) -> u64 {
    if a as int + b as int > u64::MAX {
        u64::MAX
    } else {
        (a + b) as u64
    }
}

/// The sizes of the first `n` rows summed (saturating), and whether any
/// row had one.
pub open spec fn rss_total(rows: Seq<Seq<char>>, n: int) -> (u64, bool)
    decreases n,
{
    if n <= 0 {
        (0, false)
    } else {
        let (t, seen) = rss_total(rows, n - 1);
        match row_rss_kb(rows[n - 1]) {
            Some(kb) => (sat_add(t, kb), true),
            None => (t, seen),
        }
    }
}

/// The summed resident size in MiB (at most `u32::MAX`); none when no row
/// names one.
pub open spec fn spec_parse_ps_rss_total_mb(stdout: Seq<char>) -> Option<u32> {
    let rows = lines(stdout);
    let (t, seen) = rss_total(rows, rows.len() as int);
    if seen {
        Some(
            if t / 1024 > u32::MAX {
                u32::MAX
            } else {
                (t / 1024) as u32
            },
        )
    } else {
        None
    }
}

pub fn parse_ps_rss_total_mb(stdout: &str) -> (r: Option<u32>)
    ensures
        r == spec_parse_ps_rss_total_mb(stdout@),
{
    let chars = str_chars(stdout);
    let rows = split_lines(&chars);
    let ghost rv = views(rows@);
    let mut total: u64 = 0;
    let mut seen = false;
    let mut i: usize = 0;
    while i < rows.len()
        invariant
            i <= rows.len(),
            rv == views(rows@),
            rv == lines(stdout@),
            rv.len() == rows.len(),
            (total, seen) == rss_total(rv, i as int),
        decreases rows.len() - i,
    {
        proof {
            assert(rv[i as int] == rows@[i as int]@);
        }
        match first_token_exec(&rows[i]) {
            Some(tok) => {
                match parse_u64_range(&tok, 0, tok.len()) {
                    Some(kb) => {
                        assert(tok@.subrange(0, tok@.len() as int) =~= tok@);
                        total = if total > u64::MAX - kb {
                            u64::MAX
                        } else {
                            total + kb
                        };
                        seen = true;
                    },
                    None => {
                        assert(tok@.subrange(0, tok@.len() as int) =~= tok@);
                    },
                }
            },
            None => {},
        }
        i = i + 1;
    }
    if seen {
        let mb = total / 1024;
        Some(
            if mb > u32::MAX as u64 {
                u32::MAX
            } else {
                mb as u32
            },
        )
    } else {
        None
    }
}

} // verus!
