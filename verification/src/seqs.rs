//! Generic sequence combinators used by the line-oriented parsers: scanning
//! lines from the end, filtering, taking the last lines, and joining lines.
use vstd::prelude::*;

verus! {

/// Scans `ls` from its last element towards its first; the first element for
/// which `f` decides (returns `Some(d)`) gives the result `d`; `None` when no
/// element decides.
pub open spec fn scan_back<A, T>(ls: Seq<A>, f: spec_fn(A) -> Option<Option<T>>) -> Option<T>
    decreases ls.len(),
{
    if ls.len() == 0 {
        None
    } else {
        match f(ls.last()) {
            Some(d) => d,
            None => scan_back(ls.drop_last(), f),
        }
    }
}

pub proof fn lemma_scan_back_step<A, T>(ls: Seq<A>, f: spec_fn(A) -> Option<Option<T>>, i: int)
    requires
        0 < i <= ls.len(),
    ensures
        scan_back(ls.take(i), f) == match f(ls[i - 1]) {
            Some(d) => d,
            None => scan_back(ls.take(i - 1), f),
        },
{
    assert(ls.take(i).drop_last() =~= ls.take(i - 1));
    assert(ls.take(i).last() == ls[i - 1]);
}

pub proof fn lemma_scan_back_empty<A, T>(ls: Seq<A>, f: spec_fn(A) -> Option<Option<T>>)
    ensures
        scan_back(ls.take(0), f) is None,
{
    assert(ls.take(0).len() == 0);
}

/// Elements of `s` that satisfy `p`, in order.
pub open spec fn filter_seq<A>(s: Seq<A>, p: spec_fn(A) -> bool) -> Seq<A>
    decreases s.len(),
{
    if s.len() == 0 {
        Seq::empty()
    } else {
        let r = filter_seq(s.drop_last(), p);
        if p(s.last()) {
            r.push(s.last())
        } else {
            r
        }
    }
}

pub proof fn lemma_filter_step<A>(s: Seq<A>, p: spec_fn(A) -> bool, i: int)
    requires
        0 <= i < s.len(),
    ensures
        filter_seq(s.take(i + 1), p) == if p(s[i]) {
            filter_seq(s.take(i), p).push(s[i])
        } else {
            filter_seq(s.take(i), p)
        },
{
    assert(s.take(i + 1).drop_last() =~= s.take(i));
    assert(s.take(i + 1).last() == s[i]);
}

/// The last `n` elements of `s` (all of them when there are fewer).
pub open spec fn last_n<A>(s: Seq<A>, n: nat) -> Seq<A> {
    if n >= s.len() {
        s
    } else {
        s.skip(s.len() - n)
    }
}

/// `parts` joined with `sep` between consecutive parts (`[T]::join`).
pub open spec fn join(parts: Seq<Seq<char>>, sep: Seq<char>) -> Seq<char>
    decreases parts.len(),
{
    if parts.len() == 0 {
        Seq::empty()
    } else if parts.len() == 1 {
        parts[0]
    } else {
        join(parts.drop_last(), sep) + sep + parts.last()
    }
}

pub proof fn lemma_join_step(parts: Seq<Seq<char>>, sep: Seq<char>, i: int)
    requires
        0 <= i < parts.len(),
    ensures
        join(parts.take(i + 1), sep) == if i == 0 {
            parts[0]
        } else {
            join(parts.take(i), sep) + sep + parts[i]
        },
{
    assert(parts.take(i + 1).drop_last() =~= parts.take(i));
    assert(parts.take(i + 1).last() == parts[i]);
    if i == 0 {
        assert(parts.take(1)[0] == parts[0]);
    }
}

} // verus!

verus! {

/// `parts.join(sep)`.
pub fn join_strings(parts: &Vec<String>, sep: &str) -> (r: String)
    ensures
        r@ == join(crate::text::texts(parts@), sep@),
{
    let ghost ps = crate::text::texts(parts@);
    let mut out: Vec<char> = Vec::new();
    let mut i: usize = 0;
    assert(ps.take(0) =~= Seq::<Seq<char>>::empty());
    while i < parts.len()
        invariant
            i <= parts.len(),
            ps == crate::text::texts(parts@),
            out@ == join(ps.take(i as int), sep@),
        decreases parts.len() - i,
    {
        proof {
            lemma_join_step(ps, sep@, i as int);
        }
        if i > 0 {
            crate::text::append_str(&mut out, sep);
        }
        crate::text::append_str(&mut out, parts[i].as_str());
        proof {
            if i == 0 {
                assert(out@ =~= ps[0]);
            }
        }
        i = i + 1;
    }
    assert(ps.take(parts.len() as int) =~= ps);
    crate::text::chars_to_string(&out)
}

} // verus!

verus! {

/// Every element kept by a filter satisfies it.
pub proof fn lemma_filter_all<A>(s: Seq<A>, p: spec_fn(A) -> bool)
    ensures
        forall|k: int| 0 <= k < filter_seq(s, p).len() ==> p(#[trigger] filter_seq(s, p)[k]),
    decreases s.len(),
{
    if s.len() > 0 {
        lemma_filter_all(s.drop_last(), p);
        let prev = filter_seq(s.drop_last(), p);
        if p(s.last()) {
            assert forall|k: int| 0 <= k < prev.push(s.last()).len() implies p(
                #[trigger] prev.push(s.last())[k],
            ) by {
                if k < prev.len() {
                    assert(prev.push(s.last())[k] == prev[k]);
                }
            }
        }
    }
}

} // verus!
