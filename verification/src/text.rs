//! Character-sequence primitives used by the log, process-listing and
//! device-listing parsers: substring search, trimming, line splitting,
//! ASCII lower-casing, decimal parsing and decimal formatting.
//!
//! Every executable helper works on a `Vec<char>` copy of the text and is
//! specified over `Seq<char>`, so that parsers built on top of them can state
//! their results in terms of the characters of their input.
use vstd::prelude::*;

verus! {

// ---------------------------------------------------------------------------
// Conversions between `str`/`String` and character vectors
// ---------------------------------------------------------------------------

/// Copies the characters of a string slice into a vector.
pub fn str_chars(s: &str) -> (v: Vec<char>)
    ensures
        v@ == s@,
{
    let mut v: Vec<char> = Vec::new();
    for c in it: s.chars()
        invariant
            v@ == it.seq().take(it.index() as int),
            it.seq() == s@,
    {
        v.push(c);
    }
    v
}

/// Appends one character to a `String` (`String::push`).
#[verifier::external_body]
fn string_push(s: &mut String, c: char)
    ensures
        final(s)@ == old(s)@.push(c),
{
    s.push(c);
}

/// Builds a `String` holding exactly the characters of `v`.
pub fn chars_to_string(v: &Vec<char>) -> (s: String)
    ensures
        s@ == v@,
{
    let mut s = String::new();
    let mut i: usize = 0;
    while i < v.len()
        invariant
            i <= v.len(),
            s@ == v@.take(i as int),
        decreases v.len() - i,
    {
        string_push(&mut s, v[i]);
        i = i + 1;
        assert(v@.take(i as int) =~= v@.take((i - 1) as int).push(v@[i - 1]));
    }
    assert(v@.take(v.len() as int) =~= v@);
    s
}

/// Builds a `String` from the characters `v[start..end]`.
pub fn slice_to_string(v: &Vec<char>, start: usize, end: usize) -> (s: String)
    requires
        start <= end <= v.len(),
    ensures
        s@ == v@.subrange(start as int, end as int),
{
    let mut s = String::new();
    let mut i: usize = start;
    while i < end
        invariant
            start <= i <= end <= v.len(),
            s@ == v@.subrange(start as int, i as int),
        decreases end - i,
    {
        string_push(&mut s, v[i]);
        i = i + 1;
        assert(v@.subrange(start as int, i as int) =~= v@.subrange(start as int, (i - 1) as int).push(v@[i - 1]));
    }
    s
}

/// Copies `v[start..end]` into a new vector.
pub fn sub_chars(v: &Vec<char>, start: usize, end: usize) -> (r: Vec<char>)
    requires
        start <= end <= v.len(),
    ensures
        r@ == v@.subrange(start as int, end as int),
{
    let mut r: Vec<char> = Vec::new();
    let mut i: usize = start;
    while i < end
        invariant
            start <= i <= end <= v.len(),
            r@ == v@.subrange(start as int, i as int),
        decreases end - i,
    {
        r.push(v[i]);
        i = i + 1;
        assert(v@.subrange(start as int, i as int) =~= v@.subrange(start as int, (i - 1) as int).push(v@[i - 1]));
    }
    r
}

/// Appends the characters of `src` to `dst`.
pub fn append_chars(dst: &mut Vec<char>, src: &Vec<char>)
    ensures
        final(dst)@ == old(dst)@ + src@,
{
    let mut i: usize = 0;
    while i < src.len()
        invariant
            i <= src.len(),
            dst@ == old(dst)@ + src@.take(i as int),
        decreases src.len() - i,
    {
        dst.push(src[i]);
        i = i + 1;
        assert(src@.take(i as int) =~= src@.take((i - 1) as int).push(src@[i - 1]));
    }
    assert(src@.take(src.len() as int) =~= src@);
}

/// Appends the characters of a string slice to `dst`.
pub fn append_str(dst: &mut Vec<char>, s: &str)
    ensures
        final(dst)@ == old(dst)@ + s@,
{
    let c = str_chars(s);
    append_chars(dst, &c);
}

// ---------------------------------------------------------------------------
// Whitespace and trimming
// ---------------------------------------------------------------------------

/// The characters that `char::is_whitespace` accepts (Unicode `White_Space`).
pub open spec fn is_ws(c: char) -> bool {
    let u = c as u32;
    ||| 9 <= u <= 13
    ||| u == 32
    ||| u == 0x85
    ||| u == 0xA0
    ||| u == 0x1680
    ||| 0x2000 <= u <= 0x200A
    ||| u == 0x2028
    ||| u == 0x2029
    ||| u == 0x202F
    ||| u == 0x205F
    ||| u == 0x3000
}

pub fn is_ws_exec(c: char) -> (r: bool)
    ensures
        r == is_ws(c),
{
    let u = c as u32;
    (9 <= u && u <= 13) || u == 32 || u == 0x85 || u == 0xA0 || u == 0x1680 || (0x2000 <= u
        && u <= 0x200A) || u == 0x2028 || u == 0x2029 || u == 0x202F || u == 0x205F || u == 0x3000
}

/// First index at or after `i` that does not hold whitespace (or the length).
pub open spec fn ws_skip(s: Seq<char>, i: int) -> int
    decreases s.len() - i,
{
    if 0 <= i < s.len() && is_ws(s[i]) {
        ws_skip(s, i + 1)
    } else {
        i
    }
}

/// Smallest `k <= j` such that `s[k..j]` is all whitespace, scanning backwards.
pub open spec fn ws_skip_back(s: Seq<char>, lo: int, j: int) -> int
    decreases j - lo,
{
    if lo < j && j <= s.len() && is_ws(s[j - 1]) {
        ws_skip_back(s, lo, j - 1)
    } else {
        j
    }
}

/// First index at or after `i` that holds whitespace (or the length).
pub open spec fn nonws_skip(s: Seq<char>, i: int) -> int
    decreases s.len() - i,
{
    if 0 <= i < s.len() && !is_ws(s[i]) {
        nonws_skip(s, i + 1)
    } else {
        i
    }
}

/// `str::trim_start`.
pub open spec fn trim_start(s: Seq<char>) -> Seq<char> {
    s.skip(ws_skip(s, 0))
}

/// `str::trim`.
pub open spec fn trim(s: Seq<char>) -> Seq<char> {
    let a = ws_skip(s, 0);
    s.subrange(a, ws_skip_back(s, a, s.len() as int))
}

pub proof fn lemma_ws_skip_bounds(s: Seq<char>, i: int)
    requires
        0 <= i <= s.len(),
    ensures
        i <= ws_skip(s, i) <= s.len(),
        forall|k: int| i <= k < ws_skip(s, i) ==> is_ws(#[trigger] s[k]),
        ws_skip(s, i) < s.len() ==> !is_ws(s[ws_skip(s, i)]),
    decreases s.len() - i,
{
    if i < s.len() && is_ws(s[i]) {
        lemma_ws_skip_bounds(s, i + 1);
    }
}

pub proof fn lemma_nonws_skip_bounds(s: Seq<char>, i: int)
    requires
        0 <= i <= s.len(),
    ensures
        i <= nonws_skip(s, i) <= s.len(),
        forall|k: int| i <= k < nonws_skip(s, i) ==> !is_ws(#[trigger] s[k]),
        nonws_skip(s, i) < s.len() ==> is_ws(s[nonws_skip(s, i)]),
    decreases s.len() - i,
{
    if i < s.len() && !is_ws(s[i]) {
        lemma_nonws_skip_bounds(s, i + 1);
    }
}

pub proof fn lemma_ws_skip_back_bounds(s: Seq<char>, lo: int, j: int)
    requires
        0 <= lo <= j <= s.len(),
    ensures
        lo <= ws_skip_back(s, lo, j) <= j,
        forall|k: int| ws_skip_back(s, lo, j) <= k < j ==> is_ws(#[trigger] s[k]),
        ws_skip_back(s, lo, j) > lo ==> !is_ws(s[ws_skip_back(s, lo, j) - 1]),
    decreases j - lo,
{
    if lo < j && is_ws(s[j - 1]) {
        lemma_ws_skip_back_bounds(s, lo, j - 1);
    }
}

/// Index of the first non-whitespace character at or after `i`.
pub fn skip_ws(s: &Vec<char>, i: usize) -> (r: usize)
    requires
        i <= s.len(),
    ensures
        r as int == ws_skip(s@, i as int),
        i <= r <= s.len(),
{
    proof {
        lemma_ws_skip_bounds(s@, i as int);
    }
    let mut k = i;
    while k < s.len() && is_ws_exec(s[k])
        invariant
            i <= k <= s.len(),
            ws_skip(s@, k as int) == ws_skip(s@, i as int),
        decreases s.len() - k,
    {
        k = k + 1;
    }
    k
}

/// Index of the first whitespace character at or after `i`.
pub fn skip_nonws(s: &Vec<char>, i: usize) -> (r: usize)
    requires
        i <= s.len(),
    ensures
        r as int == nonws_skip(s@, i as int),
        i <= r <= s.len(),
{
    proof {
        lemma_nonws_skip_bounds(s@, i as int);
    }
    let mut k = i;
    while k < s.len() && !is_ws_exec(s[k])
        invariant
            i <= k <= s.len(),
            nonws_skip(s@, k as int) == nonws_skip(s@, i as int),
        decreases s.len() - k,
    {
        k = k + 1;
    }
    k
}

/// Scans backwards from `j` over whitespace, not going below `lo`.
pub fn skip_ws_back(s: &Vec<char>, lo: usize, j: usize) -> (r: usize)
    requires
        lo <= j <= s.len(),
    ensures
        r as int == ws_skip_back(s@, lo as int, j as int),
        lo <= r <= j,
{
    proof {
        lemma_ws_skip_back_bounds(s@, lo as int, j as int);
    }
    let mut k = j;
    while lo < k && is_ws_exec(s[k - 1])
        invariant
            lo <= k <= j <= s.len(),
            ws_skip_back(s@, lo as int, k as int) == ws_skip_back(s@, lo as int, j as int),
        decreases k - lo,
    {
        k = k - 1;
    }
    k
}

/// Bounds `(a, b)` such that `s[a..b]` is `trim(s)`.
pub fn trim_bounds(s: &Vec<char>) -> (r: (usize, usize))
    ensures
        r.0 <= r.1 <= s.len(),
        s@.subrange(r.0 as int, r.1 as int) == trim(s@),
        r.0 as int == ws_skip(s@, 0),
{
    let a = skip_ws(s, 0);
    let b = skip_ws_back(s, a, s.len());
    (a, b)
}

/// `str::trim` on a character vector.
pub fn trim_chars(s: &Vec<char>) -> (r: Vec<char>)
    ensures
        r@ == trim(s@),
{
    let (a, b) = trim_bounds(s);
    sub_chars(s, a, b)
}

// ---------------------------------------------------------------------------
// Substring search
// ---------------------------------------------------------------------------

/// `pat` occurs in `s` starting at index `i`.
pub open spec fn matches_at(s: Seq<char>, pat: Seq<char>, i: int) -> bool {
    &&& 0 <= i
    &&& i + pat.len() <= s.len()
    &&& forall|k: int| 0 <= k < pat.len() ==> s[i + k] == pat[k]
}

/// First occurrence of `pat` in `s` at an index `>= i`.
pub open spec fn find_from(s: Seq<char>, pat: Seq<char>, i: int) -> Option<int>
    decreases s.len() - i,
{
    if i < 0 || i + pat.len() > s.len() {
        None
    } else if matches_at(s, pat, i) {
        Some(i)
    } else {
        find_from(s, pat, i + 1)
    }
}

/// `str::find`: index of the first occurrence of `pat` in `s`.
pub open spec fn find(s: Seq<char>, pat: Seq<char>) -> Option<int> {
    find_from(s, pat, 0)
}

/// `str::contains`.
pub open spec fn contains(s: Seq<char>, pat: Seq<char>) -> bool {
    find(s, pat) is Some
}

/// Last occurrence of `pat` in `s` starting at an index `< n`.
pub open spec fn rfind_below(s: Seq<char>, pat: Seq<char>, n: int) -> Option<int>
    decreases n,
{
    if n <= 0 {
        None
    } else if matches_at(s, pat, n - 1) {
        Some(n - 1)
    } else {
        rfind_below(s, pat, n - 1)
    }
}

/// `str::rfind`: index of the last occurrence of `pat` in `s`.
pub open spec fn rfind(s: Seq<char>, pat: Seq<char>) -> Option<int> {
    rfind_below(s, pat, s.len() - pat.len() + 1)
}

/// `str::starts_with`.
pub open spec fn starts_with(s: Seq<char>, pat: Seq<char>) -> bool {
    matches_at(s, pat, 0)
}

/// `str::ends_with`.
pub open spec fn ends_with(s: Seq<char>, pat: Seq<char>) -> bool {
    matches_at(s, pat, s.len() - pat.len())
}

pub proof fn lemma_find_from_props(s: Seq<char>, pat: Seq<char>, i: int)
    requires
        0 <= i,
    ensures
        find_from(s, pat, i) matches Some(j) ==> i <= j && matches_at(s, pat, j),
        find_from(s, pat, i) matches Some(j) ==> forall|k: int|
            i <= k < j ==> !matches_at(s, pat, k),
        find_from(s, pat, i) is None ==> forall|k: int| i <= k ==> !matches_at(s, pat, k),
    decreases s.len() - i,
{
    if i + pat.len() > s.len() {
    } else if matches_at(s, pat, i) {
    } else {
        lemma_find_from_props(s, pat, i + 1);
    }
}

/// Whether `pat` occurs in `s` at index `i`.
pub fn matches_at_exec(s: &Vec<char>, pat: &Vec<char>, i: usize) -> (r: bool)
    ensures
        r == matches_at(s@, pat@, i as int),
{
    if i > s.len() || pat.len() > s.len() - i {
        return false;
    }
    let mut k: usize = 0;
    while k < pat.len()
        invariant
            k <= pat.len(),
            i + pat.len() <= s.len(),
            forall|t: int| 0 <= t < k ==> s@[i + t] == pat@[t],
        decreases pat.len() - k,
    {
        if s[i + k] != pat[k] {
            return false;
        }
        k = k + 1;
    }
    true
}

/// `str::find` starting the search at index `from`.
pub fn find_from_exec(s: &Vec<char>, pat: &Vec<char>, from: usize) -> (r: Option<usize>)
    ensures
        r matches Some(j) ==> find_from(s@, pat@, from as int) == Some(j as int),
        r is None ==> find_from(s@, pat@, from as int) is None,
{
    let mut i = from;
    loop
        invariant
            from <= i,
            find_from(s@, pat@, i as int) == find_from(s@, pat@, from as int),
        decreases s.len() + 1 - i,
    {
        if i > s.len() || pat.len() > s.len() - i {
            return None;
        }
        if matches_at_exec(s, pat, i) {
            return Some(i);
        }
        i = i + 1;
    }
}

/// `str::find`.
pub fn find_exec(s: &Vec<char>, pat: &Vec<char>) -> (r: Option<usize>)
    ensures
        r matches Some(j) ==> find(s@, pat@) == Some(j as int),
        r is None ==> find(s@, pat@) is None,
{
    find_from_exec(s, pat, 0)
}

/// `str::contains`.
pub fn contains_exec(s: &Vec<char>, pat: &Vec<char>) -> (r: bool)
    ensures
        r == contains(s@, pat@),
{
    find_exec(s, pat).is_some()
}

/// `str::contains` with a string-slice pattern.
pub fn contains_str(s: &Vec<char>, pat: &str) -> (r: bool)
    ensures
        r == contains(s@, pat@),
{
    let p = str_chars(pat);
    contains_exec(s, &p)
}

/// `str::rfind`.
pub fn rfind_exec(s: &Vec<char>, pat: &Vec<char>) -> (r: Option<usize>)
    ensures
        r matches Some(j) ==> rfind(s@, pat@) == Some(j as int),
        r is None ==> rfind(s@, pat@) is None,
{
    if pat.len() > s.len() {
        assert(rfind_below(s@, pat@, s@.len() - pat@.len() + 1) is None);
        return None;
    }
    let top: usize = s.len() - pat.len();
    let mut k: usize = top;
    loop
        invariant
            k <= top,
            top == s.len() - pat.len(),
            rfind_below(s@, pat@, k + 1) == rfind(s@, pat@),
        decreases k,
    {
        if matches_at_exec(s, pat, k) {
            return Some(k);
        }
        if k == 0 {
            assert(rfind_below(s@, pat@, 0) is None);
            return None;
        }
        k = k - 1;
    }
}

/// `str::starts_with` with a string-slice pattern.
pub fn starts_with_str(s: &Vec<char>, pat: &str) -> (r: bool)
    ensures
        r == starts_with(s@, pat@),
{
    let p = str_chars(pat);
    matches_at_exec(s, &p, 0)
}

/// `str::ends_with` with a string-slice pattern.
pub fn ends_with_str(s: &Vec<char>, pat: &str) -> (r: bool)
    ensures
        r == ends_with(s@, pat@),
{
    let p = str_chars(pat);
    if p.len() > s.len() {
        return false;
    }
    matches_at_exec(s, &p, s.len() - p.len())
}

// ---------------------------------------------------------------------------
// ASCII lower-casing
// ---------------------------------------------------------------------------

pub open spec fn ascii_lower(c: char) -> char {
    if 'A' <= c && c <= 'Z' {
        ((c as u32) + 32) as char
    } else {
        c
    }
}

/// `str::to_ascii_lowercase`.
pub open spec fn lower(s: Seq<char>) -> Seq<char> {
    s.map_values(|c: char| ascii_lower(c))
}

pub fn ascii_lower_exec(c: char) -> (r: char)
    ensures
        r == ascii_lower(c),
{
    if 'A' <= c && c <= 'Z' {
        let u = c as u32;
        let v = u + 32;
        proof {
            assert(65 <= u <= 90);
        }
        let b = v as u8;
        b as char
    } else {
        c
    }
}

/// `str::to_ascii_lowercase` on a character vector.
pub fn lower_chars(s: &Vec<char>) -> (r: Vec<char>)
    ensures
        r@ == lower(s@),
{
    let mut r: Vec<char> = Vec::new();
    let mut i: usize = 0;
    while i < s.len()
        invariant
            i <= s.len(),
            r@ == lower(s@.take(i as int)),
        decreases s.len() - i,
    {
        r.push(ascii_lower_exec(s[i]));
        i = i + 1;
        assert(lower(s@.take(i as int)) =~= lower(s@.take((i - 1) as int)).push(ascii_lower(s@[i - 1])));
    }
    assert(s@.take(s.len() as int) =~= s@);
    r
}

// ---------------------------------------------------------------------------
// Line splitting (`str::lines`)
// ---------------------------------------------------------------------------

/// Removes one trailing carriage return.
pub open spec fn strip_cr(line: Seq<char>) -> Seq<char> {
    if line.len() > 0 && line.last() == '\r' {
        line.drop_last()
    } else {
        line
    }
}

/// Scanning state of `str::lines`: `cur` is the current unfinished line,
/// `acc` the lines completed so far, `i` the next index to read.
pub open spec fn lines_acc(s: Seq<char>, i: int, cur: Seq<char>, acc: Seq<Seq<char>>) -> Seq<
    Seq<char>,
>
    decreases s.len() - i,
{
    if i < 0 || i >= s.len() {
        if cur.len() == 0 {
            acc
        } else {
            acc.push(cur)
        }
    } else if s[i] == '\n' {
        lines_acc(s, i + 1, Seq::empty(), acc.push(strip_cr(cur)))
    } else {
        lines_acc(s, i + 1, cur.push(s[i]), acc)
    }
}

/// `str::lines`: the text split at `\n`, each line without its `\r\n` or
/// `\n` ending, and no empty line after a final line ending.
pub open spec fn lines(s: Seq<char>) -> Seq<Seq<char>> {
    lines_acc(s, 0, Seq::empty(), Seq::empty())
}

/// Views of a vector of character vectors.
pub open spec fn views(v: Seq<Vec<char>>) -> Seq<Seq<char>> {
    v.map_values(|x: Vec<char>| x@)
}

/// Views of a vector of strings.
pub open spec fn texts(v: Seq<String>) -> Seq<Seq<char>> {
    v.map_values(|x: String| x@)
}

/// `str::lines` on a character vector.
pub fn split_lines(s: &Vec<char>) -> (r: Vec<Vec<char>>)
    ensures
        views(r@) == lines(s@),
{
    let mut acc: Vec<Vec<char>> = Vec::new();
    let mut cur: Vec<char> = Vec::new();
    let mut i: usize = 0;
    proof {
        assert(views(acc@) =~= Seq::<Seq<char>>::empty());
        assert(cur@ =~= Seq::<char>::empty());
    }
    while i < s.len()
        invariant
            i <= s.len(),
            lines_acc(s@, i as int, cur@, views(acc@)) == lines(s@),
        decreases s.len() - i,
    {
        if s[i] == '\n' {
            let mut line = cur;
            if line.len() > 0 && line[line.len() - 1] == '\r' {
                line.pop();
                assert(line@ =~= strip_cr(cur@));
            }
            proof {
                assert(line@ == strip_cr(cur@));
                assert(views(acc@.push(line)) =~= views(acc@).push(strip_cr(cur@)));
            }
            acc.push(line);
            cur = Vec::new();
            proof {
                assert(cur@ =~= Seq::<char>::empty());
            }
        } else {
            cur.push(s[i]);
        }
        i = i + 1;
    }
    if cur.len() > 0 {
        proof {
            assert(views(acc@.push(cur)) =~= views(acc@).push(cur@));
        }
        acc.push(cur);
    }
    acc
}

// ---------------------------------------------------------------------------
// Decimal numbers
// ---------------------------------------------------------------------------

pub open spec fn is_digit(c: char) -> bool {
    '0' <= c && c <= '9'
}

pub open spec fn digit_val(c: char) -> int {
    (c as u32) - ('0' as u32)
}

pub open spec fn all_digits(s: Seq<char>) -> bool {
    forall|k: int| 0 <= k < s.len() ==> is_digit(#[trigger] s[k])
}

/// Value of a string of decimal digits.
pub open spec fn digits_value(s: Seq<char>) -> int
    decreases s.len(),
{
    if s.len() == 0 {
        0
    } else {
        digits_value(s.drop_last()) * 10 + digit_val(s.last())
    }
}

/// A non-empty run of digits, as a natural number.
pub open spec fn parse_digits(s: Seq<char>) -> Option<int> {
    if s.len() > 0 && all_digits(s) {
        Some(digits_value(s))
    } else {
        None
    }
}

/// Magnitude accepted by the unsigned integer parsers of std: an optional
/// leading `+` followed by at least one digit.
pub open spec fn parse_unsigned(s: Seq<char>) -> Option<int> {
    if s.len() > 0 && s[0] == '+' {
        parse_digits(s.drop_first())
    } else {
        parse_digits(s)
    }
}

/// `str::parse::<u32>()`.
pub open spec fn parse_u32(s: Seq<char>) -> Option<u32> {
    match parse_unsigned(s) {
        Some(v) => if v <= u32::MAX {
            Some(v as u32)
        } else {
            None
        },
        None => None,
    }
}

/// `str::parse::<u64>()`.
pub open spec fn parse_u64(s: Seq<char>) -> Option<u64> {
    match parse_unsigned(s) {
        Some(v) => if v <= u64::MAX {
            Some(v as u64)
        } else {
            None
        },
        None => None,
    }
}

/// `str::parse::<usize>()`.
pub open spec fn parse_usize(s: Seq<char>) -> Option<usize> {
    match parse_unsigned(s) {
        Some(v) => if v <= usize::MAX {
            Some(v as usize)
        } else {
            None
        },
        None => None,
    }
}

/// Signed value accepted by the signed integer parsers of std: an optional
/// leading `+` or `-` followed by at least one digit.
pub open spec fn parse_signed(s: Seq<char>) -> Option<int> {
    if s.len() > 0 && s[0] == '-' {
        match parse_digits(s.drop_first()) {
            Some(v) => Some(-v),
            None => None,
        }
    } else {
        parse_unsigned(s)
    }
}

/// `str::parse::<i64>()`.
pub open spec fn parse_i64(s: Seq<char>) -> Option<i64> {
    match parse_signed(s) {
        Some(v) => if i64::MIN <= v <= i64::MAX {
            Some(v as i64)
        } else {
            None
        },
        None => None,
    }
}

/// `str::parse::<i32>()`.
pub open spec fn parse_i32(s: Seq<char>) -> Option<i32> {
    match parse_signed(s) {
        Some(v) => if i32::MIN <= v <= i32::MAX {
            Some(v as i32)
        } else {
            None
        },
        None => None,
    }
}

pub proof fn lemma_digits_value_nonneg(s: Seq<char>)
    requires
        all_digits(s),
    ensures
        digits_value(s) >= 0,
    decreases s.len(),
{
    if s.len() > 0 {
        assert(all_digits(s.drop_last()));
        lemma_digits_value_nonneg(s.drop_last());
    }
}

/// A digit string is worth at least as much as any of its prefixes.
pub proof fn lemma_digits_value_prefix(s: Seq<char>, k: int)
    requires
        all_digits(s),
        0 <= k <= s.len(),
    ensures
        digits_value(s.take(k)) <= digits_value(s),
    decreases s.len(),
{
    if k < s.len() {
        assert(all_digits(s.drop_last()));
        lemma_digits_value_prefix(s.drop_last(), k);
        assert(s.drop_last().take(k) =~= s.take(k));
        lemma_digits_value_nonneg(s.drop_last());
        assert(is_digit(s[s.len() - 1]));
    } else {
        assert(s.take(k) =~= s);
    }
}

/// Value of the digits `s[start..end]` when they are all digits and the value
/// is at most `limit`; `None` otherwise.
pub fn digits_in_range(s: &Vec<char>, start: usize, end: usize, limit: u64) -> (r: Option<u64>)
    requires
        start <= end <= s.len(),
        limit >= 9,
    ensures
        ({
            let sub = s@.subrange(start as int, end as int);
            match r {
                Some(v) => parse_digits(sub) == Some(v as int) && v <= limit,
                None => parse_digits(sub) is None || parse_digits(sub)->0 > limit,
            }
        }),
{
    let ghost sub = s@.subrange(start as int, end as int);
    if start == end {
        return None;
    }
    let mut value: u64 = 0;
    let mut i = start;
    while i < end
        invariant
            start <= i <= end <= s.len(),
            sub == s@.subrange(start as int, end as int),
            all_digits(sub.take(i - start)),
            value as int == digits_value(sub.take(i - start)),
            value <= limit,
            limit >= 9,
        decreases end - i,
    {
        let c = s[i];
        if !('0' <= c && c <= '9') {
            proof {
                assert(!is_digit(sub[i - start]));
            }
            return None;
        }
        let d = (c as u32 - '0' as u32) as u64;
        proof {
            let t = sub.take(i - start + 1);
            assert(t.drop_last() =~= sub.take(i - start));
            assert(t.last() == c);
            assert(all_digits(t));
        }
        if value > (limit - d) / 10 {
            proof {
                let t = sub.take(i - start + 1);
                assert(digits_value(t) == value * 10 + d);
                assert(value * 10 + d > limit) by (nonlinear_arith)
                    requires
                        value > (limit - d) / 10,
                        d <= 9,
                ;
                if all_digits(sub) {
                    lemma_digits_value_prefix(sub, i - start + 1);
                }
            }
            return None;
        }
        proof {
            assert(value * 10 + d <= limit) by (nonlinear_arith)
                requires
                    value <= (limit - d) / 10,
                    d <= limit,
            ;
        }
        value = value * 10 + d;
        i = i + 1;
    }
    proof {
        assert(sub.take(end - start) =~= sub);
    }
    Some(value)
}

/// Unsigned std parsing of `s[start..end]` with an upper bound on the value.
pub fn parse_unsigned_range(s: &Vec<char>, start: usize, end: usize, limit: u64) -> (r: Option<
    u64,
>)
    requires
        start <= end <= s.len(),
        limit >= 9,
    ensures
        ({
            let sub = s@.subrange(start as int, end as int);
            match r {
                Some(v) => parse_unsigned(sub) == Some(v as int) && v <= limit,
                None => parse_unsigned(sub) is None || parse_unsigned(sub)->0 > limit,
            }
        }),
{
    let ghost sub = s@.subrange(start as int, end as int);
    if start < end && s[start] == '+' {
        proof {
            assert(sub.drop_first() =~= s@.subrange(start + 1, end as int));
        }
        digits_in_range(s, start + 1, end, limit)
    } else {
        digits_in_range(s, start, end, limit)
    }
}

/// `str::parse::<u32>()` on `s[start..end]`.
pub fn parse_u32_range(s: &Vec<char>, start: usize, end: usize) -> (r: Option<u32>)
    requires
        start <= end <= s.len(),
    ensures
        r == parse_u32(s@.subrange(start as int, end as int)),
{
    match parse_unsigned_range(s, start, end, 0xffff_ffff) {
        Some(v) => Some(v as u32),
        None => None,
    }
}

/// `str::parse::<u64>()` on `s[start..end]`.
pub fn parse_u64_range(s: &Vec<char>, start: usize, end: usize) -> (r: Option<u64>)
    requires
        start <= end <= s.len(),
    ensures
        r == parse_u64(s@.subrange(start as int, end as int)),
{
    parse_unsigned_range(s, start, end, 0xffff_ffff_ffff_ffff)
}

/// `str::parse::<usize>()` on `s[start..end]`.
pub fn parse_usize_range(s: &Vec<char>, start: usize, end: usize) -> (r: Option<usize>)
    requires
        start <= end <= s.len(),
    ensures
        r == parse_usize(s@.subrange(start as int, end as int)),
{
    match parse_unsigned_range(s, start, end, usize::MAX as u64) {
        Some(v) => Some(v as usize),
        None => None,
    }
}

/// Signed std parsing of `s[start..end]` within `[-neg_limit, pos_limit]`.
fn parse_signed_range(s: &Vec<char>, start: usize, end: usize, neg_limit: u64, pos_limit: u64) -> (r:
    Option<(bool, u64)>)
    requires
        start <= end <= s.len(),
        neg_limit >= 9,
        pos_limit >= 9,
    ensures
        ({
            let sub = s@.subrange(start as int, end as int);
            match r {
                Some((neg, m)) => parse_signed(sub) == Some(if neg {
                    -(m as int)
                } else {
                    m as int
                }) && (neg ==> m <= neg_limit) && (!neg ==> m <= pos_limit),
                None => match parse_signed(sub) {
                    Some(v) => v < -(neg_limit as int) || v > pos_limit,
                    None => true,
                },
            }
        }),
{
    let ghost sub = s@.subrange(start as int, end as int);
    if start < end && s[start] == '-' {
        proof {
            assert(sub.drop_first() =~= s@.subrange(start + 1, end as int));
        }
        match digits_in_range(s, start + 1, end, neg_limit) {
            Some(m) => Some((true, m)),
            None => None,
        }
    } else {
        match parse_unsigned_range(s, start, end, pos_limit) {
            Some(m) => Some((false, m)),
            None => None,
        }
    }
}

/// `str::parse::<i64>()` on `s[start..end]`.
pub fn parse_i64_range(s: &Vec<char>, start: usize, end: usize) -> (r: Option<i64>)
    requires
        start <= end <= s.len(),
    ensures
        r == parse_i64(s@.subrange(start as int, end as int)),
{
    match parse_signed_range(s, start, end, 0x8000_0000_0000_0000, 0x7fff_ffff_ffff_ffff) {
        Some((neg, m)) => {
            if neg {
                if m == 0x8000_0000_0000_0000 {
                    Some(i64::MIN)
                } else {
                    Some(-(m as i64))
                }
            } else {
                Some(m as i64)
            }
        },
        None => None,
    }
}

/// `str::parse::<i32>()` on `s[start..end]`.
pub fn parse_i32_range(s: &Vec<char>, start: usize, end: usize) -> (r: Option<i32>)
    requires
        start <= end <= s.len(),
    ensures
        r == parse_i32(s@.subrange(start as int, end as int)),
{
    match parse_signed_range(s, start, end, 0x8000_0000, 0x7fff_ffff) {
        Some((neg, m)) => {
            if neg {
                if m == 0x8000_0000 {
                    Some(i32::MIN)
                } else {
                    Some(-(m as i32))
                }
            } else {
                Some(m as i32)
            }
        },
        None => None,
    }
}

/// Decimal digits of `n` (the text that `n.to_string()` produces).
pub open spec fn decimal(n: nat) -> Seq<char>
    decreases n,
{
    if n < 10 {
        seq![digit_char(n)]
    } else {
        decimal(n / 10).push(digit_char(n % 10))
    }
}

pub open spec fn digit_char(d: nat) -> char {
    ((d + 48) as u32) as char
}

/// Decimal text of a signed integer, with a leading `-` when negative.
pub open spec fn signed_decimal(n: int) -> Seq<char> {
    if n < 0 {
        seq!['-'] + decimal((-n) as nat)
    } else {
        decimal(n as nat)
    }
}

/// Appends the decimal digits of `n`.
pub fn push_decimal(out: &mut Vec<char>, n: u64)
    ensures
        final(out)@ == old(out)@ + decimal(n as nat),
    decreases n,
{
    if n >= 10 {
        push_decimal(out, n / 10);
    }
    let d = (n % 10) as u8;
    let c = (d + 48) as char;
    proof {
        assert(c == digit_char((n % 10) as nat));
    }
    out.push(c);
    proof {
        if n >= 10 {
            assert(decimal(n as nat) == decimal((n / 10) as nat).push(digit_char((n % 10) as nat)));
        }
    }
    assert(final(out)@ =~= old(out)@ + decimal(n as nat)) by {
        if n < 10 {
            assert(decimal(n as nat) =~= seq![digit_char(n as nat)]);
        }
    }
}

/// Appends the decimal text of a signed integer.
pub fn push_signed_decimal(out: &mut Vec<char>, n: i64)
    ensures
        final(out)@ == old(out)@ + signed_decimal(n as int),
{
    if n < 0 {
        out.push('-');
        let m: u64 = if n == i64::MIN {
            0x8000_0000_0000_0000
        } else {
            (-n) as u64
        };
        push_decimal(out, m);
        assert(final(out)@ =~= old(out)@ + signed_decimal(n as int));
    } else {
        push_decimal(out, n as u64);
    }
}

/// `n.to_string()`.
pub fn decimal_string(n: u64) -> (s: String)
    ensures
        s@ == decimal(n as nat),
{
    let mut v: Vec<char> = Vec::new();
    push_decimal(&mut v, n);
    assert(v@ =~= decimal(n as nat));
    chars_to_string(&v)
}

pub proof fn lemma_decimal_digits(n: nat)
    ensures
        all_digits(decimal(n)),
        decimal(n).len() > 0,
        digits_value(decimal(n)) == n,
    decreases n,
{
    if n < 10 {
        let d = decimal(n);
        assert(d =~= seq![digit_char(n)]);
        assert(d.drop_last() =~= Seq::<char>::empty());
        assert(d.last() == digit_char(n));
        assert(digit_val(digit_char(n)) == n);
        assert(digits_value(Seq::<char>::empty()) == 0);
    } else {
        lemma_decimal_digits(n / 10);
        let d = decimal(n);
        assert(d.drop_last() =~= decimal(n / 10));
        assert(digit_val(digit_char(n % 10)) == n % 10);
        assert(d.last() == digit_char(n % 10));
        assert((n / 10) * 10 + n % 10 == n) by (nonlinear_arith);
        assert forall|k: int| 0 <= k < d.len() implies is_digit(#[trigger] d[k]) by {
            if k < d.len() - 1 {
                assert(d[k] == decimal(n / 10)[k]);
            }
        }
    }
}

/// A text whose first and last characters are not whitespace is its own
/// trim.
pub proof fn lemma_trim_unchanged(s: Seq<char>)
    requires
        s.len() > 0,
        !is_ws(s[0]),
        !is_ws(s.last()),
    ensures
        trim(s) == s,
{
    assert(ws_skip(s, 0) == 0);
    assert(ws_skip_back(s, 0, s.len() as int) == s.len());
    assert(s.subrange(0, s.len() as int) =~= s);
}

/// Reading a run without line feeds up to a line feed completes one line.
pub proof fn lemma_lines_acc_line(
    s: Seq<char>,
    i: int,
    cur: Seq<char>,
    acc: Seq<Seq<char>>,
    j: int,
)
    requires
        0 <= i <= j < s.len(),
        s[j] == '\n',
        forall|k: int| i <= k < j ==> s[k] != '\n',
    ensures
        lines_acc(s, i, cur, acc) == lines_acc(s, j + 1, Seq::empty(), acc.push(
            strip_cr(cur + s.subrange(i, j)),
        )),
    decreases j - i,
{
    if i == j {
        assert(cur + s.subrange(i, j) =~= cur);
    } else {
        lemma_lines_acc_line(s, i + 1, cur.push(s[i]), acc, j);
        assert(cur.push(s[i]) + s.subrange(i + 1, j) =~= cur + s.subrange(i, j));
    }
}

/// Scanning a text that ends with `r` from inside `r` is scanning `r`.
pub proof fn lemma_lines_acc_shift(
    p: Seq<char>,
    r: Seq<char>,
    i: int,
    cur: Seq<char>,
    acc: Seq<Seq<char>>,
)
    requires
        0 <= i <= r.len(),
    ensures
        lines_acc(p + r, p.len() + i, cur, acc) == lines_acc(r, i, cur, acc),
    decreases r.len() - i,
{
    let s = p + r;
    if i < r.len() {
        assert(s[p.len() + i] == r[i]);
        if r[i] == '\n' {
            lemma_lines_acc_shift(p, r, i + 1, Seq::empty(), acc.push(strip_cr(cur)));
        } else {
            lemma_lines_acc_shift(p, r, i + 1, cur.push(r[i]), acc);
        }
    }
}

/// A first line `a` ended by a line feed is split off as one line.
pub proof fn lemma_lines_first_line(a: Seq<char>, r: Seq<char>, acc: Seq<Seq<char>>)
    requires
        forall|k: int| 0 <= k < a.len() ==> a[k] != '\n',
    ensures
        lines_acc(a + seq!['\n'] + r, 0, Seq::empty(), acc) == lines_acc(
            r,
            0,
            Seq::empty(),
            acc.push(strip_cr(a)),
        ),
{
    let h = a + seq!['\n'];
    let s = h + r;
    assert(a + seq!['\n'] + r == s);
    assert forall|k: int| 0 <= k < a.len() implies s[k] != '\n' by {
        assert(s[k] == a[k]);
    }
    assert(s[a.len() as int] == '\n');
    lemma_lines_acc_line(s, 0, Seq::empty(), acc, a.len() as int);
    assert(s.subrange(0, a.len() as int) =~= a);
    assert(Seq::<char>::empty() + a =~= a);
    lemma_lines_acc_shift(h, r, 0, Seq::empty(), acc.push(strip_cr(a)));
}

/// Three lines, each ended by a line feed, read back as those three lines
/// (less a trailing carriage return).
pub proof fn lemma_lines_three(a: Seq<char>, b: Seq<char>, c: Seq<char>)
    requires
        forall|k: int| 0 <= k < a.len() ==> a[k] != '\n',
        forall|k: int| 0 <= k < b.len() ==> b[k] != '\n',
        forall|k: int| 0 <= k < c.len() ==> c[k] != '\n',
    ensures
        lines(a + seq!['\n'] + b + seq!['\n'] + c + seq!['\n']) == seq![
            strip_cr(a),
            strip_cr(b),
            strip_cr(c),
        ],
{
    let e = Seq::<char>::empty();
    let rc = c + seq!['\n'];
    let rb = b + seq!['\n'] + rc;
    let s = a + seq!['\n'] + b + seq!['\n'] + c + seq!['\n'];
    assert(s =~= a + seq!['\n'] + rb);
    assert(rb =~= b + seq!['\n'] + rc);
    assert(rc =~= c + seq!['\n'] + e);
    lemma_lines_first_line(a, rb, Seq::empty());
    lemma_lines_first_line(b, rc, seq![strip_cr(a)]);
    lemma_lines_first_line(c, e, seq![strip_cr(a)].push(strip_cr(b)));
    assert(seq![strip_cr(a)].push(strip_cr(b)).push(strip_cr(c)) =~= seq![
        strip_cr(a),
        strip_cr(b),
        strip_cr(c),
    ]);
}

/// Every decimal text of an `i64` parses back to it.
pub proof fn lemma_parse_signed_decimal(n: i64)
    ensures
        parse_i64(signed_decimal(n as int)) == Some(n),
{
    if n < 0 {
        let m = (-(n as int)) as nat;
        lemma_parse_decimal(m);
        lemma_decimal_digits(m);
        let t = signed_decimal(n as int);
        assert(t =~= seq!['-'] + decimal(m));
        assert(t.drop_first() =~= decimal(m));
        assert(t[0] == '-');
    } else {
        lemma_parse_decimal(n as nat);
    }
}

/// Parsing the decimal text of a number gives the number back.
pub proof fn lemma_parse_decimal(n: nat)
    ensures
        parse_unsigned(decimal(n)) == Some(n as int),
        parse_signed(decimal(n)) == Some(n as int),
{
    lemma_decimal_digits(n);
    assert(is_digit(decimal(n)[0]));
}

} // verus!

verus! {

/// `str::strip_prefix`: the rest of `s` after `pat`, when `s` starts with it.
pub fn strip_prefix_chars(s: &Vec<char>, pat: &str) -> (r: Option<Vec<char>>)
    ensures
        r is Some <==> starts_with(s@, pat@),
        r matches Some(v) ==> v@ == s@.skip(pat@.len() as int),
{
    let p = str_chars(pat);
    if matches_at_exec(s, &p, 0) {
        Some(sub_chars(s, p.len(), s.len()))
    } else {
        None
    }
}

/// First whitespace-separated token (`s.split_whitespace().next()`).
pub open spec fn first_token(s: Seq<char>) -> Option<Seq<char>> {
    let a = ws_skip(s, 0);
    if a >= s.len() {
        None
    } else {
        Some(s.subrange(a, nonws_skip(s, a)))
    }
}

/// `s.split_whitespace().next()`.
pub fn first_token_exec(s: &Vec<char>) -> (r: Option<Vec<char>>)
    ensures
        r matches Some(v) ==> first_token(s@) == Some(v@),
        r is None ==> first_token(s@) is None,
{
    let a = skip_ws(s, 0);
    if a >= s.len() {
        return None;
    }
    let b = skip_nonws(s, a);
    Some(sub_chars(s, a, b))
}

} // verus!

verus! {

/// Whether two character vectors hold the same characters.
pub fn chars_eq(a: &Vec<char>, b: &Vec<char>) -> (r: bool)
    ensures
        r == (a@ == b@),
{
    if a.len() != b.len() {
        proof {
            assert(a@.len() != b@.len());
        }
        return false;
    }
    let mut i: usize = 0;
    while i < a.len()
        invariant
            i <= a.len(),
            a.len() == b.len(),
            forall|k: int| 0 <= k < i ==> a@[k] == b@[k],
        decreases a.len() - i,
    {
        if a[i] != b[i] {
            proof {
                assert(a@[i as int] != b@[i as int]);
            }
            return false;
        }
        i = i + 1;
    }
    assert(a@ =~= b@);
    true
}

/// String-slice equality (`==` on `str`).
pub fn str_eq(a: &str, b: &str) -> (r: bool)
    ensures
        r == (a@ == b@),
{
    let ac = str_chars(a);
    let bc = str_chars(b);
    chars_eq(&ac, &bc)
}

/// The text of an optional string.
pub open spec fn opt_string(o: Option<String>) -> Option<Seq<char>> {
    match o {
        Some(s) => Some(s@),
        None => None,
    }
}

/// The text of an optional string slice.
pub open spec fn opt_str(o: Option<&str>) -> Option<Seq<char>> {
    match o {
        Some(s) => Some(s@),
        None => None,
    }
}

/// A copy of an optional string.
pub fn clone_opt_string(o: &Option<String>) -> (r: Option<String>)
    ensures
        opt_string(r) == opt_string(*o),
{
    match o {
        Some(s) => Some(s.clone()),
        None => None,
    }
}

/// Whether two optional strings hold the same text.
pub fn opt_string_eq(a: &Option<String>, b: &Option<String>) -> (r: bool)
    ensures
        r == (opt_string(*a) == opt_string(*b)),
{
    match (a, b) {
        (Some(x), Some(y)) => str_eq(x.as_str(), y.as_str()),
        (None, None) => true,
        _ => false,
    }
}

} // verus!

verus! {

pub proof fn lemma_rfind_below_props(s: Seq<char>, pat: Seq<char>, n: int)
    ensures
        rfind_below(s, pat, n) matches Some(j) ==> 0 <= j < n && matches_at(s, pat, j),
    decreases n,
{
    if n > 0 && !matches_at(s, pat, n - 1) {
        lemma_rfind_below_props(s, pat, n - 1);
    }
}

/// The last occurrence found by `rfind` is an occurrence.
pub proof fn lemma_rfind_props(s: Seq<char>, pat: Seq<char>)
    ensures
        rfind(s, pat) matches Some(j) ==> 0 <= j && matches_at(s, pat, j),
{
    lemma_rfind_below_props(s, pat, s.len() - pat.len() + 1);
}

} // verus!

verus! {

/// Whether every character of `v` is an ASCII digit.
pub fn all_digits_exec(v: &Vec<char>) -> (r: bool)
    ensures
        r == all_digits(v@),
{
    let mut k: usize = 0;
    while k < v.len()
        invariant
            k <= v.len(),
            forall|t: int| 0 <= t < k ==> is_digit(#[trigger] v@[t]),
        decreases v.len() - k,
    {
        if !('0' <= v[k] && v[k] <= '9') {
            proof {
                assert(!is_digit(v@[k as int]));
            }
            return false;
        }
        k = k + 1;
    }
    true
}

} // verus!
