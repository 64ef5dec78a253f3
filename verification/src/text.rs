//! Character sequences: conversion between strings and vectors of characters,
//! searching and replacing.

use vstd::prelude::*;

verus! {

/// `String::push` appends one character to the end of the string.
pub assume_specification[ String::push ](s: &mut String, c: char)
    ensures
        final(s)@ == old(s)@.push(c),
;

/// The characters of a string slice, in order.
pub fn chars_of(s: &str) -> (v: Vec<char>)
    ensures
        v@ == s@,
{
    let mut v: Vec<char> = Vec::new();
    for c in it: s.chars()
        invariant
            it.seq() == s@,
            v@ == it.seq().take(it.index()),
    {
        v.push(c);
    }
    v
}

/// The string made of the given characters, in order.
pub fn string_of(v: &Vec<char>) -> (s: String)
    ensures
        s@ == v@,
{
    let mut s = String::new();
    let mut i: usize = 0;
    while i < v.len()
        invariant
            i <= v.len(),
            s@ == v@.take(i as int),
        decreases v.len() - i,
    {
        s.push(v[i]);
        i += 1;
    }
    s
}

/// `pat` occurs in `s` starting at index `i`.
pub open spec fn matches_at(s: Seq<char>, pat: Seq<char>, i: int) -> bool {
    &&& 0 <= i
    &&& i + pat.len() <= s.len()
    &&& s.subrange(i, i + pat.len()) == pat
}

/// `pat` occurs somewhere in `s`.
pub open spec fn contains(s: Seq<char>, pat: Seq<char>) -> bool {
    exists|i: int| matches_at(s, pat, i)
}

/// `i` is the leftmost index at or after `from` where `pat` occurs in `s`.
pub open spec fn is_first_match(s: Seq<char>, pat: Seq<char>, from: int, i: int) -> bool {
    &&& from <= i
    &&& matches_at(s, pat, i)
    &&& forall|j: int| from <= j < i ==> !matches_at(s, pat, j)
}

/// `s` with the occurrence of `pat` at index `i` replaced by `rep`.
pub open spec fn splice(s: Seq<char>, i: int, len: int, rep: Seq<char>) -> Seq<char> {
    s.take(i) + rep + s.skip(i + len)
}

/// `s` with its leftmost occurrence of `pat` replaced by `rep`; `s` itself
/// where `pat` does not occur.
pub open spec fn replace_first(s: Seq<char>, pat: Seq<char>, rep: Seq<char>) -> Seq<char> {
    if contains(s, pat) {
        let i = choose|i: int| is_first_match(s, pat, 0, i);
        splice(s, i, pat.len() as int, rep)
    } else {
        s
    }
}

/// The part of `s` from index `i` on, with every occurrence of `pat` replaced
/// by `rep`, scanning from the left and never overlapping two occurrences. An
/// empty `pat` occurs before every character and at the end.
pub open spec fn replace_from(s: Seq<char>, pat: Seq<char>, rep: Seq<char>, i: int) -> Seq<char>
    decreases s.len() - i,
{
    if i < 0 {
        Seq::empty()
    } else if matches_at(s, pat, i) {
        if pat.len() > 0 {
            rep + replace_from(s, pat, rep, i + pat.len())
        } else if i < s.len() {
            rep + seq![s[i]] + replace_from(s, pat, rep, i + 1)
        } else {
            rep
        }
    } else if i < s.len() {
        seq![s[i]] + replace_from(s, pat, rep, i + 1)
    } else {
        Seq::empty()
    }
}

/// `s` with every occurrence of `pat` replaced by `rep`.
pub open spec fn replace_all(s: Seq<char>, pat: Seq<char>, rep: Seq<char>) -> Seq<char> {
    replace_from(s, pat, rep, 0)
}

/// Whether `pat` occurs in `s` at index `i`.
pub fn occurs_at(s: &Vec<char>, pat: &Vec<char>, i: usize) -> (b: bool)
    ensures
        b == matches_at(s@, pat@, i as int),
{
    if pat.len() > s.len() || i > s.len() - pat.len() {
        return false;
    }
    let mut k: usize = 0;
    while k < pat.len()
        invariant
            k <= pat.len(),
            i + pat.len() <= s.len(),
            forall|j: int| 0 <= j < k ==> s@[i + j] == pat@[j],
        decreases pat.len() - k,
    {
        if s[i + k] != pat[k] {
            assert(s@.subrange(i as int, i + pat.len())[k as int] != pat@[k as int]);
            return false;
        }
        k += 1;
    }
    assert(s@.subrange(i as int, i + pat.len()) =~= pat@);
    true
}

/// The leftmost index at or after `from` where `pat` occurs in `s`.
pub fn find_from(s: &Vec<char>, pat: &Vec<char>, from: usize) -> (r: Option<usize>)
    ensures
        match r {
            Some(i) => is_first_match(s@, pat@, from as int, i as int),
            None => forall|j: int| from <= j ==> !matches_at(s@, pat@, j),
        },
{
    if from > s.len() {
        return None;
    }
    let mut i: usize = from;
    while i < s.len()
        invariant
            from <= i <= s.len(),
            forall|j: int| from <= j < i ==> !matches_at(s@, pat@, j),
        decreases s.len() - i,
    {
        if occurs_at(s, pat, i) {
            return Some(i);
        }
        i += 1;
    }
    if occurs_at(s, pat, i) {
        Some(i)
    } else {
        None
    }
}

/// The leftmost index where `pat` occurs in `s`.
pub fn find(s: &Vec<char>, pat: &Vec<char>) -> (r: Option<usize>)
    ensures
        r is Some <==> contains(s@, pat@),
        r is Some ==> is_first_match(s@, pat@, 0, r->0 as int),
{
    find_from(s, pat, 0)
}

/// Appends the characters of `src` to `out`.
pub fn append_chars(out: &mut Vec<char>, src: &Vec<char>)
    ensures
        final(out)@ == old(out)@ + src@,
{
    let mut k: usize = 0;
    while k < src.len()
        invariant
            k <= src.len(),
            out@ == old(out)@ + src@.take(k as int),
        decreases src.len() - k,
    {
        out.push(src[k]);
        k += 1;
    }
}

/// The leftmost match is unique, so `replace_first` does not depend on which
/// witness is taken.
pub proof fn first_match_unique(s: Seq<char>, pat: Seq<char>, i: int, j: int)
    requires
        is_first_match(s, pat, 0, i),
        is_first_match(s, pat, 0, j),
    ensures
        i == j,
{
}

/// Replacing at the leftmost match is what `replace_first` says.
pub proof fn replace_first_at(s: Seq<char>, pat: Seq<char>, rep: Seq<char>, i: int)
    requires
        is_first_match(s, pat, 0, i),
    ensures
        replace_first(s, pat, rep) == splice(s, i, pat.len() as int, rep),
{
    assert(matches_at(s, pat, i));
    let w = choose|w: int| is_first_match(s, pat, 0, w);
    first_match_unique(s, pat, i, w);
}

/// `s` with its leftmost occurrence of `pat` replaced by `rep`.
pub fn replace_first_in(s: &Vec<char>, pat: &Vec<char>, rep: &Vec<char>) -> (out: Vec<char>)
    ensures
        out@ == replace_first(s@, pat@, rep@),
{
    let mut out: Vec<char> = Vec::new();
    match find(s, pat) {
        Some(i) => {
            proof {
                replace_first_at(s@, pat@, rep@, i as int);
            }
            let mut k: usize = 0;
            while k < i
                invariant
                    k <= i <= s.len(),
                    out@ == s@.take(k as int),
                decreases i - k,
            {
                out.push(s[k]);
                k += 1;
            }
            append_chars(&mut out, rep);
            let mut k: usize = i + pat.len();
            while k < s.len()
                invariant
                    i + pat.len() <= k <= s.len(),
                    out@ == s@.take(i as int) + rep@ + s@.subrange(i + pat.len(), k as int),
                decreases s.len() - k,
            {
                out.push(s[k]);
                k += 1;
            }
            assert(s@.subrange(i + pat.len(), s.len() as int) =~= s@.skip(i + pat.len()));
        },
        None => {
            append_chars(&mut out, s);
            assert(out@ =~= s@);
        },
    }
    out
}

/// `s` with every occurrence of `pat` replaced by `rep`.
pub fn replace_all_in(s: &Vec<char>, pat: &Vec<char>, rep: &Vec<char>) -> (out: Vec<char>)
    ensures
        out@ == replace_all(s@, pat@, rep@),
{
    let mut out: Vec<char> = Vec::new();
    let mut i: usize = 0;
    let mut done = false;
    while !done
        invariant
            i <= s.len(),
            !done ==> out@ + replace_from(s@, pat@, rep@, i as int) == replace_all(s@, pat@, rep@),
            done ==> out@ == replace_all(s@, pat@, rep@),
        decreases s.len() - i + (if done { 0int } else { 1int }),
    {
        let ghost before = out@;
        if occurs_at(s, pat, i) {
            append_chars(&mut out, rep);
            if pat.len() > 0 {
                i += pat.len();
                assert(out@ + replace_from(s@, pat@, rep@, i as int) =~= before + (rep@
                    + replace_from(s@, pat@, rep@, i as int)));
            } else if i < s.len() {
                out.push(s[i]);
                i += 1;
                assert(out@ + replace_from(s@, pat@, rep@, i as int) =~= before + (rep@
                    + seq![s@[i - 1]] + replace_from(s@, pat@, rep@, i as int)));
            } else {
                done = true;
            }
        } else if i < s.len() {
            out.push(s[i]);
            i += 1;
            assert(out@ + replace_from(s@, pat@, rep@, i as int) =~= before + (seq![s@[i - 1]]
                + replace_from(s@, pat@, rep@, i as int)));
        } else {
            done = true;
            assert(out@ + Seq::<char>::empty() =~= out@);
        }
    }
    out
}

/// White space as Unicode defines it: the characters that a left trim removes.
pub open spec fn is_space(c: char) -> bool {
    let n = c as u32;
    ||| 0x09 <= n <= 0x0D
    ||| n == 0x20
    ||| n == 0x85
    ||| n == 0xA0
    ||| n == 0x1680
    ||| 0x2000 <= n <= 0x200A
    ||| n == 0x2028
    ||| n == 0x2029
    ||| n == 0x202F
    ||| n == 0x205F
    ||| n == 0x3000
}

/// Whether `c` is white space.
pub fn is_space_char(c: char) -> (b: bool)
    ensures
        b == is_space(c),
{
    let n: u32 = c as u32;
    (0x09 <= n && n <= 0x0D) || n == 0x20 || n == 0x85 || n == 0xA0 || n == 0x1680 || (0x2000 <= n
        && n <= 0x200A) || n == 0x2028 || n == 0x2029 || n == 0x202F || n == 0x205F || n == 0x3000
}

/// The first index at or after `from` that holds no white space; the length
/// of `s` where only white space follows.
pub open spec fn space_end(s: Seq<char>, from: int) -> int
    decreases s.len() - from,
{
    if 0 <= from < s.len() && is_space(s[from]) {
        space_end(s, from + 1)
    } else {
        from
    }
}

/// How many white space characters `s` begins with.
pub open spec fn leading_spaces(s: Seq<char>) -> int {
    space_end(s, 0)
}

/// `s` without its leading white space.
pub open spec fn trim_start(s: Seq<char>) -> Seq<char> {
    s.skip(leading_spaces(s))
}

/// `space_end` is the one index that ends a run of white space.
pub proof fn space_end_is(s: Seq<char>, from: int, e: int)
    requires
        0 <= from <= e <= s.len(),
        forall|j: int| from <= j < e ==> is_space(#[trigger] s[j]),
        e < s.len() ==> !is_space(s[e]),
    ensures
        space_end(s, from) == e,
    decreases e - from,
{
    if from < e {
        space_end_is(s, from + 1, e);
    }
}

/// The run of white space at the start of `s` lies inside `s`, and the
/// character after it, if there is one, is no white space.
pub proof fn leading_spaces_bounds(s: Seq<char>)
    ensures
        0 <= leading_spaces(s) <= s.len(),
        forall|j: int| 0 <= j < leading_spaces(s) ==> is_space(#[trigger] s[j]),
        leading_spaces(s) < s.len() ==> !is_space(s[leading_spaces(s)]),
{
    space_end_bounds(s, 0);
}

/// The same, from any index.
pub proof fn space_end_bounds(s: Seq<char>, from: int)
    requires
        0 <= from <= s.len(),
    ensures
        from <= space_end(s, from) <= s.len(),
        forall|j: int| from <= j < space_end(s, from) ==> is_space(#[trigger] s[j]),
        space_end(s, from) < s.len() ==> !is_space(s[space_end(s, from)]),
    decreases s.len() - from,
{
    if from < s.len() && is_space(s[from]) {
        space_end_bounds(s, from + 1);
    }
}

/// How many white space characters `s` begins with.
pub fn count_leading_spaces(s: &Vec<char>) -> (k: usize)
    ensures
        k == leading_spaces(s@),
        k <= s.len(),
{
    let mut k: usize = 0;
    while k < s.len() && is_space_char(s[k])
        invariant
            k <= s.len(),
            forall|j: int| 0 <= j < k ==> is_space(#[trigger] s@[j]),
        decreases s.len() - k,
    {
        k += 1;
    }
    proof {
        space_end_is(s@, 0, k as int);
    }
    k
}

/// The characters of `s` from index `from` on.
pub fn tail_from(s: &Vec<char>, from: usize) -> (out: Vec<char>)
    requires
        from <= s.len(),
    ensures
        out@ == s@.skip(from as int),
{
    let mut out: Vec<char> = Vec::new();
    let mut k: usize = from;
    while k < s.len()
        invariant
            from <= k <= s.len(),
            out@ == s@.subrange(from as int, k as int),
        decreases s.len() - k,
    {
        out.push(s[k]);
        k += 1;
    }
    out
}

/// `s` without its leading white space.
pub fn trim_start_of(s: &Vec<char>) -> (out: Vec<char>)
    ensures
        out@ == trim_start(s@),
{
    let k = count_leading_spaces(s);
    tail_from(s, k)
}

/// The index of the first line feed at or after `from`; the length of `s`
/// where there is none.
pub open spec fn line_end(s: Seq<char>, from: int) -> int
    decreases s.len() - from,
{
    if 0 <= from < s.len() && s[from] != '\n' {
        line_end(s, from + 1)
    } else {
        from
    }
}

/// `line` without a carriage return at its end.
pub open spec fn strip_cr(line: Seq<char>) -> Seq<char> {
    if line.len() > 0 && line.last() == '\r' {
        line.drop_last()
    } else {
        line
    }
}

/// The lines of `s` from index `from` on. A line ends with a line feed, or
/// with a carriage return and a line feed, neither of which belongs to it.
/// What follows the last line feed is a line if it is not empty, and keeps a
/// carriage return at its end.
pub open spec fn lines_from(s: Seq<char>, from: int) -> Seq<Seq<char>>
    decreases s.len() - from,
    via lines_from_decreases
{
    if from < 0 || from >= s.len() {
        Seq::empty()
    } else {
        let e = line_end(s, from);
        if e >= s.len() {
            seq![s.skip(from)]
        } else {
            seq![strip_cr(s.subrange(from, e))] + lines_from(s, e + 1)
        }
    }
}

#[via_fn]
proof fn lines_from_decreases(s: Seq<char>, from: int) {
    if 0 <= from < s.len() {
        line_end_bounds(s, from);
    }
}

/// The lines of `s`.
pub open spec fn lines_of(s: Seq<char>) -> Seq<Seq<char>> {
    lines_from(s, 0)
}

/// `line_end` lies between `from` and the end, with no line feed before it.
pub proof fn line_end_bounds(s: Seq<char>, from: int)
    requires
        0 <= from <= s.len(),
    ensures
        from <= line_end(s, from) <= s.len(),
        forall|j: int| from <= j < line_end(s, from) ==> #[trigger] s[j] != '\n',
        line_end(s, from) < s.len() ==> s[line_end(s, from)] == '\n',
    decreases s.len() - from,
{
    if from < s.len() && s[from] != '\n' {
        line_end_bounds(s, from + 1);
    }
}

/// `line_end` is the one index that ends a run without line feeds.
pub proof fn line_end_is(s: Seq<char>, from: int, e: int)
    requires
        0 <= from <= e <= s.len(),
        forall|j: int| from <= j < e ==> #[trigger] s[j] != '\n',
        e < s.len() ==> s[e] == '\n',
    ensures
        line_end(s, from) == e,
    decreases e - from,
{
    if from < e {
        line_end_is(s, from + 1, e);
    }
}

/// The lines joined by single line feeds.
pub open spec fn join_lines(lines: Seq<Seq<char>>) -> Seq<char>
    decreases lines.len(),
{
    if lines.len() == 0 {
        Seq::empty()
    } else if lines.len() == 1 {
        lines[0]
    } else {
        join_lines(lines.drop_last()) + seq!['\n'] + lines.last()
    }
}

/// What each vector of a list holds.
pub open spec fn rows(v: Seq<Vec<char>>) -> Seq<Seq<char>> {
    Seq::new(v.len(), |i: int| v[i]@)
}

/// The lines of `s`.
pub fn split_lines(s: &Vec<char>) -> (out: Vec<Vec<char>>)
    ensures
        rows(out@) == lines_of(s@),
{
    let mut out: Vec<Vec<char>> = Vec::new();
    let mut cur: Vec<char> = Vec::new();
    let mut start: usize = 0;
    let mut i: usize = 0;
    assert(rows(out@) + lines_from(s@, 0) =~= lines_of(s@));
    while i < s.len()
        invariant
            start <= i <= s.len(),
            cur@ == s@.subrange(start as int, i as int),
            forall|j: int| start <= j < i ==> #[trigger] s@[j] != '\n',
            rows(out@) + lines_from(s@, start as int) == lines_of(s@),
        decreases s.len() - i,
    {
        let c = s[i];
        if c == '\n' {
            proof {
                line_end_is(s@, start as int, i as int);
            }
            let ghost whole = cur@;
            let ghost before = rows(out@);
            let n = cur.len();
            if n > 0 && cur[n - 1] == '\r' {
                cur.pop();
            }
            assert(cur@ =~= strip_cr(whole));
            out.push(cur);
            assert(rows(out@) =~= before.push(strip_cr(whole)));
            assert(rows(out@) + lines_from(s@, i + 1) =~= before + (seq![strip_cr(whole)]
                + lines_from(s@, i + 1)));
            cur = Vec::new();
            start = i + 1;
        } else {
            cur.push(c);
        }
        i += 1;
    }
    if start < s.len() {
        proof {
            line_end_is(s@, start as int, s.len() as int);
        }
        let ghost before = rows(out@);
        assert(cur@ =~= s@.skip(start as int));
        out.push(cur);
        assert(rows(out@) =~= before + seq![s@.skip(start as int)]);
    } else {
        assert(rows(out@) + Seq::<Seq<char>>::empty() =~= rows(out@));
    }
    out
}

/// The lines joined by single line feeds.
pub fn join_with_newlines(lines: &Vec<Vec<char>>) -> (out: Vec<char>)
    ensures
        out@ == join_lines(rows(lines@)),
{
    let mut out: Vec<char> = Vec::new();
    let mut k: usize = 0;
    while k < lines.len()
        invariant
            k <= lines.len(),
            out@ == join_lines(rows(lines@).take(k as int)),
        decreases lines.len() - k,
    {
        let ghost upto = rows(lines@).take(k + 1);
        assert(upto.drop_last() =~= rows(lines@).take(k as int));
        assert(upto.last() == lines@[k as int]@);
        if k > 0 {
            out.push('\n');
        }
        append_chars(&mut out, &lines[k]);
        assert(out@ =~= join_lines(upto));
        k += 1;
    }
    assert(rows(lines@).take(lines.len() as int) =~= rows(lines@));
    out
}

} // verus!
