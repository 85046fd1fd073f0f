//! Character-level string helpers: conversion between strings and character
//! vectors, and replacement of every occurrence of a pattern.

use vstd::prelude::*;

verus! {

/// Leftmost, non-overlapping replacement of every occurrence of `pat` in `s`
/// by `rep`, scanning from the start: the behaviour of `str::replace`.
pub open spec fn replaced(s: Seq<char>, pat: Seq<char>, rep: Seq<char>) -> Seq<char>
    decreases s.len(),
{
    if pat.len() == 0 || s.len() == 0 {
        s
    } else if pat.len() <= s.len() && s.subrange(0, pat.len() as int) == pat {
        rep + replaced(s.subrange(pat.len() as int, s.len() as int), pat, rep)
    } else {
        seq![s[0]] + replaced(s.subrange(1, s.len() as int), pat, rep)
    }
}

/// `s` holds no `{`.
pub open spec fn brace_free(s: Seq<char>) -> bool {
    forall|i: int| 0 <= i < s.len() ==> s[i] != '{'
}

/// `p` is a placeholder pattern: non-empty, starting with `{`.
pub open spec fn opens_with_brace(p: Seq<char>) -> bool {
    p.len() > 0 && p[0] == '{'
}

/// Replacing a pattern that starts with `{` leaves text without `{` alone.
pub proof fn lemma_replaced_brace_free(s: Seq<char>, p: Seq<char>, r: Seq<char>)
    requires
        opens_with_brace(p),
        brace_free(s),
    ensures
        replaced(s, p, r) == s,
    decreases s.len(),
{
    if s.len() > 0 {
        if p.len() <= s.len() {
            assert(s.subrange(0, p.len() as int)[0] == s[0]);
        }
        let rest = s.subrange(1, s.len() as int);
        lemma_replaced_brace_free(rest, p, r);
        assert(seq![s[0]] + rest =~= s);
    }
}

/// Replacing a pattern that starts with `{` leaves `{` followed by text
/// without `{` alone, when that text does not begin the pattern.
pub proof fn lemma_replaced_other_placeholder(s: Seq<char>, p: Seq<char>, r: Seq<char>)
    requires
        opens_with_brace(p),
        s.len() > 0,
        brace_free(s.subrange(1, s.len() as int)),
        !(p.len() <= s.len() && s.subrange(0, p.len() as int) == p),
    ensures
        replaced(s, p, r) == s,
{
    let rest = s.subrange(1, s.len() as int);
    lemma_replaced_brace_free(rest, p, r);
    assert(seq![s[0]] + rest =~= s);
}

/// A character that does not occur in the pattern separates the text:
/// replacement acts on each side independently.
pub proof fn lemma_replaced_split(x: Seq<char>, c: char, y: Seq<char>, p: Seq<char>, r: Seq<char>)
    requires
        p.len() > 0,
        forall|i: int| 0 <= i < p.len() ==> p[i] != c,
    ensures
        replaced(x + seq![c] + y, p, r) == replaced(x, p, r) + seq![c] + replaced(y, p, r),
    decreases x.len(),
{
    let s = x + seq![c] + y;
    if x.len() == 0 {
        assert(x + seq![c] + y =~= seq![c] + y);
        if p.len() <= s.len() {
            assert(s.subrange(0, p.len() as int)[0] == c);
        }
        assert(s.subrange(1, s.len() as int) =~= y);
        assert(replaced(x, p, r) == x);
        assert(x + seq![c] + replaced(y, p, r) =~= seq![c] + replaced(y, p, r));
    } else {
        let m = p.len() <= s.len() && s.subrange(0, p.len() as int) == p;
        if m {
            if p.len() > x.len() {
                assert(s.subrange(0, p.len() as int)[x.len() as int] == c);
                assert(false);
            }
            assert(x.subrange(0, p.len() as int) =~= s.subrange(0, p.len() as int));
            let xr = x.subrange(p.len() as int, x.len() as int);
            assert(s.subrange(p.len() as int, s.len() as int) =~= xr + seq![c] + y);
            lemma_replaced_split(xr, c, y, p, r);
            assert(r + (replaced(xr, p, r) + seq![c] + replaced(y, p, r)) =~= (r + replaced(
                xr,
                p,
                r,
            )) + seq![c] + replaced(y, p, r));
        } else {
            if p.len() <= x.len() {
                assert(x.subrange(0, p.len() as int) =~= s.subrange(0, p.len() as int));
            }
            let xr = x.subrange(1, x.len() as int);
            assert(s.subrange(1, s.len() as int) =~= xr + seq![c] + y);
            assert(s[0] == x[0]);
            lemma_replaced_split(xr, c, y, p, r);
            assert(seq![x[0]] + (replaced(xr, p, r) + seq![c] + replaced(y, p, r)) =~= (seq![x[0]]
                + replaced(xr, p, r)) + seq![c] + replaced(y, p, r));
        }
    }
}

/// The characters of `s`, in order.
pub fn chars_of(s: &str) -> (v: Vec<char>)
    ensures
        v@ == s@,
{
    broadcast use vstd::string::group_string_axioms;

    let mut v: Vec<char> = Vec::new();
    for c in it: s.chars()
        invariant
            v@ == it.seq().take(it.index() as int),
            it.seq() == s@,
    {
        v.push(c);
        assert(it.seq().take(it.index() + 1) == it.seq().take(it.index() as int).push(c));
    }
    v
}

/// A string holding the characters of `v`, in order.
///
/// Trusted: wraps `FromIterator<&char>` for `String` (`Iterator::collect`),
/// which std documents as building the string from the characters in
/// iteration order.
#[verifier::external_body]
pub fn string_of(v: &Vec<char>) -> (s: String)
    ensures
        s@ == v@,
{
    v.iter().collect()
}

/// Whether `pat` occurs in `s` starting at index `i`.
fn occurs_at(s: &Vec<char>, i: usize, pat: &Vec<char>) -> (r: bool)
    requires
        i + pat@.len() <= s@.len(),
    ensures
        r == (s@.subrange(i as int, i + pat@.len()) == pat@),
{
    let n = s.len();
    let mut j: usize = 0;
    while j < pat.len()
        invariant
            j <= pat@.len(),
            n == s@.len(),
            i + pat@.len() <= s@.len(),
            forall|k: int| 0 <= k < j ==> s@[i + k] == pat@[k],
        decreases pat@.len() - j,
    {
        if s[i + j] != pat[j] {
            assert(s@.subrange(i as int, i + pat@.len())[j as int] != pat@[j as int]);
            return false;
        }
        j = j + 1;
    }
    assert(s@.subrange(i as int, i + pat@.len()) =~= pat@);
    true
}

/// Appends every character of `extra` to `out`.
fn push_all(out: &mut Vec<char>, extra: &Vec<char>)
    ensures
        final(out)@ == old(out)@ + extra@,
{
    let mut k: usize = 0;
    while k < extra.len()
        invariant
            k <= extra@.len(),
            out@ == old(out)@ + extra@.take(k as int),
        decreases extra@.len() - k,
    {
        out.push(extra[k]);
        assert(extra@.take(k + 1) == extra@.take(k as int).push(extra@[k as int]));
        k = k + 1;
    }
    assert(extra@.take(k as int) == extra@);
}

/// One unfolding of `replaced` at position `i` of `s`.
proof fn lemma_replaced_step(s: Seq<char>, i: int, pat: Seq<char>, rep: Seq<char>)
    requires
        0 <= i < s.len(),
        pat.len() > 0,
    ensures
        i + pat.len() <= s.len() && s.subrange(i, i + pat.len()) == pat ==> replaced(
            s.subrange(i, s.len() as int),
            pat,
            rep,
        ) == rep + replaced(s.subrange(i + pat.len(), s.len() as int), pat, rep),
        !(i + pat.len() <= s.len() && s.subrange(i, i + pat.len()) == pat) ==> replaced(
            s.subrange(i, s.len() as int),
            pat,
            rep,
        ) == seq![s[i]] + replaced(s.subrange(i + 1, s.len() as int), pat, rep),
{
    let t = s.subrange(i, s.len() as int);
    assert(t.subrange(0, pat.len() as int) =~= s.subrange(i, i + pat.len()) || pat.len() > t.len());
    if pat.len() <= t.len() {
        assert(t.subrange(0, pat.len() as int) =~= s.subrange(i, i + pat.len()));
        assert(t.subrange(pat.len() as int, t.len() as int) =~= s.subrange(
            i + pat.len(),
            s.len() as int,
        ));
    }
    assert(t.subrange(1, t.len() as int) =~= s.subrange(i + 1, s.len() as int));
}

/// Every occurrence of `pat` in `s` replaced by `rep`, leftmost first and
/// without overlap.
pub fn replace_all(s: &Vec<char>, pat: &Vec<char>, rep: &Vec<char>) -> (r: Vec<char>)
    requires
        pat@.len() > 0,
    ensures
        r@ == replaced(s@, pat@, rep@),
{
    let mut out: Vec<char> = Vec::new();
    let mut i: usize = 0;
    assert(s@.subrange(0, s@.len() as int) =~= s@);
    while i < s.len()
        invariant
            i <= s@.len(),
            pat@.len() > 0,
            out@ + replaced(s@.subrange(i as int, s@.len() as int), pat@, rep@) == replaced(
                s@,
                pat@,
                rep@,
            ),
        decreases s@.len() - i,
    {
        proof {
            lemma_replaced_step(s@, i as int, pat@, rep@);
        }
        if pat.len() <= s.len() - i && occurs_at(s, i, pat) {
            let ghost before = out@;
            push_all(&mut out, rep);
            assert(out@ + replaced(s@.subrange(i + pat@.len(), s@.len() as int), pat@, rep@)
                =~= before + (rep@ + replaced(
                s@.subrange(i + pat@.len(), s@.len() as int),
                pat@,
                rep@,
            )));
            i = i + pat.len();
        } else {
            let ghost before = out@;
            out.push(s[i]);
            assert(out@ + replaced(s@.subrange(i + 1, s@.len() as int), pat@, rep@) =~= before
                + (seq![s@[i as int]] + replaced(s@.subrange(i + 1, s@.len() as int), pat@, rep@)));
            i = i + 1;
        }
    }
    assert(s@.subrange(i as int, s@.len() as int) =~= Seq::<char>::empty());
    assert(out@ + Seq::<char>::empty() =~= out@);
    out
}

} // verus!
