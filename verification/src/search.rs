//! Library search: the `LIKE` pattern a query becomes.
//!
//! The query is matched as literal text inside titles, artists and albums.
//! `%` and `_` are `LIKE` wildcards and `\` is the escape character the
//! search uses, so each of them is written with a `\` before it.

use vstd::prelude::*;
use crate::text::{chars_of, string_from_chars};

verus! {

/// True of the three characters the pattern language gives a meaning.
pub open spec fn is_like_special(c: char) -> bool {
    c == '\\' || c == '%' || c == '_'
}

/// How one query character is written in the pattern.
pub open spec fn escape_char(c: char) -> Seq<char> {
    if is_like_special(c) {
        seq!['\\', c]
    } else {
        seq![c]
    }
}

/// The query with every special character escaped.
pub open spec fn spec_escape_like(q: Seq<char>) -> Seq<char>
    decreases q.len(),
{
    if q.len() == 0 {
        Seq::empty()
    } else {
        escape_char(q[0]) + spec_escape_like(q.skip(1))
    }
}

/// The pattern a query becomes: its escaped text anywhere in the field.
pub open spec fn spec_search_pattern(q: Seq<char>) -> Seq<char> {
    seq!['%'] + spec_escape_like(q) + seq!['%']
}

/// The literal text an escaped pattern stands for, reading `\x` as `x`.
pub open spec fn unescape(s: Seq<char>) -> Seq<char>
    decreases s.len(),
{
    if s.len() == 0 {
        Seq::empty()
    } else if s[0] == '\\' && s.len() >= 2 {
        seq![s[1]] + unescape(s.skip(2))
    } else {
        seq![s[0]] + unescape(s.skip(1))
    }
}

/// True when `s` holds no wildcard that is not escaped: read as a pattern,
/// it matches exactly its own literal text.
pub open spec fn literal_only(s: Seq<char>) -> bool
    decreases s.len(),
{
    if s.len() == 0 {
        true
    } else if s[0] == '\\' {
        s.len() >= 2 && literal_only(s.skip(2))
    } else if s[0] == '%' || s[0] == '_' {
        false
    } else {
        literal_only(s.skip(1))
    }
}

proof fn lemma_escape_concat(a: Seq<char>, b: Seq<char>)
    ensures
        spec_escape_like(a + b) == spec_escape_like(a) + spec_escape_like(b),
    decreases a.len(),
{
    if a.len() == 0 {
        assert(a + b =~= b);
    } else {
        assert((a + b).skip(1) =~= a.skip(1) + b);
        lemma_escape_concat(a.skip(1), b);
        assert((a + b)[0] == a[0]);
        assert(spec_escape_like(a + b) =~= escape_char(a[0]) + (spec_escape_like(a.skip(1))
            + spec_escape_like(b)));
    }
}

proof fn lemma_escape_push(a: Seq<char>, c: char)
    ensures
        spec_escape_like(a.push(c)) == spec_escape_like(a) + escape_char(c),
{
    lemma_escape_concat(a, seq![c]);
    let one = seq![c];
    assert(one[0] == c);
    assert(one.skip(1) =~= Seq::<char>::empty());
    assert(spec_escape_like(one.skip(1)) =~= Seq::<char>::empty());
    assert(spec_escape_like(one) =~= escape_char(c));
    assert(a.push(c) =~= a + seq![c]);
}

/// Escaping is undone by reading the pattern back: the search looks for
/// exactly the text that was typed.
pub proof fn law_escape_round_trip(q: Seq<char>)
    ensures
        unescape(spec_escape_like(q)) == q,
    decreases q.len(),
{
    if q.len() > 0 {
        law_escape_round_trip(q.skip(1));
        let e = spec_escape_like(q);
        let rest = spec_escape_like(q.skip(1));
        if is_like_special(q[0]) {
            assert(e.skip(2) =~= rest);
            assert(e[0] == '\\' && e[1] == q[0]);
        } else {
            assert(e.skip(1) =~= rest);
            assert(e[0] == q[0]);
        }
        assert(unescape(e) =~= q);
    }
}

/// An escaped query holds no bare wildcard, so "100%" finds only "100%".
pub proof fn law_escaped_is_literal(q: Seq<char>)
    ensures
        literal_only(spec_escape_like(q)),
    decreases q.len(),
{
    if q.len() > 0 {
        law_escaped_is_literal(q.skip(1));
        let e = spec_escape_like(q);
        let rest = spec_escape_like(q.skip(1));
        if is_like_special(q[0]) {
            assert(e.skip(2) =~= rest);
        } else {
            assert(e.skip(1) =~= rest);
        }
    }
}

fn escape_into(out: &mut Vec<char>, q: &Vec<char>)
    ensures
        final(out)@ == old(out)@ + spec_escape_like(q@),
{
    let ghost start = out@;
    for i in 0..q.len()
        invariant
            out@ == start + spec_escape_like(q@.take(i as int)),
    {
        let c = q[i];
        proof {
            lemma_escape_push(q@.take(i as int), c);
            assert(q@.take(i as int + 1) =~= q@.take(i as int).push(c));
        }
        if c == '\\' || c == '%' || c == '_' {
            out.push('\\');
        }
        out.push(c);
        assert(out@ =~= start + spec_escape_like(q@.take(i as int + 1)));
    }
    assert(q@.take(q.len() as int) =~= q@);
}

/// The query with `\`, `%` and `_` each escaped by a `\`.
pub fn escape_like(query: &str) -> (r: String)
    ensures
        r@ == spec_escape_like(query@),
{
    let q = chars_of(query);
    let mut out: Vec<char> = Vec::new();
    escape_into(&mut out, &q);
    assert(out@ =~= spec_escape_like(query@));
    string_from_chars(&out)
}

/// The pattern a search for `query` runs with: the escaped query between two `%`.
pub fn search_pattern(query: &str) -> (r: String)
    ensures
        r@ == spec_search_pattern(query@),
        r@.len() == spec_escape_like(query@).len() + 2,
        r@[0] == '%',
        r@[r@.len() - 1] == '%',
        r@.subrange(1, r@.len() - 1) == spec_escape_like(query@),
{
    let q = chars_of(query);
    let mut out: Vec<char> = Vec::new();
    out.push('%');
    escape_into(&mut out, &q);
    out.push('%');
    proof {
        law_pattern_matches_anywhere(query@);
    }
    string_from_chars(&out)
}

/// A search pattern is the escaped query with one `%` before and one after,
/// whatever the query: the query matches anywhere in a field.
pub proof fn law_pattern_matches_anywhere(q: Seq<char>)
    ensures
        spec_search_pattern(q).len() == spec_escape_like(q).len() + 2,
        spec_search_pattern(q)[0] == '%',
        spec_search_pattern(q)[spec_search_pattern(q).len() - 1] == '%',
        spec_search_pattern(q).subrange(1, spec_search_pattern(q).len() - 1) == spec_escape_like(q),
{
    let p = spec_search_pattern(q);
    assert(p.subrange(1, p.len() - 1) =~= spec_escape_like(q));
}

} // verus!
