//! Character-sequence helpers shared by the name and label code.

use vstd::prelude::*;

verus! {

/// Appends one character to a string, as `String::push` does.
#[verifier::external_body]
pub(crate) fn push_char(s: &mut String, c: char)
    ensures
        final(s)@ == old(s)@.push(c),
{
    s.push(c);
}

/// The ASCII lowercase form of a character; every other character stays as it is.
pub open spec fn ascii_lower(c: char) -> char {
    if 'A' <= c && c <= 'Z' {
        ((c as u32) + 32) as char
    } else {
        c
    }
}

/// Lowercases the ASCII letters of a sequence.
pub open spec fn lower_chars(s: Seq<char>) -> Seq<char> {
    Seq::new(s.len(), |i: int| ascii_lower(s[i]))
}

/// ASCII lowercase of one character.
pub fn lower_char(c: char) -> (r: char)
    ensures
        r == ascii_lower(c),
{
    if 'A' <= c && c <= 'Z' {
        ((c as u8) + 32) as char
    } else {
        c
    }
}

/// Lowercases the ASCII letters of `s`, leaving every other character as it is.
pub fn ascii_lowercase(s: &str) -> (r: String)
    ensures
        r@ == lower_chars(s@),
{
    let n = s.unicode_len();
    let mut r = String::new();
    for i in 0..n
        invariant
            n == s@.len(),
            r@ == lower_chars(s@).take(i as int),
    {
        let c = lower_char(s.get_char(i));
        push_char(&mut r, c);
        assert(lower_chars(s@).take(i + 1) =~= lower_chars(s@).take(i as int).push(c));
    }
    assert(lower_chars(s@).take(n as int) =~= lower_chars(s@));
    r
}

/// Segments joined by a separator character: `["a", "b"]` joined by `.` is `a.b`.
pub open spec fn join_with(segs: Seq<Seq<char>>, sep: char) -> Seq<char>
    decreases segs.len(),
{
    if segs.len() == 0 {
        Seq::empty()
    } else if segs.len() == 1 {
        segs[0]
    } else {
        join_with(segs.drop_last(), sep).push(sep) + segs.last()
    }
}

/// The pieces of `s` between the occurrences of `sep`, as `str::split` yields them:
/// `"a.b"` gives `["a", "b"]`, the empty text gives one empty piece.
pub open spec fn split_on(s: Seq<char>, sep: char) -> Seq<Seq<char>>
    decreases s.len(),
{
    if s.len() == 0 {
        seq![Seq::empty()]
    } else {
        let rest = split_on(s.drop_last(), sep);
        if s.last() == sep {
            rest.push(Seq::empty())
        } else {
            rest.update(rest.len() - 1, rest.last().push(s.last()))
        }
    }
}

/// Splitting always yields at least one piece.
pub proof fn lemma_split_nonempty(s: Seq<char>, sep: char)
    ensures
        split_on(s, sep).len() >= 1,
    decreases s.len(),
{
    if s.len() > 0 {
        lemma_split_nonempty(s.drop_last(), sep);
    }
}

/// Joining one, two or three segments.
pub proof fn lemma_join_small(a: Seq<char>, b: Seq<char>, c: Seq<char>, sep: char)
    ensures
        join_with(seq![a], sep) == a,
        join_with(seq![a, b], sep) == a.push(sep) + b,
        join_with(seq![a, b, c], sep) == (a.push(sep) + b).push(sep) + c,
{
    assert(seq![a, b].drop_last() =~= seq![a]);
    assert(seq![a, b, c].drop_last() =~= seq![a, b]);
    assert(join_with(seq![a], sep) == a);
    assert(join_with(seq![a, b], sep) == join_with(seq![a], sep).push(sep) + b);
    assert(join_with(seq![a, b, c], sep) == join_with(seq![a, b], sep).push(sep) + c);
}

} // verus!
