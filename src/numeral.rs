//! Numerals held as character sequences, and the canonical form of a computed result.

use vstd::prelude::*;

verus! {

/// Relies on `str::chars` collected into a `Vec`: the characters of the text, in order.
#[verifier::external_body]
pub(crate) fn chars_of(s: &str) -> (r: Vec<char>)
    ensures
        r@ == s@,
{
    s.chars().collect()
}

/// Relies on collecting a `char` iterator into a `String`: the text of the characters, in order.
#[verifier::external_body]
pub(crate) fn text_of(v: &Vec<char>) -> (r: String)
    ensures
        r@ == v@,
{
    v.iter().collect()
}

/// The numeral that stands for zero.
pub open spec fn zero() -> Seq<char> {
    seq!['0']
}

/// Text with no characters reads as zero; any other text stands as it is.
pub open spec fn or_zero(t: Seq<char>) -> Seq<char> {
    if t.len() == 0 {
        zero()
    } else {
        t
    }
}

/// `t` without the zeros that end it, as long as it holds a decimal point.
pub open spec fn strip_trailing_zeros(t: Seq<char>) -> Seq<char>
    decreases t.len(),
{
    if t.len() > 0 && t.last() == '0' && t.contains('.') {
        strip_trailing_zeros(t.drop_last())
    } else {
        t
    }
}

/// The canonical form of a fixed-point result: trailing fractional zeros go,
/// then a decimal point left at the end, and nothing left at all reads as zero.
pub open spec fn canonical(t: Seq<char>) -> Seq<char> {
    let u = strip_trailing_zeros(t);
    if u.len() > 0 && u.last() == '.' {
        or_zero(u.drop_last())
    } else {
        or_zero(u)
    }
}

proof fn lemma_drop_last_zero_keeps_point(t: Seq<char>)
    requires
        t.len() > 0,
        t.last() == '0',
    ensures
        t.drop_last().contains('.') == t.contains('.'),
{
    if t.contains('.') {
        let i = choose|i: int| 0 <= i < t.len() && t[i] == '.';
        assert(i < t.len() - 1);
        assert(t.drop_last()[i] == '.');
    }
    if t.drop_last().contains('.') {
        let i = choose|i: int| 0 <= i < t.drop_last().len() && t.drop_last()[i] == '.';
        assert(t[i] == '.');
    }
}

/// A fresh vector with the characters of `v`.
pub fn copy_of(v: &Vec<char>) -> (r: Vec<char>)
    ensures
        r@ == v@,
{
    let mut r: Vec<char> = Vec::new();
    let mut i: usize = 0;
    while i < v.len()
        invariant
            i <= v.len(),
            r@ == v@.subrange(0, i as int),
        decreases v.len() - i,
    {
        r.push(v[i]);
        i = i + 1;
        assert(r@ =~= v@.subrange(0, i as int));
    }
    assert(r@ =~= v@);
    r
}

/// Appends the characters of `w` to `v`.
pub fn push_all(v: &mut Vec<char>, w: &Vec<char>)
    ensures
        final(v)@ == old(v)@ + w@,
{
    let mut i: usize = 0;
    while i < w.len()
        invariant
            i <= w.len(),
            v@ == old(v)@ + w@.subrange(0, i as int),
        decreases w.len() - i,
    {
        v.push(w[i]);
        i = i + 1;
        assert(v@ =~= old(v)@ + w@.subrange(0, i as int));
    }
    assert(w@.subrange(0, w.len() as int) =~= w@);
}

/// Whether `v` is exactly the one character `c`.
pub fn is_only(v: &Vec<char>, c: char) -> (r: bool)
    ensures
        r == (v@ == seq![c]),
{
    if v.len() == 1 && v[0] == c {
        assert(v@ =~= seq![c]);
        true
    } else {
        assert(v@.len() != 1 ==> v@ != seq![c]);
        false
    }
}

/// Whether `v` holds a decimal point.
pub fn has_point(v: &Vec<char>) -> (r: bool)
    ensures
        r == v@.contains('.'),
{
    let mut i: usize = 0;
    while i < v.len()
        invariant
            i <= v.len(),
            forall|j: int| 0 <= j < i ==> v@[j] != '.',
        decreases v.len() - i,
    {
        if v[i] == '.' {
            assert(v@[i as int] == '.');
            return true;
        }
        i = i + 1;
    }
    false
}

/// Brings a fixed-point result to its canonical form in place.
pub fn canonicalize(v: &mut Vec<char>)
    ensures
        final(v)@ == canonical(old(v)@),
{
    let point = has_point(v);
    while v.len() > 0 && v[v.len() - 1] == '0' && point
        invariant
            point == v@.contains('.'),
            strip_trailing_zeros(v@) == strip_trailing_zeros(old(v)@),
        decreases v.len(),
    {
        proof {
            lemma_drop_last_zero_keeps_point(v@);
        }
        v.pop();
    }
    if v.len() > 0 && v[v.len() - 1] == '.' {
        v.pop();
    }
    if v.len() == 0 {
        v.push('0');
    }
    assert(v@ =~= canonical(old(v)@));
}

} // verus!
