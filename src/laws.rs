//! Properties of the engine that hold over whole runs of key presses.

use vstd::prelude::*;
use crate::calculator::{next, request, settle, enter, CalcView, Message, Operation};
use crate::numeral::{or_zero, zero};

verus! {

/// The state after the keys of `ds` are pressed one after another as digits.
pub open spec fn type_digits(s: CalcView, ds: Seq<char>) -> CalcView
    decreases ds.len(),
{
    if ds.len() == 0 {
        s
    } else {
        next(type_digits(s, ds.drop_last()), Message::Num(ds.last()))
    }
}

/// `ds` without the zeros that lead it.
pub open spec fn without_leading_zeros(ds: Seq<char>) -> Seq<char>
    decreases ds.len(),
{
    if ds.len() > 0 && ds[0] == '0' {
        without_leading_zeros(ds.drop_first())
    } else {
        ds
    }
}

proof fn lemma_without_leading_zeros_push(ds: Seq<char>, d: char)
    ensures
        without_leading_zeros(ds.push(d)) == if without_leading_zeros(ds).len() == 0 {
            if d == '0' {
                Seq::<char>::empty()
            } else {
                seq![d]
            }
        } else {
            without_leading_zeros(ds).push(d)
        },
        without_leading_zeros(ds).len() > 0 ==> without_leading_zeros(ds)[0] != '0',
    decreases ds.len(),
{
    if ds.len() > 0 && ds[0] == '0' {
        assert(ds.push(d).drop_first() =~= ds.drop_first().push(d));
        lemma_without_leading_zeros_push(ds.drop_first(), d);
    } else if ds.len() == 0 {
        assert(ds.push(d) =~= seq![d]);
        if d == '0' {
            assert(seq![d].drop_first() =~= Seq::<char>::empty());
            assert(without_leading_zeros(Seq::<char>::empty()) == Seq::<char>::empty());
            assert(without_leading_zeros(seq![d]) == without_leading_zeros(seq![d].drop_first()));
        }
    } else {
        assert(ds.push(d)[0] == ds[0]);
    }
}

/// Digits typed while no operator is pending build the primary operand: they
/// are appended to it, except that a primary operand of a lone zero is
/// replaced, so that the zeros that lead the digits are dropped.
pub proof fn lemma_digits_concatenate(s: CalcView, ds: Seq<char>)
    requires
        s.wf(),
        s.sign is None,
    ensures
        type_digits(s, ds).sign is None,
        type_digits(s, ds).left == if s.left == zero() {
            or_zero(without_leading_zeros(ds))
        } else {
            s.left + ds
        },
    decreases ds.len(),
{
    if ds.len() == 0 {
        assert(s.left + ds =~= s.left);
    } else {
        let rest = ds.drop_last();
        let d = ds.last();
        lemma_digits_concatenate(s, rest);
        assert(rest.push(d) =~= ds);
        let t = type_digits(s, rest);
        if s.left == zero() {
            lemma_without_leading_zeros_push(rest, d);
            let w = without_leading_zeros(rest);
            if w.len() == 0 {
                assert(enter(t.left, d) =~= seq![d]);
                if d == '0' {
                    assert(seq![d] =~= zero());
                }
            } else {
                assert(w != zero());
            }
        } else {
            assert(t.left.len() >= 2 || t.left == s.left);
            assert(t.left != zero());
            assert(t.left.push(d) =~= s.left + ds);
        }
    }
}

/// Equals without a secondary operand asks for nothing and changes nothing,
/// however often it is pressed.
pub proof fn lemma_equals_without_operand_is_idle(s: CalcView)
    requires
        s.right.len() == 0,
    ensures
        request(s, Message::Ans) is None,
        next(s, Message::Ans) == (CalcView { pending: None, ..s }),
        request(next(s, Message::Ans), Message::Ans) is None,
        next(next(s, Message::Ans), Message::Ans) == next(s, Message::Ans),
{
}

/// A square root that has no value (of a negative number) leaves the state as
/// it was.
pub proof fn lemma_undefined_root_is_idle(s: CalcView)
    ensures
        request(s, Message::Special('s')) == Some((Operation::SquareRoot, s.left, Seq::<char>::empty())),
        settle(next(s, Message::Special('s')), None) == (CalcView { pending: None, ..s }),
{
}

} // verus!
