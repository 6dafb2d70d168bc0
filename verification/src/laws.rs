//! What holds of the interval algebra for all intervals.
//!
//! The concrete values that an interval stands for are 128-bit signed
//! integers. The exact result of an operation on two of them is an unbounded
//! integer, and an interval holds it in the sense of `Bounds::contains`: a
//! bound at `i128::MIN` or `i128::MAX` excludes nothing.

use crate::arithmetic::{
    lemma_product_is_between, lemma_truncated_quotient_is_monotonic,
    lemma_truncated_quotient_is_no_larger, lemma_truncated_quotient_shrinks,
    lemma_truncated_remainder_is_small, saturate, truncated_quotient, truncated_remainder,
};
use crate::bounds::Bounds;
use crate::expression::ExpressionType;
use crate::interval_domain::IntervalDomain;
use vstd::prelude::*;

verus! {

/// Addition is sound: the sum of a member of `a` and a member of `b` lies
/// within `a + b`.
pub proof fn add_is_sound(a: IntervalDomain, b: IntervalDomain, p: i128, q: i128)
    requires
        a@.contains(p as int),
        b@.contains(q as int),
    ensures
        a@.add(b@).contains(p + q),
{
    a.lemma_view_is_representable();
    b.lemma_view_is_representable();
}

/// Subtraction is sound: the difference of a member of `a` and a member of `b`
/// lies within `a - b`.
pub proof fn sub_is_sound(a: IntervalDomain, b: IntervalDomain, p: i128, q: i128)
    requires
        a@.contains(p as int),
        b@.contains(q as int),
    ensures
        a@.sub(b@).contains(p - q),
{
    a.lemma_view_is_representable();
    b.lemma_view_is_representable();
}

/// Multiplication is sound: the product of a member of `a` and a member of `b`
/// lies within `a * b`.
pub proof fn mul_is_sound(a: IntervalDomain, b: IntervalDomain, p: i128, q: i128)
    requires
        a@.contains(p as int),
        b@.contains(q as int),
    ensures
        a@.mul(b@).contains(p * q),
{
    a.lemma_view_is_representable();
    b.lemma_view_is_representable();
    if !a@.either_is_top(b@) {
        let (x, y) = (a@.lower, a@.upper);
        lemma_product_is_between(p as int, x, y, q as int);
        lemma_product_is_between(q as int, b@.lower, b@.upper, x);
        lemma_product_is_between(q as int, b@.lower, b@.upper, y);
        assert(x * q == q * x && y * q == q * y) by (nonlinear_arith);
        assert(x * b@.lower == b@.lower * x && x * b@.upper == b@.upper * x) by (nonlinear_arith);
        assert(y * b@.lower == b@.lower * y && y * b@.upper == b@.upper * y) by (nonlinear_arith);
    }
}

/// Negation is sound: the negation of a member of `a` lies within `-a`.
pub proof fn neg_is_sound(a: IntervalDomain, p: i128)
    requires
        a@.contains(p as int),
    ensures
        a@.neg().contains(-p),
{
    a.lemma_view_is_representable();
}

/// Division is sound on the operands for which `Bounds::division_is_sound`
/// holds: the quotient of a member of `a` by a member of `b`, rounded toward
/// zero, lies within `a / b`.
pub proof fn div_is_sound(a: IntervalDomain, b: IntervalDomain, p: i128, q: i128)
    requires
        a@.contains(p as int),
        b@.contains(q as int),
        a@.division_is_sound(b@),
    ensures
        !a@.div(b@).is_bottom() ==> a@.div(b@).contains(truncated_quotient(p as int, q as int)),
{
    a.lemma_view_is_representable();
    b.lemma_view_is_representable();
    let quotient = a@.div(b@);
    if !quotient.is_top() && !quotient.is_bottom() {
        let (x, y) = (a@.lower, a@.upper);
        let (c, d) = (b@.lower, b@.upper);
        lemma_truncated_quotient_is_no_larger(p as int, q as int);
        lemma_truncated_quotient_is_no_larger(x, d);
        lemma_truncated_quotient_is_no_larger(y, c);
        // From the lower corner to the quotient.
        lemma_truncated_quotient_shrinks(x, q as int, d);
        lemma_truncated_quotient_shrinks(x, c, q as int);
        lemma_truncated_quotient_is_monotonic(x, p as int, q as int);
        // From the quotient to the upper corner.
        lemma_truncated_quotient_shrinks(y, q as int, d);
        lemma_truncated_quotient_shrinks(y, c, q as int);
        lemma_truncated_quotient_is_monotonic(p as int, y, q as int);
    }
}

/// Division is sound on no other operands: where `Bounds::division_is_sound`
/// fails, some member of `a` and some member of `b` have a quotient outside
/// `a / b`.
pub proof fn div_is_sound_nowhere_else(a: IntervalDomain, b: IntervalDomain) -> (witness: (
    i128,
    i128,
))
    requires
        !a@.division_is_sound(b@),
    ensures
        a@.contains(witness.0 as int),
        b@.contains(witness.1 as int),
        !a@.div(b@).is_bottom(),
        !a@.div(b@).contains(truncated_quotient(witness.0 as int, witness.1 as int)),
{
    a.lemma_view_is_representable();
    b.lemma_view_is_representable();
    let (x, y) = (a@.lower, a@.upper);
    let (c, d) = (b@.lower, b@.upper);
    lemma_truncated_quotient_shrinks(x, c, d);
    lemma_truncated_quotient_shrinks(y, c, d);
    lemma_truncated_quotient_is_no_larger(x, c);
    lemma_truncated_quotient_is_no_larger(y, d);
    lemma_truncated_quotient_is_no_larger(y, c);
    if x < 0 && truncated_quotient(x, c) != truncated_quotient(x, d) {
        (x as i128, c as i128)
    } else {
        (y as i128, d as i128)
    }
}

/// Taking the remainder is sound: the remainder of a member of `a` by a member
/// of `b`, with the sign of the dividend, lies within `a % b`.
pub proof fn rem_is_sound(a: IntervalDomain, b: IntervalDomain, p: i128, q: i128)
    requires
        a@.contains(p as int),
        b@.contains(q as int),
    ensures
        a@.rem(b@).contains(truncated_remainder(p as int, q as int)),
{
    a.lemma_view_is_representable();
    b.lemma_view_is_representable();
    if !a@.rem(b@).is_top() {
        lemma_truncated_remainder_is_small(p as int, q as int);
    }
}

/// Intersecting with `top()` changes nothing, but for an empty interval other
/// than `bottom()`, which becomes `bottom()`.
pub proof fn intersect_with_top_is_identity(x: IntervalDomain)
    requires
        x@.is_bottom() ==> x@ == Bounds::bottom(),
    ensures
        x@.intersect(Bounds::top()) == x@,
        Bounds::top().intersect(x@) == x@,
{
}

/// Widening with `bottom()` gives `bottom()`, whatever the other operand: it
/// gives the other operand back only where that is `bottom()` itself.
pub proof fn widen_with_bottom_is_bottom(x: IntervalDomain)
    ensures
        x@.widen(Bounds::bottom()) == Bounds::bottom(),
        Bounds::bottom().widen(x@) == Bounds::bottom(),
        x@.widen(Bounds::bottom()) == x@ <==> x@ == Bounds::bottom(),
{
}

/// Adding `bottom()` gives an empty interval, whatever the other operand.
pub proof fn add_with_bottom_is_bottom(x: IntervalDomain)
    ensures
        x@.add(Bounds::bottom()).is_bottom(),
        Bounds::bottom().add(x@).is_bottom(),
{
}

/// Addition is commutative.
pub proof fn add_is_commutative(a: IntervalDomain, b: IntervalDomain)
    ensures
        a@.add(b@) == b@.add(a@),
{
}

/// Multiplication is commutative.
pub proof fn mul_is_commutative(a: IntervalDomain, b: IntervalDomain)
    ensures
        a@.mul(b@) == b@.mul(a@),
{
    let (x, y) = (a@.lower, a@.upper);
    let (c, d) = (b@.lower, b@.upper);
    assert(x * c == c * x && x * d == d * x) by (nonlinear_arith);
    assert(y * c == c * y && y * d == d * y) by (nonlinear_arith);
}

/// Intersection is commutative.
pub proof fn intersect_is_commutative(a: IntervalDomain, b: IntervalDomain)
    ensures
        a@.intersect(b@) == b@.intersect(a@),
{
}

/// Widening is commutative.
pub proof fn widen_is_commutative(a: IntervalDomain, b: IntervalDomain)
    ensures
        a@.widen(b@) == b@.widen(a@),
{
}

/// Where `a` is known to be less than `b`, it is known to be less than or
/// equal to `b`, and known not to be greater than or equal to `b`.
pub proof fn less_than_agrees_with_the_others(a: IntervalDomain, b: IntervalDomain)
    requires
        a@.less_than(b@) == Some(true),
    ensures
        a@.less_equal(b@) == Some(true),
        a@.greater_or_equal(b@) == Some(false),
{
}

/// An interval that is not empty and lies within the bounds of one that is
/// contained in a type is contained in that type too.
pub proof fn containment_is_monotonic(a: IntervalDomain, b: IntervalDomain, kind: ExpressionType)
    requires
        a@.is_contained_in(kind),
        a@.lower <= b@.lower,
        b@.upper <= a@.upper,
        !b@.is_bottom(),
    ensures
        b@.is_contained_in(kind),
{
    a.lemma_view_is_representable();
    b.lemma_view_is_representable();
}

/// Widening never shrinks: where neither operand is empty, the result reaches
/// at least as far as each operand on both sides.
pub proof fn widen_covers_both(a: IntervalDomain, b: IntervalDomain)
    requires
        !a@.is_bottom(),
        !b@.is_bottom(),
    ensures
        a@.widen(b@).lower <= a@.lower <= a@.upper <= a@.widen(b@).upper,
        a@.widen(b@).lower <= b@.lower <= b@.upper <= a@.widen(b@).upper,
{
    a.lemma_view_is_representable();
    b.lemma_view_is_representable();
}

/// Widening makes progress toward `top()`: where neither operand is empty, the
/// result either is the first operand or leaves strictly less room between its
/// bounds and the ends of the 128-bit range. A chain of widenings therefore
/// stops changing after at most `a@.room()` steps.
pub proof fn widen_uses_up_room(a: IntervalDomain, b: IntervalDomain)
    requires
        !a@.is_bottom(),
        !b@.is_bottom(),
    ensures
        a@.widen(b@) == a@ || a@.widen(b@).room() < a@.room(),
        a@.widen(b@).room() == 0 <==> a@.widen(b@).is_top(),
{
    a.lemma_view_is_representable();
    b.lemma_view_is_representable();
}

/// The answers of the comparisons are sound: an answer of `Some(true)` holds
/// of every member of `a` with every member of `b`, and an answer of
/// `Some(false)` of none.
pub proof fn comparisons_are_sound(a: IntervalDomain, b: IntervalDomain, p: i128, q: i128)
    requires
        a@.contains(p as int),
        b@.contains(q as int),
    ensures
        a@.less_than(b@) is Some ==> a@.less_than(b@) == Some(p < q),
        a@.less_equal(b@) is Some ==> a@.less_equal(b@) == Some(p <= q),
        a@.greater_than(b@) is Some ==> a@.greater_than(b@) == Some(p > q),
        a@.greater_or_equal(b@) is Some ==> a@.greater_or_equal(b@) == Some(p >= q),
{
    a.lemma_view_is_representable();
    b.lemma_view_is_representable();
}

/// The containment queries are sound: every member of an interval that is
/// contained in a type is a value of that type, and every member of one that
/// is contained in the width of a type is a bit position of that type.
pub proof fn containment_is_sound(a: IntervalDomain, kind: ExpressionType, p: i128)
    requires
        a@.contains(p as int),
    ensures
        a@.is_contained_in(kind) ==> kind.min_value() <= p <= kind.max_value(),
        a@.is_contained_in_width_of(kind) ==> 0 <= p < kind.bit_width(),
{
    a.lemma_view_is_representable();
}

/// The intersection holds what both operands hold.
pub proof fn intersect_is_sound(a: IntervalDomain, b: IntervalDomain, p: i128)
    requires
        a@.contains(p as int),
        b@.contains(p as int),
    ensures
        a@.intersect(b@).contains(p as int),
{
    a.lemma_view_is_representable();
    b.lemma_view_is_representable();
}

/// Each constructor gives an interval that holds what it was made from: the
/// number itself, and every value of the integer type.
pub proof fn constructors_are_sound(i: i128, u: u128, kind: ExpressionType, v: int)
    requires
        kind.is_integer(),
        kind.min_value() <= v <= kind.max_value(),
    ensures
        Bounds::singleton(i as int).contains(i as int),
        Bounds::singleton(saturate(u as int)).contains(u as int),
        Bounds::of_kind(kind).contains(v),
{
}

} // verus!
