//! Saturating and truncating arithmetic on 128-bit signed integers, stated
//! against arithmetic on unbounded integers.

use vstd::prelude::*;

verus! {

/// The integer nearest to `v` that a 128-bit signed integer can hold.
pub open spec fn saturate(v: int) -> int {
    if v < i128::MIN {
        i128::MIN as int
    } else if v > i128::MAX {
        i128::MAX as int
    } else {
        v
    }
}

/// The quotient of `n` by `d`, rounded toward zero: the quotient of the two
/// magnitudes, negative where the signs differ.
pub open spec fn truncated_quotient(n: int, d: int) -> int {
    if n >= 0 && d >= 0 {
        n / d
    } else if n >= 0 {
        -(n / (-d))
    } else if d >= 0 {
        -((-n) / d)
    } else {
        (-n) / (-d)
    }
}

/// What is left of `n` after taking out `d` times the quotient rounded toward
/// zero; it has the sign of `n`.
pub open spec fn truncated_remainder(n: int, d: int) -> int {
    n - d * truncated_quotient(n, d)
}

/// `x + y`, held at the nearest end of the 128-bit range where the sum leaves it.
pub(crate) fn saturating_add(x: i128, y: i128) -> (sum: i128)
    ensures
        sum == saturate(x + y),
{
    match x.checked_add(y) {
        Some(sum) => sum,
        None => if y > 0 {
            i128::MAX
        } else {
            i128::MIN
        },
    }
}

/// `x - y`, held at the nearest end of the 128-bit range where the difference
/// leaves it.
pub(crate) fn saturating_sub(x: i128, y: i128) -> (difference: i128)
    ensures
        difference == saturate(x - y),
{
    match x.checked_sub(y) {
        Some(difference) => difference,
        None => if y < 0 {
            i128::MAX
        } else {
            i128::MIN
        },
    }
}

/// `x * y`, held at the nearest end of the 128-bit range where the product
/// leaves it.
pub(crate) fn saturating_mul(x: i128, y: i128) -> (product: i128)
    ensures
        product == saturate(x * y),
{
    match x.checked_mul(y) {
        Some(product) => product,
        None => {
            proof {
                lemma_sign_of_product(x as int, y as int);
            }
            if (x < 0) == (y < 0) {
                i128::MAX
            } else {
                i128::MIN
            }
        },
    }
}

/// `-x`, or `i128::MAX` for the one `x` whose negation leaves the 128-bit range.
pub(crate) fn saturating_neg(x: i128) -> (negation: i128)
    ensures
        negation == saturate(-x),
{
    if x == i128::MIN {
        i128::MAX
    } else {
        -x
    }
}

/// The quotient of `n` by a positive `d`, rounded toward zero.
pub(crate) fn truncating_div(n: i128, d: i128) -> (quotient: i128)
    requires
        d > 0,
    ensures
        quotient == truncated_quotient(n as int, d as int),
{
    proof {
        lemma_truncated_quotient_is_no_larger(n as int, d as int);
    }
    n.checked_div(d).unwrap()
}

/// A product is negative only where the factors differ in sign, and positive
/// only where they agree.
pub proof fn lemma_sign_of_product(x: int, y: int)
    ensures
        x * y > 0 ==> (x < 0) == (y < 0),
        x * y < 0 ==> (x < 0) != (y < 0),
{
    assert(x * y > 0 ==> (x < 0) == (y < 0)) by (nonlinear_arith);
    assert(x * y < 0 ==> (x < 0) != (y < 0)) by (nonlinear_arith);
}

/// Dividing by a positive number and rounding toward zero gives a number
/// between zero and the dividend.
pub proof fn lemma_truncated_quotient_is_no_larger(n: int, d: int)
    requires
        d > 0,
    ensures
        n >= 0 ==> 0 <= truncated_quotient(n, d) <= n,
        n <= 0 ==> n <= truncated_quotient(n, d) <= 0,
{
    let a = if n >= 0 {
        n
    } else {
        -n
    };
    assert(0 <= a / d <= a) by (nonlinear_arith)
        requires
            a >= 0,
            d > 0,
    ;
}

/// Dividing by a positive number and rounding toward zero keeps the order of
/// the dividends.
pub proof fn lemma_truncated_quotient_is_monotonic(m: int, n: int, d: int)
    requires
        m <= n,
        d > 0,
    ensures
        truncated_quotient(m, d) <= truncated_quotient(n, d),
{
    lemma_truncated_quotient_is_no_larger(m, d);
    lemma_truncated_quotient_is_no_larger(n, d);
    if m >= 0 {
        vstd::arithmetic::div_mod::lemma_div_is_ordered(m, n, d);
    } else if n < 0 {
        vstd::arithmetic::div_mod::lemma_div_is_ordered(-n, -m, d);
    }
}

/// A larger positive divisor gives a quotient that is nearer to zero.
pub proof fn lemma_truncated_quotient_shrinks(n: int, c: int, d: int)
    requires
        0 < c <= d,
    ensures
        n >= 0 ==> truncated_quotient(n, d) <= truncated_quotient(n, c),
        n <= 0 ==> truncated_quotient(n, c) <= truncated_quotient(n, d),
{
    let a = if n >= 0 {
        n
    } else {
        -n
    };
    vstd::arithmetic::div_mod::lemma_div_is_ordered_by_denominator(a, c, d);
}

/// For a dividend that is not negative and a positive divisor, the remainder
/// lies below both the divisor and the dividend's successor.
pub proof fn lemma_truncated_remainder_is_small(n: int, d: int)
    requires
        n >= 0,
        d > 0,
    ensures
        0 <= truncated_remainder(n, d) < d,
        truncated_remainder(n, d) <= n,
{
    vstd::arithmetic::div_mod::lemma_fundamental_div_mod(n, d);
    vstd::arithmetic::div_mod::lemma_mod_pos_bound(n, d);
    vstd::arithmetic::div_mod::lemma_mod_decreases(n as nat, d as nat);
}

/// As one factor runs through a range, the product stays between the products
/// at the two ends of the range.
pub proof fn lemma_product_is_between(p: int, x: int, y: int, q: int)
    requires
        x <= p <= y,
    ensures
        vstd::math::min(x * q, y * q) <= p * q <= vstd::math::max(x * q, y * q),
{
    assert(q >= 0 ==> x * q <= p * q <= y * q) by (nonlinear_arith)
        requires
            x <= p <= y,
    ;
    assert(q <= 0 ==> y * q <= p * q <= x * q) by (nonlinear_arith)
        requires
            x <= p <= y,
    ;
}

} // verus!
