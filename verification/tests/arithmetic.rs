use interval_domain::IntervalDomain;

const MIN: i128 = i128::MIN;
const MAX: i128 = i128::MAX;

fn range(lower: i128, upper: i128) -> IntervalDomain {
    IntervalDomain::from(lower).replace_upper_bound(upper)
}

#[test]
fn add_adds_the_bounds_pairwise() {
    assert_eq!(range(1, 2).add(&range(10, 20)), range(11, 22));
    assert_eq!(range(-7, -3).add(&range(-1, 4)), range(-8, 1));
}

#[test]
fn add_saturates_at_both_ends() {
    assert_eq!(range(MAX - 1, MAX - 1).add(&range(5, 5)), range(MAX, MAX));
    assert_eq!(range(MIN + 1, MIN + 1).add(&range(-5, -5)), range(MIN, MIN));
    assert_eq!(range(MIN + 3, MAX - 3).add(&range(-4, 4)), IntervalDomain::top());
}

#[test]
fn add_does_not_keep_a_missing_bound_missing() {
    assert_eq!(range(MIN, 0).add(&range(5, 5)), range(MIN + 5, 5));
    assert_eq!(range(0, MAX).add(&range(-5, -5)), range(-5, MAX - 5));
}

#[test]
fn add_of_bottom_or_top() {
    let some = range(1, 2);
    assert!(some.add(&IntervalDomain::bottom()).is_bottom());
    assert_eq!(IntervalDomain::bottom().add(&some), IntervalDomain::bottom());
    assert_eq!(range(9, 3).add(&some), IntervalDomain::bottom());
    assert_eq!(IntervalDomain::top().add(&IntervalDomain::bottom()), IntervalDomain::bottom());
    assert_eq!(some.add(&IntervalDomain::top()), IntervalDomain::top());
    assert_eq!(IntervalDomain::top().add(&some), IntervalDomain::top());
}

#[test]
fn sub_subtracts_the_opposite_bounds() {
    assert_eq!(range(10, 20).sub(&range(1, 2)), range(8, 19));
    assert_eq!(range(-7, -3).sub(&range(-1, 4)), range(-11, -2));
}

#[test]
fn sub_saturates_at_both_ends() {
    assert_eq!(range(MIN + 1, 0).sub(&range(5, 5)), range(MIN, -5));
    assert_eq!(range(0, MAX - 1).sub(&range(-5, -5)), range(5, MAX));
    assert_eq!(range(MIN, MIN).sub(&range(MAX, MAX)), range(MIN, MIN));
    assert_eq!(range(MAX, MAX).sub(&range(MIN, MIN)), range(MAX, MAX));
}

#[test]
fn sub_of_bottom_or_top() {
    let some = range(1, 2);
    assert_eq!(some.sub(&IntervalDomain::bottom()), IntervalDomain::bottom());
    assert_eq!(IntervalDomain::bottom().sub(&IntervalDomain::top()), IntervalDomain::bottom());
    assert_eq!(some.sub(&IntervalDomain::top()), IntervalDomain::top());
    assert_eq!(IntervalDomain::top().sub(&some), IntervalDomain::top());
}

#[test]
fn mul_takes_the_extremes_of_the_four_products() {
    assert_eq!(range(2, 3).mul(&range(4, 5)), range(8, 15));
    assert_eq!(range(-3, 4).mul(&range(-2, 5)), range(-15, 20));
    assert_eq!(range(-3, -2).mul(&range(-5, -4)), range(8, 15));
    assert_eq!(range(-3, -2).mul(&range(4, 5)), range(-15, -8));
    assert_eq!(range(-6, 1).mul(&range(-7, 2)), range(-12, 42));
    assert_eq!(range(0, 0).mul(&range(-7, 2)), range(0, 0));
}

#[test]
fn mul_saturates_at_both_ends() {
    assert_eq!(range(MAX / 2, MAX / 2 + 1).mul(&range(2, 2)), range(MAX - 1, MAX));
    assert_eq!(range(MAX, MAX).mul(&range(-2, 2)), IntervalDomain::top());
    assert_eq!(range(MIN, MIN).mul(&range(-1, -1)), range(MAX, MAX));
    assert_eq!(range(MIN, MIN).mul(&range(2, 3)), range(MIN, MIN));
    assert_eq!(range(1 << 64, 1 << 64).mul(&range(1 << 64, 1 << 64)), range(MAX, MAX));
    assert_eq!(range(-(1 << 64), -(1 << 64)).mul(&range(1 << 64, 1 << 64)), range(MIN, MIN));
}

#[test]
fn mul_of_bottom_or_top() {
    let some = range(1, 2);
    assert_eq!(some.mul(&IntervalDomain::bottom()), IntervalDomain::bottom());
    assert_eq!(IntervalDomain::bottom().mul(&IntervalDomain::top()), IntervalDomain::bottom());
    assert_eq!(some.mul(&IntervalDomain::top()), IntervalDomain::top());
    assert_eq!(IntervalDomain::top().mul(&range(0, 0)), IntervalDomain::top());
}

#[test]
fn neg_swaps_and_negates_the_bounds() {
    assert_eq!(range(2, 5).neg(), range(-5, -2));
    assert_eq!(range(-3, 4).neg(), range(-4, 3));
    assert_eq!(range(0, 0).neg(), range(0, 0));
}

#[test]
fn neg_saturates_where_the_negation_does_not_fit() {
    assert_eq!(range(MIN, MIN).neg(), range(MAX, MAX));
    assert_eq!(range(MIN, 5).neg(), range(-5, MAX));
    assert_eq!(range(MIN + 1, MAX).neg(), range(MIN + 1, MAX));
    assert_eq!(range(7, MAX).neg(), range(MIN + 1, -7));
}

#[test]
fn neg_of_bottom_or_top() {
    assert_eq!(IntervalDomain::bottom().neg(), IntervalDomain::bottom());
    assert_eq!(range(4, 2).neg(), IntervalDomain::bottom());
    assert_eq!(IntervalDomain::top().neg(), IntervalDomain::top());
}

#[test]
fn div_divides_by_the_opposite_bounds() {
    assert_eq!(range(10, 20).div(&range(2, 5)), range(2, 10));
    assert_eq!(range(0, 100).div(&range(1, 1)), range(0, 100));
    assert_eq!(range(7, 9).div(&range(2, 2)), range(3, 4));
    assert_eq!(range(3, 4).div(&range(5, 9)), range(0, 0));
}

#[test]
fn div_rounds_toward_zero() {
    assert_eq!(range(-7, 9).div(&range(2, 2)), range(-3, 4));
    assert_eq!(range(-9, -7).div(&range(2, 2)), range(-4, -3));
    assert_eq!(range(-1, 1).div(&range(2, 3)), range(0, 0));
    assert_eq!(range(MIN, MIN).div(&range(1, 1)), range(MIN, MIN));
    assert_eq!(range(MIN, MAX - 1).div(&range(2, 2)), range(MIN / 2, (MAX - 1) / 2));
}

#[test]
fn div_applies_the_corner_rule_to_negative_dividends_too() {
    assert_eq!(range(-10, 10).div(&range(1, 5)), range(-2, 10));
    assert!(range(-10, -10).div(&range(1, 5)).is_bottom());
    assert_eq!(range(-10, -10).div(&range(1, 5)), range(-2, -10));
}

#[test]
fn div_by_a_divisor_not_known_to_be_positive_is_top() {
    assert_eq!(range(0, 10).div(&range(0, 5)), IntervalDomain::top());
    assert_eq!(range(0, 10).div(&range(-5, -1)), IntervalDomain::top());
    assert_eq!(range(0, 10).div(&range(-5, 5)), IntervalDomain::top());
    assert_eq!(range(0, 10).div(&range(MIN, 5)), IntervalDomain::top());
    assert_eq!(range(0, 10).div(&range(0, 0)), IntervalDomain::top());
}

#[test]
fn div_of_bottom_or_top() {
    let some = range(1, 2);
    assert_eq!(some.div(&IntervalDomain::bottom()), IntervalDomain::bottom());
    assert_eq!(IntervalDomain::bottom().div(&some), IntervalDomain::bottom());
    assert_eq!(IntervalDomain::bottom().div(&IntervalDomain::top()), IntervalDomain::bottom());
    assert_eq!(some.div(&IntervalDomain::top()), IntervalDomain::top());
    assert_eq!(IntervalDomain::top().div(&some), IntervalDomain::top());
}

#[test]
fn rem_is_bounded_by_dividend_and_divisor() {
    assert_eq!(range(0, 100).rem(&range(1, 8)), range(0, 7));
    assert_eq!(range(0, 3).rem(&range(1, 8)), range(0, 3));
    assert_eq!(range(5, 6).rem(&range(10, 20)), range(0, 6));
    assert_eq!(range(0, 100).rem(&range(1, 1)), range(0, 0));
    assert_eq!(range(0, MAX).rem(&range(1, MAX)), range(0, MAX - 1));
    assert_eq!(range(0, 0).rem(&range(7, 7)), range(0, 0));
}

#[test]
fn rem_of_other_operands_is_top() {
    assert_eq!(range(-1, 5).rem(&range(1, 3)), IntervalDomain::top());
    assert_eq!(range(0, 5).rem(&range(0, 3)), IntervalDomain::top());
    assert_eq!(range(0, 5).rem(&range(-3, -1)), IntervalDomain::top());
    assert_eq!(range(MIN, 5).rem(&range(1, 3)), IntervalDomain::top());
}

#[test]
fn rem_of_bottom_or_top() {
    let some = range(1, 2);
    assert_eq!(some.rem(&IntervalDomain::bottom()), IntervalDomain::bottom());
    assert_eq!(IntervalDomain::bottom().rem(&IntervalDomain::top()), IntervalDomain::bottom());
    assert_eq!(some.rem(&IntervalDomain::top()), IntervalDomain::top());
    assert_eq!(IntervalDomain::top().rem(&some), IntervalDomain::top());
}

#[test]
fn add_and_mul_commute_on_a_grid() {
    let ends = [MIN, MIN + 1, -9, -1, 0, 1, 4, MAX - 1, MAX];
    for &x in &ends {
        for &y in &ends {
            for &a in &ends {
                for &b in &ends {
                    let left = range(x, y);
                    let right = range(a, b);
                    assert_eq!(left.add(&right), right.add(&left));
                    assert_eq!(left.mul(&right), right.mul(&left));
                }
            }
        }
    }
}
