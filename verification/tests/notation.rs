use interval_domain::IntervalDomain;

const MIN: i128 = i128::MIN;
const MAX: i128 = i128::MAX;

fn range(lower: i128, upper: i128) -> IntervalDomain {
    IntervalDomain::from(lower).replace_upper_bound(upper)
}

#[test]
fn notation_of_bottom() {
    assert_eq!(IntervalDomain::bottom().notation(), "[bottom]");
}

#[test]
fn notation_of_top() {
    assert_eq!(IntervalDomain::top().notation(), "[..]");
}

#[test]
fn notation_of_a_range_without_lower_bound() {
    assert_eq!(range(MIN, 5).notation(), "[..5]");
    assert_eq!(range(MIN, -17).notation(), "[..-17]");
    assert_eq!(range(MIN, MIN).notation(), format!("[..{}]", MIN));
}

#[test]
fn notation_of_a_range_without_upper_bound() {
    assert_eq!(range(-3, MAX).notation(), "[-3..]");
    assert_eq!(range(0, MAX).notation(), "[0..]");
    assert_eq!(range(MAX, MAX).notation(), format!("[{}..]", MAX));
}

#[test]
fn notation_of_a_range_with_both_bounds() {
    assert_eq!(range(1, 2).notation(), "[1..2]");
    assert_eq!(range(-10, 1090).notation(), "[-10..1090]");
    assert_eq!(range(0, 0).notation(), "[0..0]");
    assert_eq!(range(9, 10).notation(), "[9..10]");
    assert_eq!(range(-100, -99).notation(), "[-100..-99]");
}

#[test]
fn notation_of_an_empty_range_other_than_bottom_shows_its_bounds() {
    assert_eq!(range(5, 3).notation(), "[5..3]");
    assert_eq!(range(MAX, MIN).notation(), format!("[{}..{}]", MAX, MIN));
}

#[test]
fn notation_writes_every_digit_of_the_widest_bounds() {
    assert_eq!(
        range(MIN + 1, MAX - 1).notation(),
        "[-170141183460469231731687303715884105727..170141183460469231731687303715884105726]"
    );
    assert_eq!(
        range(1234567890, 98765432100123456789).notation(),
        "[1234567890..98765432100123456789]"
    );
}

#[test]
fn notation_agrees_with_the_standard_formatting_of_the_bounds() {
    let mut v: i128 = 1;
    for _ in 0..126 {
        assert_eq!(range(-v, v).notation(), format!("[{}..{}]", -v, v));
        assert_eq!(range(v - 1, v + 1).notation(), format!("[{}..{}]", v - 1, v + 1));
        v *= 2;
    }
}
