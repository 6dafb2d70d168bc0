//! The mathematical model of an interval: a pair of integer bounds, and the
//! interval algebra stated over unbounded integers.

use crate::arithmetic::{saturate, truncated_quotient};
use crate::decimal::decimal;
use crate::expression::ExpressionType;
use vstd::math::{max, min};
use vstd::prelude::*;

verus! {

/// A lower and an upper bound, read as the closed range between them.
///
/// A lower bound of `i128::MIN` says that no lower bound is known, an upper
/// bound of `i128::MAX` that no upper bound is known.
pub struct Bounds {
    pub lower: int,
    pub upper: int,
}

impl Bounds {
    /// The bounds that stand for "nothing is known, not even that this is an
    /// integer".
    pub open spec fn bottom() -> Bounds {
        Bounds { lower: 1, upper: 0 }
    }

    /// The bounds that every integer lies within.
    pub open spec fn top() -> Bounds {
        Bounds { lower: i128::MIN as int, upper: i128::MAX as int }
    }

    /// The bounds of the range that holds `v` alone.
    pub open spec fn singleton(v: int) -> Bounds {
        Bounds { lower: v, upper: v }
    }

    /// Both bounds fit in a 128-bit signed integer.
    pub open spec fn is_representable(self) -> bool {
        &&& i128::MIN <= self.lower <= i128::MAX
        &&& i128::MIN <= self.upper <= i128::MAX
    }

    /// The range is empty. `bottom()` is one of many such pairs.
    pub open spec fn is_bottom(self) -> bool {
        self.upper < self.lower
    }

    /// Neither bound is known.
    pub open spec fn is_top(self) -> bool {
        self.lower == i128::MIN && self.upper == i128::MAX
    }

    /// Whether `v` lies within the bounds, where a bound that is not known
    /// excludes nothing.
    pub open spec fn contains(self, v: int) -> bool {
        &&& self.lower == i128::MIN || self.lower <= v
        &&& self.upper == i128::MAX || v <= self.upper
    }

    /// The full range of an integer kind, its upper end cut off at what a
    /// 128-bit signed integer can hold; `bottom()` for any other kind.
    pub open spec fn of_kind(kind: ExpressionType) -> Bounds {
        if kind.is_integer() {
            Bounds { lower: kind.min_value(), upper: saturate(kind.max_value()) }
        } else {
            Bounds::bottom()
        }
    }

    /// Whether either operand is empty, so that an operation on the two gives
    /// `bottom()`.
    pub open spec fn either_is_bottom(self, other: Bounds) -> bool {
        self.is_bottom() || other.is_bottom()
    }

    /// Whether either operand has no known bound at all.
    pub open spec fn either_is_top(self, other: Bounds) -> bool {
        self.is_top() || other.is_top()
    }

    /// `[x, y] + [a, b] = [x + a, y + b]`, each sum saturating.
    pub open spec fn add(self, other: Bounds) -> Bounds {
        if self.either_is_bottom(other) {
            Bounds::bottom()
        } else if self.either_is_top(other) {
            Bounds::top()
        } else {
            Bounds {
                lower: saturate(self.lower + other.lower),
                upper: saturate(self.upper + other.upper),
            }
        }
    }

    /// `[x, y] - [a, b] = [x - b, y - a]`, each difference saturating.
    pub open spec fn sub(self, other: Bounds) -> Bounds {
        if self.either_is_bottom(other) {
            Bounds::bottom()
        } else if self.either_is_top(other) {
            Bounds::top()
        } else {
            Bounds {
                lower: saturate(self.lower - other.upper),
                upper: saturate(self.upper - other.lower),
            }
        }
    }

    /// `[x, y] * [a, b]`: the least and the greatest of the four products of
    /// a bound of the one with a bound of the other, each product saturating.
    pub open spec fn mul(self, other: Bounds) -> Bounds {
        if self.either_is_bottom(other) {
            Bounds::bottom()
        } else if self.either_is_top(other) {
            Bounds::top()
        } else {
            let xa = saturate(self.lower * other.lower);
            let xb = saturate(self.lower * other.upper);
            let ya = saturate(self.upper * other.lower);
            let yb = saturate(self.upper * other.upper);
            Bounds {
                lower: min(min(min(xa, xb), ya), yb),
                upper: max(max(max(xa, xb), ya), yb),
            }
        }
    }

    /// `[x, y] / [a, b] = [x / b, y / a]` where `a > 0`, each quotient rounded
    /// toward zero; `top()` for any other divisor that is not empty.
    pub open spec fn div(self, other: Bounds) -> Bounds {
        if self.either_is_bottom(other) {
            Bounds::bottom()
        } else if self.either_is_top(other) {
            Bounds::top()
        } else if other.lower > 0 {
            Bounds {
                lower: truncated_quotient(self.lower, other.upper),
                upper: truncated_quotient(self.upper, other.lower),
            }
        } else {
            Bounds::top()
        }
    }

    /// `[x, y] % [a, b] = [0, min(y, b - 1)]` where `x >= 0` and `a >= 1`;
    /// `top()` for any other operands that are not empty.
    pub open spec fn rem(self, other: Bounds) -> Bounds {
        if self.either_is_bottom(other) {
            Bounds::bottom()
        } else if self.either_is_top(other) {
            Bounds::top()
        } else if self.lower >= 0 && other.lower >= 1 {
            Bounds { lower: 0, upper: min(self.upper, other.upper - 1) }
        } else {
            Bounds::top()
        }
    }

    /// `-[x, y] = [-y, -x]`, each negation saturating.
    pub open spec fn neg(self) -> Bounds {
        if self.is_bottom() {
            Bounds::bottom()
        } else if self.is_top() {
            Bounds::top()
        } else {
            Bounds { lower: saturate(-self.upper), upper: saturate(-self.lower) }
        }
    }

    /// The meet: `bottom()` where either operand is empty, the other operand
    /// where one is `top()`, and `[max(x, a), min(y, b)]` otherwise, which is
    /// empty where the two ranges do not overlap.
    pub open spec fn intersect(self, other: Bounds) -> Bounds {
        if self.either_is_bottom(other) {
            Bounds::bottom()
        } else if self.is_top() {
            other
        } else if other.is_top() {
            self
        } else {
            Bounds { lower: max(self.lower, other.lower), upper: min(self.upper, other.upper) }
        }
    }

    /// The least range that covers both operands, `[min(x, a), max(y, b)]`;
    /// `bottom()` where either operand is empty.
    pub open spec fn widen(self, other: Bounds) -> Bounds {
        if self.either_is_bottom(other) {
            Bounds::bottom()
        } else if self.either_is_top(other) {
            Bounds::top()
        } else {
            Bounds { lower: min(self.lower, other.lower), upper: max(self.upper, other.upper) }
        }
    }

    /// Whether the order of two ranges can be told from their bounds: not
    /// where either is empty or is `top()`.
    pub open spec fn comparable(self, other: Bounds) -> bool {
        !self.either_is_bottom(other) && !self.either_is_top(other)
    }

    /// Whether `self` is less than `other`: `Some(true)` where the upper bound
    /// of `self` is below the lower bound of `other`, `Some(false)` where the
    /// upper bound of `other` is not above the lower bound of `self`, and
    /// `None` where the bounds do not tell.
    pub open spec fn less_than(self, other: Bounds) -> Option<bool> {
        if !self.comparable(other) {
            None
        } else if self.upper < other.lower {
            Some(true)
        } else if other.upper <= self.lower {
            Some(false)
        } else {
            None
        }
    }

    /// Whether `self` is less than or equal to `other`: `Some(true)` where the
    /// upper bound of `self` is not above the lower bound of `other`,
    /// `Some(false)` where the upper bound of `other` is below the lower bound
    /// of `self`, and `None` where the bounds do not tell.
    pub open spec fn less_equal(self, other: Bounds) -> Option<bool> {
        if !self.comparable(other) {
            None
        } else if self.upper <= other.lower {
            Some(true)
        } else if other.upper < self.lower {
            Some(false)
        } else {
            None
        }
    }

    /// Whether `self` is greater than `other`: `less_than` with the bounds
    /// of the two exchanged.
    pub open spec fn greater_than(self, other: Bounds) -> Option<bool> {
        if !self.comparable(other) {
            None
        } else if self.lower > other.upper {
            Some(true)
        } else if other.lower >= self.upper {
            Some(false)
        } else {
            None
        }
    }

    /// Whether `self` is greater than or equal to `other`: `less_equal` with
    /// the bounds of the two exchanged.
    pub open spec fn greater_or_equal(self, other: Bounds) -> Option<bool> {
        if !self.comparable(other) {
            None
        } else if self.lower >= other.upper {
            Some(true)
        } else if other.lower > self.upper {
            Some(false)
        } else {
            None
        }
    }

    /// Both bounds are known.
    pub open spec fn is_bounded(self) -> bool {
        self.lower != i128::MIN && self.upper != i128::MAX
    }

    /// The range is not empty, both its bounds are known, and both are values
    /// of the integer kind `kind`.
    pub open spec fn is_contained_in(self, kind: ExpressionType) -> bool {
        &&& kind.is_integer()
        &&& !self.is_bottom()
        &&& self.is_bounded()
        &&& kind.min_value() <= self.lower
        &&& self.upper <= kind.max_value()
    }

    /// The range is not empty and lies within `[0, w)`, where `w` is the
    /// number of bits of the integer kind `kind`.
    pub open spec fn is_contained_in_width_of(self, kind: ExpressionType) -> bool {
        &&& kind.is_integer()
        &&& !self.is_bottom()
        &&& 0 <= self.lower
        &&& self.upper < kind.bit_width()
    }

    /// Whether the rule for division is sound for `self / other`.
    ///
    /// The rule takes the quotients at two corners for the extremes. For a
    /// dividend below zero the extremes lie at the other two corners, so the
    /// rule is sound only where it gives `top()`, or an empty range, or where
    /// each negative bound of the dividend has the same quotient by both
    /// bounds of the divisor.
    pub open spec fn division_is_sound(self, other: Bounds) -> bool {
        ||| self.div(other).is_top()
        ||| self.div(other).is_bottom()
        ||| {
            &&& self.lower < 0 ==> truncated_quotient(self.lower, other.lower)
                == truncated_quotient(self.lower, other.upper)
            &&& self.upper < 0 ==> truncated_quotient(self.upper, other.lower)
                == truncated_quotient(self.upper, other.upper)
        }
    }

    /// How far the bounds are from the ends of the 128-bit range, both sides
    /// together; zero for `top()` alone among the representable bounds.
    pub open spec fn room(self) -> int {
        (self.lower - i128::MIN) + (i128::MAX - self.upper)
    }

    /// The bounds in bracket notation: `[bottom]` for `bottom()`, and
    /// otherwise the two bounds in decimal with `..` between them, a bound
    /// that is not known left out.
    pub open spec fn notation(self) -> Seq<char> {
        if self == Bounds::bottom() {
            "[bottom]"@
        } else if self.is_top() {
            "[..]"@
        } else if self.lower == i128::MIN {
            "[.."@ + decimal(self.upper) + "]"@
        } else if self.upper == i128::MAX {
            "["@ + decimal(self.lower) + "..]"@
        } else {
            "["@ + decimal(self.lower) + ".."@ + decimal(self.upper) + "]"@
        }
    }
}

} // verus!
