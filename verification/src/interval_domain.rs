//! The interval domain: ranges of 128-bit signed integers and their algebra.

use crate::arithmetic::{
    saturate, saturating_add, saturating_mul, saturating_neg, saturating_sub, truncating_div,
};
use crate::bounds::Bounds;
use crate::decimal::decimal_string;
use crate::expression::ExpressionType;
use vstd::prelude::*;
use vstd::std_specs::convert::FromSpecImpl;
use vstd::string::StringExecFns;

verus! {

/// A range of `i128` numbers, given by a lower and an upper bound.
///
/// A lower bound of `i128::MIN` stands for minus infinity and an upper bound
/// of `i128::MAX` for plus infinity. A value is never changed in place: every
/// operation gives a new one.
#[derive(Clone, Copy, Debug, PartialEq, Eq, Structural, PartialOrd, Ord, Hash)]
pub struct IntervalDomain {
    lower_bound: i128,
    upper_bound: i128,
}

impl View for IntervalDomain {
    type V = Bounds;

    closed spec fn view(&self) -> Bounds {
        Bounds { lower: self.lower_bound as int, upper: self.upper_bound as int }
    }
}

impl FromSpecImpl<i128> for IntervalDomain {
    open spec fn obeys_from_spec() -> bool {
        true
    }

    open spec fn from_spec(i: i128) -> IntervalDomain {
        IntervalDomain::with_bounds(Bounds::singleton(i as int))
    }
}

impl From<i128> for IntervalDomain {
    /// The interval that holds `i` alone.
    fn from(i: i128) -> (interval: IntervalDomain)
        ensures
            interval@ == Bounds::singleton(i as int),
    {
        IntervalDomain { lower_bound: i, upper_bound: i }
    }
}

impl FromSpecImpl<u128> for IntervalDomain {
    open spec fn obeys_from_spec() -> bool {
        true
    }

    open spec fn from_spec(u: u128) -> IntervalDomain {
        IntervalDomain::with_bounds(Bounds::singleton(saturate(u as int)))
    }
}

impl From<u128> for IntervalDomain {
    /// The interval that holds `u` alone where `u` fits in an `i128`, and the
    /// interval from `i128::MAX` upward where it does not.
    fn from(u: u128) -> (interval: IntervalDomain)
        ensures
            interval@ == Bounds::singleton(saturate(u as int)),
    {
        if u <= i128::MAX as u128 {
            IntervalDomain { lower_bound: u as i128, upper_bound: u as i128 }
        } else {
            IntervalDomain { lower_bound: i128::MAX, upper_bound: i128::MAX }
        }
    }
}

impl FromSpecImpl<ExpressionType> for IntervalDomain {
    open spec fn obeys_from_spec() -> bool {
        true
    }

    open spec fn from_spec(t: ExpressionType) -> IntervalDomain {
        IntervalDomain::with_bounds(Bounds::of_kind(t))
    }
}

impl From<ExpressionType> for IntervalDomain {
    /// The interval of all the values of an integer type, and `bottom()` for
    /// any other type.
    fn from(t: ExpressionType) -> (interval: IntervalDomain)
        ensures
            interval@ == Bounds::of_kind(t),
    {
        let (lower_bound, upper_bound): (i128, i128) = match t {
            ExpressionType::I8 => (i8::MIN as i128, i8::MAX as i128),
            ExpressionType::I16 => (i16::MIN as i128, i16::MAX as i128),
            ExpressionType::I32 => (i32::MIN as i128, i32::MAX as i128),
            ExpressionType::I64 => (i64::MIN as i128, i64::MAX as i128),
            ExpressionType::I128 => (i128::MIN, i128::MAX),
            ExpressionType::Isize => (isize::MIN as i128, isize::MAX as i128),
            ExpressionType::U8 => (0, u8::MAX as i128),
            ExpressionType::U16 => (0, u16::MAX as i128),
            ExpressionType::U32 => (0, u32::MAX as i128),
            ExpressionType::U64 => (0, u64::MAX as i128),
            ExpressionType::U128 => (0, i128::MAX),
            ExpressionType::Usize => (0, usize::MAX as i128),
            ExpressionType::NonNumeric => return IntervalDomain::bottom(),
        };
        IntervalDomain { lower_bound, upper_bound }
    }
}

impl IntervalDomain {
    /// The interval of an expression that is not known to give an integer.
    pub fn bottom() -> (interval: IntervalDomain)
        ensures
            interval@ == Bounds::bottom(),
    {
        IntervalDomain { lower_bound: 1, upper_bound: 0 }
    }

    /// The interval that holds every integer.
    pub fn top() -> (interval: IntervalDomain)
        ensures
            interval@ == Bounds::top(),
    {
        IntervalDomain { lower_bound: i128::MIN, upper_bound: i128::MAX }
    }

    /// The interval whose bounds are `bounds`, for bounds that fit in 128-bit
    /// signed integers.
    pub closed spec fn with_bounds(bounds: Bounds) -> IntervalDomain {
        IntervalDomain { lower_bound: bounds.lower as i128, upper_bound: bounds.upper as i128 }
    }

    /// `with_bounds` gives an interval with the bounds it was given.
    pub proof fn lemma_with_bounds(bounds: Bounds)
        requires
            bounds.is_representable(),
        ensures
            Self::with_bounds(bounds)@ == bounds,
    {
    }

    /// The bounds of an interval fit in 128-bit signed integers.
    pub proof fn lemma_view_is_representable(self)
        ensures
            self@.is_representable(),
    {
    }

    /// Two intervals with the same bounds are the same interval.
    pub proof fn lemma_view_is_injective(self, other: IntervalDomain)
        requires
            self@ == other@,
        ensures
            self == other,
    {
    }

    /// Whether the range is empty, which says that the expression is not known
    /// to give an integer.
    pub fn is_bottom(&self) -> (empty: bool)
        ensures
            empty == self@.is_bottom(),
    {
        self.upper_bound < self.lower_bound
    }

    /// Whether every integer belongs to the interval, so that nothing is known.
    pub fn is_top(&self) -> (unbounded: bool)
        ensures
            unbounded == self@.is_top(),
    {
        self.lower_bound == i128::MIN && self.upper_bound == i128::MAX
    }

    /// Whether the interval is known to lie within the values of `target_type`.
    ///
    /// A `false` result only says that this is not known. An interval that is
    /// empty or lacks a bound is not known to lie within any type.
    pub fn is_contained_in(&self, target_type: ExpressionType) -> (contained: bool)
        ensures
            contained == self@.is_contained_in(target_type),
    {
        if self.is_bottom() || self.is_top() {
            return false;
        }
        match target_type {
            ExpressionType::I8 => {
                self.lower_bound >= i8::MIN as i128 && self.upper_bound <= i8::MAX as i128
            },
            ExpressionType::I16 => {
                self.lower_bound >= i16::MIN as i128 && self.upper_bound <= i16::MAX as i128
            },
            ExpressionType::I32 => {
                self.lower_bound >= i32::MIN as i128 && self.upper_bound <= i32::MAX as i128
            },
            ExpressionType::I64 => {
                self.lower_bound >= i64::MIN as i128 && self.upper_bound <= i64::MAX as i128
            },
            ExpressionType::I128 => self.lower_bound > i128::MIN && self.upper_bound < i128::MAX,
            ExpressionType::Isize => {
                self.lower_bound >= isize::MIN as i128 && self.upper_bound <= isize::MAX as i128
            },
            ExpressionType::U8 => self.lower_bound >= 0 && self.upper_bound <= u8::MAX as i128,
            ExpressionType::U16 => self.lower_bound >= 0 && self.upper_bound <= u16::MAX as i128,
            ExpressionType::U32 => self.lower_bound >= 0 && self.upper_bound <= u32::MAX as i128,
            ExpressionType::U64 => self.lower_bound >= 0 && self.upper_bound <= u64::MAX as i128,
            ExpressionType::U128 => self.lower_bound >= 0 && self.upper_bound < i128::MAX,
            ExpressionType::Usize => {
                self.lower_bound >= 0 && self.upper_bound <= usize::MAX as i128
            },
            ExpressionType::NonNumeric => false,
        }
    }

    /// Whether the interval is known to lie within `[0, w)`, where `w` is the
    /// number of bits of `target_type`.
    ///
    /// A `false` result only says that this is not known.
    pub fn is_contained_in_width_of(&self, target_type: ExpressionType) -> (contained: bool)
        ensures
            contained == self@.is_contained_in_width_of(target_type),
    {
        if self.is_bottom() || self.is_top() {
            return false;
        }
        match target_type {
            ExpressionType::I8 | ExpressionType::U8 => {
                self.lower_bound >= 0 && self.upper_bound < 8
            },
            ExpressionType::I16 | ExpressionType::U16 => {
                self.lower_bound >= 0 && self.upper_bound < 16
            },
            ExpressionType::I32 | ExpressionType::U32 => {
                self.lower_bound >= 0 && self.upper_bound < 32
            },
            ExpressionType::I64 | ExpressionType::U64 => {
                self.lower_bound >= 0 && self.upper_bound < 64
            },
            ExpressionType::I128 | ExpressionType::U128 => {
                self.lower_bound >= 0 && self.upper_bound < 128
            },
            ExpressionType::Isize | ExpressionType::Usize => {
                self.lower_bound >= 0 && self.upper_bound < usize::BITS as i128
            },
            ExpressionType::NonNumeric => false,
        }
    }

    /// `[x, y] / [a, b] = [x / b, y / a]` if `a > 0`, and `top()` for any
    /// other divisor.
    #[must_use]
    pub fn div(&self, other: &Self) -> (quotient: Self)
        ensures
            quotient@ == self@.div(other@),
    {
        if self.is_bottom() || other.is_bottom() {
            return Self::bottom();
        }
        if self.is_top() || other.is_top() {
            return Self::top();
        }
        if other.lower_bound > 0 {
            IntervalDomain {
                lower_bound: truncating_div(self.lower_bound, other.upper_bound),
                upper_bound: truncating_div(self.upper_bound, other.lower_bound),
            }
        } else {
            Self::top()
        }
    }

    /// `[x, y] % [a, b] = [0, min(y, b - 1)]` if `x >= 0` and `a >= 1`, and
    /// `top()` for any other operands.
    #[must_use]
    pub fn rem(&self, other: &Self) -> (remainder: Self)
        ensures
            remainder@ == self@.rem(other@),
    {
        if self.is_bottom() || other.is_bottom() {
            return Self::bottom();
        }
        if self.is_top() || other.is_top() {
            return Self::top();
        }
        if self.lower_bound >= 0 && other.lower_bound >= 1 {
            IntervalDomain {
                lower_bound: 0,
                upper_bound: least(self.upper_bound, other.upper_bound - 1),
            }
        } else {
            Self::top()
        }
    }

    /// `[x, y] * [a, b] = [min(xa, xb, ya, yb), max(xa, xb, ya, yb)]`.
    #[must_use]
    pub fn mul(&self, other: &Self) -> (product: Self)
        ensures
            product@ == self@.mul(other@),
    {
        if self.is_bottom() || other.is_bottom() {
            return Self::bottom();
        }
        if self.is_top() || other.is_top() {
            return Self::top();
        }
        let xa = saturating_mul(self.lower_bound, other.lower_bound);
        let xb = saturating_mul(self.lower_bound, other.upper_bound);
        let ya = saturating_mul(self.upper_bound, other.lower_bound);
        let yb = saturating_mul(self.upper_bound, other.upper_bound);
        IntervalDomain {
            lower_bound: least(least(least(xa, xb), ya), yb),
            upper_bound: greatest(greatest(greatest(xa, xb), ya), yb),
        }
    }

    /// `[x, y] intersect [a, b] = [max(x, a), min(y, b)]`.
    ///
    /// The result is empty where the operands do not overlap.
    #[must_use]
    pub fn intersect(&self, other: &Self) -> (meet: Self)
        ensures
            meet@ == self@.intersect(other@),
    {
        if self.is_bottom() || other.is_bottom() {
            return Self::bottom();
        }
        if self.is_top() {
            return *other;
        }
        if other.is_top() {
            return *self;
        }
        IntervalDomain {
            lower_bound: greatest(self.lower_bound, other.lower_bound),
            upper_bound: least(self.upper_bound, other.upper_bound),
        }
    }

    /// `[x, y] + [a, b] = [x + a, y + b]`.
    #[must_use]
    pub fn add(&self, other: &Self) -> (sum: Self)
        ensures
            sum@ == self@.add(other@),
    {
        if self.is_bottom() || other.is_bottom() {
            return Self::bottom();
        }
        if self.is_top() || other.is_top() {
            return Self::top();
        }
        IntervalDomain {
            lower_bound: saturating_add(self.lower_bound, other.lower_bound),
            upper_bound: saturating_add(self.upper_bound, other.upper_bound),
        }
    }

    /// `[x, y] - [a, b] = [x - b, y - a]`.
    #[must_use]
    pub fn sub(&self, other: &Self) -> (difference: Self)
        ensures
            difference@ == self@.sub(other@),
    {
        if self.is_bottom() || other.is_bottom() {
            return Self::bottom();
        }
        if self.is_top() || other.is_top() {
            return Self::top();
        }
        IntervalDomain {
            lower_bound: saturating_sub(self.lower_bound, other.upper_bound),
            upper_bound: saturating_sub(self.upper_bound, other.lower_bound),
        }
    }

    /// `-[x, y] = [-y, -x]`.
    #[must_use]
    pub fn neg(&self) -> (negation: Self)
        ensures
            negation@ == self@.neg(),
    {
        if self.is_bottom() {
            return Self::bottom();
        }
        if self.is_top() {
            return Self::top();
        }
        IntervalDomain {
            lower_bound: saturating_neg(self.upper_bound),
            upper_bound: saturating_neg(self.lower_bound),
        }
    }

    /// `[x, y] widen [a, b] = [min(x, a), max(y, b)]`.
    #[must_use]
    pub fn widen(&self, other: &Self) -> (join: Self)
        ensures
            join@ == self@.widen(other@),
    {
        if self.is_bottom() || other.is_bottom() {
            return Self::bottom();
        }
        if self.is_top() || other.is_top() {
            return Self::top();
        }
        IntervalDomain {
            lower_bound: least(self.lower_bound, other.lower_bound),
            upper_bound: greatest(self.upper_bound, other.upper_bound),
        }
    }

    /// `[x, y] >= [a, b]` if `x >= b`, and not if `a > y`.
    pub fn greater_or_equal(&self, other: &Self) -> (answer: Option<bool>)
        ensures
            answer == self@.greater_or_equal(other@),
    {
        if self.is_bottom() || self.is_top() || other.is_bottom() || other.is_top() {
            None
        } else if self.lower_bound >= other.upper_bound {
            Some(true)
        } else if other.lower_bound > self.upper_bound {
            Some(false)
        } else {
            None
        }
    }

    /// `[x, y] > [a, b]` if `x > b`, and not if `a >= y`.
    pub fn greater_than(&self, other: &Self) -> (answer: Option<bool>)
        ensures
            answer == self@.greater_than(other@),
    {
        if self.is_bottom() || self.is_top() || other.is_bottom() || other.is_top() {
            None
        } else if self.lower_bound > other.upper_bound {
            Some(true)
        } else if other.lower_bound >= self.upper_bound {
            Some(false)
        } else {
            None
        }
    }

    /// `[x, y] <= [a, b]` if `y <= a`, and not if `b < x`.
    pub fn less_equal(&self, other: &Self) -> (answer: Option<bool>)
        ensures
            answer == self@.less_equal(other@),
    {
        if self.is_bottom() || self.is_top() || other.is_bottom() || other.is_top() {
            None
        } else if self.upper_bound <= other.lower_bound {
            Some(true)
        } else if other.upper_bound < self.lower_bound {
            Some(false)
        } else {
            None
        }
    }

    /// `[x, y] < [a, b]` if `y < a`, and not if `b <= x`.
    pub fn less_than(&self, other: &Self) -> (answer: Option<bool>)
        ensures
            answer == self@.less_than(other@),
    {
        if self.is_bottom() || self.is_top() || other.is_bottom() || other.is_top() {
            None
        } else if self.upper_bound < other.lower_bound {
            Some(true)
        } else if other.upper_bound <= self.lower_bound {
            Some(false)
        } else {
            None
        }
    }

    /// The lower bound, or `None` where it is minus infinity.
    pub fn lower_bound(&self) -> (bound: Option<i128>)
        ensures
            match bound {
                Some(value) => value == self@.lower && value != i128::MIN,
                None => self@.lower == i128::MIN,
            },
    {
        if self.lower_bound == i128::MIN {
            None
        } else {
            Some(self.lower_bound)
        }
    }

    /// The upper bound, or `None` where it is plus infinity.
    pub fn upper_bound(&self) -> (bound: Option<i128>)
        ensures
            match bound {
                Some(value) => value == self@.upper && value != i128::MAX,
                None => self@.upper == i128::MAX,
            },
    {
        if self.upper_bound == i128::MAX {
            None
        } else {
            Some(self.upper_bound)
        }
    }

    /// The interval with minus infinity for its lower bound and the upper
    /// bound of `self`.
    #[must_use]
    pub fn remove_lower_bound(&self) -> (interval: Self)
        ensures
            interval@ == (Bounds { lower: i128::MIN as int, upper: self@.upper }),
    {
        IntervalDomain { lower_bound: i128::MIN, upper_bound: self.upper_bound }
    }

    /// The interval with the lower bound of `self` and plus infinity for its
    /// upper bound.
    #[must_use]
    pub fn remove_upper_bound(&self) -> (interval: Self)
        ensures
            interval@ == (Bounds { lower: self@.lower, upper: i128::MAX as int }),
    {
        IntervalDomain { lower_bound: self.lower_bound, upper_bound: i128::MAX }
    }

    /// The interval with the lower bound of `self` and `new_value` for its
    /// upper bound; it is empty where `new_value` is below the lower bound.
    #[must_use]
    pub fn replace_upper_bound(&self, new_value: i128) -> (interval: Self)
        ensures
            interval@ == (Bounds { lower: self@.lower, upper: new_value as int }),
    {
        IntervalDomain { lower_bound: self.lower_bound, upper_bound: new_value }
    }

    /// The interval in bracket notation: `[bottom]`, `[..]`, `[..y]`, `[x..]`
    /// or `[x..y]`.
    pub fn notation(&self) -> (text: String)
        ensures
            text@ == self@.notation(),
    {
        if self.lower_bound == 1 && self.upper_bound == 0 {
            String::from_str("[bottom]")
        } else if self.is_top() {
            String::from_str("[..]")
        } else if self.lower_bound == i128::MIN {
            let upper = decimal_string(self.upper_bound);
            String::from_str("[..").concat(upper.as_str()).concat("]")
        } else if self.upper_bound == i128::MAX {
            let lower = decimal_string(self.lower_bound);
            String::from_str("[").concat(lower.as_str()).concat("..]")
        } else {
            let lower = decimal_string(self.lower_bound);
            let upper = decimal_string(self.upper_bound);
            String::from_str("[").concat(lower.as_str()).concat("..").concat(upper.as_str()).concat(
                "]",
            )
        }
    }
}

/// The lesser of two numbers.
fn least(x: i128, y: i128) -> (m: i128)
    ensures
        m == vstd::math::min(x as int, y as int),
{
    if x <= y {
        x
    } else {
        y
    }
}

/// The greater of two numbers.
fn greatest(x: i128, y: i128) -> (m: i128)
    ensures
        m == vstd::math::max(x as int, y as int),
{
    if x >= y {
        x
    } else {
        y
    }
}

} // verus!
