//! The kinds of value that an expression can have, as far as integer ranges
//! are concerned.

use vstd::prelude::*;

verus! {

/// The kind of value that an expression of the analyzed program evaluates to.
///
/// The integer kinds are the fixed-width and the platform-width integer types;
/// every other type of the analyzed program is `NonNumeric`.
#[derive(Clone, Copy, Debug, PartialEq, Eq, Structural, Hash)]
pub enum ExpressionType {
    I8,
    I16,
    I32,
    I64,
    I128,
    Isize,
    U8,
    U16,
    U32,
    U64,
    U128,
    Usize,
    /// Any kind that is not one of the integer kinds above.
    NonNumeric,
}

impl ExpressionType {
    /// Whether values of this kind are integers.
    pub open spec fn is_integer(self) -> bool {
        self != ExpressionType::NonNumeric
    }

    /// The number of bits in a value of an integer kind. The platform-width
    /// kinds have the width of `usize`. Zero for `NonNumeric`.
    pub open spec fn bit_width(self) -> int {
        match self {
            ExpressionType::I8 | ExpressionType::U8 => 8,
            ExpressionType::I16 | ExpressionType::U16 => 16,
            ExpressionType::I32 | ExpressionType::U32 => 32,
            ExpressionType::I64 | ExpressionType::U64 => 64,
            ExpressionType::I128 | ExpressionType::U128 => 128,
            ExpressionType::Isize | ExpressionType::Usize => usize::BITS as int,
            ExpressionType::NonNumeric => 0,
        }
    }

    /// The least value of an integer kind. Zero for `NonNumeric`.
    pub open spec fn min_value(self) -> int {
        match self {
            ExpressionType::I8 => i8::MIN as int,
            ExpressionType::I16 => i16::MIN as int,
            ExpressionType::I32 => i32::MIN as int,
            ExpressionType::I64 => i64::MIN as int,
            ExpressionType::I128 => i128::MIN as int,
            ExpressionType::Isize => isize::MIN as int,
            _ => 0,
        }
    }

    /// The greatest value of an integer kind. Zero for `NonNumeric`.
    pub open spec fn max_value(self) -> int {
        match self {
            ExpressionType::I8 => i8::MAX as int,
            ExpressionType::I16 => i16::MAX as int,
            ExpressionType::I32 => i32::MAX as int,
            ExpressionType::I64 => i64::MAX as int,
            ExpressionType::I128 => i128::MAX as int,
            ExpressionType::Isize => isize::MAX as int,
            ExpressionType::U8 => u8::MAX as int,
            ExpressionType::U16 => u16::MAX as int,
            ExpressionType::U32 => u32::MAX as int,
            ExpressionType::U64 => u64::MAX as int,
            ExpressionType::U128 => u128::MAX as int,
            ExpressionType::Usize => usize::MAX as int,
            ExpressionType::NonNumeric => 0,
        }
    }
}

} // verus!
