//! An interval abstract domain over 128-bit signed integers.
//!
//! [`IntervalDomain`] holds a closed range of `i128` numbers and offers the
//! arithmetic, lattice, comparison and containment operations that a static
//! analyzer needs of it. Every operation is a total, pure function, specified
//! against the mathematical model in [`bounds`]; [`laws`] proves what holds of
//! the algebra as a whole.

pub mod arithmetic;
pub mod bounds;
pub mod decimal;
pub mod expression;
pub mod interval_domain;
pub mod laws;

pub use crate::expression::ExpressionType;
pub use crate::interval_domain::IntervalDomain;
