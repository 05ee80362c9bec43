//! A verified numeric core: capability traits for scalar types, exact and
//! tolerance-aware comparison operators, and ordinary arithmetic algorithms
//! (gcd, powers, exponential and logarithm by series) over those traits.
//!
//! The scalars span the machine integers, a fixed-point decimal standing
//! in for floating point, and arbitrary-precision integers; ranges of
//! scalar values with bounds at infinity round the library out.

pub mod bigint;
pub mod comparison;
pub mod concept;
pub mod conditional;
pub mod dec64;
pub mod indexed;
pub mod model;
pub mod operator;
pub mod ordinary;
pub mod scalars;
pub mod value_range;
