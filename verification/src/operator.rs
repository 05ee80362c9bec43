//! The operator layer: named arithmetic operations over the capability
//! traits, each a small generic function with an exact contract.

pub mod abs;
pub mod cross;
pub mod gcd_lcm;
pub mod int_div;
pub mod log;
pub mod pow;
pub mod range_to;
pub mod neg;
pub mod reciprocal;
pub mod trailing_zeros;
