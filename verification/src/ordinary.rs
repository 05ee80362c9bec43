//! The ordinary mathematical algorithms: greatest common divisor,
//! integer powers, and the series-based exponential and logarithm.

pub mod gcd;
pub mod log;
pub mod pow;
pub mod powf;
