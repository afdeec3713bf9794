//! Exact fractions and Gaussian integers over fixed-width integers, with the
//! Farey mediant and a Euclidean greatest common divisor.

pub mod farey;
pub mod fraction;
pub mod gaussian;
pub mod gcd;
pub mod text;
pub mod zero;
