//! Elementary numerical analysis on machine numbers: the width of a
//! fixed-width unsigned integer found by letting it overflow, and three
//! bounded iterative root finders on IEEE 754 doubles.

pub mod integer_overflow;
pub mod binary64;
pub mod real_func;
pub mod bisection_method;
pub mod steffensens_method;
pub mod herons_formula;
