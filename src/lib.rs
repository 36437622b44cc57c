//! The algebraic engine of a Gaussian-elimination puzzle: a square linear
//! system of equations, the row exchange, the guards that decide when a
//! coefficient may be made 1 or eliminated, puzzle generation, and the search
//! that proposes the next elimination step.
//!
//! Every number is held as the bit pattern of an IEEE-754 binary64 value, so
//! the zero and one tests behind each guard, negation and the hint search are
//! exact statements about integers. Dividing and subtracting rows is
//! floating-point arithmetic and is left to the caller.

use vstd::prelude::*;

mod binary64;
mod display;
mod equation;
mod system;

pub use binary64::{
    equal_values, from_integer, integer_bits, is_nan, is_one, is_zero, log2_floor, nan_bits,
    negated, negated_bits, same_value, zero_bits, NEGATIVE_ZERO, ONE, POSITIVE_ZERO,
};
pub use display::{format_value, shown_text};
pub use equation::{
    equal_equations, integer_within, is_negation_of, Equation, COEFFICIENT_LIMIT, SOLUTION_LIMIT,
};
pub use system::{equal_systems, lemma_switch_rows_twice, scan_position, swapped, System};

verus! {

/// Number of equations in a system, and of unknowns in each equation.
pub const SYSTEM_SIZE: usize = 4;

} // verus!
