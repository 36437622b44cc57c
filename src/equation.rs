use vstd::prelude::*;

use crate::binary64::{
    equal_values, from_integer, integer_bits, is_one, is_zero, negated, negated_bits, same_value,
    zero_bits, ONE,
};
use crate::SYSTEM_SIZE;

verus! {

/// One linear equation: `SYSTEM_SIZE` coefficients and a right-hand side.
///
/// Each number is the bit pattern of a binary64 value. The array type fixes
/// the number of coefficients for the lifetime of the value.
#[derive(Clone, Copy, Debug)]
pub struct Equation {
    pub coefficients: [u64; SYSTEM_SIZE],
    pub solution: u64,
}

/// A random coefficient is a whole number in `-COEFFICIENT_LIMIT..=COEFFICIENT_LIMIT`.
pub const COEFFICIENT_LIMIT: i32 = 5;

/// A random right-hand side is a whole number in `-SOLUTION_LIMIT..=SOLUTION_LIMIT`.
pub const SOLUTION_LIMIT: i32 = 10;

/// The value is a whole number between `-limit` and `limit`.
pub open spec fn integer_within(b: u64, limit: int) -> bool {
    exists|n: int| -limit <= n <= limit && b as int == #[trigger] integer_bits(n)
}

/// Relies on rand::random_range: a number drawn uniformly from `low..=high`
/// by the thread-local generator, which panics on an empty range.
#[verifier::external_body]
fn draw_between(low: i32, high: i32) -> (r: i32)
    requires
        low <= high,
    ensures
        low <= r <= high,
{
    rand::random_range(low..=high)
}

/// `r` is `e` with every coefficient and the right-hand side negated.
pub open spec fn is_negation_of(r: Equation, e: Equation) -> bool {
    &&& forall|i: int|
        0 <= i < SYSTEM_SIZE ==> #[trigger] r.coefficients[i] == negated_bits(e.coefficients[i])
    &&& r.solution == negated_bits(e.solution)
}

/// The two equations compare equal number by number, as floating-point values.
pub open spec fn equal_equations(a: Equation, b: Equation) -> bool {
    &&& forall|i: int|
        0 <= i < SYSTEM_SIZE ==> equal_values(#[trigger] a.coefficients[i], b.coefficients[i])
    &&& equal_values(a.solution, b.solution)
}

impl Equation {
    /// Coefficient `index` does not compare equal to zero, so the row may be
    /// divided by it.
    pub open spec fn spec_can_make_coefficient_1(&self, index: int) -> bool {
        !zero_bits(self.coefficients[index])
    }

    /// Coefficient `index` is nonzero and not already one.
    pub open spec fn spec_should_make_coefficient_1(&self, index: int) -> bool {
        self.spec_can_make_coefficient_1(index) && self.coefficients[index] != ONE
    }

    pub fn new(coefficients: [u64; SYSTEM_SIZE], solution: u64) -> (r: Self)
        ensures
            r.coefficients == coefficients,
            r.solution == solution,
    {
        Equation { coefficients, solution }
    }

    /// An equation of independently drawn whole numbers: coefficients within
    /// `COEFFICIENT_LIMIT`, the right-hand side within `SOLUTION_LIMIT`.
    pub fn random() -> (r: Self)
        ensures
            forall|i: int|
                0 <= i < SYSTEM_SIZE ==> integer_within(
                    #[trigger] r.coefficients[i],
                    COEFFICIENT_LIMIT as int,
                ),
            integer_within(r.solution, SOLUTION_LIMIT as int),
    {
        let mut coefficients = [0u64; SYSTEM_SIZE];
        let mut i: usize = 0;
        while i < SYSTEM_SIZE
            invariant
                i <= SYSTEM_SIZE,
                forall|k: int|
                    0 <= k < i ==> integer_within(#[trigger] coefficients[k], COEFFICIENT_LIMIT as int),
            decreases SYSTEM_SIZE - i,
        {
            let n = draw_between(-COEFFICIENT_LIMIT, COEFFICIENT_LIMIT);
            coefficients[i] = from_integer(n);
            assert(integer_within(coefficients[i as int], COEFFICIENT_LIMIT as int));
            i += 1;
        }
        let n = draw_between(-SOLUTION_LIMIT, SOLUTION_LIMIT);
        let solution = from_integer(n);
        assert(integer_within(solution, SOLUTION_LIMIT as int));
        Equation { coefficients, solution }
    }

    /// Whether coefficient `index` can be made 1 by dividing the row by it;
    /// also true where it is 1 already.
    pub fn can_make_coefficient_1(&self, index: usize) -> (r: bool)
        requires
            index < SYSTEM_SIZE,
        ensures
            r == self.spec_can_make_coefficient_1(index as int),
    {
        !is_zero(self.coefficients[index])
    }

    /// Like `can_make_coefficient_1`, but false where the coefficient is 1 already.
    pub fn should_make_coefficient_1(&self, index: usize) -> (r: bool)
        requires
            index < SYSTEM_SIZE,
        ensures
            r == self.spec_should_make_coefficient_1(index as int),
    {
        self.can_make_coefficient_1(index) && !is_one(self.coefficients[index])
    }

    /// The equation with every number negated.
    pub fn negate(&self) -> (r: Self)
        ensures
            is_negation_of(r, *self),
    {
        let mut coefficients = self.coefficients;
        let mut i: usize = 0;
        while i < SYSTEM_SIZE
            invariant
                i <= SYSTEM_SIZE,
                forall|k: int| 0 <= k < i ==> #[trigger] coefficients[k] == negated_bits(
                    self.coefficients[k],
                ),
                forall|k: int| i <= k < SYSTEM_SIZE ==> #[trigger] coefficients[k]
                    == self.coefficients[k],
            decreases SYSTEM_SIZE - i,
        {
            coefficients[i] = negated(coefficients[i]);
            i += 1;
        }
        Equation { coefficients, solution: negated(self.solution) }
    }
}

impl PartialEq for Equation {
    /// Floating-point equality of every coefficient and of the right-hand side.
    fn eq(&self, other: &Self) -> (r: bool)
        ensures
            r == equal_equations(*self, *other),
    {
        let mut i: usize = 0;
        while i < SYSTEM_SIZE
            invariant
                i <= SYSTEM_SIZE,
                forall|k: int|
                    0 <= k < i ==> equal_values(#[trigger] self.coefficients[k], other.coefficients[k]),
            decreases SYSTEM_SIZE - i,
        {
            if !same_value(self.coefficients[i], other.coefficients[i]) {
                return false;
            }
            i += 1;
        }
        same_value(self.solution, other.solution)
    }
}

impl vstd::std_specs::cmp::PartialEqSpecImpl for Equation {
    open spec fn obeys_eq_spec() -> bool {
        true
    }

    open spec fn eq_spec(&self, other: &Self) -> bool {
        equal_equations(*self, *other)
    }
}

} // verus!
