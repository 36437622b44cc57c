use vstd::prelude::*;

use crate::binary64::{is_zero, zero_bits};
use crate::equation::{
    equal_equations, integer_within, is_negation_of, Equation, COEFFICIENT_LIMIT, SOLUTION_LIMIT,
};
use crate::SYSTEM_SIZE;

verus! {

/// A square linear system: `SYSTEM_SIZE` equations in `SYSTEM_SIZE` unknowns.
///
/// Row `i` is both where an equation is stored and, by convention, the row
/// whose coefficient `i` is the pivot of column `i`.
#[derive(Clone, Copy, Debug)]
pub struct System {
    pub equations: [Equation; SYSTEM_SIZE],
}

/// `rows` with the rows at `a` and `b` exchanged.
pub open spec fn swapped(rows: Seq<Equation>, a: int, b: int) -> Seq<Equation> {
    rows.update(a, rows[b]).update(b, rows[a])
}

/// The two systems compare equal row by row, as floating-point values.
pub open spec fn equal_systems(s: System, t: System) -> bool {
    forall|i: int|
        0 <= i < SYSTEM_SIZE ==> equal_equations(#[trigger] s.equations[i], t.equations[i])
}

/// Where the hint search reaches the cell at (`row`, `col`): first every cell
/// below the diagonal, column by column from the left and downward within a
/// column, then every cell above it in the same order.
pub open spec fn scan_position(row: int, col: int) -> int {
    if row > col {
        col * SYSTEM_SIZE + row
    } else {
        SYSTEM_SIZE * SYSTEM_SIZE + col * SYSTEM_SIZE + row
    }
}

impl System {
    /// Coefficient `col` of row `row`.
    pub open spec fn entry(&self, row: int, col: int) -> u64 {
        self.equations[row].coefficients[col]
    }

    /// Row `with` has a nonzero coefficient `col`, so it can serve to
    /// eliminate that coefficient from another row.
    pub open spec fn spec_can_make_coefficient_0_with_row(&self, col: int, with: int) -> bool {
        !zero_bits(self.entry(with, col))
    }

    /// Eliminating coefficient `col` of row `row` with row `with` is possible
    /// and changes something: that coefficient is not zero yet.
    pub open spec fn spec_should_make_coefficient_0_with_row(
        &self,
        row: int,
        col: int,
        with: int,
    ) -> bool {
        self.spec_can_make_coefficient_0_with_row(col, with) && !zero_bits(self.entry(row, col))
    }

    /// An off-diagonal cell that the pivot row of its column can eliminate.
    pub open spec fn pending(&self, row: int, col: int) -> bool {
        row != col && self.spec_should_make_coefficient_0_with_row(row, col, col)
    }

    pub fn new(equations: [Equation; SYSTEM_SIZE]) -> (r: Self)
        ensures
            r.equations == equations,
    {
        System { equations }
    }

    /// A system of independently drawn rows, each as `Equation::random` gives
    /// it; nothing checks that the system has a unique solution.
    pub fn random() -> (r: Self)
        ensures
            forall|i: int, k: int|
                0 <= i < SYSTEM_SIZE && 0 <= k < SYSTEM_SIZE ==> integer_within(
                    #[trigger] r.entry(i, k),
                    COEFFICIENT_LIMIT as int,
                ),
            forall|i: int|
                0 <= i < SYSTEM_SIZE ==> integer_within(
                    #[trigger] r.equations[i].solution,
                    SOLUTION_LIMIT as int,
                ),
    {
        let first = Equation::random();
        let mut equations = [first; SYSTEM_SIZE];
        let mut i: usize = 1;
        while i < SYSTEM_SIZE
            invariant
                1 <= i <= SYSTEM_SIZE,
                forall|j: int, k: int|
                    0 <= j < SYSTEM_SIZE && 0 <= k < SYSTEM_SIZE ==> integer_within(
                        #[trigger] equations[j].coefficients[k],
                        COEFFICIENT_LIMIT as int,
                    ),
                forall|j: int|
                    0 <= j < SYSTEM_SIZE ==> integer_within(
                        #[trigger] equations[j].solution,
                        SOLUTION_LIMIT as int,
                    ),
            decreases SYSTEM_SIZE - i,
        {
            equations[i] = Equation::random();
            i += 1;
        }
        System { equations }
    }

    /// Exchanges rows `a` and `b`; nothing changes where they are the same.
    pub fn switch_rows(&mut self, a: usize, b: usize)
        requires
            a < SYSTEM_SIZE,
            b < SYSTEM_SIZE,
        ensures
            final(self).equations@ == swapped(old(self).equations@, a as int, b as int),
    {
        let row_a = self.equations[a];
        let row_b = self.equations[b];
        self.equations[b] = row_a;
        self.equations[a] = row_b;
    }

    /// Whether coefficient `coefficient` of row `equation` can be made 1;
    /// also true where it is 1 already.
    pub fn can_make_coefficient_1(&self, equation: usize, coefficient: usize) -> (r: bool)
        requires
            equation < SYSTEM_SIZE,
            coefficient < SYSTEM_SIZE,
        ensures
            r == self.equations[equation as int].spec_can_make_coefficient_1(coefficient as int),
    {
        self.equations[equation].can_make_coefficient_1(coefficient)
    }

    /// Like `can_make_coefficient_1`, but false where the coefficient is 1 already.
    pub fn should_make_coefficient_1(&self, equation: usize, coefficient: usize) -> (r: bool)
        requires
            equation < SYSTEM_SIZE,
            coefficient < SYSTEM_SIZE,
        ensures
            r == self.equations[equation as int].spec_should_make_coefficient_1(
                coefficient as int,
            ),
    {
        self.equations[equation].should_make_coefficient_1(coefficient)
    }

    /// Whether row `with` can eliminate coefficient `coefficient` of another
    /// row without dividing by zero; also true where that coefficient is 0 already.
    pub fn can_make_coefficient_0_with_row(&self, coefficient: usize, with: usize) -> (r: bool)
        requires
            coefficient < SYSTEM_SIZE,
            with < SYSTEM_SIZE,
        ensures
            r == self.spec_can_make_coefficient_0_with_row(coefficient as int, with as int),
    {
        !is_zero(self.equations[with].coefficients[coefficient])
    }

    /// Like `can_make_coefficient_0_with_row`, but false where coefficient
    /// `coefficient` of row `equation` is 0 already.
    pub fn should_make_coefficient_0_with_row(
        &self,
        equation: usize,
        coefficient: usize,
        with: usize,
    ) -> (r: bool)
        requires
            equation < SYSTEM_SIZE,
            coefficient < SYSTEM_SIZE,
            with < SYSTEM_SIZE,
        ensures
            r == self.spec_should_make_coefficient_0_with_row(
                equation as int,
                coefficient as int,
                with as int,
            ),
    {
        self.can_make_coefficient_0_with_row(coefficient, with) && !is_zero(
            self.equations[equation].coefficients[coefficient],
        )
    }

    /// The next elimination step, as `(row, column, pivot row)`: the first
    /// pending cell in scan order, or `None` where no cell is pending.
    pub fn hint(&self) -> (r: Option<(usize, usize, usize)>)
        ensures
            match r {
                Some((row, col, with)) => {
                    &&& row < SYSTEM_SIZE
                    &&& col < SYSTEM_SIZE
                    &&& with == col
                    &&& self.pending(row as int, col as int)
                    &&& forall|r2: int, c2: int|
                        0 <= r2 < SYSTEM_SIZE && 0 <= c2 < SYSTEM_SIZE && #[trigger] self.pending(
                            r2,
                            c2,
                        ) ==> scan_position(row as int, col as int) <= scan_position(r2, c2)
                },
                None => forall|r2: int, c2: int|
                    0 <= r2 < SYSTEM_SIZE && 0 <= c2 < SYSTEM_SIZE ==> !#[trigger] self.pending(
                        r2,
                        c2,
                    ),
            },
    {
        let mut i: usize = 0;
        while i < SYSTEM_SIZE
            invariant
                i <= SYSTEM_SIZE,
                forall|r2: int, c2: int|
                    0 <= c2 < i && c2 < r2 < SYSTEM_SIZE ==> !#[trigger] self.pending(r2, c2),
            decreases SYSTEM_SIZE - i,
        {
            let mut j: usize = i + 1;
            while j < SYSTEM_SIZE
                invariant
                    i < SYSTEM_SIZE,
                    i < j <= SYSTEM_SIZE,
                    forall|r2: int, c2: int|
                        0 <= c2 < i && c2 < r2 < SYSTEM_SIZE ==> !#[trigger] self.pending(r2, c2),
                    forall|r2: int| i < r2 < j ==> !#[trigger] self.pending(r2, i as int),
                decreases SYSTEM_SIZE - j,
            {
                if self.should_make_coefficient_0_with_row(j, i, i) {
                    return Some((j, i, i));
                }
                j += 1;
            }
            i += 1;
        }
        let mut i: usize = 0;
        while i < SYSTEM_SIZE
            invariant
                i <= SYSTEM_SIZE,
                forall|r2: int, c2: int|
                    0 <= c2 < SYSTEM_SIZE && c2 < r2 < SYSTEM_SIZE ==> !#[trigger] self.pending(
                        r2,
                        c2,
                    ),
                forall|r2: int, c2: int|
                    0 <= c2 < i && 0 <= r2 < c2 ==> !#[trigger] self.pending(r2, c2),
            decreases SYSTEM_SIZE - i,
        {
            let mut j: usize = 0;
            while j < i
                invariant
                    i < SYSTEM_SIZE,
                    j <= i,
                    forall|r2: int, c2: int|
                        0 <= c2 < SYSTEM_SIZE && c2 < r2 < SYSTEM_SIZE ==> !#[trigger] self.pending(
                            r2,
                            c2,
                        ),
                    forall|r2: int, c2: int|
                        0 <= c2 < i && 0 <= r2 < c2 ==> !#[trigger] self.pending(r2, c2),
                    forall|r2: int| 0 <= r2 < j ==> !#[trigger] self.pending(r2, i as int),
                decreases i - j,
            {
                if self.should_make_coefficient_0_with_row(j, i, i) {
                    return Some((j, i, i));
                }
                j += 1;
            }
            i += 1;
        }
        None
    }

    /// The system with every row negated.
    pub fn negate(&self) -> (r: Self)
        ensures
            forall|i: int|
                0 <= i < SYSTEM_SIZE ==> is_negation_of(#[trigger] r.equations[i], self.equations[i]),
    {
        let mut equations = self.equations;
        let mut i: usize = 0;
        while i < SYSTEM_SIZE
            invariant
                i <= SYSTEM_SIZE,
                forall|k: int|
                    0 <= k < i ==> is_negation_of(#[trigger] equations[k], self.equations[k]),
                forall|k: int| i <= k < SYSTEM_SIZE ==> #[trigger] equations[k] == self.equations[k],
            decreases SYSTEM_SIZE - i,
        {
            equations[i] = equations[i].negate();
            i += 1;
        }
        System { equations }
    }
}

impl PartialEq for System {
    /// Floating-point equality of every row.
    fn eq(&self, other: &Self) -> (r: bool)
        ensures
            r == equal_systems(*self, *other),
    {
        let mut i: usize = 0;
        while i < SYSTEM_SIZE
            invariant
                i <= SYSTEM_SIZE,
                forall|k: int|
                    0 <= k < i ==> equal_equations(#[trigger] self.equations[k], other.equations[k]),
            decreases SYSTEM_SIZE - i,
        {
            if self.equations[i] != other.equations[i] {
                return false;
            }
            i += 1;
        }
        true
    }
}

impl vstd::std_specs::cmp::PartialEqSpecImpl for System {
    open spec fn obeys_eq_spec() -> bool {
        true
    }

    open spec fn eq_spec(&self, other: &Self) -> bool {
        equal_systems(*self, *other)
    }
}

/// Exchanging the same two rows twice restores the original order of rows.
pub proof fn lemma_switch_rows_twice(rows: Seq<Equation>, a: int, b: int)
    requires
        0 <= a < rows.len(),
        0 <= b < rows.len(),
    ensures
        swapped(swapped(rows, a, b), a, b) == rows,
{
    assert(swapped(swapped(rows, a, b), a, b) =~= rows);
}

} // verus!
