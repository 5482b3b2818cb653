//! The matrix capability contract: the operation set every matrix
//! implementation must provide, together with the mathematical model the
//! contracts are stated over. A matrix is modelled as a sequence of rows,
//! each a sequence of scalars.

use vstd::prelude::*;

use crate::element::Element;

verus! {

/// The column count of a modelled matrix: the length of its first row.
/// An empty matrix has no row to measure, and counts as zero columns here;
/// the executable `cols` query refuses that state.
pub open spec fn cols_of<T>(m: Seq<Seq<T>>) -> int {
    if m.len() == 0 {
        0
    } else {
        m[0].len() as int
    }
}

/// Well-formedness of a modelled matrix: every row has the same length as
/// the first one, so the grid is rectangular.
pub open spec fn rectangular<T>(m: Seq<Seq<T>>) -> bool {
    forall|i: int| 0 <= i < m.len() ==> (#[trigger] m[i]).len() == cols_of(m)
}

/// The precondition violations of the contract, as recoverable values.
/// The contract itself treats them as caller errors — the operations simply
/// require them away — and the `try_` variants of the dense engine convert
/// them into these values for callers that cannot uphold the preconditions
/// statically.
#[derive(Debug, Clone, Copy, PartialEq, Eq, Structural)]
pub enum MatrixError {
    /// Multiplication was attempted where the left operand's column count
    /// does not match the right operand's row count.
    ShapeMismatch,
    /// A row or a cell was asked for at or beyond the matrix's bounds.
    IndexOutOfBounds,
    /// The column count was asked of a matrix with no rows, so there is no
    /// row to measure it from.
    DegenerateShapeQuery,
}

/// The partial inner sum for cell `(i, j)` of a matrix product: the sum of
/// the first `k` products `a[i][x] * b[x][j]`, accumulated left to right
/// from the additive identity, in the order the engine computes it.
pub open spec fn dot_prefix<T: Element>(
    a: Seq<Seq<T>>,
    b: Seq<Seq<T>>,
    i: int,
    j: int,
    k: int,
) -> T
    decreases k,
{
    if k <= 0 {
        T::zero_spec()
    } else {
        dot_prefix(a, b, i, j, k - 1).plus_spec(a[i][k - 1].times_spec(b[k - 1][j]))
    }
}

/// Cell `(i, j)` of a matrix product: the inner sum over the whole shared
/// dimension, the row count of the right operand.
pub open spec fn dot_cell<T: Element>(a: Seq<Seq<T>>, b: Seq<Seq<T>>, i: int, j: int) -> T {
    dot_prefix(a, b, i, j, b.len() as int)
}

/// The modelled matrix product: as many rows as the left operand, as many
/// columns as the right one, each cell the inner sum for its position.
pub open spec fn dot_spec<T: Element>(a: Seq<Seq<T>>, b: Seq<Seq<T>>) -> Seq<Seq<T>> {
    Seq::new(a.len(), |i: int| Seq::new(cols_of(b) as nat, |j: int| dot_cell(a, b, i, j)))
}

/// The modelled transpose: rows and columns swapped, cell `(i, j)` taken
/// from cell `(j, i)` of the original.
pub open spec fn transpose_spec<T>(m: Seq<Seq<T>>) -> Seq<Seq<T>> {
    Seq::new(cols_of(m) as nat, |i: int| Seq::new(m.len(), |j: int| m[j][i]))
}

/// Shape law: a grid of `m` rows that each hold `n` cells — as `generate`,
/// `zero`, `random` and `map` build them — measures exactly `m` rows and,
/// as long as there is a first row to measure, `n` columns, and is
/// rectangular.
pub proof fn lemma_shape_of_uniform_rows<T>(g: Seq<Seq<T>>, m: int, n: int)
    requires
        m >= 1,
        g.len() == m,
        forall|i: int| 0 <= i < m ==> (#[trigger] g[i]).len() == n,
    ensures
        g.len() == m,
        cols_of(g) == n,
        rectangular(g),
{
    assert(g[0].len() == n);
}

/// Transpose involution: transposing a matrix twice gives back the original
/// matrix, for every rectangular matrix with at least one row and one
/// column.
pub proof fn lemma_transpose_involution<T>(m: Seq<Seq<T>>)
    requires
        rectangular(m),
        m.len() >= 1,
        cols_of(m) >= 1,
    ensures
        transpose_spec(transpose_spec(m)) == m,
{
    let t = transpose_spec(m);
    let tt = transpose_spec(t);
    assert(t.len() == cols_of(m));
    assert(t[0].len() == m.len());
    assert forall|i: int| 0 <= i < m.len() implies tt[i] =~= m[i] by {
        assert(m[i].len() == cols_of(m));
    }
    assert(tt =~= m);
}

/// The operation set any matrix type must expose to be usable as a matrix,
/// independent of its concrete storage strategy. Every operation is pure:
/// it builds a new matrix rather than mutating one in place.
///
/// Each implementation gives the contract a model through `cells`; all
/// obligations are stated over that model.
pub trait MatrixTrait<T: Element>: Sized {
    /// The modelled grid of cells: one sequence per row, in order.
    spec fn cells(&self) -> Seq<Seq<T>>;

    /// Builds an `m`-row, `n`-column matrix whose cell `(i, j)` is a result
    /// of `f(i, j)`, with `f` called once per cell in row-major order.
    fn generate<F: Fn(usize, usize) -> T>(m: usize, n: usize, f: F) -> (r: Self)
        requires
            forall|i: usize, j: usize| i < m && j < n ==> #[trigger] call_requires(f, (i, j)),
        ensures
            r.cells().len() == m,
            forall|i: int| 0 <= i < m ==> (#[trigger] r.cells()[i]).len() == n,
            forall|i: usize, j: usize|
                i < m && j < n ==> call_ensures(f, (i, j), #[trigger] r.cells()[i as int][j as int]),
    ;

    /// Builds an `m`-row, `n`-column matrix with every cell the additive
    /// identity.
    fn zero(m: usize, n: usize) -> (r: Self)
        ensures
            r.cells().len() == m,
            forall|i: int| 0 <= i < m ==> (#[trigger] r.cells()[i]).len() == n,
            forall|i: int, j: int|
                0 <= i < m && 0 <= j < n ==> #[trigger] r.cells()[i][j] == T::zero_spec(),
    ;

    /// Builds an `m`-row, `n`-column matrix whose cells are drawn
    /// independently from the scalar's sampling distribution. Only the shape
    /// is promised: nothing is known of the drawn values.
    fn random(m: usize, n: usize) -> (r: Self)
        ensures
            r.cells().len() == m,
            forall|i: int| 0 <= i < m ==> (#[trigger] r.cells()[i]).len() == n,
    ;

    /// Builds a one-row matrix whose columns are `v` in order.
    fn from_vec(v: &Vec<T>) -> (r: Self)
        ensures
            r.cells().len() == 1,
            r.cells()[0] == v@,
    ;

    /// The `n`-th row, by reference.
    fn row(&self, n: usize) -> (r: &Vec<T>)
        requires
            n < self.cells().len(),
        ensures
            r@ == self.cells()[n as int],
    ;

    /// The number of rows.
    fn rows(&self) -> (r: usize)
        ensures
            r == self.cells().len(),
    ;

    /// The number of columns, measured on the first row; a matrix with no
    /// rows has no column count to ask for.
    fn cols(&self) -> (r: usize)
        requires
            self.cells().len() >= 1,
        ensures
            r == cols_of(self.cells()),
    ;

    /// The cell at row `m`, column `n`.
    fn get(&self, m: usize, n: usize) -> (r: T)
        requires
            rectangular(self.cells()),
            m < self.cells().len(),
            n < cols_of(self.cells()),
        ensures
            r == self.cells()[m as int][n as int],
    ;

    /// Standard matrix multiplication. For a left operand of shape `p × q`
    /// the right one must have `q` rows; the result has the left operand's
    /// rows and the right one's columns, and cell `(i, j)` is the inner sum
    /// over the shared dimension, accumulated left to right.
    fn dot(&self, b: &Self) -> (r: Self)
        requires
            rectangular(self.cells()),
            rectangular(b.cells()),
            self.cells().len() >= 1,
            b.cells().len() >= 1,
            cols_of(self.cells()) == b.cells().len(),
        ensures
            r.cells() == dot_spec(self.cells(), b.cells()),
            r.cells().len() == self.cells().len(),
            forall|i: int|
                0 <= i < r.cells().len() ==> (#[trigger] r.cells()[i]).len() == cols_of(b.cells()),
            forall|i: int, j: int|
                0 <= i < self.cells().len() && 0 <= j < cols_of(b.cells())
                    ==> #[trigger] r.cells()[i][j] == dot_cell(self.cells(), b.cells(), i, j),
    ;

    /// A new matrix with rows and columns swapped: cell `(i, j)` of the
    /// result is cell `(j, i)` of the original.
    fn transpose(&self) -> (r: Self)
        requires
            rectangular(self.cells()),
            self.cells().len() >= 1,
        ensures
            r.cells() == transpose_spec(self.cells()),
            r.cells().len() == cols_of(self.cells()),
            forall|i: int|
                0 <= i < r.cells().len() ==> (#[trigger] r.cells()[i]).len() == self.cells().len(),
            forall|i: int, j: int|
                0 <= i < cols_of(self.cells()) && 0 <= j < self.cells().len()
                    ==> #[trigger] r.cells()[i][j] == self.cells()[j][i],
    ;

    /// A new matrix of the same shape with every cell replaced by a result
    /// of `f` on the original cell, applied independently per cell.
    fn map<F: Fn(T) -> T>(&self, f: F) -> (r: Self)
        requires
            rectangular(self.cells()),
            self.cells().len() >= 1,
            forall|i: int, j: int|
                0 <= i < self.cells().len() && 0 <= j < cols_of(self.cells())
                    ==> #[trigger] call_requires(f, (self.cells()[i][j],)),
        ensures
            r.cells().len() == self.cells().len(),
            forall|i: int|
                0 <= i < r.cells().len() ==> (#[trigger] r.cells()[i]).len() == cols_of(self.cells()),
            forall|i: int, j: int|
                0 <= i < self.cells().len() && 0 <= j < cols_of(self.cells())
                    ==> call_ensures(f, (self.cells()[i][j],), #[trigger] r.cells()[i][j]),
    ;
}

} // verus!
