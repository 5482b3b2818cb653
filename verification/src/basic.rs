//! The dense matrix engine: the one concrete implementation of the
//! capability contract, storing its cells row-major as a vector of rows.

use vstd::prelude::*;

use crate::element::Element;
use crate::matrix_trait::cols_of;
use crate::matrix_trait::dot_cell;
use crate::matrix_trait::dot_prefix;
use crate::matrix_trait::dot_spec;
use crate::matrix_trait::rectangular;
use crate::matrix_trait::transpose_spec;
use crate::matrix_trait::MatrixError;
use crate::matrix_trait::MatrixTrait;

verus! {

/// A dense matrix over row-major storage: a vector of rows, each a vector
/// of scalars. A well-formed matrix is rectangular — see `rectangular` —
/// and the constructors of the capability contract only build such values.
#[derive(Debug, Clone, PartialEq)]
pub struct BasicMatrix<T>(pub Vec<Vec<T>>);

impl<T> View for BasicMatrix<T> {
    type V = Seq<Seq<T>>;

    open spec fn view(&self) -> Seq<Seq<T>> {
        self.0@.map_values(|r: Vec<T>| r@)
    }
}

impl<T: Element> BasicMatrix<T> {
    /// Structural equality: two dense matrices are equal exactly when they
    /// have the same shape and every corresponding cell is the same value.
    pub fn equals(&self, other: &Self) -> (r: bool)
        requires
            rectangular(self@),
            rectangular(other@),
        ensures
            r <==> self@ == other@,
    {
        let n = self.0.len();
        if n != other.0.len() {
            return false;
        }
        if n == 0 {
            proof {
                assert(self@ =~= other@);
            }
            return true;
        }
        let c = self.cols();
        if c != other.cols() {
            proof {
                assert(self@[0].len() != other@[0].len());
            }
            return false;
        }
        let mut i: usize = 0;
        while i < n
            invariant
                rectangular(self@),
                rectangular(other@),
                n == self@.len(),
                n == other@.len(),
                n >= 1,
                c == cols_of(self@),
                c == cols_of(other@),
                i <= n,
                forall|p: int| 0 <= p < i ==> #[trigger] self@[p] == other@[p],
            decreases n - i,
        {
            let mut j: usize = 0;
            while j < c
                invariant
                    rectangular(self@),
                    rectangular(other@),
                    n == self@.len(),
                    n == other@.len(),
                    n >= 1,
                    c == cols_of(self@),
                    c == cols_of(other@),
                    i < n,
                    j <= c,
                    forall|q: int|
                        0 <= q < j ==> #[trigger] self@[i as int][q] == other@[i as int][q],
                decreases c - j,
            {
                let a = self.get(i, j);
                let b = other.get(i, j);
                if !a.eq_val(b) {
                    proof {
                        assert(self@[i as int][j as int] != other@[i as int][j as int]);
                    }
                    return false;
                }
                j = j + 1;
            }
            proof {
                assert(self@[i as int] =~= other@[i as int]);
            }
            i = i + 1;
        }
        proof {
            assert(self@ =~= other@);
        }
        true
    }

    /// The column count as a recoverable value: asking it of a matrix with
    /// no rows yields the degenerate-shape error instead of a fault.
    pub fn try_cols(&self) -> (r: Result<usize, MatrixError>)
        ensures
            self@.len() >= 1 ==> (r matches Ok(c) && c == cols_of(self@)),
            self@.len() == 0 ==> r == Err::<usize, MatrixError>(MatrixError::DegenerateShapeQuery),
    {
        if self.0.len() == 0 {
            Err(MatrixError::DegenerateShapeQuery)
        } else {
            Ok(self.cols())
        }
    }

    /// The `n`-th row as a recoverable value: a row index at or beyond the
    /// row count yields the out-of-bounds error instead of a fault.
    pub fn try_row(&self, n: usize) -> (r: Result<&Vec<T>, MatrixError>)
        ensures
            n < self@.len() ==> (r matches Ok(v) && v@ == self@[n as int]),
            n >= self@.len() ==> r == Err::<&Vec<T>, MatrixError>(MatrixError::IndexOutOfBounds),
    {
        if n < self.0.len() {
            Ok(&self.0[n])
        } else {
            Err(MatrixError::IndexOutOfBounds)
        }
    }

    /// The cell at `(m, n)` as a recoverable value: an index at or beyond
    /// either bound yields the out-of-bounds error instead of a fault.
    pub fn try_get(&self, m: usize, n: usize) -> (r: Result<T, MatrixError>)
        requires
            rectangular(self@),
        ensures
            m < self@.len() && n < cols_of(self@) ==> r == Ok::<T, MatrixError>(
                self@[m as int][n as int],
            ),
            !(m < self@.len() && n < cols_of(self@)) ==> r == Err::<T, MatrixError>(
                MatrixError::IndexOutOfBounds,
            ),
    {
        if m < self.0.len() && n < self.cols() {
            Ok(self.get(m, n))
        } else {
            Err(MatrixError::IndexOutOfBounds)
        }
    }

    /// Matrix multiplication as a recoverable value. A left operand with no
    /// rows, or a right operand with no rows to measure columns from, yields
    /// the degenerate-shape error; disagreeing inner dimensions yield the
    /// shape-mismatch error and no result; otherwise the product is the one
    /// `dot` promises.
    pub fn try_dot(&self, b: &Self) -> (r: Result<Self, MatrixError>)
        requires
            rectangular(self@),
            rectangular(b@),
        ensures
            self@.len() == 0 ==> r == Err::<Self, MatrixError>(MatrixError::DegenerateShapeQuery),
            self@.len() >= 1 && cols_of(self@) != b@.len() ==> r == Err::<Self, MatrixError>(
                MatrixError::ShapeMismatch,
            ),
            self@.len() >= 1 && cols_of(self@) == b@.len() && b@.len() == 0 ==> r == Err::<
                Self,
                MatrixError,
            >(MatrixError::DegenerateShapeQuery),
            self@.len() >= 1 && b@.len() >= 1 && cols_of(self@) == b@.len() ==> (r matches Ok(c)
                && c@ == dot_spec(self@, b@)),
    {
        if self.0.len() == 0 {
            return Err(MatrixError::DegenerateShapeQuery);
        }
        if self.cols() != b.rows() {
            return Err(MatrixError::ShapeMismatch);
        }
        if b.0.len() == 0 {
            return Err(MatrixError::DegenerateShapeQuery);
        }
        Ok(self.dot(b))
    }
}

impl<T: Element> MatrixTrait<T> for BasicMatrix<T> {
    open spec fn cells(&self) -> Seq<Seq<T>> {
        self@
    }

    fn generate<F: Fn(usize, usize) -> T>(m: usize, n: usize, f: F) -> (r: Self) {
        let mut mtx: Vec<Vec<T>> = Vec::new();
        let mut i: usize = 0;
        while i < m
            invariant
                i <= m,
                mtx@.len() == i,
                forall|p: int| 0 <= p < i ==> (#[trigger] mtx@[p])@.len() == n,
                forall|p: usize, q: usize|
                    p < i && q < n ==> call_ensures(f, (p, q), #[trigger] mtx@[p as int]@[q as int]),
                forall|p: usize, q: usize| p < m && q < n ==> #[trigger] call_requires(f, (p, q)),
            decreases m - i,
        {
            let mut row: Vec<T> = Vec::new();
            let mut j: usize = 0;
            while j < n
                invariant
                    j <= n,
                    i < m,
                    row@.len() == j,
                    forall|q: usize| q < j ==> call_ensures(f, (i, q), #[trigger] row@[q as int]),
                    forall|p: usize, q: usize| p < m && q < n ==> #[trigger] call_requires(f, (p, q)),
                decreases n - j,
            {
                let v = f(i, j);
                row.push(v);
                j = j + 1;
            }
            mtx.push(row);
            i = i + 1;
        }
        BasicMatrix(mtx)
    }

    fn zero(m: usize, n: usize) -> (r: Self) {
        let f = |_i: usize, _j: usize| -> (v: T)
            ensures
                v == T::zero_spec(),
            {
                T::zero_val()
            };
        Self::generate(m, n, f)
    }

    fn random(m: usize, n: usize) -> (r: Self) {
        Self::generate(m, n, |_i: usize, _j: usize| T::sample())
    }

    fn from_vec(v: &Vec<T>) -> (r: Self) {
        let f = |_i: usize, j: usize| -> (c: T)
            requires
                j < v@.len(),
            ensures
                c == v@[j as int],
            {
                v[j]
            };
        let r = Self::generate(1, v.len(), f);
        proof {
            assert(r.cells()[0] =~= v@);
        }
        r
    }

    fn row(&self, n: usize) -> (r: &Vec<T>) {
        &self.0[n]
    }

    fn rows(&self) -> (r: usize) {
        self.0.len()
    }

    fn cols(&self) -> (r: usize) {
        self.0[0].len()
    }

    fn get(&self, m: usize, n: usize) -> (r: T) {
        proof {
            assert(self.cells()[m as int].len() == cols_of(self.cells()));
        }
        let row = &self.0[m];
        row[n]
    }

    fn dot(&self, b: &Self) -> (r: Self) {
        let p = self.rows();
        let q = self.cols();
        let rcols = b.cols();
        let mut mtx: Vec<Vec<T>> = Vec::new();
        let mut m: usize = 0;
        while m < p
            invariant
                rectangular(self.cells()),
                rectangular(b.cells()),
                p == self.cells().len(),
                q == cols_of(self.cells()),
                q == b.cells().len(),
                rcols == cols_of(b.cells()),
                p >= 1,
                m <= p,
                mtx@.len() == m,
                forall|i: int| 0 <= i < m ==> (#[trigger] mtx@[i])@.len() == rcols,
                forall|i: int, j: int|
                    0 <= i < m && 0 <= j < rcols
                        ==> #[trigger] mtx@[i]@[j] == dot_cell(self.cells(), b.cells(), i, j),
            decreases p - m,
        {
            let mut row: Vec<T> = Vec::new();
            let mut n: usize = 0;
            while n < rcols
                invariant
                    rectangular(self.cells()),
                    rectangular(b.cells()),
                    p == self.cells().len(),
                    q == cols_of(self.cells()),
                    q == b.cells().len(),
                    rcols == cols_of(b.cells()),
                    m < p,
                    n <= rcols,
                    row@.len() == n,
                    forall|j: int|
                        0 <= j < n
                            ==> #[trigger] row@[j] == dot_cell(self.cells(), b.cells(), m as int, j),
                decreases rcols - n,
            {
                let mut acc: T = T::zero_val();
                let mut k: usize = 0;
                while k < q
                    invariant
                        rectangular(self.cells()),
                        rectangular(b.cells()),
                        p == self.cells().len(),
                        q == cols_of(self.cells()),
                        q == b.cells().len(),
                        rcols == cols_of(b.cells()),
                        m < p,
                        n < rcols,
                        k <= q,
                        acc == dot_prefix(self.cells(), b.cells(), m as int, n as int, k as int),
                    decreases q - k,
                {
                    let aik = self.get(m, k);
                    let bkj = b.get(k, n);
                    acc = acc.plus(aik.times(bkj));
                    k = k + 1;
                }
                proof {
                    assert(acc == dot_cell(self.cells(), b.cells(), m as int, n as int));
                }
                row.push(acc);
                n = n + 1;
            }
            mtx.push(row);
            m = m + 1;
        }
        let r = BasicMatrix(mtx);
        proof {
            let d = dot_spec(self.cells(), b.cells());
            assert forall|i: int| 0 <= i < d.len() implies r.cells()[i] =~= d[i] by {}
            assert(r.cells() =~= d);
        }
        r
    }

    fn transpose(&self) -> (r: Self) {
        let c = self.cols();
        let rn = self.rows();
        let f = |i: usize, j: usize| -> (v: T)
            requires
                rectangular(self.cells()),
                i < cols_of(self.cells()),
                j < self.cells().len(),
            ensures
                v == self.cells()[j as int][i as int],
            {
                self.get(j, i)
            };
        let r = Self::generate(c, rn, f);
        proof {
            let t = transpose_spec(self.cells());
            assert forall|i: int, j: int|
                0 <= i < cols_of(self.cells()) && 0 <= j < self.cells().len() implies #[trigger] r
                .cells()[i][j] == self.cells()[j][i] by {
                let pi = i as usize;
                let qj = j as usize;
                assert(call_ensures(f, (pi, qj), r.cells()[pi as int][qj as int]));
            }
            assert forall|i: int| 0 <= i < t.len() implies r.cells()[i] =~= t[i] by {}
            assert(r.cells() =~= t);
        }
        r
    }

    fn map<F: Fn(T) -> T>(&self, f: F) -> (r: Self) {
        let rn = self.rows();
        let c = self.cols();
        let mut mtx: Vec<Vec<T>> = Vec::new();
        let mut i: usize = 0;
        while i < rn
            invariant
                rectangular(self.cells()),
                rn == self.cells().len(),
                c == cols_of(self.cells()),
                rn >= 1,
                i <= rn,
                mtx@.len() == i,
                forall|p: int, q: int|
                    0 <= p < self.cells().len() && 0 <= q < cols_of(self.cells())
                        ==> #[trigger] call_requires(f, (self.cells()[p][q],)),
                forall|p: int| 0 <= p < i ==> (#[trigger] mtx@[p])@.len() == c,
                forall|p: int, q: int|
                    0 <= p < i && 0 <= q < c
                        ==> call_ensures(f, (self.cells()[p][q],), #[trigger] mtx@[p]@[q]),
            decreases rn - i,
        {
            let mut row: Vec<T> = Vec::new();
            let mut j: usize = 0;
            while j < c
                invariant
                    rectangular(self.cells()),
                    rn == self.cells().len(),
                    c == cols_of(self.cells()),
                    i < rn,
                    j <= c,
                    row@.len() == j,
                    forall|p: int, q: int|
                        0 <= p < self.cells().len() && 0 <= q < cols_of(self.cells())
                            ==> #[trigger] call_requires(f, (self.cells()[p][q],)),
                    forall|q: int|
                        0 <= q < j
                            ==> call_ensures(f, (self.cells()[i as int][q],), #[trigger] row@[q]),
                decreases c - j,
            {
                let cell = self.get(i, j);
                let v = f(cell);
                row.push(v);
                j = j + 1;
            }
            mtx.push(row);
            i = i + 1;
        }
        BasicMatrix(mtx)
    }
}

} // verus!
