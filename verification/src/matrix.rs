use vstd::prelude::*;

verus! {

/// The error reported when dimensions do not agree: a matrix built from a
/// backing vector of the wrong length, a bias vector that does not match
/// the weight rows, or a forward pass on an input with the wrong number of
/// feature rows. It is raised before any computation is performed.
#[derive(Clone, Copy, PartialEq, Eq, Structural, Debug)]
pub struct ShapeMismatch;

/// A rectangular matrix of fixed-point scalars with dimensions fixed at
/// construction, stored row-major.
#[derive(Debug)]
pub struct Matrix {
    pub rows: usize,
    pub cols: usize,
    pub data: Vec<i64>,
}

pub(crate) proof fn lemma_row_major_index(i: int, j: int, rows: int, cols: int)
    by (nonlinear_arith)
    requires
        0 <= i < rows,
        0 <= j < cols,
    ensures
        0 <= i * cols,
        i * cols + j < rows * cols,
{
}

impl Matrix {
    /// Well-formed: the backing vector holds exactly one scalar per cell.
    pub open spec fn wf(&self) -> bool {
        self.data@.len() == self.rows * self.cols
    }

    /// The number of rows, as a mathematical integer.
    pub open spec fn nrows(&self) -> int {
        self.rows as int
    }

    /// The number of columns, as a mathematical integer.
    pub open spec fn ncols(&self) -> int {
        self.cols as int
    }

    /// The entry in row `i`, column `j`, as a mathematical integer.
    pub open spec fn at(&self, i: int, j: int) -> int {
        self.data@[i * self.ncols() + j] as int
    }

    /// Builds a matrix from its dimensions and its row-major entries.
    /// Succeeds exactly when the backing vector has one entry per cell.
    pub fn new(rows: usize, cols: usize, data: Vec<i64>) -> (r: Result<Matrix, ShapeMismatch>)
        ensures
            (r is Ok) <==> data@.len() == rows * cols,
            r matches Ok(m) ==> m.wf() && m.nrows() == rows && m.ncols() == cols
                && (forall|i: int, j: int|
                    0 <= i < rows && 0 <= j < cols ==> m.at(i, j) == data@[i * cols + j]),
    {
        proof {
            vstd::std_specs::vec::axiom_spec_len(&data);
        }
        match rows.checked_mul(cols) {
            Some(n) => {
                if n == data.len() {
                    Ok(Matrix { rows, cols, data })
                } else {
                    Err(ShapeMismatch)
                }
            },
            None => Err(ShapeMismatch),
        }
    }

    /// Builds a matrix from entries already known to fill it exactly.
    pub(crate) fn from_raw(rows: usize, cols: usize, data: Vec<i64>) -> (m: Matrix)
        requires
            data@.len() == rows * cols,
        ensures
            m.wf(),
            m.nrows() == rows,
            m.ncols() == cols,
            forall|i: int, j: int|
                0 <= i < rows && 0 <= j < cols ==> m.at(i, j) == data@[i * cols + j],
    {
        Matrix { rows, cols, data }
    }

    /// The number of rows.
    pub fn rows(&self) -> (r: usize)
        ensures
            r == self.nrows(),
    {
        self.rows
    }

    /// The number of columns.
    pub fn cols(&self) -> (r: usize)
        ensures
            r == self.ncols(),
    {
        self.cols
    }

    /// Reads the entry in row `i`, column `j`.
    pub fn get(&self, i: usize, j: usize) -> (r: i64)
        requires
            self.wf(),
            i < self.nrows(),
            j < self.ncols(),
        ensures
            r as int == self.at(i as int, j as int),
    {
        proof {
            vstd::std_specs::vec::axiom_spec_len(&self.data);
            lemma_row_major_index(i as int, j as int, self.nrows(), self.ncols());
        }
        self.data[i * self.cols + j]
    }
}

} // verus!
