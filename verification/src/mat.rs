//! What a dataset needs to know of a feature matrix.

use vstd::prelude::*;
use std::marker::PhantomData;

verus! {

/// The shape of a dense two-dimensional buffer with elements of type `T`:
/// its row and column counts and the order in which its elements lie.
#[derive(Debug, PartialEq, Eq)]
pub struct MatShape<T> {
    /// Number of rows.
    pub nrow: usize,
    /// Number of columns.
    pub ncol: usize,
    /// Whether the elements of one row lie next to each other.
    pub row_major: bool,
    /// Binds the shape to its element type.
    pub element: PhantomData<T>,
}

impl<T> MatShape<T> {
    /// The shape of a buffer of `nrow` rows and `ncol` columns.
    pub fn new(nrow: usize, ncol: usize, row_major: bool) -> (shape: Self)
        ensures
            shape.nrow == nrow,
            shape.ncol == ncol,
            shape.row_major == row_major,
    {
        MatShape { nrow, ncol, row_major, element: PhantomData }
    }

    /// The number of elements that a buffer of this shape holds, where it can
    /// be held in memory at all: rows times columns.
    pub fn element_count(&self) -> (count: Option<usize>)
        ensures
            count is Some <==> self.nrow * self.ncol <= usize::MAX,
            count matches Some(n) ==> n == self.nrow * self.ncol,
    {
        self.nrow.checked_mul(self.ncol)
    }
}

} // verus!
