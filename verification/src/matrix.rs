//! The matrix that holds the coordinates of the edges: a three-dimensional
//! array of `ndarray`, and what the engine takes on trust of it.

use vstd::prelude::*;

verus! {

/// The coordinates of the four edges, as a three-dimensional array: one
/// block for each edge, which holds the row of its two heights and the row
/// of its two widths.
///
/// The array is hidden from the verifier. What it holds goes by the name
/// [`matrix_cells`], and the functions below say what the calls into
/// `ndarray` do to it.
#[verifier::external_body]
pub struct EdgesMatrix {
    cells: ndarray::Array3<i64>,
}

/// What the matrix holds: for each edge, its rows; for each row, its values.
pub uninterp spec fn matrix_cells(m: EdgesMatrix) -> Seq<Seq<Seq<i64>>>;

/// The nested array as nested sequences.
pub open spec fn nested(values: [[[i64; 2]; 2]; 4]) -> Seq<Seq<Seq<i64>>> {
    Seq::new(4, |e: int| Seq::new(2, |r: int| values@[e]@[r]@))
}

/// `ndarray::arr3` makes a three-dimensional array that holds the elements of
/// the nested array, each at the same three indices.
#[verifier::external_body]
pub(crate) fn matrix_of(values: &[[[i64; 2]; 2]; 4]) -> (m: EdgesMatrix)
    ensures
        matrix_cells(m) == nested(*values),
{
    EdgesMatrix { cells: ndarray::arr3(values) }
}

/// `ArrayBase::len_of` returns the length of the given axis: here of the
/// first one, which is the number of blocks.
#[verifier::external_body]
pub(crate) fn matrix_len(m: &EdgesMatrix) -> (n: usize)
    ensures
        n == matrix_cells(*m).len(),
{
    m.cells.len_of(ndarray::Axis(0))
}

/// `ArrayBase::index_axis` restricts the array to one index along an axis:
/// taken twice along the first axis it yields one row of one block, which
/// `ArrayBase::to_vec` hands out as a vector.
#[verifier::external_body]
pub(crate) fn matrix_row(m: &EdgesMatrix, block: usize, row: usize) -> (values: Vec<i64>)
    requires
        block < matrix_cells(*m).len(),
        row < matrix_cells(*m)[block as int].len(),
    ensures
        values@ == matrix_cells(*m)[block as int][row as int],
{
    m.cells.index_axis(ndarray::Axis(0), block).index_axis(ndarray::Axis(0), row).to_vec()
}

} // verus!
