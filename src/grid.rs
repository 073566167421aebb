//! Two-dimensional arrays of `ndarray`, holding the cells of a sub-board and
//! the sub-boards of a board. The array sits in a private field; Verus sees
//! it through the row-by-row contents that the functions below maintain.
use vstd::prelude::*;

use ndarray::Array2;

use crate::field::Field;
use crate::sub_board::SubBoard;

verus! {

/// A rectangular array, stored row-major by `ndarray`.
#[verifier::external_body]
#[verifier::reject_recursive_types(T)]
#[derive(Debug)]
pub struct Grid<T> {
    cells: Array2<T>,
}

impl Grid<Field> {
    /// A 3×3 grid holding `rows`, or `None` unless `rows` is 3×3.
    pub fn from_rows(rows: &Vec<Vec<Field>>) -> (r: Option<Grid<Field>>)
        ensures
            r is Some <==> (rows.len() == 3 && forall|i: int|
                0 <= i < 3 ==> (#[trigger] rows@[i]).len() == 3),
            r is Some ==> has_shape(field_rows(r->0), 3, 3),
            r is Some ==> forall|i: int, j: int|
                0 <= i < 3 && 0 <= j < 3 ==> #[trigger] field_rows(r->0)[i][j] == rows@[i]@[j],
    {
        if rows.len() != 3 || rows[0].len() != 3 || rows[1].len() != 3 || rows[2].len() != 3 {
            proof {
                if rows.len() == 3 {
                    assert(rows@[0].len() != 3 || rows@[1].len() != 3 || rows@[2].len() != 3);
                }
            }
            return None;
        }
        let mut g = new_field_grid(3, 3, Field::Vacant);
        let mut i: usize = 0;
        while i < 3
            invariant
                i <= 3,
                rows.len() == 3,
                forall|a: int| 0 <= a < 3 ==> (#[trigger] rows@[a]).len() == 3,
                has_shape(field_rows(g), 3, 3),
                forall|a: int, b: int|
                    0 <= a < i && 0 <= b < 3 ==> #[trigger] field_rows(g)[a][b] == rows@[a]@[b],
            decreases 3 - i,
        {
            let mut j: usize = 0;
            while j < 3
                invariant
                    i < 3,
                    j <= 3,
                    rows.len() == 3,
                    forall|a: int| 0 <= a < 3 ==> (#[trigger] rows@[a]).len() == 3,
                    has_shape(field_rows(g), 3, 3),
                    forall|a: int, b: int|
                        0 <= a < i && 0 <= b < 3 ==> #[trigger] field_rows(g)[a][b]
                            == rows@[a]@[b],
                    forall|b: int| 0 <= b < j ==> #[trigger] field_rows(g)[i as int][b] == rows@[i as int]@[b],
                decreases 3 - j,
            {
                set_field(&mut g, i, j, rows[i][j]);
                j += 1;
            }
            i += 1;
        }
        Some(g)
    }

    /// The cells of a 3×3 grid, row by row.
    pub fn to_rows(&self) -> (r: Vec<Vec<Field>>)
        requires
            has_shape(field_rows(*self), 3, 3),
        ensures
            r.len() == 3,
            forall|i: int| 0 <= i < 3 ==> (#[trigger] r@[i]).len() == 3,
            forall|i: int, j: int|
                0 <= i < 3 && 0 <= j < 3 ==> #[trigger] r@[i]@[j] == field_rows(*self)[i][j],
    {
        let mut r: Vec<Vec<Field>> = Vec::new();
        let mut i: usize = 0;
        while i < 3
            invariant
                i <= 3,
                has_shape(field_rows(*self), 3, 3),
                r.len() == i,
                forall|a: int| 0 <= a < i ==> (#[trigger] r@[a]).len() == 3,
                forall|a: int, b: int|
                    0 <= a < i && 0 <= b < 3 ==> #[trigger] r@[a]@[b] == field_rows(*self)[a][b],
            decreases 3 - i,
        {
            let row = vec![field_at(self, i, 0), field_at(self, i, 1), field_at(self, i, 2)];
            r.push(row);
            i += 1;
        }
        r
    }

    /// The cell at `(row, col)`.
    pub fn cell(&self, row: usize, col: usize) -> (r: Field)
        requires
            row < field_rows(*self).len(),
            col < field_rows(*self)[row as int].len(),
        ensures
            r == field_rows(*self)[row as int][col as int],
    {
        field_at(self, row, col)
    }
}

impl Grid<SubBoard> {
    /// The sub-board at `(row, col)`.
    pub fn sub_board(&self, row: usize, col: usize) -> (r: &SubBoard)
        requires
            row < sub_board_rows(*self).len(),
            col < sub_board_rows(*self)[row as int].len(),
        ensures
            *r == sub_board_rows(*self)[row as int][col as int],
    {
        sub_board_at(self, row, col)
    }
}

/// The cells of a field grid, row by row.
pub uninterp spec fn field_rows(g: Grid<Field>) -> Seq<Seq<Field>>;

/// The sub-boards of a board grid, row by row.
pub uninterp spec fn sub_board_rows(g: Grid<SubBoard>) -> Seq<Seq<SubBoard>>;

/// `rows` has `n` rows of `m` entries each.
pub open spec fn has_shape<T>(rows: Seq<Seq<T>>, n: int, m: int) -> bool {
    &&& rows.len() == n
    &&& forall|i: int| 0 <= i < n ==> (#[trigger] rows[i]).len() == m
}

/// Relies on `Array2::from_elem`: an array of the given shape with every
/// element a copy of `elem` (`Field` is `Copy`, so each copy equals it);
/// it panics when the product of the non-zero lengths overflows `isize`,
/// which `requires` excludes.
#[verifier::external_body]
pub(crate) fn new_field_grid(rows: usize, cols: usize, elem: Field) -> (r: Grid<Field>)
    requires
        rows <= isize::MAX,
        cols <= isize::MAX,
        rows * cols <= isize::MAX,
    ensures
        has_shape(field_rows(r), rows as int, cols as int),
        forall|i: int, j: int|
            0 <= i < rows && 0 <= j < cols ==> #[trigger] field_rows(r)[i][j] == elem,
{
    Grid { cells: Array2::from_elem((rows, cols), elem) }
}

/// Relies on indexing an `Array2` by `(row, column)`: the element there;
/// it panics out of bounds, which `requires` excludes.
#[verifier::external_body]
pub(crate) fn field_at(g: &Grid<Field>, row: usize, col: usize) -> (r: Field)
    requires
        row < field_rows(*g).len(),
        col < field_rows(*g)[row as int].len(),
    ensures
        r == field_rows(*g)[row as int][col as int],
{
    g.cells[(row, col)]
}

/// Relies on `IndexMut` of an `Array2` by `(row, column)`: only that element
/// changes.
#[verifier::external_body]
pub(crate) fn set_field(g: &mut Grid<Field>, row: usize, col: usize, v: Field)
    requires
        row < field_rows(*old(g)).len(),
        col < field_rows(*old(g))[row as int].len(),
    ensures
        field_rows(*final(g)) == field_rows(*old(g)).update(
            row as int,
            field_rows(*old(g))[row as int].update(col as int, v),
        ),
{
    g.cells[(row, col)] = v;
}

/// Relies on `Array2::from_shape_vec` with a `(rows, columns)` shape: the
/// vector's elements in row-major order, moved and not cloned. It fails only
/// when the length does not match the shape or the product of the non-zero
/// lengths overflows `isize`, which `requires` excludes.
#[verifier::external_body]
pub(crate) fn new_sub_board_grid(rows: usize, cols: usize, v: Vec<SubBoard>) -> (r: Option<
    Grid<SubBoard>,
>)
    requires
        v.len() == rows * cols,
        rows <= isize::MAX,
        cols <= isize::MAX,
        rows * cols <= isize::MAX,
    ensures
        r is Some,
        r is Some ==> has_shape(sub_board_rows(r->0), rows as int, cols as int),
        r is Some ==> forall|i: int, j: int|
            0 <= i < rows && 0 <= j < cols ==> #[trigger] sub_board_rows(r->0)[i][j] == v@[i
                * cols + j],
{
    match Array2::from_shape_vec((rows, cols), v) {
        Ok(cells) => Some(Grid { cells }),
        Err(_) => None,
    }
}

/// Relies on indexing an `Array2` by `(row, column)`: the element there;
/// it panics out of bounds, which `requires` excludes.
#[verifier::external_body]
pub(crate) fn sub_board_at(g: &Grid<SubBoard>, row: usize, col: usize) -> (r: &SubBoard)
    requires
        row < sub_board_rows(*g).len(),
        col < sub_board_rows(*g)[row as int].len(),
    ensures
        *r == sub_board_rows(*g)[row as int][col as int],
{
    &g.cells[(row, col)]
}

/// Relies on `IndexMut` of an `Array2` by `(row, column)`: a borrow of that
/// element, and what is written through it is the only change.
#[verifier::external_body]
pub(crate) fn sub_board_at_mut(g: &mut Grid<SubBoard>, row: usize, col: usize) -> (r:
    &mut SubBoard)
    requires
        row < sub_board_rows(*old(g)).len(),
        col < sub_board_rows(*old(g))[row as int].len(),
    ensures
        *r == sub_board_rows(*old(g))[row as int][col as int],
        sub_board_rows(*final(g)) == sub_board_rows(*old(g)).update(
            row as int,
            sub_board_rows(*old(g))[row as int].update(col as int, *final(r)),
        ),
{
    &mut g.cells[(row, col)]
}

} // verus!
