//! The two-dimensional tile store of a level, kept in a `grid::Grid`.
//! Its contents are seen as a sequence of rows, each a sequence of tiles.
use crate::tile::Tile;
use grid::Grid;
use vstd::prelude::*;

verus! {

#[verifier::external_type_specification]
#[verifier::external_body]
#[verifier::reject_recursive_types(T)]
pub struct ExGrid<T>(Grid<T>);

/// The rows of a grid, top to bottom, each from left to right.
pub uninterp spec fn grid_rows(g: Grid<Tile>) -> Seq<Seq<Tile>>;

/// The number of columns of a grid.
pub uninterp spec fn grid_cols(g: Grid<Tile>) -> nat;

/// Every row has `grid_cols` tiles, and a grid without rows has no columns.
pub open spec fn grid_ok(g: Grid<Tile>) -> bool {
    &&& forall|i: int| 0 <= i < grid_rows(g).len() ==> #[trigger] grid_rows(g)[i].len() == grid_cols(g)
    &&& (grid_rows(g).len() == 0 <==> grid_cols(g) == 0)
}

/// Relies on `Grid::init`: `rows` rows of `cols` copies of `t`, or an empty
/// grid where either is 0. It panics where `rows * cols` overflows.
#[verifier::external_body]
pub(crate) fn grid_init(rows: usize, cols: usize, t: Tile) -> (r: Grid<Tile>)
    requires
        rows * cols <= usize::MAX,
    ensures
        grid_ok(r),
        rows == 0 || cols == 0 ==> grid_rows(r).len() == 0,
        rows > 0 && cols > 0 ==> grid_rows(r) == Seq::new(rows as nat, |i: int| Seq::new(cols as nat, |j: int| t)),
        rows > 0 && cols > 0 ==> grid_cols(r) == cols,
{
    Grid::init(rows, cols, t)
}

/// Relies on indexing a `Grid` by `(row, col)`, which panics out of bounds.
#[verifier::external_body]
pub(crate) fn grid_get(g: &Grid<Tile>, row: usize, col: usize) -> (r: Tile)
    requires
        grid_ok(*g),
        row < grid_rows(*g).len(),
        col < grid_rows(*g)[row as int].len(),
    ensures
        r == grid_rows(*g)[row as int][col as int],
{
    g[(row, col)]
}

/// Relies on mutable indexing of a `Grid` by `(row, col)`.
#[verifier::external_body]
pub(crate) fn grid_set(g: &mut Grid<Tile>, row: usize, col: usize, t: Tile)
    requires
        grid_ok(*old(g)),
        row < grid_rows(*old(g)).len(),
        col < grid_rows(*old(g))[row as int].len(),
    ensures
        grid_ok(*final(g)),
        grid_rows(*final(g)) == grid_rows(*old(g)).update(row as int, grid_rows(*old(g))[row as int].update(col as int, t)),
        grid_cols(*final(g)) == grid_cols(*old(g)),
{
    g[(row, col)] = t;
}

/// Relies on `Grid::insert_col`: `col[i]` goes into row `i` at `index`. It
/// panics on an empty column, a column of the wrong length or an index past
/// the last column.
#[verifier::external_body]
pub(crate) fn grid_insert_col(g: &mut Grid<Tile>, index: usize, col: Vec<Tile>)
    requires
        grid_ok(*old(g)),
        col@.len() > 0,
        grid_rows(*old(g)).len() > 0 ==> col@.len() == grid_rows(*old(g)).len(),
        index <= grid_cols(*old(g)),
        grid_cols(*old(g)) < usize::MAX,
    ensures
        grid_ok(*final(g)),
        grid_cols(*final(g)) == grid_cols(*old(g)) + 1,
        grid_rows(*final(g)) == Seq::new(col@.len(), |i: int|
            if grid_rows(*old(g)).len() == 0 {
                seq![col@[i]]
            } else {
                grid_rows(*old(g))[i].insert(index as int, col@[i])
            }),
{
    g.insert_col(index, col);
}

/// Relies on `Grid::push_col`: `col[i]` goes at the end of row `i`. It
/// panics on an empty column or a column of the wrong length.
#[verifier::external_body]
pub(crate) fn grid_push_col(g: &mut Grid<Tile>, col: Vec<Tile>)
    requires
        grid_ok(*old(g)),
        col@.len() > 0,
        grid_rows(*old(g)).len() > 0 ==> col@.len() == grid_rows(*old(g)).len(),
        grid_cols(*old(g)) < usize::MAX,
    ensures
        grid_ok(*final(g)),
        grid_cols(*final(g)) == grid_cols(*old(g)) + 1,
        grid_rows(*final(g)) == Seq::new(col@.len(), |i: int|
            if grid_rows(*old(g)).len() == 0 {
                seq![col@[i]]
            } else {
                grid_rows(*old(g))[i].push(col@[i])
            }),
{
    g.push_col(col);
}

/// Relies on `Grid::insert_row`: `row` becomes row `index`. It panics on an
/// empty row, a row of the wrong length or an index past the last row.
#[verifier::external_body]
pub(crate) fn grid_insert_row(g: &mut Grid<Tile>, index: usize, row: Vec<Tile>)
    requires
        grid_ok(*old(g)),
        row@.len() > 0,
        grid_cols(*old(g)) > 0 ==> row@.len() == grid_cols(*old(g)),
        index <= grid_rows(*old(g)).len(),
        grid_rows(*old(g)).len() < usize::MAX,
    ensures
        grid_ok(*final(g)),
        grid_cols(*final(g)) == row@.len(),
        grid_rows(*final(g)) == grid_rows(*old(g)).insert(index as int, row@),
{
    g.insert_row(index, row);
}

/// Relies on `Grid::push_row`: `row` becomes the last row. It panics on an
/// empty row or a row of the wrong length.
#[verifier::external_body]
pub(crate) fn grid_push_row(g: &mut Grid<Tile>, row: Vec<Tile>)
    requires
        grid_ok(*old(g)),
        row@.len() > 0,
        grid_cols(*old(g)) > 0 ==> row@.len() == grid_cols(*old(g)),
        grid_rows(*old(g)).len() < usize::MAX,
    ensures
        grid_ok(*final(g)),
        grid_cols(*final(g)) == row@.len(),
        grid_rows(*final(g)) == grid_rows(*old(g)).push(row@),
{
    g.push_row(row);
}

/// Relies on `Grid`'s `Clone`: the same rows and columns.
#[verifier::external_body]
pub(crate) fn grid_clone(g: &Grid<Tile>) -> (r: Grid<Tile>)
    ensures
        grid_rows(r) == grid_rows(*g),
        grid_cols(r) == grid_cols(*g),
{
    g.clone()
}

} // verus!
