//! The grid that shows a collection: as many columns as the square root of
//! the number of cells, rounded up, and the cells filled row by row.

use vstd::prelude::*;

verus! {

/// The side of a cell, in pixels.
pub const DINO_IMAGE_SIZE: u32 = 112;

/// The gap between two columns, in pixels.
pub const COLUMN_MARGIN: u32 = 2;

/// The gap between two rows, in pixels.
pub const ROW_MARGIN: u32 = 2;

/// The most columns whose canvas has a width that fits 32 bits.
pub const MAX_GRID_COLUMNS: u64 = 37_675_151;

/// The most cells that a grid of so many columns can hold.
pub const MAX_GRID_CELLS: u64 = 1_419_417_002_872_801;

/// Whether `c` is the square root of `n`, rounded up: the least number
/// whose square reaches `n`.
pub open spec fn is_ceil_sqrt(n: int, c: int) -> bool {
    &&& 0 <= c
    &&& n <= c * c
    &&& c > 0 ==> (c - 1) * (c - 1) < n
}

/// `n` divided by `c`, rounded up.
pub open spec fn ceil_div(n: int, c: int) -> int {
    (n + c - 1) / c
}

/// The width of `columns` cells side by side, with the gaps between them.
pub open spec fn width_of(columns: int) -> int {
    columns * DINO_IMAGE_SIZE + (columns - 1) * COLUMN_MARGIN
}

/// The height of `rows` cells one below the other, with the gaps between
/// them.
pub open spec fn height_of(rows: int) -> int {
    rows * DINO_IMAGE_SIZE + (rows - 1) * ROW_MARGIN
}

/// The distance between the left edges of two neighbouring columns.
pub open spec fn column_pitch() -> int {
    DINO_IMAGE_SIZE + COLUMN_MARGIN
}

/// The distance between the upper edges of two neighbouring rows.
pub open spec fn row_pitch() -> int {
    DINO_IMAGE_SIZE + ROW_MARGIN
}

/// The shape of a grid and the size of its canvas, in pixels.
#[derive(Debug, Clone, Copy, PartialEq, Eq, Structural)]
pub struct Grid {
    pub columns: u32,
    pub rows: u32,
    pub width: u32,
    pub height: u32,
}

impl Grid {
    /// Whether this is the grid for `n` cells.
    pub open spec fn fits(self, n: int) -> bool {
        &&& is_ceil_sqrt(n, self.columns as int)
        &&& self.rows == ceil_div(n, self.columns as int)
        &&& self.width == width_of(self.columns as int)
        &&& self.height == height_of(self.rows as int)
    }

    /// The column of cell `i`.
    pub open spec fn column_of(self, i: int) -> int {
        i % (self.columns as int)
    }

    /// The row of cell `i`.
    pub open spec fn row_of(self, i: int) -> int {
        i / (self.columns as int)
    }
}

/// The square root of `n`, rounded up.
pub fn ceil_sqrt(n: u64) -> (c: u64)
    requires
        n <= MAX_GRID_CELLS,
    ensures
        is_ceil_sqrt(n as int, c as int),
        c <= MAX_GRID_COLUMNS,
{
    let mut c: u64 = 0;
    while c * c < n
        invariant
            n <= MAX_GRID_CELLS,
            c <= MAX_GRID_COLUMNS,
            c * c <= MAX_GRID_CELLS,
            c > 0 ==> (c - 1) * (c - 1) < n,
        decreases MAX_GRID_COLUMNS - c,
    {
        assert(c < MAX_GRID_COLUMNS) by (nonlinear_arith)
            requires
                c * c < n,
                n <= MAX_GRID_CELLS,
                c <= MAX_GRID_COLUMNS,
                MAX_GRID_CELLS == MAX_GRID_COLUMNS * MAX_GRID_COLUMNS,
        ;
        c += 1;
        assert(c * c <= MAX_GRID_CELLS) by (nonlinear_arith)
            requires
                0 <= c <= MAX_GRID_COLUMNS,
                MAX_GRID_CELLS == MAX_GRID_COLUMNS * MAX_GRID_COLUMNS,
        ;
    }
    c
}

/// The grid for `n` cells: `None` where there is no cell to show, or more
/// cells than a canvas can hold.
pub fn grid_for(n: usize) -> (grid: Option<Grid>)
    ensures
        grid is Some <==> 1 <= n <= MAX_GRID_CELLS,
        grid matches Some(g) ==> g == grid_of(n as int) && g.fits(n as int) && 1 <= g.rows
            <= g.columns,
{
    if n == 0 || n as u64 > MAX_GRID_CELLS {
        return None;
    }
    let columns: u64 = ceil_sqrt(n as u64);
    assert(columns >= 1) by (nonlinear_arith)
        requires
            n >= 1,
            n <= columns * columns,
            columns >= 0,
    ;
    let rows: u64 = (n as u64 + columns - 1) / columns;
    proof {
        lemma_rows_within_columns(n as int, columns as int);
    }
    let size: u64 = DINO_IMAGE_SIZE as u64;
    let column_gap: u64 = COLUMN_MARGIN as u64;
    let row_gap: u64 = ROW_MARGIN as u64;
    assert(columns * size == columns * 112 && (columns - 1) * column_gap == (columns - 1) * 2);
    assert(rows * size == rows * 112 && (rows - 1) * row_gap == (rows - 1) * 2);
    let width: u64 = columns * size + (columns - 1) * column_gap;
    let height: u64 = rows * size + (rows - 1) * row_gap;
    let grid = Grid {
        columns: columns as u32,
        rows: rows as u32,
        width: width as u32,
        height: height as u32,
    };
    proof {
        lemma_grid_is_unique(grid, n as int);
    }
    Some(grid)
}

/// A grid with the columns of the rounded-up square root has no more rows
/// than columns, and at least one.
pub proof fn lemma_rows_within_columns(n: int, c: int)
    requires
        n >= 1,
        is_ceil_sqrt(n, c),
    ensures
        c >= 1,
        1 <= ceil_div(n, c) <= c,
        n <= ceil_div(n, c) * c,
        (ceil_div(n, c) - 1) * c < n,
{
    assert(c >= 1) by (nonlinear_arith)
        requires
            n >= 1,
            n <= c * c,
            c >= 0,
    ;
    let r = ceil_div(n, c);
    assert(r * c <= n + c - 1 && n + c - 1 < r * c + c) by (nonlinear_arith)
        requires
            c >= 1,
            r == (n + c - 1) / c,
    ;
    assert(r <= c) by (nonlinear_arith)
        requires
            r * c <= n + c - 1,
            n <= c * c,
            c >= 1,
    ;
    assert(r >= 1) by (nonlinear_arith)
        requires
            n + c - 1 < r * c + c,
            n >= 1,
            c >= 1,
    ;
    assert((r - 1) * c == r * c - c) by (nonlinear_arith);
}

/// The origin of cell `i` on the canvas of `grid`: its column and row,
/// each times the side of a cell with its gap.
pub fn cell_origin(grid: &Grid, i: usize, n: usize) -> (origin: (u32, u32))
    requires
        grid.fits(n as int),
        i < n,
        n <= MAX_GRID_CELLS,
    ensures
        origin.0 == grid.column_of(i as int) * column_pitch(),
        origin.1 == grid.row_of(i as int) * row_pitch(),
        origin.0 + DINO_IMAGE_SIZE <= grid.width,
        origin.1 + DINO_IMAGE_SIZE <= grid.height,
{
    proof {
        lemma_cells_fit(*grid, i as int, n as int);
    }
    let columns: u64 = grid.columns as u64;
    let column: u64 = i as u64 % columns;
    let row: u64 = i as u64 / columns;
    let across: u64 = DINO_IMAGE_SIZE as u64 + COLUMN_MARGIN as u64;
    let down: u64 = DINO_IMAGE_SIZE as u64 + ROW_MARGIN as u64;
    assert(column * across == column * 114 && row * down == row * 114);
    let x: u64 = column * across;
    let y: u64 = row * down;
    (x as u32, y as u32)
}

/// Every cell of a grid for `n` cells lies in one of its columns and rows,
/// and within the canvas.
pub proof fn lemma_cells_fit(grid: Grid, i: int, n: int)
    requires
        grid.fits(n),
        0 <= i < n,
    ensures
        grid.columns >= 1,
        0 <= grid.column_of(i) < grid.columns,
        0 <= grid.row_of(i) < grid.rows,
        i == grid.row_of(i) * grid.columns + grid.column_of(i),
        grid.column_of(i) * column_pitch() + DINO_IMAGE_SIZE <= grid.width,
        grid.row_of(i) * row_pitch() + DINO_IMAGE_SIZE <= grid.height,
{
    let c = grid.columns as int;
    let r = grid.rows as int;
    lemma_rows_within_columns(n, c);
    let row = i / c;
    let column = i % c;
    assert(i == row * c + column && 0 <= column < c && row >= 0) by (nonlinear_arith)
        requires
            c >= 1,
            i >= 0,
            row == i / c,
            column == i % c,
    ;
    assert(row < r) by (nonlinear_arith)
        requires
            i == row * c + column,
            0 <= column,
            i < n,
            n <= r * c,
            c >= 1,
    ;
    assert(row * row_pitch() == row * 114 && column * column_pitch() == column * 114);
    assert(height_of(r) == r * 112 + (r - 1) * 2 && width_of(c) == c * 112 + (c - 1) * 2);
}

/// The number of columns is determined by the number of cells.
pub proof fn lemma_ceil_sqrt_is_unique(n: int, c1: int, c2: int)
    requires
        is_ceil_sqrt(n, c1),
        is_ceil_sqrt(n, c2),
    ensures
        c1 == c2,
{
    if c1 < c2 {
        assert(c1 * c1 <= (c2 - 1) * (c2 - 1)) by (nonlinear_arith)
            requires
                0 <= c1 <= c2 - 1,
        ;
    } else if c2 < c1 {
        assert(c2 * c2 <= (c1 - 1) * (c1 - 1)) by (nonlinear_arith)
            requires
                0 <= c2 <= c1 - 1,
        ;
    }
}

/// Cells are laid out row by row: cell `i` stands in column `i mod C` and
/// row `i div C`, and no two cells share a place.
pub proof fn lemma_cells_are_row_major(grid: Grid, n: int, i: int, j: int)
    requires
        grid.fits(n),
        0 <= i < n,
        0 <= j < n,
    ensures
        i < j ==> grid.row_of(i) < grid.row_of(j) || (grid.row_of(i) == grid.row_of(j)
            && grid.column_of(i) < grid.column_of(j)),
        i != j ==> grid.row_of(i) != grid.row_of(j) || grid.column_of(i) != grid.column_of(j),
{
    lemma_cells_fit(grid, i, n);
    lemma_cells_fit(grid, j, n);
    let c = grid.columns as int;
    if i < j && grid.row_of(i) > grid.row_of(j) {
        assert(grid.row_of(i) * c >= grid.row_of(j) * c + c) by (nonlinear_arith)
            requires
                grid.row_of(i) >= grid.row_of(j) + 1,
                c >= 1,
        ;
    }
}

/// The grid for `n` cells.
pub open spec fn grid_of(n: int) -> Grid {
    choose|grid: Grid| grid.fits(n)
}

/// There is one grid for `n` cells.
pub proof fn lemma_grid_is_unique(grid: Grid, n: int)
    requires
        grid.fits(n),
    ensures
        grid == grid_of(n),
{
    let other = grid_of(n);
    lemma_ceil_sqrt_is_unique(n, grid.columns as int, other.columns as int);
}

} // verus!
