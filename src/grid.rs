use vstd::prelude::*;

use crate::cell::{glyph, next_cell, Cell};

verus! {

/// A grid as rows of cells: `g[y][x]` is the cell in row `y`, column `x`.
pub type Grid = Seq<Seq<Cell>>;

/// `g` has exactly `h` rows of exactly `w` cells each.
pub open spec fn is_grid(g: Grid, h: int, w: int) -> bool {
    &&& g.len() == h
    &&& forall|y: int| 0 <= y < h ==> #[trigger] g[y].len() == w
}

/// `(x, y)` lies on an `h` by `w` grid.
pub open spec fn in_bounds(h: int, w: int, x: int, y: int) -> bool {
    0 <= x < w && 0 <= y < h
}

/// The cell at `(x, y)` exists and is alive. A position off the grid holds no
/// live cell: the grid does not wrap around.
pub open spec fn alive_at(g: Grid, x: int, y: int) -> bool {
    0 <= y < g.len() && 0 <= x < g[y].len() && g[y][x] == Cell::Alive
}

/// One if `b` holds, zero otherwise.
pub open spec fn one_if(b: bool) -> int {
    if b {
        1
    } else {
        0
    }
}

/// How many of the eight positions around `(x, y)` satisfy `p`.
pub open spec fn count_around(p: spec_fn(int, int) -> bool, x: int, y: int) -> int {
    one_if(p(x - 1, y - 1)) + one_if(p(x, y - 1)) + one_if(p(x + 1, y - 1))
        + one_if(p(x - 1, y)) + one_if(p(x + 1, y))
        + one_if(p(x - 1, y + 1)) + one_if(p(x, y + 1)) + one_if(p(x + 1, y + 1))
}

/// The number of live cells among the eight neighbours of `(x, y)`.
pub open spec fn neighbour_count(g: Grid, x: int, y: int) -> int {
    count_around(|i: int, j: int| alive_at(g, i, j), x, y)
}

/// The number of neighbour positions of `(x, y)` that lie on an `h` by `w`
/// grid.
pub open spec fn neighbour_positions(h: int, w: int, x: int, y: int) -> int {
    count_around(|i: int, j: int| in_bounds(h, w, i, j), x, y)
}

/// The generation that follows `g`: every cell is computed from `g` alone.
pub open spec fn next_generation(g: Grid) -> Grid {
    Seq::new(
        g.len(),
        |y: int| Seq::new(g[y].len(), |x: int| next_cell(g[y][x], neighbour_count(g, x, y))),
    )
}

/// The characters of one row, one glyph per cell.
pub open spec fn row_text(row: Seq<Cell>) -> Seq<char> {
    row.map_values(|c: Cell| glyph(c))
}

/// The text of a whole grid: each row's glyphs followed by a line break.
pub open spec fn grid_text(g: Grid) -> Seq<char>
    decreases g.len(),
{
    if g.len() == 0 {
        Seq::empty()
    } else {
        grid_text(g.drop_last()) + row_text(g.last()) + seq!['\n']
    }
}

} // verus!
