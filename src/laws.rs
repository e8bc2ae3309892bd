use vstd::prelude::*;

use crate::cell::Cell;
use crate::grid::{
    alive_at, in_bounds, is_grid, neighbour_count, neighbour_positions, next_generation, one_if,
    Grid,
};

verus! {

/// The `h` by `w` grid whose live cells are exactly the positions that
/// satisfy `p`.
pub open spec fn grid_of(h: int, w: int, p: spec_fn(int, int) -> bool) -> Grid {
    Seq::new(h as nat, |y: int| Seq::new(w as nat, |x: int| if p(x, y) { Cell::Alive } else { Cell::Dead }))
}

/// The two by two block whose top left cell is `(bx, by)`.
pub open spec fn in_block(bx: int, by: int, x: int, y: int) -> bool {
    bx <= x <= bx + 1 && by <= y <= by + 1
}

/// Three cells in a row, centred on `(cx, cy)`.
pub open spec fn in_row_of_three(cx: int, cy: int, x: int, y: int) -> bool {
    y == cy && cx - 1 <= x <= cx + 1
}

/// Three cells in a column, centred on `(cx, cy)`.
pub open spec fn in_column_of_three(cx: int, cy: int, x: int, y: int) -> bool {
    x == cx && cy - 1 <= y <= cy + 1
}

/// The next generation has as many rows and columns as the current one.
pub proof fn lemma_next_generation_keeps_shape(g: Grid, h: int, w: int)
    requires
        is_grid(g, h, w),
    ensures
        is_grid(next_generation(g), h, w),
{
}

/// A corner cell has at most three neighbour positions on the grid, a cell on
/// an edge at most five, and a cell away from the edges all eight.
pub proof fn lemma_neighbour_positions(h: int, w: int, x: int, y: int)
    requires
        in_bounds(h, w, x, y),
    ensures
        (x == 0 || x == w - 1) && (y == 0 || y == h - 1) ==> neighbour_positions(h, w, x, y) <= 3,
        (x == 0 || x == w - 1 || y == 0 || y == h - 1) ==> neighbour_positions(h, w, x, y) <= 5,
        0 < x < w - 1 && 0 < y < h - 1 ==> neighbour_positions(h, w, x, y) == 8,
{
}

/// Only neighbour positions on the grid can hold a live neighbour.
pub proof fn lemma_count_within_positions(g: Grid, h: int, w: int, x: int, y: int)
    requires
        is_grid(g, h, w),
    ensures
        0 <= neighbour_count(g, x, y) <= neighbour_positions(h, w, x, y),
{
}

/// The grid does not wrap around: a lone live cell in the top left corner is
/// a neighbour of the cells next to it and of no other, not even of the cells
/// on the opposite edges.
pub proof fn lemma_no_wraparound(h: int, w: int, x: int, y: int)
    requires
        in_bounds(h, w, x, y),
    ensures
        neighbour_count(grid_of(h, w, |i: int, j: int| i == 0 && j == 0), x, y) == one_if(
            x <= 1 && y <= 1 && !(x == 0 && y == 0),
        ),
        x == w - 1 && (w >= 3 || y >= 2) ==> neighbour_count(
            grid_of(h, w, |i: int, j: int| i == 0 && j == 0),
            x,
            y,
        ) == 0,
        y == h - 1 && (h >= 3 || x >= 2) ==> neighbour_count(
            grid_of(h, w, |i: int, j: int| i == 0 && j == 0),
            x,
            y,
        ) == 0,
{
}

/// A live cell with fewer than two live neighbours dies.
pub proof fn lemma_underpopulation(g: Grid, x: int, y: int)
    requires
        alive_at(g, x, y),
        neighbour_count(g, x, y) < 2,
    ensures
        next_generation(g)[y][x] == Cell::Dead,
{
}

/// A live cell with more than three live neighbours dies.
pub proof fn lemma_overpopulation(g: Grid, x: int, y: int)
    requires
        alive_at(g, x, y),
        neighbour_count(g, x, y) > 3,
    ensures
        next_generation(g)[y][x] == Cell::Dead,
{
}

/// A live cell with two or three live neighbours stays alive.
pub proof fn lemma_survival(g: Grid, x: int, y: int)
    requires
        alive_at(g, x, y),
        neighbour_count(g, x, y) == 2 || neighbour_count(g, x, y) == 3,
    ensures
        next_generation(g)[y][x] == Cell::Alive,
{
}

/// A dead cell comes alive exactly when three of its neighbours are alive.
pub proof fn lemma_birth(g: Grid, x: int, y: int)
    requires
        0 <= y < g.len(),
        0 <= x < g[y].len(),
        g[y][x] == Cell::Dead,
    ensures
        next_generation(g)[y][x] == Cell::Alive <==> neighbour_count(g, x, y) == 3,
{
}

/// A two by two block with only dead cells around it never changes.
pub proof fn lemma_block_is_still(h: int, w: int, bx: int, by: int)
    requires
        h >= 4,
        w >= 4,
        0 <= bx < w - 1,
        0 <= by < h - 1,
    ensures
        next_generation(grid_of(h, w, |i: int, j: int| in_block(bx, by, i, j))) == grid_of(
            h,
            w,
            |i: int, j: int| in_block(bx, by, i, j),
        ),
{
    let g = grid_of(h, w, |i: int, j: int| in_block(bx, by, i, j));
    assert(next_generation(g) =~~= g);
}

/// Three live cells in a row, with only dead cells around them, turn into
/// three in a column through the same centre.
pub proof fn lemma_row_becomes_column(h: int, w: int, cx: int, cy: int)
    requires
        h >= 5,
        w >= 5,
        0 < cx < w - 1,
        0 < cy < h - 1,
    ensures
        next_generation(grid_of(h, w, |i: int, j: int| in_row_of_three(cx, cy, i, j))) == grid_of(
            h,
            w,
            |i: int, j: int| in_column_of_three(cx, cy, i, j),
        ),
{
    let row = grid_of(h, w, |i: int, j: int| in_row_of_three(cx, cy, i, j));
    let column = grid_of(h, w, |i: int, j: int| in_column_of_three(cx, cy, i, j));
    assert forall|y: int, x: int| 0 <= y < h && 0 <= x < w implies #[trigger] next_generation(
        row,
    )[y][x] == column[y][x] by {
        assert forall|i: int, j: int| alive_at(row, i, j) == (in_bounds(h, w, i, j) && in_row_of_three(cx, cy, i, j)) by {}
    }
    assert(next_generation(row) =~~= column);
}

/// Three live cells in a column, with only dead cells around them, turn into
/// three in a row through the same centre.
pub proof fn lemma_column_becomes_row(h: int, w: int, cx: int, cy: int)
    requires
        h >= 5,
        w >= 5,
        0 < cx < w - 1,
        0 < cy < h - 1,
    ensures
        next_generation(grid_of(h, w, |i: int, j: int| in_column_of_three(cx, cy, i, j)))
            == grid_of(h, w, |i: int, j: int| in_row_of_three(cx, cy, i, j)),
{
    let row = grid_of(h, w, |i: int, j: int| in_row_of_three(cx, cy, i, j));
    let column = grid_of(h, w, |i: int, j: int| in_column_of_three(cx, cy, i, j));
    assert forall|y: int, x: int| 0 <= y < h && 0 <= x < w implies #[trigger] next_generation(
        column,
    )[y][x] == row[y][x] by {
        assert forall|i: int, j: int| alive_at(column, i, j) == (in_bounds(h, w, i, j) && in_column_of_three(cx, cy, i, j)) by {}
    }
    assert(next_generation(column) =~~= row);
}

/// A row of three live cells returns after two generations.
pub proof fn lemma_blinker_period_two(h: int, w: int, cx: int, cy: int)
    requires
        h >= 5,
        w >= 5,
        0 < cx < w - 1,
        0 < cy < h - 1,
    ensures
        next_generation(next_generation(grid_of(h, w, |i: int, j: int| in_row_of_three(cx, cy, i, j))))
            == grid_of(h, w, |i: int, j: int| in_row_of_three(cx, cy, i, j)),
{
    lemma_row_becomes_column(h, w, cx, cy);
    lemma_column_becomes_row(h, w, cx, cy);
}

} // verus!
