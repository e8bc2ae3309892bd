use rand::rngs::StdRng;
use vstd::prelude::*;

use crate::cell::{glyph, Cell};
use crate::grid::{
    alive_at, grid_text, is_grid, neighbour_count, next_generation, one_if, row_text, Grid,
};
use crate::random::draw_ratio;

verus! {

/// Chance that a cell starts alive is `ALIVE_NUMERATOR / ALIVE_DENOMINATOR`.
pub const ALIVE_NUMERATOR: u32 = 3;

/// See `ALIVE_NUMERATOR`.
pub const ALIVE_DENOMINATOR: u32 = 10;

/// Why a grid could not be built.
#[derive(Clone, Copy, Debug, PartialEq, Eq, Structural)]
pub enum GridError {
    /// The grid would have no rows.
    ZeroHeight,
    /// The grid would have no columns.
    ZeroWidth,
    /// The rows given do not all have the length of the first.
    RaggedRows,
}

/// The cells that a vector of rows holds.
pub open spec fn rows_view(rows: Seq<Vec<Cell>>) -> Grid {
    rows.map_values(|r: Vec<Cell>| r@)
}

/// All rows of `g` have the length of the first one.
pub open spec fn rows_even(g: Grid) -> bool {
    forall|y: int| 0 <= y < g.len() ==> #[trigger] g[y].len() == g[0].len()
}

/// A game of life: the current generation on a fixed, bounded grid.
pub struct GameOfLife {
    grid: Vec<Vec<Cell>>,
    height: usize,
    width: usize,
}

impl View for GameOfLife {
    type V = Grid;

    closed spec fn view(&self) -> Grid {
        rows_view(self.grid@)
    }
}

impl GameOfLife {
    /// The number of rows.
    pub closed spec fn rows(&self) -> int {
        self.height as int
    }

    /// The number of columns.
    pub closed spec fn cols(&self) -> int {
        self.width as int
    }

    /// The grid has at least one row and one column, and its cells form a
    /// `rows()` by `cols()` rectangle.
    pub open spec fn wf(&self) -> bool {
        &&& self.rows() > 0
        &&& self.cols() > 0
        &&& is_grid(self@, self.rows(), self.cols())
    }

    /// Builds a `height` by `width` grid in which each cell is drawn from
    /// `rng` independently, alive with a chance of three in ten.
    pub fn new(height: usize, width: usize, rng: &mut StdRng) -> (r: Result<GameOfLife, GridError>)
        ensures
            height == 0 <==> r == Err::<GameOfLife, GridError>(GridError::ZeroHeight),
            height > 0 && width == 0 <==> r == Err::<GameOfLife, GridError>(GridError::ZeroWidth),
            height > 0 && width > 0 <==> r is Ok,
            r matches Ok(g) ==> g.wf() && g.rows() == height && g.cols() == width,
    {
        if height == 0 {
            return Err(GridError::ZeroHeight);
        }
        if width == 0 {
            return Err(GridError::ZeroWidth);
        }
        let mut grid: Vec<Vec<Cell>> = Vec::new();
        let mut y: usize = 0;
        while y < height
            invariant
                y <= height,
                grid@.len() == y,
                forall|i: int| 0 <= i < y ==> #[trigger] grid@[i]@.len() == width,
            decreases height - y,
        {
            let mut row: Vec<Cell> = Vec::new();
            let mut x: usize = 0;
            while x < width
                invariant
                    x <= width,
                    row@.len() == x,
                decreases width - x,
            {
                let alive = draw_ratio(rng, ALIVE_NUMERATOR, ALIVE_DENOMINATOR);
                row.push(if alive { Cell::Alive } else { Cell::Dead });
                x = x + 1;
            }
            grid.push(row);
            y = y + 1;
        }
        Ok(GameOfLife { grid, height, width })
    }

    /// Builds a game from its rows of cells, which must be non-empty and all
    /// of one length.
    pub fn from_cells(cells: Vec<Vec<Cell>>) -> (r: Result<GameOfLife, GridError>)
        ensures
            cells@.len() == 0 <==> r == Err::<GameOfLife, GridError>(GridError::ZeroHeight),
            cells@.len() > 0 && cells@[0]@.len() == 0 <==> r == Err::<GameOfLife, GridError>(
                GridError::ZeroWidth,
            ),
            cells@.len() > 0 && cells@[0]@.len() > 0 && !rows_even(rows_view(cells@)) <==> r
                == Err::<GameOfLife, GridError>(GridError::RaggedRows),
            r matches Ok(g) ==> g.wf() && g@ == rows_view(cells@),
    {
        let height = cells.len();
        if height == 0 {
            return Err(GridError::ZeroHeight);
        }
        let width = cells[0].len();
        if width == 0 {
            return Err(GridError::ZeroWidth);
        }
        let mut y: usize = 0;
        while y < height
            invariant
                y <= height,
                height == cells@.len(),
                width == cells@[0]@.len(),
                width > 0,
                forall|i: int| 0 <= i < y ==> #[trigger] cells@[i]@.len() == width,
            decreases height - y,
        {
            if cells[y].len() != width {
                assert(rows_view(cells@)[y as int].len() != rows_view(cells@)[0].len());
                return Err(GridError::RaggedRows);
            }
            y = y + 1;
        }
        assert(is_grid(rows_view(cells@), height as int, width as int));
        Ok(GameOfLife { grid: cells, height, width })
    }

    /// The number of rows.
    pub fn height(&self) -> (r: usize)
        ensures
            r == self.rows(),
    {
        self.height
    }

    /// The number of columns.
    pub fn width(&self) -> (r: usize)
        ensures
            r == self.cols(),
    {
        self.width
    }

    /// The cell in column `x` of row `y`.
    pub fn cell(&self, x: usize, y: usize) -> (r: Cell)
        requires
            self.wf(),
            x < self.cols(),
            y < self.rows(),
        ensures
            r == self@[y as int][x as int],
    {
        self.grid[y][x]
    }

    /// One if the cell at offset `(dx - 1, dy - 1)` from `(x, y)` lies on the
    /// grid and is alive, zero otherwise.
    fn alive_near(&self, x: usize, y: usize, dx: usize, dy: usize) -> (r: usize)
        requires
            self.wf(),
            x < self.cols(),
            y < self.rows(),
            dx < 3,
            dy < 3,
        ensures
            r == one_if(alive_at(self@, x + dx - 1, y + dy - 1)),
    {
        if (x == 0 && dx == 0) || (y == 0 && dy == 0) {
            return 0;
        }
        let nx: usize = if dx == 0 { x - 1 } else { x + (dx - 1) };
        let ny: usize = if dy == 0 { y - 1 } else { y + (dy - 1) };
        if nx < self.width && ny < self.height {
            assert(self@[ny as int].len() == self.cols());
            if self.grid[ny][nx] == Cell::Alive {
                return 1;
            }
        }
        0
    }

    /// The number of live cells among the eight neighbours of `(x, y)`;
    /// positions off the grid count as dead.
    pub fn get_neighbours(&self, x: usize, y: usize) -> (r: usize)
        requires
            self.wf(),
            x < self.cols(),
            y < self.rows(),
        ensures
            r == neighbour_count(self@, x as int, y as int),
            r <= 8,
    {
        self.alive_near(x, y, 0, 0) + self.alive_near(x, y, 1, 0) + self.alive_near(x, y, 2, 0)
            + self.alive_near(x, y, 0, 1) + self.alive_near(x, y, 2, 1)
            + self.alive_near(x, y, 0, 2) + self.alive_near(x, y, 1, 2)
            + self.alive_near(x, y, 2, 2)
    }

    /// Replaces the current generation by the next one. Every new cell is
    /// computed from the old grid, which stays untouched until all are done.
    pub fn update(&mut self)
        requires
            old(self).wf(),
        ensures
            final(self).wf(),
            final(self).rows() == old(self).rows(),
            final(self).cols() == old(self).cols(),
            final(self)@ == next_generation(old(self)@),
    {
        let ghost next = next_generation(self@);
        let mut new_grid: Vec<Vec<Cell>> = Vec::new();
        let mut y: usize = 0;
        while y < self.height
            invariant
                self.wf(),
                next == next_generation(self@),
                y <= self.rows(),
                new_grid@.len() == y,
                forall|i: int| 0 <= i < y ==> #[trigger] new_grid@[i]@ == next[i],
            decreases self.rows() - y,
        {
            let mut row: Vec<Cell> = Vec::new();
            let mut x: usize = 0;
            while x < self.width
                invariant
                    self.wf(),
                    next == next_generation(self@),
                    y < self.rows(),
                    x <= self.cols(),
                    row@.len() == x,
                    forall|j: int| 0 <= j < x ==> #[trigger] row@[j] == next[y as int][j],
                decreases self.cols() - x,
            {
                let alive_neighbours = self.get_neighbours(x, y);
                let current = self.grid[y][x];
                row.push(current.next_state(alive_neighbours));
                x = x + 1;
            }
            assert(row@ =~= next[y as int]);
            new_grid.push(row);
            y = y + 1;
        }
        assert(rows_view(new_grid@) =~= next);
        self.grid = new_grid;
    }

    /// The frame that shows the current generation: one line per row, one
    /// character per cell, each line ended by a line break.
    pub fn render(&self) -> (r: String)
        requires
            self.wf(),
        ensures
            r@ == grid_text(self@),
    {
        let mut text = String::new();
        let mut y: usize = 0;
        while y < self.height
            invariant
                self.wf(),
                y <= self.rows(),
                text@ == grid_text(self@.subrange(0, y as int)),
            decreases self.rows() - y,
        {
            let ghost before = text@;
            let mut x: usize = 0;
            while x < self.width
                invariant
                    self.wf(),
                    y < self.rows(),
                    x <= self.cols(),
                    text@ == before + row_text(self@[y as int].subrange(0, x as int)),
                decreases self.cols() - x,
            {
                proof {
                    reveal_strlit("\u{2588}");
                    reveal_strlit(" ");
                }
                if self.grid[y][x] == Cell::Alive {
                    text.append("\u{2588}");
                } else {
                    text.append(" ");
                }
                assert(row_text(self@[y as int].subrange(0, x + 1)) =~= row_text(
                    self@[y as int].subrange(0, x as int),
                ).push(glyph(self@[y as int][x as int])));
                x = x + 1;
            }
            proof {
                reveal_strlit("\n");
            }
            text.append("\n");
            assert(self@.subrange(0, y + 1).drop_last() =~= self@.subrange(0, y as int));
            assert(self@[y as int].subrange(0, self.cols()) =~= self@[y as int]);
            y = y + 1;
        }
        assert(self@.subrange(0, self.rows()) =~= self@);
        text
    }
}

} // verus!
