use vstd::prelude::*;

verus! {

/// The state of one square of the grid.
#[derive(Clone, Copy, Debug, PartialEq, Eq, Structural)]
pub enum Cell {
    Alive,
    Dead,
}

/// The glyph that stands for a cell in a rendered frame: a full block for a
/// live cell, a space for a dead one.
pub open spec fn glyph(c: Cell) -> char {
    match c {
        Cell::Alive => '\u{2588}',
        Cell::Dead => ' ',
    }
}

/// The rule of the game: a live cell survives with two or three live
/// neighbours, a dead cell comes alive with exactly three, and every other
/// cell is dead in the next generation.
pub open spec fn next_cell(c: Cell, alive_neighbours: int) -> Cell {
    if c == Cell::Alive && (alive_neighbours == 2 || alive_neighbours == 3) {
        Cell::Alive
    } else if c == Cell::Dead && alive_neighbours == 3 {
        Cell::Alive
    } else {
        Cell::Dead
    }
}

impl Cell {
    /// The character that draws this cell.
    pub fn to_char(self) -> (r: char)
        ensures
            r == glyph(self),
    {
        match self {
            Cell::Alive => '\u{2588}',
            Cell::Dead => ' ',
        }
    }

    /// The state of this cell in the next generation, given how many of its
    /// neighbours are alive now.
    pub fn next_state(self, alive_neighbours: usize) -> (r: Cell)
        ensures
            r == next_cell(self, alive_neighbours as int),
    {
        match (self, alive_neighbours) {
            (Cell::Alive, 2) | (Cell::Alive, 3) => Cell::Alive,
            (Cell::Dead, 3) => Cell::Alive,
            _ => Cell::Dead,
        }
    }
}

} // verus!
