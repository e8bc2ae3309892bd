use life::cell::Cell;
use life::game::{GameOfLife, GridError, ALIVE_DENOMINATOR, ALIVE_NUMERATOR};
use life::Args;
use rand::rngs::StdRng;
use rand::SeedableRng;

fn grid_from(rows: &[&str]) -> GameOfLife {
    let cells: Vec<Vec<Cell>> = rows
        .iter()
        .map(|r| r.chars().map(|c| if c == '#' { Cell::Alive } else { Cell::Dead }).collect())
        .collect();
    GameOfLife::from_cells(cells).unwrap()
}

fn picture(g: &GameOfLife) -> Vec<String> {
    (0..g.height())
        .map(|y| {
            (0..g.width())
                .map(|x| if g.cell(x, y) == Cell::Alive { '#' } else { '.' })
                .collect()
        })
        .collect()
}

fn seeded(seed: u64) -> StdRng {
    StdRng::seed_from_u64(seed)
}

#[test]
fn update_keeps_dimensions() {
    let mut g = GameOfLife::new(7, 13, &mut seeded(1)).unwrap();
    for _ in 0..5 {
        g.update();
        assert_eq!(g.height(), 7);
        assert_eq!(g.width(), 13);
        assert_eq!(picture(&g).len(), 7);
        assert!(picture(&g).iter().all(|r| r.len() == 13));
    }
}

#[test]
fn neighbour_count_on_full_grid() {
    let g = grid_from(&["####", "####", "####", "####"]);
    assert_eq!(g.get_neighbours(0, 0), 3);
    assert_eq!(g.get_neighbours(3, 0), 3);
    assert_eq!(g.get_neighbours(0, 3), 3);
    assert_eq!(g.get_neighbours(3, 3), 3);
    assert_eq!(g.get_neighbours(1, 0), 5);
    assert_eq!(g.get_neighbours(0, 2), 5);
    assert_eq!(g.get_neighbours(3, 1), 5);
    assert_eq!(g.get_neighbours(2, 3), 5);
    assert_eq!(g.get_neighbours(1, 1), 8);
    assert_eq!(g.get_neighbours(2, 2), 8);
}

#[test]
fn neighbour_count_interior_with_some_dead() {
    let g = grid_from(&["#.#", ".#.", "##."]);
    assert_eq!(g.get_neighbours(1, 1), 4);
    assert_eq!(g.get_neighbours(0, 0), 1);
    assert_eq!(g.get_neighbours(2, 2), 2);
}

#[test]
fn no_wraparound_from_corner() {
    let g = grid_from(&["#...", "....", "....", "...."]);
    for y in 0..4 {
        assert_eq!(g.get_neighbours(3, y), 0);
    }
    for x in 0..4 {
        assert_eq!(g.get_neighbours(x, 3), 0);
    }
    assert_eq!(g.get_neighbours(1, 0), 1);
    assert_eq!(g.get_neighbours(1, 1), 1);
    assert_eq!(g.get_neighbours(0, 1), 1);
}

#[test]
fn lone_cell_dies() {
    let mut g = grid_from(&["...", ".#.", "..."]);
    g.update();
    assert_eq!(picture(&g), vec!["...", "...", "..."]);
}

#[test]
fn crowded_cell_dies() {
    let mut g = grid_from(&[".#.", "###", ".#."]);
    assert_eq!(g.get_neighbours(1, 1), 4);
    g.update();
    assert_eq!(g.cell(1, 1), Cell::Dead);
}

#[test]
fn cell_with_two_or_three_neighbours_survives() {
    let mut two = grid_from(&["#..", ".#.", "..#"]);
    assert_eq!(two.get_neighbours(1, 1), 2);
    two.update();
    assert_eq!(two.cell(1, 1), Cell::Alive);

    let mut three = grid_from(&["#.#", ".#.", "..#"]);
    assert_eq!(three.get_neighbours(1, 1), 3);
    three.update();
    assert_eq!(three.cell(1, 1), Cell::Alive);
}

#[test]
fn dead_cell_with_three_neighbours_is_born() {
    let mut g = grid_from(&["#.#", "...", "#.."]);
    assert_eq!(g.get_neighbours(1, 1), 3);
    g.update();
    assert_eq!(g.cell(1, 1), Cell::Alive);
}

#[test]
fn dead_cell_with_two_neighbours_stays_dead() {
    let mut g = grid_from(&["#.#", "...", "..."]);
    g.update();
    assert_eq!(g.cell(1, 1), Cell::Dead);
}

#[test]
fn next_state_rule() {
    for n in 0..=8 {
        let alive = Cell::Alive.next_state(n);
        let dead = Cell::Dead.next_state(n);
        assert_eq!(alive == Cell::Alive, n == 2 || n == 3);
        assert_eq!(dead == Cell::Alive, n == 3);
    }
}

#[test]
fn block_is_still_life() {
    let rows = ["....", ".##.", ".##.", "...."];
    let mut g = grid_from(&rows);
    g.update();
    assert_eq!(picture(&g), rows.to_vec());

    let corner = ["##....", "##....", "......", "......", "......"];
    let mut h = grid_from(&corner);
    h.update();
    h.update();
    assert_eq!(picture(&h), corner.to_vec());
}

#[test]
fn blinker_oscillates() {
    let horizontal = [".....", ".....", ".###.", ".....", "....."];
    let vertical = [".....", "..#..", "..#..", "..#..", "....."];
    let mut g = grid_from(&horizontal);
    g.update();
    assert_eq!(picture(&g), vertical.to_vec());
    g.update();
    assert_eq!(picture(&g), horizontal.to_vec());
}

#[test]
fn same_seed_gives_same_grid() {
    let a = GameOfLife::new(20, 30, &mut seeded(42)).unwrap();
    let b = GameOfLife::new(20, 30, &mut seeded(42)).unwrap();
    assert_eq!(picture(&a), picture(&b));
    assert_eq!(a.render(), b.render());
}

#[test]
fn random_grid_has_both_states() {
    let g = GameOfLife::new(50, 50, &mut seeded(7)).unwrap();
    let alive = picture(&g).iter().map(|r| r.chars().filter(|&c| c == '#').count()).sum::<usize>();
    assert!(alive > 0);
    assert!(alive < 2500);
    assert_eq!((ALIVE_NUMERATOR, ALIVE_DENOMINATOR), (3, 10));
}

#[test]
fn random_grid_fills_every_column() {
    let g = GameOfLife::new(3, 40, &mut seeded(3)).unwrap();
    let alive_right = (0..3)
        .flat_map(|y| (20..40).map(move |x| (x, y)))
        .filter(|&(x, y)| g.cell(x, y) == Cell::Alive)
        .count();
    assert!(alive_right > 0);
}

#[test]
fn new_rejects_empty_dimensions() {
    assert_eq!(GameOfLife::new(0, 5, &mut seeded(0)).err(), Some(GridError::ZeroHeight));
    assert_eq!(GameOfLife::new(0, 0, &mut seeded(0)).err(), Some(GridError::ZeroHeight));
    assert_eq!(GameOfLife::new(5, 0, &mut seeded(0)).err(), Some(GridError::ZeroWidth));
}

#[test]
fn from_cells_rejects_bad_shapes() {
    assert_eq!(GameOfLife::from_cells(vec![]).err(), Some(GridError::ZeroHeight));
    assert_eq!(GameOfLife::from_cells(vec![vec![], vec![]]).err(), Some(GridError::ZeroWidth));
    let ragged = vec![vec![Cell::Dead, Cell::Alive], vec![Cell::Dead]];
    assert_eq!(GameOfLife::from_cells(ragged).err(), Some(GridError::RaggedRows));
}

#[test]
fn render_draws_blocks_and_spaces() {
    let g = grid_from(&["#.", ".#", "##"]);
    assert_eq!(g.render(), "\u{2588} \n \u{2588}\n\u{2588}\u{2588}\n");
}

#[test]
fn cell_characters() {
    assert_eq!(Cell::Alive.to_char(), '\u{2588}');
    assert_eq!(Cell::Dead.to_char(), ' ');
}

#[test]
fn default_args() {
    let a = Args::default();
    assert_eq!(a.time, 100);
    assert_eq!(a.height, 50);
    assert_eq!(a.width, 50);
}
