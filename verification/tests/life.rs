use game_of_life::grid::Grid;
use game_of_life::step::{alive_neighbors, step};

fn make_grid(width: usize, height: usize, alive: &[(usize, usize)]) -> Grid {
    let mut g = Grid::new(width, height);
    for &(x, y) in alive {
        g.set_alive(x, y);
    }
    g
}

#[test]
fn alive_cell_with_two_neighbors_survives() {
    // A horizontal triple in the middle of a 5x5 grid: the center has
    // exactly two alive neighbors.
    let g = make_grid(5, 5, &[(1, 2), (2, 2), (3, 2)]);
    assert_eq!(alive_neighbors(&g, 2, 2), 2);
    let n = step(&g);
    assert_eq!(n.get(2, 2), 1);
}

#[test]
fn alive_cell_with_three_neighbors_survives() {
    // A 2x2 block: every cell has exactly three alive neighbors.
    let g = make_grid(5, 5, &[(1, 1), (2, 1), (1, 2), (2, 2)]);
    assert_eq!(alive_neighbors(&g, 1, 1), 3);
    let n = step(&g);
    assert_eq!(n.get(1, 1), 1);
    assert_eq!(n.get(2, 1), 1);
    assert_eq!(n.get(1, 2), 1);
    assert_eq!(n.get(2, 2), 1);
}

#[test]
fn alive_cell_with_one_neighbor_dies() {
    let g = make_grid(5, 5, &[(1, 2), (2, 2)]);
    assert_eq!(alive_neighbors(&g, 1, 2), 1);
    let n = step(&g);
    assert_eq!(n.get(1, 2), 0);
    assert_eq!(n.get(2, 2), 0);
}

#[test]
fn alive_cell_with_four_neighbors_dies() {
    let g = make_grid(5, 5, &[(2, 2), (1, 2), (3, 2), (2, 1), (2, 3)]);
    assert_eq!(alive_neighbors(&g, 2, 2), 4);
    let n = step(&g);
    assert_eq!(n.get(2, 2), 0);
}

#[test]
fn dead_cell_with_three_neighbors_is_born() {
    let g = make_grid(5, 5, &[(1, 2), (2, 2), (3, 2)]);
    assert_eq!(alive_neighbors(&g, 2, 1), 3);
    let n = step(&g);
    assert_eq!(n.get(2, 1), 1);
    assert_eq!(n.get(2, 3), 1);
}

#[test]
fn dead_cell_with_two_neighbors_stays_dead() {
    let g = make_grid(5, 5, &[(1, 2), (3, 2)]);
    assert_eq!(alive_neighbors(&g, 2, 1), 2);
    let n = step(&g);
    assert_eq!(n.get(2, 1), 0);
}

#[test]
fn blinker_oscillates_in_open_space() {
    // A horizontal blinker away from the edges flips to vertical.
    let g = make_grid(5, 5, &[(1, 2), (2, 2), (3, 2)]);
    let n = step(&g);
    for y in 0..5 {
        for x in 0..5 {
            let expect = if (x, y) == (2, 1) || (x, y) == (2, 2) || (x, y) == (2, 3) {
                1
            } else {
                0
            };
            assert_eq!(n.get(x, y), expect, "cell ({}, {})", x, y);
        }
    }
}

#[test]
fn corner_counts_opposite_corner_as_neighbor() {
    // Toroidal wrap: on a 4x4 grid whose only alive cell is (3, 3), the
    // cell (0, 0) sees exactly one alive neighbor.
    let g = make_grid(4, 4, &[(3, 3)]);
    assert_eq!(alive_neighbors(&g, 0, 0), 1);
}

#[test]
fn corner_wrap_on_three_by_three() {
    let g = make_grid(3, 3, &[(2, 2)]);
    assert_eq!(alive_neighbors(&g, 0, 0), 1);
}

#[test]
fn full_row_on_three_by_three_torus() {
    // On a 3x3 torus a full middle row leaves every alive cell with two
    // alive neighbors and every dead cell with three, so one step fills
    // the grid and the following step clears it.
    let g = make_grid(3, 3, &[(0, 1), (1, 1), (2, 1)]);
    let one = step(&g);
    for y in 0..3 {
        for x in 0..3 {
            assert_eq!(one.get(x, y), 1, "cell ({}, {}) after one step", x, y);
        }
    }
    let two = step(&one);
    for y in 0..3 {
        for x in 0..3 {
            assert_eq!(two.get(x, y), 0, "cell ({}, {}) after two steps", x, y);
        }
    }
}

#[test]
fn set_alive_in_bounds_shows_in_next_input() {
    let mut g = Grid::new(6, 4);
    g.set_alive(5, 3);
    assert_eq!(g.get(5, 3), 1);
    assert_eq!(g.cells()[3 * 6 + 5], 1);
}

#[test]
fn set_alive_out_of_bounds_is_a_no_op() {
    let mut g = make_grid(4, 4, &[(1, 1)]);
    let before = g.cells().clone();
    g.set_alive(4, 0);
    g.set_alive(0, 4);
    g.set_alive(100, 100);
    assert_eq!(g.cells(), &before);
}

#[test]
fn reset_alive_fraction_near_one_fifth() {
    // Reseeding is Bernoulli with probability 1/5 per cell; over 20,000
    // cells the alive fraction stays within 0.18..=0.22 except with
    // negligible probability.
    let mut g = Grid::new(200, 100);
    g.reset();
    let alive: usize = g.cells().iter().map(|&c| c as usize).sum();
    let fraction = alive as f64 / 20_000.0;
    assert!(
        (0.18..=0.22).contains(&fraction),
        "alive fraction {} outside tolerance",
        fraction
    );
}

#[test]
fn reset_keeps_dimensions_and_cell_validity() {
    let mut g = Grid::new(7, 5);
    g.reset();
    assert_eq!(g.width(), 7);
    assert_eq!(g.height(), 5);
    assert_eq!(g.cells().len(), 35);
    assert!(g.cells().iter().all(|&c| c == 0 || c == 1));
}

#[test]
fn from_cells_accepts_exact_fit() {
    let cells = vec![0u8; 12];
    let g = Grid::from_cells(cells.clone(), 4, 3).unwrap();
    assert_eq!(g.width(), 4);
    assert_eq!(g.height(), 3);
    assert_eq!(g.cells(), &cells);
}

#[test]
fn from_cells_rejects_bad_input() {
    assert!(Grid::from_cells(vec![0u8; 11], 4, 3).is_none());
    assert!(Grid::from_cells(vec![0u8; 12], 0, 3).is_none());
    assert!(Grid::from_cells(vec![0u8; 12], 4, 0).is_none());
    let mut cells = vec![0u8; 12];
    cells[7] = 2;
    assert!(Grid::from_cells(cells, 4, 3).is_none());
}
