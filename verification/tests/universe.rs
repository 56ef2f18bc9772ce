//! Behavioral tests of the grid: construction, seeding, editing, the
//! toroidal census, and the generation step.

use wasm_game_of_life::{Cell, GridError, InitialPattern, Universe};

/// A 6x6 board carrying the canonical glider.
fn input_spaceship() -> Universe {
    let mut universe = Universe::new(0);
    universe.set_width(6);
    universe.set_height(6);
    universe.set_cells(&[(1, 2), (2, 3), (3, 1), (3, 2), (3, 3)]);
    universe
}

/// The same board as it must stand one generation later.
fn expected_spaceship() -> Universe {
    let mut universe = Universe::new(0);
    universe.set_width(6);
    universe.set_height(6);
    universe.set_cells(&[(2, 1), (2, 3), (3, 2), (3, 3), (4, 2)]);
    universe
}

#[test]
fn test_tick() {
    let mut input_universe = input_spaceship();
    let expected_universe = expected_spaceship();

    input_universe.tick();
    assert_eq!(input_universe.get_cells(), expected_universe.get_cells());
}

#[test]
fn new_has_default_dimensions_and_full_buffers() {
    let universe = Universe::new(1);
    assert_eq!(universe.width(), 128);
    assert_eq!(universe.height(), 128);
    assert_eq!(universe.cells().len(), 128 * 128);
    assert_eq!(universe.prevcells().len(), 128 * 128);
}

#[test]
fn new_snapshot_is_inverse_of_board() {
    let universe = Universe::new(2);
    let cells = universe.cells();
    let prev = universe.prevcells();
    assert_eq!(cells.len(), prev.len());
    for i in 0..cells.len() {
        assert_ne!(cells[i], prev[i]);
    }
}

#[test]
fn new_is_not_constant() {
    let universe = Universe::new(3);
    let cells = universe.cells();
    assert!(cells.iter().any(|c| *c == Cell::Alive));
    assert!(cells.iter().any(|c| *c == Cell::Dead));
}

#[test]
fn same_seed_same_board() {
    let a = Universe::new(42);
    let b = Universe::new(42);
    assert_eq!(a.get_cells(), b.get_cells());
}

#[test]
fn tick_is_deterministic() {
    let mut a = input_spaceship();
    let mut b = input_spaceship();
    assert_eq!(a.get_cells(), b.get_cells());
    a.tick();
    b.tick();
    assert_eq!(a.get_cells(), b.get_cells());
}

#[test]
fn toroidal_wrap_counts_far_corner() {
    let mut universe = Universe::new(4);
    universe.set_width(3);
    universe.set_height(3);
    universe.set_cell_value(2, 2, Cell::Alive);
    // The live cell at (2, 2) is a diagonal neighbor of (0, 0) across the
    // wrapped edges, and the only one.
    assert_eq!(universe.live_neighbor_count(0, 0), 1);
    assert_eq!(universe.live_neighbor_count(1, 1), 1);
}

#[test]
fn wrapped_neighbors_feed_the_rule() {
    let mut universe = Universe::new(5);
    universe.set_width(3);
    universe.set_height(3);
    // (0, 0) sees three live cells only through wrapping of (2, 2).
    universe.set_cells(&[(0, 1), (1, 0), (2, 2)]);
    assert_eq!(universe.live_neighbor_count(0, 0), 3);
    universe.tick();
    assert_eq!(universe.cells()[0], Cell::Alive);
}

#[test]
fn live_cell_with_two_or_three_neighbors_survives() {
    let mut universe = Universe::new(6);
    universe.set_width(6);
    universe.set_height(6);
    // A horizontal triple: the middle cell has 2 live neighbors.
    universe.set_cells(&[(2, 1), (2, 2), (2, 3)]);
    assert_eq!(universe.live_neighbor_count(2, 2), 2);
    let mid = universe.get_cell_index(2, 2) as usize;
    universe.tick();
    assert_eq!(universe.cells()[mid], Cell::Alive);

    // A square block: every member has 3 live neighbors.
    let mut block = Universe::new(6);
    block.set_width(6);
    block.set_height(6);
    block.set_cells(&[(1, 1), (1, 2), (2, 1), (2, 2)]);
    assert_eq!(block.live_neighbor_count(1, 1), 3);
    let corner = block.get_cell_index(1, 1) as usize;
    block.tick();
    assert_eq!(block.cells()[corner], Cell::Alive);
}

#[test]
fn live_cell_with_one_or_four_neighbors_dies() {
    let mut universe = Universe::new(7);
    universe.set_width(6);
    universe.set_height(6);
    // A pair: each has exactly 1 live neighbor.
    universe.set_cells(&[(2, 2), (2, 3)]);
    assert_eq!(universe.live_neighbor_count(2, 2), 1);
    let idx = universe.get_cell_index(2, 2) as usize;
    universe.tick();
    assert_eq!(universe.cells()[idx], Cell::Dead);

    // A plus shape: the center has 4 live neighbors.
    let mut plus = Universe::new(8);
    plus.set_width(7);
    plus.set_height(7);
    plus.set_cells(&[(3, 3), (2, 3), (4, 3), (3, 2), (3, 4)]);
    assert_eq!(plus.live_neighbor_count(3, 3), 4);
    let center = plus.get_cell_index(3, 3) as usize;
    plus.tick();
    assert_eq!(plus.cells()[center], Cell::Dead);
}

#[test]
fn dead_cell_with_three_neighbors_is_born() {
    let mut universe = Universe::new(9);
    universe.set_width(6);
    universe.set_height(6);
    // A horizontal triple: the cells above and below its middle see 3.
    universe.set_cells(&[(2, 1), (2, 2), (2, 3)]);
    assert_eq!(universe.live_neighbor_count(1, 2), 3);
    let above = universe.get_cell_index(1, 2) as usize;
    let below = universe.get_cell_index(3, 2) as usize;
    universe.tick();
    assert_eq!(universe.cells()[above], Cell::Alive);
    assert_eq!(universe.cells()[below], Cell::Alive);
}

#[test]
fn dead_cell_with_other_counts_stays_dead() {
    let mut universe = Universe::new(10);
    universe.set_width(6);
    universe.set_height(6);
    // (2, 2) is dead with exactly 2 live neighbors.
    universe.set_cells(&[(2, 1), (2, 3)]);
    assert_eq!(universe.live_neighbor_count(2, 2), 2);
    let idx = universe.get_cell_index(2, 2) as usize;
    universe.tick();
    assert_eq!(universe.cells()[idx], Cell::Dead);
}

#[test]
fn set_width_resets_all_cells_to_dead() {
    let mut universe = Universe::new(11);
    universe.set_width(5);
    universe.set_height(5);
    universe.set_cell_value(2, 2, Cell::Alive);
    assert!(universe.cells().iter().any(|c| *c == Cell::Alive));
    universe.set_width(5);
    assert_eq!(universe.cells().len(), 25);
    assert!(universe.cells().iter().all(|c| *c == Cell::Dead));
}

#[test]
fn set_height_resets_all_cells_to_dead() {
    let mut universe = Universe::new(12);
    universe.set_width(4);
    universe.set_height(4);
    universe.set_cell_value(1, 3, Cell::Alive);
    assert!(universe.cells().iter().any(|c| *c == Cell::Alive));
    universe.set_height(8);
    assert_eq!(universe.cells().len(), 32);
    assert!(universe.cells().iter().all(|c| *c == Cell::Dead));
}

#[test]
fn buffer_length_tracks_dimensions() {
    let mut universe = Universe::new(13);
    assert_eq!(universe.cells().len(), 128 * 128);
    universe.set_width(3);
    assert_eq!(
        universe.cells().len(),
        universe.width() as usize * universe.height() as usize
    );
    universe.set_height(7);
    assert_eq!(universe.cells().len(), 21);
    universe.tick();
    assert_eq!(universe.cells().len(), 21);
    assert_eq!(universe.prevcells().len(), 21);
}

#[test]
fn toggle_cell_twice_restores_the_board() {
    let mut universe = Universe::new(14);
    universe.set_width(6);
    universe.set_height(6);
    universe.set_cells(&[(1, 2), (2, 3)]);
    let before: Vec<Cell> = universe.cells().to_vec();
    universe.toggle_cell(4, 4);
    assert_ne!(universe.cells(), before.as_slice());
    universe.toggle_cell(4, 4);
    assert_eq!(universe.cells(), before.as_slice());
}

#[test]
fn toggle_cell_flips_exactly_one_cell() {
    let mut universe = Universe::new(15);
    universe.set_width(6);
    universe.set_height(6);
    let idx = universe.get_cell_index(2, 5) as usize;
    universe.toggle_cell(2, 5);
    for (i, cell) in universe.cells().iter().enumerate() {
        let expected = if i == idx { Cell::Alive } else { Cell::Dead };
        assert_eq!(*cell, expected);
    }
}

#[test]
fn set_cell_value_writes_the_given_state() {
    let mut universe = Universe::new(16);
    universe.set_width(4);
    universe.set_height(4);
    universe.set_cell_value(0, 0, Cell::Alive);
    assert_eq!(universe.cells()[0], Cell::Alive);
    universe.set_cell_value(0, 0, Cell::Alive);
    assert_eq!(universe.cells()[0], Cell::Alive);
    universe.set_cell_value(0, 0, Cell::Dead);
    assert_eq!(universe.cells()[0], Cell::Dead);
}

#[test]
fn set_cells_marks_exactly_the_given_positions() {
    let mut universe = Universe::new(17);
    universe.set_width(5);
    universe.set_height(5);
    universe.set_cells(&[(0, 0), (4, 4), (2, 3)]);
    let live: Vec<usize> = vec![
        universe.get_cell_index(0, 0) as usize,
        universe.get_cell_index(4, 4) as usize,
        universe.get_cell_index(2, 3) as usize,
    ];
    for (i, cell) in universe.cells().iter().enumerate() {
        let expected = if live.contains(&i) { Cell::Alive } else { Cell::Dead };
        assert_eq!(*cell, expected);
    }
}

#[test]
fn get_cell_index_is_row_major() {
    let mut universe = Universe::new(18);
    universe.set_width(7);
    universe.set_height(5);
    assert_eq!(universe.get_cell_index(0, 0), 0);
    assert_eq!(universe.get_cell_index(0, 6), 6);
    assert_eq!(universe.get_cell_index(1, 0), 7);
    assert_eq!(universe.get_cell_index(4, 6), 34);
}

#[test]
fn mousedown_flag_round_trips() {
    let mut universe = Universe::new(19);
    assert!(!universe.is_mousedown());
    universe.set_mousedown_value(true);
    assert!(universe.is_mousedown());
    universe.set_mousedown_value(false);
    assert!(!universe.is_mousedown());
}

#[test]
fn tick_snapshots_previous_generation() {
    let mut universe = input_spaceship();
    let before: Vec<Cell> = universe.cells().to_vec();
    universe.tick();
    assert_eq!(universe.prevcells(), before.as_slice());
}

#[test]
fn reset_board_refuses_unsupported_pattern() {
    let mut universe = input_spaceship();
    let cells_before: Vec<Cell> = universe.cells().to_vec();
    let prev_before: Vec<Cell> = universe.prevcells().to_vec();
    let result = universe.reset_board(InitialPattern::Complex1);
    assert_eq!(result, Err(GridError::UnsupportedPattern));
    assert_eq!(universe.cells(), cells_before.as_slice());
    assert_eq!(universe.prevcells(), prev_before.as_slice());
}

#[test]
fn reset_board_random_snapshots_and_reseeds() {
    let mut universe = input_spaceship();
    let cells_before: Vec<Cell> = universe.cells().to_vec();
    let result = universe.reset_board(InitialPattern::Random5050);
    assert_eq!(result, Ok(()));
    assert_eq!(universe.prevcells(), cells_before.as_slice());
    assert_eq!(universe.cells().len(), 36);
    assert_eq!(universe.width(), 6);
    assert_eq!(universe.height(), 6);
}

#[test]
fn cell_toggle_and_set() {
    let mut cell = Cell::Dead;
    cell.toggle();
    assert_eq!(cell, Cell::Alive);
    cell.toggle();
    assert_eq!(cell, Cell::Dead);
    cell.set_cell(Cell::Alive);
    assert_eq!(cell, Cell::Alive);
    cell.set_cell(Cell::Alive);
    assert_eq!(cell, Cell::Alive);
}

#[test]
fn glider_returns_after_full_cycle() {
    // A glider translates by one diagonal step every four generations; on a
    // 6x6 torus it comes back to its start after 24.
    let mut universe = input_spaceship();
    let start: Vec<Cell> = universe.cells().to_vec();
    for _ in 0..24 {
        universe.tick();
    }
    assert_eq!(universe.cells(), start.as_slice());
}
