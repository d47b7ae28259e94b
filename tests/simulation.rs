use bml_traffic::grid::{seed_cell, Cell, Grid};
use bml_traffic::model::{Config, Model, SimError, DENSITY_SCALE};
use bml_traffic::tide::{reseed_due, reseed_extent, reseed_range, reseed_threshold, tide_position};

fn config(side: usize) -> Config {
    Config { side, density: 250_000, rotation_period: 5, tide_period: 300, sand_max: side as u32 }
}

fn grid_with(n: usize, cars: &[(usize, usize, Cell)]) -> Grid {
    let mut g = Grid::empty(n);
    for &(i, j, c) in cars {
        g.set(i, j, c);
    }
    g
}

fn count(g: &Grid, c: Cell) -> usize {
    let n = g.size();
    let mut k = 0;
    for i in 0..n {
        for j in 0..n {
            if g.get(i, j) == c {
                k += 1;
            }
        }
    }
    k
}

fn cells_of(g: &Grid) -> Vec<(usize, usize, Cell)> {
    let n = g.size();
    let mut v = Vec::new();
    for i in 0..n {
        for j in 0..n {
            if g.get(i, j) != Cell::Empty {
                v.push((i, j, g.get(i, j)));
            }
        }
    }
    v
}

#[test]
fn horizontal_wraparound_on_four() {
    let g = grid_with(4, &[(1, 3, Cell::Horizontal)]);
    let h = g.horizontal_phase();
    assert_eq!(cells_of(&h), vec![(1, 0, Cell::Horizontal)]);
}

#[test]
fn vertical_wraparound_on_four() {
    let g = grid_with(4, &[(3, 2, Cell::Vertical)]);
    let h = g.vertical_phase();
    assert_eq!(cells_of(&h), vec![(0, 2, Cell::Vertical)]);
}

#[test]
fn blocked_car_waits_and_front_car_moves() {
    let g = grid_with(4, &[(0, 1, Cell::Horizontal), (0, 2, Cell::Horizontal)]);
    let h = g.horizontal_phase();
    assert_eq!(h.get(0, 1), Cell::Horizontal);
    assert_eq!(h.get(0, 2), Cell::Empty);
    assert_eq!(h.get(0, 3), Cell::Horizontal);
}

#[test]
fn model_first_update_is_horizontal() {
    let g = grid_with(4, &[(1, 3, Cell::Horizontal), (3, 2, Cell::Vertical)]);
    let mut m = Model::from_grid(g, config(4), 7).unwrap();
    assert!(m.is_horizontal_next());
    m.simple_update();
    assert_eq!(m.cell_tag(1, 0), Cell::Horizontal);
    assert_eq!(m.cell_tag(1, 3), Cell::Empty);
    assert_eq!(m.cell_tag(3, 2), Cell::Vertical);
    assert!(!m.is_horizontal_next());
    m.simple_update();
    assert_eq!(m.cell_tag(0, 2), Cell::Vertical);
    assert_eq!(m.cell_tag(3, 2), Cell::Empty);
    assert_eq!(m.cell_tag(1, 0), Cell::Horizontal);
    assert!(m.is_horizontal_next());
}

#[test]
fn phases_alternate_over_two_updates() {
    // A horizontal car and a vertical car that each have room to move:
    // each moves exactly once over two updates.
    let g = grid_with(4, &[(1, 0, Cell::Horizontal), (0, 3, Cell::Vertical)]);
    let mut m = Model::from_grid(g, config(4), 1).unwrap();
    m.simple_update();
    assert_eq!(cells_of(m.grid()), vec![(0, 3, Cell::Vertical), (1, 1, Cell::Horizontal)]);
    m.simple_update();
    assert_eq!(cells_of(m.grid()), vec![(1, 1, Cell::Horizontal), (1, 3, Cell::Vertical)]);
}

#[test]
fn moved_car_is_not_moved_again_in_one_phase() {
    let g = grid_with(6, &[(2, 0, Cell::Horizontal)]);
    let h = g.horizontal_phase();
    assert_eq!(cells_of(&h), vec![(2, 1, Cell::Horizontal)]);
}

#[test]
fn wraparound_uses_start_of_phase_occupancy() {
    // Column 0 is vacated during the phase, but was occupied when it began,
    // so the car in the last column stays.
    let g = grid_with(4, &[(0, 0, Cell::Horizontal), (0, 3, Cell::Horizontal)]);
    let h = g.horizontal_phase();
    assert_eq!(cells_of(&h), vec![(0, 1, Cell::Horizontal), (0, 3, Cell::Horizontal)]);
}

#[test]
fn full_row_does_not_move() {
    let g = grid_with(2, &[(1, 0, Cell::Horizontal), (1, 1, Cell::Horizontal)]);
    let h = g.horizontal_phase();
    assert_eq!(cells_of(&h), cells_of(&g));
}

#[test]
fn cars_of_other_kind_block() {
    let g = grid_with(4, &[(2, 1, Cell::Horizontal), (2, 2, Cell::Vertical), (1, 2, Cell::Vertical)]);
    let h = g.horizontal_phase();
    assert_eq!(cells_of(&h), cells_of(&g));
    let v = g.vertical_phase();
    assert_eq!(
        cells_of(&v),
        vec![(1, 2, Cell::Vertical), (2, 1, Cell::Horizontal), (3, 2, Cell::Vertical)]
    );
}

#[test]
fn phases_conserve_car_counts() {
    let m = Model::new_simulation(config(16), 42).unwrap();
    let g = m.grid();
    let nh = count(g, Cell::Horizontal);
    let nv = count(g, Cell::Vertical);
    let h = g.horizontal_phase();
    assert_eq!(count(&h, Cell::Horizontal), nh);
    assert_eq!(count(&h, Cell::Vertical), nv);
    let v = h.vertical_phase();
    assert_eq!(count(&v, Cell::Horizontal), nh);
    assert_eq!(count(&v, Cell::Vertical), nv);
}

#[test]
fn new_simulation_respects_parity() {
    for seed in 0..5u64 {
        let m = Model::new_simulation(config(10), seed).unwrap();
        assert_eq!(m.grid().size(), 10);
        for i in 0..10 {
            for j in 0..10 {
                match m.cell_tag(i, j) {
                    Cell::Horizontal => assert_eq!(i % 2, 1),
                    Cell::Vertical => assert_eq!(j % 2, 1),
                    Cell::Empty => {}
                }
            }
        }
    }
}

#[test]
fn new_simulation_places_cars_at_full_density() {
    let mut c = config(8);
    c.density = DENSITY_SCALE / 2;
    let m = Model::new_simulation(c, 3).unwrap();
    // Every draw is a car; only the parity filter empties cells.
    for i in 0..8 {
        for j in 0..8 {
            if i % 2 == 1 && j % 2 == 1 {
                assert_ne!(m.cell_tag(i, j), Cell::Empty);
            }
        }
    }
    assert!(count(m.grid(), Cell::Horizontal) + count(m.grid(), Cell::Vertical) >= 16);
}

#[test]
fn new_simulation_is_reproducible() {
    let a = Model::new_simulation(config(12), 99).unwrap();
    let b = Model::new_simulation(config(12), 99).unwrap();
    assert_eq!(cells_of(a.grid()), cells_of(b.grid()));
    assert_eq!(a.tick_count(), 0);
    assert!(a.parity_sense());
}

#[test]
fn invalid_configurations_are_rejected() {
    let good = config(8);
    assert!(Model::new_simulation(good, 0).is_ok());
    let mut odd = good;
    odd.side = 7;
    odd.sand_max = 7;
    let mut zero = good;
    zero.side = 0;
    zero.sand_max = 0;
    let mut dense = good;
    dense.density = DENSITY_SCALE / 2 + 1;
    let mut sparse = good;
    sparse.density = 0;
    let mut rot = good;
    rot.rotation_period = 0;
    let mut tide = good;
    tide.tide_period = 0;
    let mut sand = good;
    sand.sand_max = 9;
    for c in [odd, zero, dense, sparse, rot, tide, sand] {
        assert_eq!(Model::new_simulation(c, 0).err(), Some(SimError::InvalidConfiguration));
    }
    assert_eq!(
        Model::from_grid(Grid::empty(4), good, 0).err(),
        Some(SimError::InvalidConfiguration)
    );
}

#[test]
fn shear_moves_each_cell_diagonally() {
    let g = grid_with(4, &[(0, 0, Cell::Horizontal), (2, 1, Cell::Vertical), (3, 0, Cell::Horizontal)]);
    let h = g.sheared();
    for i in 0..4 {
        for j in 0..4 {
            assert_eq!(h.get(i, j), g.get((i + 3) % 4, (j + 1) % 4));
        }
    }
    assert_eq!(h.get(1, 3), Cell::Horizontal);
    assert_eq!(h.get(3, 0), Cell::Vertical);
    assert_eq!(h.get(0, 3), Cell::Horizontal);
}

#[test]
fn rotate_flips_parity_sense() {
    let g = grid_with(4, &[(1, 1, Cell::Horizontal)]);
    let mut m = Model::from_grid(g, config(4), 0).unwrap();
    m.rotate();
    assert!(!m.parity_sense());
    assert_eq!(m.cell_tag(2, 0), Cell::Horizontal);
    m.rotate();
    assert!(m.parity_sense());
}

#[test]
fn seed_cell_thresholds_and_parity() {
    assert_eq!(seed_cell(0, 100, 1, 0, true), Cell::Horizontal);
    assert_eq!(seed_cell(0, 100, 2, 0, true), Cell::Empty);
    assert_eq!(seed_cell(0, 100, 2, 0, false), Cell::Horizontal);
    assert_eq!(seed_cell(150, 100, 0, 3, true), Cell::Vertical);
    assert_eq!(seed_cell(150, 100, 0, 2, true), Cell::Empty);
    assert_eq!(seed_cell(150, 100, 0, 2, false), Cell::Vertical);
    assert_eq!(seed_cell(200, 100, 1, 1, true), Cell::Empty);
}

#[test]
fn seeded_grid_follows_draws() {
    let draws = vec![vec![0, 150], vec![0, 150]];
    let g = Grid::seeded(2, 100, &draws);
    assert_eq!(g.get(0, 0), Cell::Empty);
    assert_eq!(g.get(0, 1), Cell::Vertical);
    assert_eq!(g.get(1, 0), Cell::Horizontal);
    assert_eq!(g.get(1, 1), Cell::Vertical);
}

#[test]
fn reseed_fills_only_empty_antidiagonal_cells() {
    let mut g = grid_with(6, &[(4, 1, Cell::Vertical)]);
    // Extent 3: cells (5, 2), (4, 1), (3, 0).
    g.reseed(3, 100, true, &vec![Some(0), Some(0), Some(150)]);
    assert_eq!(g.get(5, 2), Cell::Horizontal);
    assert_eq!(g.get(4, 1), Cell::Vertical);
    assert_eq!(g.get(3, 0), Cell::Empty);
    assert_eq!(cells_of(&g), vec![(4, 1, Cell::Vertical), (5, 2, Cell::Horizontal)]);
    let mut r = Grid::empty(6);
    r.reseed(3, 100, false, &vec![None, Some(0), Some(150)]);
    assert_eq!(cells_of(&r), vec![(3, 0, Cell::Vertical), (4, 1, Cell::Horizontal)]);
}

#[test]
fn randomize_keeps_cars_and_parity() {
    let mut m = Model::new_simulation(config(20), 5).unwrap();
    let before = cells_of(m.grid());
    for _ in 0..50 {
        m.randomize(20);
    }
    for (i, j, c) in before {
        assert_eq!(m.cell_tag(i, j), c);
    }
    for i in 0..20 {
        for j in 0..20 {
            match m.cell_tag(i, j) {
                Cell::Horizontal => assert_eq!(i % 2, 1),
                Cell::Vertical => assert_eq!(j % 2, 1),
                Cell::Empty => {}
            }
        }
    }
}

#[test]
fn randomize_eventually_adds_cars() {
    let g = Grid::empty(8);
    let mut c = config(8);
    c.density = DENSITY_SCALE / 2;
    let mut m = Model::from_grid(g, c, 11).unwrap();
    for _ in 0..200 {
        m.randomize(8);
    }
    assert!(count(m.grid(), Cell::Horizontal) + count(m.grid(), Cell::Vertical) > 0);
    // On a grid of side 8, extent 8 reaches the cells (7 - k, 7 - k) only.
    for i in 0..8 {
        for j in 0..8 {
            if i != j {
                assert_eq!(m.cell_tag(i, j), Cell::Empty);
            }
        }
    }
}

#[test]
fn step_counts_ticks_and_alternates() {
    let mut m = Model::new_simulation(config(8), 8).unwrap();
    let nh = count(m.grid(), Cell::Horizontal);
    let nv = count(m.grid(), Cell::Vertical);
    m.step();
    assert_eq!(m.tick_count(), 1);
    assert!(!m.is_horizontal_next());
    // Tick 0 shears, so the parity flips.
    assert!(!m.parity_sense());
    assert!(count(m.grid(), Cell::Horizontal) >= nh);
    assert!(count(m.grid(), Cell::Vertical) >= nv);
    for _ in 0..20 {
        m.step();
    }
    assert_eq!(m.tick_count(), 21);
    assert!(!m.is_horizontal_next());
}

#[test]
fn tide_values() {
    assert_eq!(tide_position(0, 300), 0);
    assert_eq!(tide_position(150, 300), 150);
    assert_eq!(tide_position(300, 300), 300);
    assert_eq!(tide_position(450, 300), 150);
    assert_eq!(tide_position(600, 300), 0);
    assert_eq!(reseed_threshold(0, 300), 90_000);
    assert_eq!(reseed_threshold(300, 300), 270_000);
    assert_eq!(reseed_range(300), 900_000);
    assert_eq!(reseed_extent(300, 300, 500), 500);
    assert_eq!(reseed_extent(150, 300, 500), 125);
    assert_eq!(reseed_extent(0, 300, 500), 0);
    assert_eq!(reseed_extent(1, 2, 3), 1);
}

#[test]
fn reseed_due_compares_with_threshold() {
    assert!(reseed_due(0, 300, 89_999));
    assert!(!reseed_due(0, 300, 90_000));
    assert!(reseed_due(300, 300, 269_999));
    assert!(!reseed_due(300, 300, 270_000));
}
