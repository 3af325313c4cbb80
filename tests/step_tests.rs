use rocket_cfd::field::Field;
use rocket_cfd::grid::Grid;
use rocket_cfd::state::ConservativeVars;
use rocket_cfd::step::advance;

type Cell = ConservativeVars<f64>;

fn cell(rho: f64, rho_u: f64, rho_v: f64, e: f64) -> Cell {
    ConservativeVars { rho, rho_u, rho_v, e }
}

fn keep_wall(_i: usize, c: Cell) -> Cell {
    c.with_radial_momentum(-1.0)
}

/// Each interior cell becomes the mean density of its four neighbours in the snapshot.
fn neighbour_mean(u: &Field<Cell>, i: usize, j: usize) -> Cell {
    let sum = u.get(i - 1, j).rho + u.get(i + 1, j).rho + u.get(i, j - 1).rho + u.get(i, j + 1).rho;
    let c = u.get(i, j);
    cell(sum / 4.0, c.rho_u, c.rho_v, c.e)
}

fn start(g: &Grid) -> Field<Cell> {
    Field::from_fn(g, |i, j| cell((i * 100 + j) as f64, 1.0, 2.0, 3.0))
}

#[test]
fn step_reads_only_the_snapshot() {
    let g = Grid::new(30, 12, 8, 20).unwrap();
    let old = start(&g);
    let mut current = start(&g);
    let mut scratch = Field::filled(&g, cell(0.0, 0.0, 0.0, 0.0));
    let inlet = cell(9.0, 9.0, 0.0, 9.0);
    let ambient = cell(0.5, 0.0, 0.0, 0.5);
    advance(&mut current, &mut scratch, &g, &neighbour_mean, inlet, ambient, 0.0, keep_wall);
    assert_eq!(scratch.as_slice(), old.as_slice());
    for j in 1..=10 {
        for i in 1..=28 {
            assert_eq!(current.get(i, j), neighbour_mean(&old, i, j), "cell ({}, {})", i, j);
        }
    }
}

#[test]
fn step_ends_with_boundary_conditions() {
    let g = Grid::new(30, 12, 8, 20).unwrap();
    let mut current = start(&g);
    let mut scratch = start(&g);
    let inlet = cell(9.0, 9.0, 0.0, 9.0);
    let ambient = cell(0.5, 0.0, 0.0, 0.5);
    advance(&mut current, &mut scratch, &g, &neighbour_mean, inlet, ambient, 0.0, keep_wall);
    for j in 0..12 {
        assert_eq!(current.get(0, j), inlet);
    }
    for j in 1..=10 {
        assert_eq!(current.get(29, j), current.get(28, j));
    }
    for i in 0..30 {
        assert_eq!(current.get(i, 0).rho_v, 0.0);
    }
    for i in 1..=20 {
        assert_eq!(current.get(i, 11).rho_v, -1.0);
    }
    for i in 21..=28 {
        assert_eq!(current.get(i, 11), ambient);
    }
}

#[test]
fn repeated_steps_keep_the_inlet_state() {
    let g = Grid::new(40, 10, 8, 25).unwrap();
    let mut current = start(&g);
    let mut scratch = start(&g);
    let inlet = cell(1.16, 174.0, 0.0, 5.0e6);
    let ambient = cell(0.5, 0.0, 0.0, 0.5);
    for _ in 0..5 {
        advance(&mut current, &mut scratch, &g, &neighbour_mean, inlet, ambient, 0.0, keep_wall);
    }
    for j in 0..10 {
        assert_eq!(current.get(0, j), inlet);
    }
}
