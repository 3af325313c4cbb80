use rocket_cfd::boundary::apply_boundary_conditions;
use rocket_cfd::field::Field;
use rocket_cfd::grid::Grid;
use rocket_cfd::state::ConservativeVars;

type Cell = ConservativeVars<f64>;

fn cell(rho: f64, rho_u: f64, rho_v: f64, e: f64) -> Cell {
    ConservativeVars { rho, rho_u, rho_v, e }
}

fn slope(i: usize) -> f64 {
    0.01 * i as f64
}

fn tangent(i: usize, c: Cell) -> Cell {
    c.with_radial_momentum(c.rho_u * slope(i))
}

fn setup() -> (Grid, Field<Cell>, Cell, Cell) {
    let g = Grid::new(30, 15, 10, 18).unwrap();
    let f = Field::from_fn(&g, |i, j| cell(1.0 + i as f64, 10.0 + j as f64, 0.25, 7.0));
    let inlet = cell(1.16, 174.0, 0.0, 5.0e6);
    let ambient = cell(0.2, 0.0, 0.0, 2.5e5);
    (g, f, inlet, ambient)
}

#[test]
fn boundary_conditions_follow_their_layout() {
    let (g, old, inlet, ambient) = setup();
    let mut f = Field::filled(&g, cell(0.0, 0.0, 0.0, 0.0));
    f.copy_from(&old);
    apply_boundary_conditions(&mut f, &g, inlet, ambient, 0.0, tangent);
    let mid = |i: usize, j: usize| -> Cell {
        if i == 0 {
            inlet
        } else if i == 29 {
            old.get(28, j)
        } else {
            old.get(i, j)
        }
    };
    for i in 0..30 {
        assert_eq!(f.get(i, 0), mid(i, 1).with_radial_momentum(0.0), "axis cell {}", i);
    }
    for j in 1..14 {
        for i in 0..30 {
            assert_eq!(f.get(i, j), mid(i, j), "cell ({}, {})", i, j);
        }
    }
    assert_eq!(f.get(0, 14), inlet);
    assert_eq!(f.get(29, 14), old.get(28, 14));
    for i in 1..=18 {
        assert_eq!(f.get(i, 14), tangent(i, old.get(i, 13)), "wall cell {}", i);
    }
    for i in 19..=28 {
        assert_eq!(f.get(i, 14), ambient, "plume cell {}", i);
    }
}

#[test]
fn wall_cells_are_tangent_to_the_contour() {
    let (g, mut f, inlet, ambient) = setup();
    apply_boundary_conditions(&mut f, &g, inlet, ambient, 0.0, tangent);
    for i in 1..=g.exit_cell_index {
        let c = f.get(i, g.ny - 1);
        let ratio = c.rho_v / c.rho_u;
        assert!((ratio - slope(i)).abs() < 1e-12, "column {}", i);
    }
}

#[test]
fn axis_has_no_radial_momentum() {
    let (g, mut f, inlet, ambient) = setup();
    apply_boundary_conditions(&mut f, &g, inlet, ambient, 0.0, tangent);
    for i in 0..g.nx {
        assert_eq!(f.get(i, 0).rho_v, 0.0);
        assert_eq!(f.get(i, 0).rho_u, f.get(i, 1).rho_u);
    }
}

#[test]
fn inlet_column_holds_the_stagnation_surrogate() {
    let (g, mut f, inlet, ambient) = setup();
    apply_boundary_conditions(&mut f, &g, inlet, ambient, 0.0, tangent);
    for j in 0..g.ny {
        assert_eq!(f.get(0, j), inlet);
    }
}

#[test]
fn plume_boundary_exists_beyond_the_exit() {
    let g = Grid::new(100, 40, 30, 70).unwrap();
    let mut f = Field::filled(&g, cell(3.0, 900.0, 0.0, 2.0e6));
    let p_chamber = 1.0e6;
    let ambient = cell(0.05 * p_chamber / (332.56 * 300.0), 0.0, 0.0, 0.05 * p_chamber / 0.2);
    apply_boundary_conditions(&mut f, &g, cell(1.16, 174.0, 0.0, 5.0e6), ambient, 0.0, tangent);
    let plume: Vec<usize> = (g.exit_cell_index + 1..g.nx - 1).collect();
    assert!(!plume.is_empty());
    for i in plume {
        assert_eq!(f.get(i, g.ny - 1), ambient);
    }
}
