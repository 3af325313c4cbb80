use rocket_cfd::field::Field;
use rocket_cfd::grid::Grid;
use rocket_cfd::march::{MarchDriver, SolveOutcome};
use rocket_cfd::result::{pack_result, CellSample};

fn sample(i: usize, j: usize) -> CellSample<f64> {
    let base = (j * 30 + i) as f64;
    CellSample {
        x: base,
        r: base + 0.1,
        density: base + 0.2,
        velocity_x: base + 0.3,
        velocity_r: base + 0.4,
        pressure: base + 0.5,
        temperature: base + 0.6,
        mach: base + 0.7,
    }
}

#[test]
fn packed_arrays_have_one_value_per_cell() {
    let g = Grid::new(30, 15, 10, 18).unwrap();
    let samples = Field::from_fn(&g, sample);
    let res = pack_result(&samples, SolveOutcome::instant(0.0));
    assert_eq!(res.nx, 30);
    assert_eq!(res.ny, 15);
    for v in [&res.x, &res.r, &res.pressure, &res.temperature, &res.mach, &res.velocity_x, &res.velocity_r, &res.density] {
        assert_eq!(v.len(), 450);
    }
    assert_eq!(res.residual_history, vec![0.0]);
    assert!(res.converged);
    assert_eq!(res.iterations, 1);
}

#[test]
fn packed_arrays_are_row_by_row() {
    let g = Grid::new(30, 15, 10, 18).unwrap();
    let samples = Field::from_fn(&g, sample);
    let res = pack_result(&samples, SolveOutcome::instant(0.0));
    for j in 0..15 {
        for i in 0..30 {
            let k = g.flat_index(i, j);
            let s = sample(i, j);
            assert_eq!(res.x[k], s.x);
            assert_eq!(res.r[k], s.r);
            assert_eq!(res.density[k], s.density);
            assert_eq!(res.velocity_x[k], s.velocity_x);
            assert_eq!(res.velocity_r[k], s.velocity_r);
            assert_eq!(res.pressure[k], s.pressure);
            assert_eq!(res.temperature[k], s.temperature);
            assert_eq!(res.mach[k], s.mach);
        }
    }
}

#[test]
fn packed_result_carries_the_march_outcome() {
    let g = Grid::new(60, 20, 10, 18).unwrap();
    let samples = Field::from_fn(&g, sample);
    let mut d: MarchDriver<f64> = MarchDriver::new(3);
    while !d.is_finished() {
        d.record(0.75, false);
    }
    let res = pack_result(&samples, d.into_outcome());
    assert_eq!(res.x.len(), 1200);
    assert_eq!(res.residual_history, vec![0.75, 0.75, 0.75]);
    assert!(!res.converged);
    assert_eq!(res.iterations, 3);
}
