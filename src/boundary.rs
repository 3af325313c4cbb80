//! Boundary conditions on the edges of the grid.
use vstd::prelude::*;

use crate::field::Field;
use crate::grid::Grid;
use crate::state::{spec_with_radial_momentum, ConservativeVars};

verus! {

/// Cell `(i, j)` once the inlet column holds `inlet` and the outlet column
/// repeats the column before it.
pub open spec fn spec_after_inflow_outflow<S>(
    f: Field<ConservativeVars<S>>,
    inlet: ConservativeVars<S>,
    i: int,
    j: int,
) -> ConservativeVars<S> {
    if i == 0 {
        inlet
    } else if i == f.spec_nx() - 1 {
        f.cell(f.spec_nx() - 2, j)
    } else {
        f.cell(i, j)
    }
}

/// `after` is `before` with the boundary conditions of
/// `apply_boundary_conditions` applied.
pub open spec fn spec_boundary_applied<S, W: Fn(usize, ConservativeVars<S>) -> ConservativeVars<S>>(
    before: Field<ConservativeVars<S>>,
    after: Field<ConservativeVars<S>>,
    grid: Grid,
    inlet: ConservativeVars<S>,
    ambient: ConservativeVars<S>,
    zero: S,
    wall: W,
) -> bool {
    &&& forall|i: int|
        0 <= i < grid.nx ==> #[trigger] after.cell(i, 0) == spec_with_radial_momentum(
            spec_after_inflow_outflow(before, inlet, i, 1),
            zero,
        )
    &&& forall|i: int, j: int|
        0 <= i < grid.nx && 1 <= j <= grid.ny - 2 ==> #[trigger] after.cell(i, j) == spec_after_inflow_outflow(
            before,
            inlet,
            i,
            j,
        )
    &&& after.cell(0, grid.ny - 1) == inlet
    &&& after.cell(grid.nx - 1, grid.ny - 1) == before.cell(grid.nx - 2, grid.ny - 1)
    &&& forall|i: int|
        1 <= i <= grid.nx - 2 && i <= grid.exit_cell_index ==> wall.ensures(
            (i as usize, before.cell(i, grid.ny - 2)),
            #[trigger] after.cell(i, grid.ny - 1),
        )
    &&& forall|i: int|
        1 <= i <= grid.nx - 2 && i > grid.exit_cell_index ==> #[trigger] after.cell(i, grid.ny - 1) == ambient
}

/// Applies the boundary conditions, in this order:
///
/// - inlet (`i = 0`): every cell takes the stagnation surrogate `inlet`;
/// - outlet (`i = nx - 1`): every cell copies its neighbour at `i = nx - 2`;
/// - axis (`j = 0`): every cell copies its neighbour at `j = 1`, with its
///   radial momentum set to `zero`;
/// - outer edge (`j = ny - 1`, `1 <= i <= nx - 2`): along the nozzle wall
///   (`i <= exit_cell_index`) the cell becomes `wall(i, c)`, `c` being the
///   cell below it, which imposes slip tangency; beyond the exit it takes the
///   ambient state.
///
/// All other cells keep their values.
pub fn apply_boundary_conditions<S: Copy, W: Fn(usize, ConservativeVars<S>) -> ConservativeVars<S>>(
    field: &mut Field<ConservativeVars<S>>,
    grid: &Grid,
    inlet: ConservativeVars<S>,
    ambient: ConservativeVars<S>,
    zero: S,
    wall: W,
)
    requires
        grid.wf(),
        old(field).wf(),
        old(field).fits(*grid),
        forall|i: usize, c: ConservativeVars<S>|
            1 <= i <= grid.nx - 2 && i <= grid.exit_cell_index ==> wall.requires((i, c)),
    ensures
        final(field).wf(),
        final(field).fits(*grid),
        spec_boundary_applied(*old(field), *final(field), *grid, inlet, ambient, zero, wall),
        // the axis carries no radial momentum
        forall|i: int| 0 <= i < grid.nx ==> (#[trigger] final(field).cell(i, 0)).rho_v == zero,
        // an inlet state without radial momentum fills the whole inlet column
        inlet.rho_v == zero ==> forall|j: int| 0 <= j < grid.ny ==> #[trigger] final(field).cell(0, j) == inlet,
{
    let nx = grid.nx;
    let ny = grid.ny;
    let ghost f0 = *field;

    let mut j: usize = 0;
    while j < ny
        invariant
            grid.wf(),
            nx == grid.nx,
            ny == grid.ny,
            field.wf(),
            field.fits(*grid),
            j <= ny,
            forall|a: int, b: int|
                field.in_range(a, b) ==> #[trigger] field.cell(a, b) == (if a == 0 && b < j { inlet } else { f0.cell(a, b) }),
        decreases ny - j,
    {
        field.set(0, j, inlet);
        j = j + 1;
    }
    let ghost f1 = *field;

    let mut j: usize = 0;
    while j < ny
        invariant
            grid.wf(),
            nx == grid.nx,
            ny == grid.ny,
            field.wf(),
            field.fits(*grid),
            f1.wf(),
            f1.fits(*grid),
            j <= ny,
            forall|a: int, b: int|
                field.in_range(a, b) ==> #[trigger] field.cell(a, b) == (if a == nx - 1 && b < j {
                    f1.cell(nx - 2, b)
                } else {
                    f1.cell(a, b)
                }),
        decreases ny - j,
    {
        let c = field.get(nx - 2, j);
        field.set(nx - 1, j, c);
        j = j + 1;
    }
    let ghost f2 = *field;
    assert forall|a: int, b: int| f2.in_range(a, b) implies #[trigger] f2.cell(a, b) == spec_after_inflow_outflow(f0, inlet, a, b) by {}

    let mut i: usize = 0;
    while i < nx
        invariant
            grid.wf(),
            nx == grid.nx,
            ny == grid.ny,
            field.wf(),
            field.fits(*grid),
            f2.wf(),
            f2.fits(*grid),
            i <= nx,
            forall|a: int, b: int|
                field.in_range(a, b) ==> #[trigger] field.cell(a, b) == (if b == 0 && a < i {
                    spec_with_radial_momentum(f2.cell(a, 1), zero)
                } else {
                    f2.cell(a, b)
                }),
        decreases nx - i,
    {
        let c = field.get(i, 1);
        field.set(i, 0, c.with_radial_momentum(zero));
        i = i + 1;
    }
    let ghost f3 = *field;

    let exit = grid.exit_cell_index;
    let mut i: usize = 1;
    while i < nx - 1
        invariant
            grid.wf(),
            nx == grid.nx,
            ny == grid.ny,
            exit == grid.exit_cell_index,
            field.wf(),
            field.fits(*grid),
            f3.wf(),
            f3.fits(*grid),
            1 <= i <= nx - 1,
            forall|i: usize, c: ConservativeVars<S>|
                1 <= i <= grid.nx - 2 && i <= grid.exit_cell_index ==> wall.requires((i, c)),
            forall|a: int, b: int|
                field.in_range(a, b) && !(b == ny - 1 && 1 <= a < i) ==> #[trigger] field.cell(a, b) == f3.cell(a, b),
            forall|a: int|
                1 <= a < i && a <= exit ==> wall.ensures((a as usize, f3.cell(a, ny - 2)), #[trigger] field.cell(a, ny - 1)),
            forall|a: int| 1 <= a < i && a > exit ==> #[trigger] field.cell(a, ny - 1) == ambient,
        decreases nx - 1 - i,
    {
        if i <= exit {
            let c = field.get(i, ny - 2);
            let w = wall(i, c);
            field.set(i, ny - 1, w);
        } else {
            field.set(i, ny - 1, ambient);
        }
        i = i + 1;
    }
}

} // verus!
