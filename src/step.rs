//! One explicit time step on a double-buffered field.
use vstd::prelude::*;

use crate::boundary::{apply_boundary_conditions, spec_boundary_applied};
use crate::field::Field;
use crate::grid::{spec_is_interior, Grid};
use crate::state::ConservativeVars;

verus! {

/// `after` is `before` with each interior cell `(i, j)` replaced by a result of
/// `f(&before, i, j)` and every boundary cell kept.
pub open spec fn spec_interior_updated<C, I: Fn(&Field<C>, usize, usize) -> C>(
    before: Field<C>,
    after: Field<C>,
    f: I,
) -> bool {
    &&& after.wf()
    &&& after.same_shape(&before)
    &&& forall|i: int, j: int|
        after.in_range(i, j) && spec_is_interior(after.spec_nx() as int, after.spec_ny() as int, i, j)
            ==> f.ensures((&before, i as usize, j as usize), #[trigger] after.cell(i, j))
    &&& forall|i: int, j: int|
        after.in_range(i, j) && !spec_is_interior(after.spec_nx() as int, after.spec_ny() as int, i, j)
            ==> #[trigger] after.cell(i, j) == before.cell(i, j)
}

/// Advances `current` by one step.
///
/// `scratch` first becomes a snapshot of `current`; every interior cell of
/// `current` is then recomputed as `interior(&snapshot, i, j)`, so that all of
/// them read the previous step only; last, the boundary conditions are
/// applied. Neither buffer is reallocated.
pub fn advance<S, I, W>(
    current: &mut Field<ConservativeVars<S>>,
    scratch: &mut Field<ConservativeVars<S>>,
    grid: &Grid,
    interior: &I,
    inlet: ConservativeVars<S>,
    ambient: ConservativeVars<S>,
    zero: S,
    wall: W,
)
    where
        S: Copy,
        I: Fn(&Field<ConservativeVars<S>>, usize, usize) -> ConservativeVars<S>,
        W: Fn(usize, ConservativeVars<S>) -> ConservativeVars<S>,
    requires
        grid.wf(),
        old(current).wf(),
        old(current).fits(*grid),
        old(scratch).wf(),
        old(scratch).fits(*grid),
        forall|u: Field<ConservativeVars<S>>, i: usize, j: usize|
            u.wf() && u.fits(*grid) && spec_is_interior(grid.nx as int, grid.ny as int, i as int, j as int)
                ==> interior.requires((&u, i, j)),
        forall|i: usize, c: ConservativeVars<S>|
            1 <= i <= grid.nx - 2 && i <= grid.exit_cell_index ==> wall.requires((i, c)),
    ensures
        final(scratch).wf(),
        final(scratch).fits(*grid),
        final(scratch)@ == old(current)@,
        final(current).wf(),
        final(current).fits(*grid),
        exists|mid: Field<ConservativeVars<S>>|
            spec_interior_updated(*final(scratch), mid, *interior) && spec_boundary_applied(
                mid,
                *final(current),
                *grid,
                inlet,
                ambient,
                zero,
                wall,
            ),
        // the axis carries no radial momentum
        forall|i: int| 0 <= i < grid.nx ==> (#[trigger] final(current).cell(i, 0)).rho_v == zero,
        // an inlet state without radial momentum fills the whole inlet column
        inlet.rho_v == zero ==> forall|j: int| 0 <= j < grid.ny ==> #[trigger] final(current).cell(0, j) == inlet,
{
    scratch.copy_from(current);
    let snapshot: &Field<ConservativeVars<S>> = scratch;
    let update = |i: usize, j: usize| -> (r: ConservativeVars<S>)
        requires
            interior.requires((snapshot, i, j)),
        ensures
            interior.ensures((snapshot, i, j), r),
    {
        interior(snapshot, i, j)
    };
    current.update_interior(update);
    let ghost mid = *current;
    assert(spec_interior_updated(*snapshot, mid, *interior));
    apply_boundary_conditions(current, grid, inlet, ambient, zero, wall);
}

} // verus!
