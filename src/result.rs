//! Packing a solved field into flat per-quantity arrays.
use vstd::prelude::*;

use crate::field::Field;
use crate::grid::{lemma_flat_index_bounds, spec_flat_index};
use crate::march::SolveOutcome;

verus! {

/// What is reported of one cell: its centre `(x, r)` and its primitive
/// variables.
#[derive(Debug, Clone, Copy, PartialEq)]
pub struct CellSample<S> {
    pub x: S,
    pub r: S,
    pub density: S,
    pub velocity_x: S,
    pub velocity_r: S,
    pub pressure: S,
    pub temperature: S,
    pub mach: S,
}

/// A solved flow field. Each per-cell array holds `nx * ny` values in
/// row-by-row order: cell `(i, j)` at position `j * nx + i`.
pub struct CFDResult<S> {
    pub x: Vec<S>,
    pub r: Vec<S>,
    pub pressure: Vec<S>,
    pub temperature: Vec<S>,
    pub mach: Vec<S>,
    pub velocity_x: Vec<S>,
    pub velocity_r: Vec<S>,
    pub density: Vec<S>,
    pub nx: usize,
    pub ny: usize,
    /// Residual of each step taken.
    pub residual_history: Vec<S>,
    pub converged: bool,
    pub iterations: usize,
}

impl<S> CFDResult<S> {
    /// Every per-cell array has one value per cell, and one residual is
    /// recorded per iteration.
    pub open spec fn wf(&self) -> bool {
        let n = self.nx * self.ny;
        &&& self.x@.len() == n
        &&& self.r@.len() == n
        &&& self.pressure@.len() == n
        &&& self.temperature@.len() == n
        &&& self.mach@.len() == n
        &&& self.velocity_x@.len() == n
        &&& self.velocity_r@.len() == n
        &&& self.density@.len() == n
        &&& self.iterations == self.residual_history@.len()
    }

    /// The arrays hold, at position `j * nx + i`, the sample of cell `(i, j)`.
    pub open spec fn holds_samples(&self, samples: Field<CellSample<S>>) -> bool {
        forall|i: int, j: int|
            samples.in_range(i, j) ==> {
                let k = spec_flat_index(self.nx as int, i, j);
                let c = #[trigger] samples.cell(i, j);
                &&& self.x@[k] == c.x
                &&& self.r@[k] == c.r
                &&& self.pressure@[k] == c.pressure
                &&& self.temperature@[k] == c.temperature
                &&& self.mach@[k] == c.mach
                &&& self.velocity_x@[k] == c.velocity_x
                &&& self.velocity_r@[k] == c.velocity_r
                &&& self.density@[k] == c.density
            }
    }
}

/// Flattens a field of cell samples, row by row, into a result that carries
/// the outcome of the solve.
pub fn pack_result<S: Copy>(samples: &Field<CellSample<S>>, outcome: SolveOutcome<S>) -> (r: CFDResult<S>)
    requires
        samples.wf(),
        outcome.wf(),
    ensures
        r.wf(),
        r.nx == samples.spec_nx(),
        r.ny == samples.spec_ny(),
        r.x@.len() == samples.spec_nx() * samples.spec_ny(),
        r.holds_samples(*samples),
        r.residual_history@ == outcome.residual_history@,
        r.converged == outcome.converged,
        r.iterations == outcome.iterations,
{
    let cells = samples.as_slice();
    let n = cells.len();
    let mut x: Vec<S> = Vec::with_capacity(n);
    let mut r: Vec<S> = Vec::with_capacity(n);
    let mut pressure: Vec<S> = Vec::with_capacity(n);
    let mut temperature: Vec<S> = Vec::with_capacity(n);
    let mut mach: Vec<S> = Vec::with_capacity(n);
    let mut velocity_x: Vec<S> = Vec::with_capacity(n);
    let mut velocity_r: Vec<S> = Vec::with_capacity(n);
    let mut density: Vec<S> = Vec::with_capacity(n);
    let mut k: usize = 0;
    while k < n
        invariant
            n == cells@.len(),
            cells@ == samples@,
            k <= n,
            x@.len() == k,
            r@.len() == k,
            pressure@.len() == k,
            temperature@.len() == k,
            mach@.len() == k,
            velocity_x@.len() == k,
            velocity_r@.len() == k,
            density@.len() == k,
            forall|m: int|
                0 <= m < k ==> {
                    let c = #[trigger] cells@[m];
                    &&& x@[m] == c.x
                    &&& r@[m] == c.r
                    &&& pressure@[m] == c.pressure
                    &&& temperature@[m] == c.temperature
                    &&& mach@[m] == c.mach
                    &&& velocity_x@[m] == c.velocity_x
                    &&& velocity_r@[m] == c.velocity_r
                    &&& density@[m] == c.density
                },
        decreases n - k,
    {
        let c = cells[k];
        x.push(c.x);
        r.push(c.r);
        pressure.push(c.pressure);
        temperature.push(c.temperature);
        mach.push(c.mach);
        velocity_x.push(c.velocity_x);
        velocity_r.push(c.velocity_r);
        density.push(c.density);
        k = k + 1;
    }
    let nx = samples.nx();
    let ny = samples.ny();
    let out = CFDResult {
        x,
        r,
        pressure,
        temperature,
        mach,
        velocity_x,
        velocity_r,
        density,
        nx,
        ny,
        residual_history: outcome.residual_history,
        converged: outcome.converged,
        iterations: outcome.iterations,
    };
    assert forall|i: int, j: int| samples.in_range(i, j) implies {
        let k = spec_flat_index(out.nx as int, i, j);
        let c = #[trigger] samples.cell(i, j);
        &&& out.x@[k] == c.x
        &&& out.r@[k] == c.r
        &&& out.pressure@[k] == c.pressure
        &&& out.temperature@[k] == c.temperature
        &&& out.mach@[k] == c.mach
        &&& out.velocity_x@[k] == c.velocity_x
        &&& out.velocity_r@[k] == c.velocity_r
        &&& out.density@[k] == c.density
    } by {
        lemma_flat_index_bounds(nx as int, ny as int, i, j);
        assert(cells@[spec_flat_index(nx as int, i, j)] == samples.cell(i, j));
    }
    out
}

} // verus!
