//! Grid dimensions and the cell indices that the solver derives from them.
use vstd::prelude::*;

verus! {

/// Fewest cells accepted along the axis.
pub const MIN_NX: usize = 30;

/// Fewest cells accepted across the radius.
pub const MIN_NY: usize = 10;

/// Why a grid could not be built.
#[derive(Debug, Clone, Copy, PartialEq, Eq, Structural)]
pub enum GridError {
    /// Fewer than `MIN_NX` axial cells were asked for.
    TooFewAxialCells,
    /// Fewer than `MIN_NY` radial cells were asked for.
    TooFewRadialCells,
    /// `nx * ny` does not fit in a `usize`.
    TooManyCells,
}

/// The discrete shape of the computational domain.
///
/// Cell `(i, j)` has axial index `i < nx` and radial index `j < ny`; row
/// `j = 0` lies on the axis and row `ny - 1` on the wall or plume boundary.
/// The throat and exit columns split the domain into its subsonic, supersonic
/// and plume parts.
#[derive(Debug, Clone, Copy, PartialEq, Eq, Structural)]
pub struct Grid {
    pub nx: usize,
    pub ny: usize,
    /// Column of the narrowest wall radius.
    pub throat_cell_index: usize,
    /// Last column whose outer boundary is the nozzle wall.
    pub exit_cell_index: usize,
}

/// Position of cell `(i, j)` in row-by-row order.
pub open spec fn spec_flat_index(nx: int, i: int, j: int) -> int {
    j * nx + i
}

/// Cell `(i, j)` is updated by the interior scheme (not by a boundary condition).
pub open spec fn spec_is_interior(nx: int, ny: int, i: int, j: int) -> bool {
    1 <= i <= nx - 2 && 1 <= j <= ny - 2
}

/// Row-by-row positions of a grid are in range and determine the cell.
pub proof fn lemma_flat_index_bounds(nx: int, ny: int, i: int, j: int)
    requires
        0 <= i < nx,
        0 <= j < ny,
    ensures
        0 <= spec_flat_index(nx, i, j) < nx * ny,
        spec_flat_index(nx, i, j) / nx == j,
        spec_flat_index(nx, i, j) % nx == i,
{
    assert(0 <= j * nx + i < nx * ny) by (nonlinear_arith)
        requires
            0 <= i < nx,
            0 <= j < ny,
    ;
    assert((j * nx + i) / nx == j && (j * nx + i) % nx == i) by (nonlinear_arith)
        requires
            0 <= i < nx,
            0 <= j,
    ;
}

/// Row-by-row order visits `(i + 1, j)` after `(i, j)`, or `(0, j + 1)` at the
/// end of a row; a position below `nx * ny` lies in one of the `ny` rows.
pub proof fn lemma_flat_index_next(nx: int, ny: int, i: int, j: int)
    requires
        0 <= i < nx,
        0 <= j,
    ensures
        i + 1 < nx ==> spec_flat_index(nx, i, j) + 1 == spec_flat_index(nx, i + 1, j),
        i + 1 == nx ==> spec_flat_index(nx, i, j) + 1 == spec_flat_index(nx, 0, j + 1),
        spec_flat_index(nx, i, j) < nx * ny ==> j < ny,
        j + 1 == ny ==> spec_flat_index(nx, 0, j + 1) == nx * ny,
{
    assert((j + 1) * nx == j * nx + nx) by (nonlinear_arith);
    assert(spec_flat_index(nx, i, j) < nx * ny ==> j < ny) by (nonlinear_arith)
        requires
            0 <= i < nx,
            0 <= j,
    ;
    assert(j + 1 == ny ==> (j + 1) * nx == nx * ny) by (nonlinear_arith);
}

impl Grid {
    /// Dimensions are at or above their floors and the cell count fits in memory
    /// indices; both special columns lie in the grid.
    pub open spec fn wf(&self) -> bool {
        &&& self.nx >= MIN_NX
        &&& self.ny >= MIN_NY
        &&& self.nx * self.ny <= usize::MAX
        &&& self.throat_cell_index < self.nx
        &&& self.exit_cell_index < self.nx
    }

    /// Number of cells.
    pub open spec fn spec_cell_count(&self) -> nat {
        (self.nx * self.ny) as nat
    }

    /// Builds a grid of `nx` by `ny` cells.
    ///
    /// `throat_column` is the column of the smallest wall radius and
    /// `exit_column` the rounded position of the nozzle exit in cells; each is
    /// clamped to the last column.
    pub fn new(nx: usize, ny: usize, throat_column: usize, exit_column: usize) -> (r: Result<Grid, GridError>)
        ensures
            nx < MIN_NX ==> r == Err::<Grid, GridError>(GridError::TooFewAxialCells),
            nx >= MIN_NX && ny < MIN_NY ==> r == Err::<Grid, GridError>(GridError::TooFewRadialCells),
            nx >= MIN_NX && ny >= MIN_NY && nx * ny > usize::MAX ==> r == Err::<Grid, GridError>(GridError::TooManyCells),
            nx >= MIN_NX && ny >= MIN_NY && nx * ny <= usize::MAX ==> (r matches Ok(g)
                && g.wf() && g.nx == nx && g.ny == ny
                && g.throat_cell_index == (if throat_column < nx { throat_column } else { (nx - 1) as usize })
                && g.exit_cell_index == (if exit_column < nx { exit_column } else { (nx - 1) as usize })),
    {
        if nx < MIN_NX {
            return Err(GridError::TooFewAxialCells);
        }
        if ny < MIN_NY {
            return Err(GridError::TooFewRadialCells);
        }
        match nx.checked_mul(ny) {
            None => Err(GridError::TooManyCells),
            Some(_) => {
                let last = nx - 1;
                let throat_cell_index = if throat_column < nx { throat_column } else { last };
                let exit_cell_index = if exit_column < nx { exit_column } else { last };
                Ok(Grid { nx, ny, throat_cell_index, exit_cell_index })
            },
        }
    }

    /// Number of cells, `nx * ny`.
    pub fn cell_count(&self) -> (r: usize)
        requires
            self.wf(),
        ensures
            r == self.spec_cell_count(),
    {
        self.nx * self.ny
    }

    /// Position of cell `(i, j)` in row-by-row order: `j * nx + i`.
    pub fn flat_index(&self, i: usize, j: usize) -> (r: usize)
        requires
            self.wf(),
            i < self.nx,
            j < self.ny,
        ensures
            r == spec_flat_index(self.nx as int, i as int, j as int),
            r < self.spec_cell_count(),
    {
        proof {
            lemma_flat_index_bounds(self.nx as int, self.ny as int, i as int, j as int);
        }
        j * self.nx + i
    }

    /// Whether cell `(i, j)` is updated by the interior scheme.
    pub fn is_interior(&self, i: usize, j: usize) -> (r: bool)
        requires
            self.wf(),
        ensures
            r == spec_is_interior(self.nx as int, self.ny as int, i as int, j as int),
    {
        1 <= i && i <= self.nx - 2 && 1 <= j && j <= self.ny - 2
    }

    /// Whether column `i` takes the supersonic branch of the area–Mach relation,
    /// that is, lies downstream of the throat.
    pub fn is_supersonic_column(&self, i: usize) -> (r: bool)
        ensures
            r == (i > self.throat_cell_index),
    {
        i > self.throat_cell_index
    }

    /// Whether the outer boundary of column `i` is the nozzle wall rather than
    /// the plume's far field.
    pub fn is_nozzle_wall_column(&self, i: usize) -> (r: bool)
        ensures
            r == (i <= self.exit_cell_index),
    {
        i <= self.exit_cell_index
    }
}

} // verus!
