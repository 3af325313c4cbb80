//! A cell field over the grid, stored row by row.
use vstd::prelude::*;

use crate::grid::{lemma_flat_index_bounds, lemma_flat_index_next, spec_flat_index, spec_is_interior, Grid};

verus! {

/// One value per grid cell, `ny` rows of `nx` cells, row `j` occupying
/// positions `j * nx .. (j + 1) * nx` of the storage.
pub struct Field<C> {
    nx: usize,
    ny: usize,
    cells: Vec<C>,
}

impl<C> View for Field<C> {
    type V = Seq<C>;

    /// The cells in row-by-row order.
    closed spec fn view(&self) -> Seq<C> {
        self.cells@
    }
}

impl<C> Field<C> {
    /// Number of columns.
    pub closed spec fn spec_nx(&self) -> usize {
        self.nx
    }

    /// Number of rows.
    pub closed spec fn spec_ny(&self) -> usize {
        self.ny
    }

    /// Storage holds exactly one cell per grid position.
    pub open spec fn wf(&self) -> bool {
        &&& self.spec_nx() >= 1
        &&& self.spec_ny() >= 1
        &&& self.spec_nx() * self.spec_ny() <= usize::MAX
        &&& self@.len() == self.spec_nx() * self.spec_ny()
    }

    /// The field has the grid's dimensions.
    pub open spec fn fits(&self, grid: Grid) -> bool {
        self.spec_nx() == grid.nx && self.spec_ny() == grid.ny
    }

    /// `(i, j)` names a cell of the field.
    pub open spec fn in_range(&self, i: int, j: int) -> bool {
        0 <= i < self.spec_nx() && 0 <= j < self.spec_ny()
    }

    /// Cell `(i, j)`.
    pub open spec fn cell(&self, i: int, j: int) -> C {
        self@[spec_flat_index(self.spec_nx() as int, i, j)]
    }

    /// Both fields have the same dimensions.
    pub open spec fn same_shape<D>(&self, other: &Field<D>) -> bool {
        self.spec_nx() == other.spec_nx() && self.spec_ny() == other.spec_ny()
    }

    /// Number of columns.
    pub fn nx(&self) -> (r: usize)
        ensures
            r == self.spec_nx(),
    {
        self.nx
    }

    /// Number of rows.
    pub fn ny(&self) -> (r: usize)
        ensures
            r == self.spec_ny(),
    {
        self.ny
    }

    /// The cells in row-by-row order.
    pub fn as_slice(&self) -> (r: &[C])
        ensures
            r@ == self@,
    {
        self.cells.as_slice()
    }

    /// A field over `grid` whose cell `(i, j)` is `f(i, j)`; cells are produced
    /// row by row.
    pub fn from_fn<F: Fn(usize, usize) -> C>(grid: &Grid, f: F) -> (r: Field<C>)
        requires
            grid.wf(),
            forall|i: usize, j: usize| i < grid.nx && j < grid.ny ==> f.requires((i, j)),
        ensures
            r.wf(),
            r.fits(*grid),
            forall|i: int, j: int|
                0 <= i < grid.nx && 0 <= j < grid.ny ==> f.ensures((i as usize, j as usize), #[trigger] r.cell(i, j)),
    {
        let nx = grid.nx;
        let ny = grid.ny;
        let total = grid.cell_count();
        let mut cells: Vec<C> = Vec::with_capacity(total);
        let mut i: usize = 0;
        let mut j: usize = 0;
        while cells.len() < total
            invariant
                nx == grid.nx,
                ny == grid.ny,
                grid.wf(),
                total == nx * ny,
                forall|i: usize, j: usize| i < grid.nx && j < grid.ny ==> f.requires((i, j)),
                i < nx,
                cells.len() == spec_flat_index(nx as int, i as int, j as int),
                cells.len() <= total,
                cells.len() < total ==> j < ny,
                forall|k: int|
                    0 <= k < cells.len() ==> f.ensures(((k % nx as int) as usize, (k / nx as int) as usize), #[trigger] cells@[k]),
            decreases total - cells.len(),
        {
            proof {
                lemma_flat_index_bounds(nx as int, ny as int, i as int, j as int);
            }
            let c = f(i, j);
            cells.push(c);
            proof {
                lemma_flat_index_next(nx as int, ny as int, i as int, j as int);
            }
            if i + 1 < nx {
                i = i + 1;
            } else {
                i = 0;
                j = j + 1;
            }
        }
        let r = Field { nx, ny, cells };
        assert forall|i: int, j: int| 0 <= i < grid.nx && 0 <= j < grid.ny implies f.ensures(
            (i as usize, j as usize),
            #[trigger] r.cell(i, j),
        ) by {
            lemma_flat_index_bounds(nx as int, ny as int, i, j);
        }
        r
    }

    /// A field over `grid` with every cell equal to `c`.
    pub fn filled(grid: &Grid, c: C) -> (r: Field<C>)
        where
            C: Copy,
        requires
            grid.wf(),
        ensures
            r.wf(),
            r.fits(*grid),
            forall|i: int, j: int| 0 <= i < grid.nx && 0 <= j < grid.ny ==> #[trigger] r.cell(i, j) == c,
    {
        let total = grid.cell_count();
        let mut cells: Vec<C> = Vec::with_capacity(total);
        while cells.len() < total
            invariant
                cells.len() <= total,
                forall|k: int| 0 <= k < cells.len() ==> #[trigger] cells@[k] == c,
            decreases total - cells.len(),
        {
            cells.push(c);
        }
        let r = Field { nx: grid.nx, ny: grid.ny, cells };
        assert forall|i: int, j: int| 0 <= i < grid.nx && 0 <= j < grid.ny implies #[trigger] r.cell(i, j) == c by {
            lemma_flat_index_bounds(grid.nx as int, grid.ny as int, i, j);
        }
        r
    }

    /// Cell `(i, j)`.
    pub fn get(&self, i: usize, j: usize) -> (r: C)
        where
            C: Copy,
        requires
            self.wf(),
            self.in_range(i as int, j as int),
        ensures
            r == self.cell(i as int, j as int),
    {
        proof {
            lemma_flat_index_bounds(self.nx as int, self.ny as int, i as int, j as int);
        }
        self.cells[j * self.nx + i]
    }

    /// Replaces cell `(i, j)` by `c`, leaving every other cell as it was.
    pub fn set(&mut self, i: usize, j: usize, c: C)
        requires
            old(self).wf(),
            old(self).in_range(i as int, j as int),
        ensures
            final(self).wf(),
            final(self).same_shape(old(self)),
            final(self).cell(i as int, j as int) == c,
            forall|a: int, b: int|
                final(self).in_range(a, b) && (a != i || b != j) ==> #[trigger] final(self).cell(a, b) == old(self).cell(a, b),
    {
        proof {
            lemma_flat_index_bounds(self.nx as int, self.ny as int, i as int, j as int);
        }
        let k = j * self.nx + i;
        self.cells[k] = c;
        proof {
            assert forall|a: int, b: int|
                self.in_range(a, b) && (a != i || b != j) implies #[trigger] self.cell(a, b) == old(self).cell(a, b) by {
                lemma_flat_index_bounds(self.nx as int, self.ny as int, a, b);
            }
        }
    }

    /// Makes this field a copy of `source`, cell by cell, without allocating.
    pub fn copy_from(&mut self, source: &Field<C>)
        where
            C: Copy,
        requires
            old(self).wf(),
            source.wf(),
            old(self).same_shape(source),
        ensures
            final(self).wf(),
            final(self).same_shape(source),
            final(self)@ == source@,
    {
        let total = self.cells.len();
        let mut k: usize = 0;
        while k < total
            invariant
                self.wf(),
                self.same_shape(source),
                source.wf(),
                total == self@.len(),
                k <= total,
                forall|m: int| 0 <= m < k ==> #[trigger] self@[m] == source@[m],
            decreases total - k,
        {
            self.cells[k] = source.cells[k];
            k = k + 1;
        }
        assert(self@ =~= source@);
    }

    /// Overwrites every interior cell `(i, j)` (`1 <= i <= nx - 2`,
    /// `1 <= j <= ny - 2`) by `f(i, j)`; boundary cells keep their values.
    ///
    /// With `f` reading a snapshot of the previous step, this is one explicit
    /// update of the interior.
    pub fn update_interior<F: Fn(usize, usize) -> C>(&mut self, f: F)
        requires
            old(self).wf(),
            forall|i: usize, j: usize|
                spec_is_interior(old(self).spec_nx() as int, old(self).spec_ny() as int, i as int, j as int) ==> f.requires((i, j)),
        ensures
            final(self).wf(),
            final(self).same_shape(old(self)),
            forall|i: int, j: int|
                final(self).in_range(i, j) && spec_is_interior(final(self).spec_nx() as int, final(self).spec_ny() as int, i, j)
                    ==> f.ensures((i as usize, j as usize), #[trigger] final(self).cell(i, j)),
            forall|i: int, j: int|
                final(self).in_range(i, j) && !spec_is_interior(final(self).spec_nx() as int, final(self).spec_ny() as int, i, j)
                    ==> #[trigger] final(self).cell(i, j) == old(self).cell(i, j),
    {
        let nx = self.nx;
        let ny = self.ny;
        let total = self.cells.len();
        let mut k: usize = 0;
        let mut i: usize = 0;
        let mut j: usize = 0;
        while k < total
            invariant
                self.wf(),
                self.same_shape(old(self)),
                nx == self.spec_nx(),
                ny == self.spec_ny(),
                total == self@.len(),
                total == nx * ny,
                forall|i: usize, j: usize| spec_is_interior(nx as int, ny as int, i as int, j as int) ==> f.requires((i, j)),
                i < nx,
                k == spec_flat_index(nx as int, i as int, j as int),
                k <= total,
                k < total ==> j < ny,
                forall|m: int|
                    0 <= m < k && spec_is_interior(nx as int, ny as int, m % nx as int, m / nx as int)
                        ==> f.ensures(((m % nx as int) as usize, (m / nx as int) as usize), #[trigger] self@[m]),
                forall|m: int|
                    0 <= m < total && !(m < k && spec_is_interior(nx as int, ny as int, m % nx as int, m / nx as int))
                        ==> #[trigger] self@[m] == old(self)@[m],
            decreases total - k,
        {
            proof {
                lemma_flat_index_bounds(nx as int, ny as int, i as int, j as int);
            }
            if 1 <= i && i + 1 < nx && 1 <= j && j + 1 < ny {
                assert(spec_is_interior(nx as int, ny as int, i as int, j as int));
                let c = f(i, j);
                self.cells[k] = c;
            }
            k = k + 1;
            proof {
                lemma_flat_index_next(nx as int, ny as int, i as int, j as int);
            }
            if i + 1 < nx {
                i = i + 1;
            } else {
                i = 0;
                j = j + 1;
            }
        }
        proof {
            assert forall|a: int, b: int| self.in_range(a, b) implies
                (spec_is_interior(nx as int, ny as int, a, b) ==> f.ensures((a as usize, b as usize), #[trigger] self.cell(a, b)))
                && (!spec_is_interior(nx as int, ny as int, a, b) ==> self.cell(a, b) == old(self).cell(a, b)) by {
                lemma_flat_index_bounds(nx as int, ny as int, a, b);
            }
        }
    }

    /// The field whose cell `(i, j)` is `f(i, j, c)`, `c` being cell `(i, j)` of
    /// this field.
    pub fn map_cells<D, F: Fn(usize, usize, C) -> D>(&self, f: F) -> (r: Field<D>)
        where
            C: Copy,
        requires
            self.wf(),
            forall|i: usize, j: usize, c: C| i < self.spec_nx() && j < self.spec_ny() ==> f.requires((i, j, c)),
        ensures
            r.wf(),
            r.same_shape(self),
            forall|i: int, j: int|
                self.in_range(i, j) ==> f.ensures((i as usize, j as usize, self.cell(i, j)), #[trigger] r.cell(i, j)),
    {
        let nx = self.nx;
        let ny = self.ny;
        let total = self.cells.len();
        let mut out: Vec<D> = Vec::with_capacity(total);
        let mut i: usize = 0;
        let mut j: usize = 0;
        while out.len() < total
            invariant
                self.wf(),
                nx == self.spec_nx(),
                ny == self.spec_ny(),
                total == nx * ny,
                total == self@.len(),
                forall|i: usize, j: usize, c: C| i < nx && j < ny ==> f.requires((i, j, c)),
                i < nx,
                out.len() == spec_flat_index(nx as int, i as int, j as int),
                out.len() <= total,
                out.len() < total ==> j < ny,
                forall|k: int|
                    0 <= k < out.len() ==> f.ensures(((k % nx as int) as usize, (k / nx as int) as usize, self@[k]), #[trigger] out@[k]),
            decreases total - out.len(),
        {
            proof {
                lemma_flat_index_bounds(nx as int, ny as int, i as int, j as int);
            }
            let k = out.len();
            let d = f(i, j, self.cells[k]);
            out.push(d);
            proof {
                lemma_flat_index_next(nx as int, ny as int, i as int, j as int);
            }
            if i + 1 < nx {
                i = i + 1;
            } else {
                i = 0;
                j = j + 1;
            }
        }
        let r = Field { nx, ny, cells: out };
        assert forall|i: int, j: int| self.in_range(i, j) implies f.ensures(
            (i as usize, j as usize, self.cell(i, j)),
            #[trigger] r.cell(i, j),
        ) by {
            lemma_flat_index_bounds(nx as int, ny as int, i, j);
        }
        r
    }
}

} // verus!
