//! The conserved state carried by each cell.
use vstd::prelude::*;

verus! {

/// Conserved variables of the axisymmetric Euler equations in one cell:
/// density, axial momentum, radial momentum and total energy per volume.
#[derive(Debug, Clone, Copy, PartialEq)]
pub struct ConservativeVars<S> {
    pub rho: S,
    pub rho_u: S,
    pub rho_v: S,
    pub e: S,
}

/// `c` with its radial momentum replaced by `rho_v`.
pub open spec fn spec_with_radial_momentum<S>(c: ConservativeVars<S>, rho_v: S) -> ConservativeVars<S> {
    ConservativeVars { rho_v, ..c }
}

impl<S: Copy> ConservativeVars<S> {
    /// This state with its radial momentum replaced by `rho_v`.
    pub fn with_radial_momentum(self, rho_v: S) -> (r: ConservativeVars<S>)
        ensures
            r == spec_with_radial_momentum(self, rho_v),
    {
        ConservativeVars { rho: self.rho, rho_u: self.rho_u, rho_v, e: self.e }
    }
}

} // verus!
