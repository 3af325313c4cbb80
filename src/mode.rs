//! The two ways of producing a flow field.
use vstd::prelude::*;

verus! {

/// Which solver produces the field.
#[derive(Debug, Clone, Copy, PartialEq, Eq, Structural)]
pub enum SolverMode {
    /// Time marching of the 2D axisymmetric Euler equations from the
    /// quasi-1D field.
    Euler2d,
    /// The closed-form isentropic quasi-1D field, without time marching.
    Quasi1d,
}

impl SolverMode {
    /// Decodes the request's mode number: `1` is the quasi-1D preview, any
    /// other value the 2D Euler solver.
    pub fn from_code(code: u8) -> (r: SolverMode)
        ensures
            code == 1 ==> r == SolverMode::Quasi1d,
            code != 1 ==> r == SolverMode::Euler2d,
    {
        if code == 1 {
            SolverMode::Quasi1d
        } else {
            SolverMode::Euler2d
        }
    }

    /// Whether the mode marches in time.
    pub fn is_time_marching(&self) -> (r: bool)
        ensures
            r == (*self == SolverMode::Euler2d),
    {
        match self {
            SolverMode::Euler2d => true,
            SolverMode::Quasi1d => false,
        }
    }
}

} // verus!
