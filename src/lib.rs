//! Discrete core of an axisymmetric nozzle-flow solver.
//!
//! The solver marches the compressible Euler equations on a body-fitted
//! structured grid of `ny` rows by `nx` columns. This crate holds the parts of
//! it whose behaviour is exact: grid validation and cell indices, a cell field
//! stored row by row with a double-buffered interior update, the layout of the
//! boundary conditions, the time-marching driver's decisions and the packing
//! of results into flat arrays. The scalar type of the physical state is a
//! type parameter throughout.
pub mod boundary;
pub mod field;
pub mod grid;
pub mod march;
pub mod mode;
pub mod result;
pub mod state;
pub mod step;
