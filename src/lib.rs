//! Structure of a Crank–Nicolson simulation of a one-dimensional wave packet
//! in an infinite square well: the grid, the layout of the tridiagonal
//! operators, the initial state's boundary conditions and the time-stepping
//! schedule. The amplitudes themselves are left generic, so that the numbers
//! can be whatever the caller computes with.

pub mod grid;
pub mod operator;
pub mod stepping;

pub use grid::{check_intervals, interior, interior_count, sample_grid, SimError};
pub use operator::tridiagonal;
pub use stepping::{run_steps, Series};
