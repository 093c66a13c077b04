//! A small two-dimensional particle simulation built around iterative
//! constraint solvers: a dual (Lagrange-multiplier) relaxation solver, a
//! primal (force-balance) relaxation solver, and a single-sweep displacement
//! projector.  All simulation quantities are saturating fixed-point numbers,
//! so every step is exact integer arithmetic and free of overflow.

pub mod contacts;
pub mod displacement;
pub mod dual;
pub mod fp;
pub mod laws;
pub mod particles;
pub mod primal;
pub mod sim;
pub mod vec2;
