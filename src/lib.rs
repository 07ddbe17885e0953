//! Smoothed-particle field interpolation on an integer lattice.
//!
//! Positions are points of the integer lattice `Z^N` (fixed-point coordinates
//! chosen by the caller) and quantities are integers, so every estimate that
//! the library computes is exact and stated over mathematical integers.
//! Kernel normalisation, which needs real-valued quadrature, is left to the
//! caller: all interpolants are independent of it, and a normalised density
//! is the raw density times the coefficient.
pub mod bounds;
pub mod distance;
pub mod field;
pub mod interval;
pub mod kernel;
pub mod laws;
pub mod smoothing;
