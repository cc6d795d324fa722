//! A deterministic, fixed-step 2D particle-physics engine.
//!
//! The engine integrates point masses with a semi-implicit (symplectic) Euler
//! scheme, accumulates forces per sub-step, and satisfies geometric
//! constraints by iterative position projection (Gauss-Seidel over the
//! constraints in insertion order), after which velocities are reconciled
//! with the realised trajectory.
//!
//! All physical quantities are Q-format fixed-point numbers: an `i64` holding
//! `fixed::SCALE` raw units per 1.0. Every arithmetic step saturates at the
//! `i64` range and rounds toward zero, so a simulation is reproducible
//! bit-for-bit on every machine, and every contract below pins the exact
//! raw value that an operation produces.

pub mod constraint;
pub mod fixed;
pub mod force;
pub mod interaction;
pub mod particle;
pub mod rendering;
pub mod system;
pub mod vec2;

pub use fixed::SCALE;
