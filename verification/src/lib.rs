//! Time-value-of-money solver.
//!
//! A lump sum or an annuity is described by the values that are known of it.
//! Solving for an unknown gives the closed form of the unknown over those
//! values, or the error that names the first required value found absent.
//! The closed form is data: the caller evaluates it in the arithmetic of its
//! choice. What the closed forms are worth in exact arithmetic, and how they
//! undo one another there, is proved in `exact`.

pub mod annuities;
pub mod dispatch;
pub mod errors;
pub mod exact;
pub mod formula;
pub mod input;
pub mod laws;
pub mod lump_sum;
pub mod misc;
pub mod traits;
