//! Simple linear regression: a one-variable ordinary-least-squares fit in
//! closed form, and prediction with the fitted line.
//!
//! Binary64 values cross the crate's boundary as their `u64` bit patterns;
//! see [`arith64`] for the arithmetic they are computed with.

pub mod arith64;
pub mod linear;

pub use linear::FitError;
pub use linear::Linear;
pub use linear::PredictError;
