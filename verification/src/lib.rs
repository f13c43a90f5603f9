//! Spatial interpolation by Gaussian-process conditioning (kriging).
//!
//! Given observed values at sample locations, the library predicts the mean
//! and covariance of a Gaussian random field at target locations, using an
//! exponential-decay spatial covariance kernel. Scalars are IEEE-754
//! binary64 values carried as their `u64` bit patterns; the arithmetic on
//! them is trusted (see `fp`), everything built from it is verified.

pub mod fp;
pub mod matrix;
pub mod geometry;
pub mod chol;
pub mod solver;

pub use geometry::Point;
pub use matrix::Matrix;
pub use solver::{create_cov_matrix, gaussian_posterior, gaussian_sample, Error, GaussianResult};
