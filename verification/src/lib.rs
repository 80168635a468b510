//! Discrete core of a lattice-reduction cost estimator.
//!
//! BKZ-style basis reduction is priced by a family of published cost models:
//! sieving and enumeration formulas for one SVP-oracle call, and combined
//! whole-attack models in the style of the Kyber and Matzov analyses.  Every
//! published formula is a closed-form real expression, but which formula
//! applies, over which block-size regime, with which tour multiplier, which
//! calibration-table entry and which profile shape is exact integer logic.
//! This crate verifies that logic:
//!
//! - [`models`] declares the closed set of supported cost models;
//! - [`plan`] turns a model and lattice parameters into an evaluation plan:
//!   the selected formula regime, the BKZ tour count, the LLL dimension and
//!   the SVP-call multiplier, plus the batching mode of the short-vector
//!   estimators;
//! - [`delta`] holds the calibrated root-Hermite-factor table in exact
//!   fixed-point form and proves it non-increasing in the block size;
//! - [`profile`] builds the integer exponent skeleton of the simulated
//!   Gram-Schmidt profiles.
//!
//! Evaluating a plan numerically takes transcendental real arithmetic, which
//! stays outside the verified core; callers map each plan to its real-valued
//! cost with the constants of the literature.
//!
//! The documented domain of every estimate is `2 <= block_size <= d`,
//! `d > n >= 0` and `q > 1`; each verified function states the part of that
//! domain it needs as a precondition, and unverified callers must check it
//! before calling.

pub mod delta;
pub mod models;
pub mod plan;
pub mod profile;
