//! Verified core of a European call option pricing engine.
//!
//! The engine prices a batch of European call options two ways: a closed-form
//! analytic formula and a Monte Carlo simulation over geometric Brownian
//! motion paths. The floating-point kernels themselves live in the host layer;
//! this crate holds the decision logic that surrounds them, fully verified:
//! how a requested path count is split across parallel workers (and how many
//! paths are therefore actually executed), and how a batch of instrument
//! columns is validated before any computation starts.

pub mod batch;
pub mod error;
pub mod plan;
