//! Core of a score-function (REINFORCE-style) stochastic optimizer.
//!
//! The verified core is the deterministic counter-based sampler and the
//! first-occurrence maximum selection that the categorical distribution's
//! sampling, mode query and log-density all rest on.  The floating-point
//! transforms that hosts build over these primitives (unit-interval mapping,
//! Gumbel and Box-Muller sampling, softmax gradients) live outside the
//! verified library.

pub mod argmax;
pub mod rng;
