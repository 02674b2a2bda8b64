//! Probability distributions.

pub mod gamma;

pub use gamma::Gamma;
