//! Special-function kernels: the gamma family and the beta family.

pub mod beta;
pub mod gamma;
