//! Safety-envelope and duty-cycle governance for corridor remediation nodes.
//!
//! Every real-valued quantity (concentrations, duty cycles, gains, trust
//! scalars, indices) is a fixed-point `i64` counting billionths of its unit;
//! see [`fixed`].
pub mod bee;
pub mod bee_guard;
pub mod controller;
pub mod corridor;
pub mod fixed;
pub mod governance;
pub mod guards;
pub mod hysteresis;
pub mod materials;
pub mod microspace;
pub mod polytope;
mod sealed;
pub mod text;
