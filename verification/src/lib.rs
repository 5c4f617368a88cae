//! Rewrites a function that returns a success/failure result into one that
//! returns nothing and hands any failure to a reporting macro.
//!
//! The work is done on source text. `syntax` asks `syn` what a text holds,
//! `reporter` and `extract` turn the answers into the plain values of `model`,
//! `forward` and `synth` build the replacement function from them, and `emit`
//! writes it out again. `transform` strings the stages together, and `laws`
//! states what holds of every rewrite.

pub mod emit;
pub mod extract;
pub mod forward;
pub mod laws;
pub mod model;
pub mod reporter;
pub mod synth;
pub mod syntax;
pub mod transform;

pub use crate::transform::{res_system, ressys_fmt, transform};
