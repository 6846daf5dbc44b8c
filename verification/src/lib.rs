//! A small typed lambda calculus: one syntax tree shared by every compiler
//! phase, and a checking judgment for the type-checked phase.
//!
//! - [`typ`]: the types of the calculus, with structural equality.
//! - [`expr`]: the syntax tree, indexed by phase, and the two phases.
//! - [`env`]: typing environments.
//! - [`judgment`]: `check`, the judgment it decides, and the laws of that
//!   judgment.
//! - [`render`]: expressions and types as text.

pub mod env;
pub mod expr;
pub mod judgment;
pub mod render;
pub mod typ;
