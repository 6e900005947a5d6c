//! Generates matched pairs of benchmark programs that call one operation
//! through static and through dynamic dispatch, and plans how they are
//! built, run and swept over a range of sizes.

pub mod cases;
pub mod chains;
pub mod compiler;
pub mod config;
pub mod naming;
pub mod inlining;
pub mod lines;
pub mod marks;
pub mod order;
pub mod program;
pub mod report;
pub mod shape;
pub mod sweep;
pub mod symbols;
pub mod synth;
pub mod text;
