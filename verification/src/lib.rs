//! Three-way comparison of ordered values, with a small integer helper.
//!
//! The comparison answers with one of `Less`, `Equal` and `Greater`. It asks
//! `<` first, `>` second, and answers `Equal` when both say no.

pub mod compare;
pub mod successor;

pub use crate::compare::cmp;
pub use crate::successor::add_one;
