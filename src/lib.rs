//! Judging pipeline for code submissions: toolchain selection, compile planning,
//! classification of resource-bounded runs, exact output comparison and
//! sequencing of per-case verdicts.
pub mod text;
pub mod compare;
pub mod lines;
pub mod verdict;
pub mod toolchain;
pub mod execution;
pub mod judge;
