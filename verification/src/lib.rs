//! Orchestration library for a lint-check runner: it decides which checker
//! invocations a mode performs, derives a minimal configuration from a diff,
//! computes the log artifact names, and validates log contents.

pub mod diffcfg;
pub mod logs;
pub mod mode;
pub mod plan;
