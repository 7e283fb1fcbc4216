//! Elvi: the evaluation core of a small POSIX-style shell.
//!
//! The crate holds the variable store, the textual expansions, the command
//! registry, the builtins and the evaluator, each with a contract that Verus
//! proves.
pub mod internal;
