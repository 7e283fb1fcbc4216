//! The shell's internals, leaves first.
/// Exit statuses.
pub mod status;
/// Errors and the statuses they imply.
pub mod errors;
/// Verified tools on text.
pub mod text;
/// Values, variables and the store.
pub mod variables;
/// What the shell is told about the system.
pub mod world;
/// The state of the shell besides variables and commands.
pub mod env;
/// Programs and functions.
pub mod commands;
/// The builtins.
pub mod builtins;
/// The evaluator.
pub mod evaluator;
/// The statements of a script.
pub mod tree;
/// The expansions of a value.
pub mod expansion;
/// A table from names to values.
pub mod table;
