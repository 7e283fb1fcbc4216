//! The builtins of the shell.
//!
//! A builtin first expands its arguments and reads its options; what it
//! then does with them is a function of its own, whose contract says it all.
/// Reading the options of a builtin.
pub mod options;
/// The `echo` builtin.
pub mod echo;
/// The `exit` builtin.
pub mod exit;
/// The `shift` builtin.
pub mod shift;
/// The `dbg` builtin.
pub mod dbg;
/// The `unset` builtin.
pub mod unset;
/// The `hash` builtin.
pub mod hash;
/// The `cd` builtin.
pub mod cd;
/// The `test` builtin.
pub mod test;
