//! Runtime loading of the native multimedia library: choosing and unpacking its
//! files, opening it, resolving every entry point the binding calls, and guarding
//! the one-time initialization of the process-wide function table.

pub mod error;
pub mod guard;
pub mod loader;
pub mod materialize;
pub mod platform;
pub mod symbols;
pub mod sys;
