//! A file access facade for a desktop shell, written without I/O of its own.
//!
//! Each command of the facade is a short exchange with a host. The facade says
//! which call the host has to make on the file system, the host makes it and
//! hands the outcome back, and the facade turns the outcome into the next call
//! or into the command's result. Every decision is taken here and proved
//! against its contract; the host only performs calls.
//!
//! - [`commands`]: choosing a directory, reading, writing and listing.
//! - [`license`]: the license check.
//! - [`failure`]: what a host reports of a failed call, and what a command
//!   returns for it.
//! - [`listing`]: the entries of a directory and the names listed for them.
//! - [`path`]: the directory that holds a path, by the platform's path syntax.
//! - [`disk`]: the commands run against a model of the file system, and the
//!   laws that hold there.

pub mod commands;
pub mod disk;
pub mod failure;
pub mod license;
pub mod listing;
pub mod outcome;
pub mod path;

pub use commands::{list_files, read_file, select_directory, write_file};
pub use license::check_license;
