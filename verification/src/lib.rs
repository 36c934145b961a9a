//! Bridge between a graphical front-end and the `fiberpath` command-line tool.
//!
//! The crate decides where the executable is looked for, how each operation is
//! spelled on the command line, and how a finished process is turned into a
//! payload or a classified failure. Touching the file system, the clock and
//! the process table is left to the caller, which reports what it saw.

pub mod cli_path;
pub mod cli_process;
pub mod command;
pub mod encoding;
pub mod error;
pub mod json;
pub mod paths;
pub mod platform;
pub mod response;
pub mod text;
