//! A small POSIX-style command-line option parser in the manner of `getopt(3)`.
//!
//! [`Parser`] walks an argument vector character by character and yields the options that an
//! option string declares, bundled (`-abc`) or apart, with their values taken from the rest of
//! their argument or from the next one. Scanning stops at the first argument that is not an
//! option, at a bare `-`, or after `--`.
//!
//! [`program`] holds the logic of a small tool built on the parser, which re-quotes the options
//! it finds for a shell.

pub mod error;
pub mod errorkind;
pub mod lemmas;
pub mod opt;
pub mod optspec;
pub mod parser;
pub mod program;
pub mod result;
pub mod shell;

pub use crate::error::Error;
pub use crate::errorkind::ErrorKind;
pub use crate::opt::Opt;
pub use crate::optspec::OptionSpec;
pub use crate::parser::Parser;
pub use crate::result::Result;
