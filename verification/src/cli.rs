//! The command model: what one invocation of the tool asks for.
//!
//! The tool takes an optional subcommand, a verbose flag that may be
//! repeated, and a hidden flag that prints the help as markdown. Turning
//! argument strings into a [`Cli`] is the argument parser's work. What a
//! parsed invocation leads to is decided in [`crate::dispatch`].

use clap_complete::Shell;
use vstd::prelude::*;

verus! {

/// The shell that completions are generated for, carried through as it is:
/// nothing in this crate looks inside one.
#[verifier::external_type_specification]
#[verifier::external_body]
pub struct ExShell(clap_complete::Shell);

/// The name of the binary, as it stands in usage lines and completions.
pub const BIN_NAME: &'static str = "rust-template";

/// The name that `greet` greets when none is given.
pub const DEFAULT_NAME: &'static str = "World";

/// One parsed invocation.
#[derive(Debug)]
pub struct Cli {
    /// The subcommand, if one was given.
    pub command: Option<Commands>,
    /// How often the verbose flag was given (`-v`, `-vv`, `-vvv`).
    pub verbose: u8,
    /// Whether the help is to be printed in markdown format.
    pub markdown_help: bool,
}

/// Available subcommands.
#[derive(Debug)]
pub enum Commands {
    /// Greet someone by name.
    Greet {
        /// Name of the person to greet.
        name: String,
    },
    /// Generate shell completions for the given shell.
    Completions {
        /// Shell to generate completions for.
        shell: Shell,
    },
}

impl Cli {
    /// Whether this invocation is answered by the markdown help alone.
    ///
    /// When it is, the caller prints the markdown help and does nothing else:
    /// no logging is set up and no subcommand runs.
    #[must_use]
    pub fn handle_markdown_help(&self) -> (handled: bool)
        ensures
            handled == self.markdown_help,
    {
        self.markdown_help
    }
}

} // verus!
