//! Command-line surface of the compiler, as plain data: the global
//! flags and the subcommand tree. Argument parsing, file paths and
//! all I/O live in the unverified front end, which converts into
//! these types.

use vstd::prelude::*;

verus! {

/// Output format of the method documentation.
#[derive(Debug, Clone, Copy, PartialEq, Eq, Structural)]
pub enum Format {
    Html,
    Markdown,
}

impl Default for Format {
    /// The documentation is rendered as HTML unless asked otherwise.
    fn default() -> (r: Self)
        ensures
            r == Format::Html,
    {
        Format::Html
    }
}

/// Compile Rudder policies: global flags plus one subcommand.
#[derive(Debug, PartialEq, Eq)]
pub struct MainArgs {
    /// Verbosity level, counted occurrences.
    pub verbose: u8,
    /// Quiet.
    pub quiet: bool,
    /// The requested subcommand.
    pub command: Command,
}

/// The compiler's subcommands.
#[derive(Debug, PartialEq, Eq)]
pub enum Command {
    /// Create the technique structure in the current directory.
    Init,
    /// Create the technique structure in the given directory.
    New { name: String },
    /// Check the technique for errors.
    Check { library: Vec<String> },
    /// Build the technique.
    Build { library: Vec<String>, output: Option<String>, standalone: bool },
    /// Run the technique against the provided test cases.
    Test { library: Vec<String>, filter: Option<String> },
    /// Build the method documentation.
    Lib { library: Vec<String>, output: Option<String>, format: Format, open: bool, stdout: bool },
    /// Remove all generated files.
    Clean,
}

} // verus!
