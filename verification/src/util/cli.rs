//! The options of one run.

use vstd::prelude::*;

verus! {

/// How much of the diagnostic channel is shown, from nothing to everything.
/// The library's own diagnostics are of level `Debug`.
#[derive(Clone, Copy, Debug, PartialEq, Eq, Structural)]
pub enum Verbosity {
    Off,
    Error,
    Warn,
    Info,
    Debug,
    Trace,
}

/// The options of one run.
#[derive(Clone, Debug, PartialEq, Eq)]
pub struct Cli {
    /// The root directory to scan.
    pub input: String,
    /// The file to write the document to; `None` stands for standard output.
    pub output: Option<String>,
    /// The threshold of the diagnostic channel.
    pub verbosity: Verbosity,
}

impl Cli {
    /// Makes the options of a run from the arguments as they were given.
    /// A run that names no verbosity shows entries up to `Info`.
    pub fn from_args(
        input: String,
        output: Option<String>,
        verbosity: Option<Verbosity>,
    ) -> (cli: Cli)
        ensures
            cli.input == input,
            cli.output == output,
            cli.verbosity == match verbosity {
                Some(level) => level,
                None => Verbosity::Info,
            },
    {
        let verbosity = match verbosity {
            Some(level) => level,
            None => Verbosity::Info,
        };
        Cli { input, output, verbosity }
    }
}

} // verus!
