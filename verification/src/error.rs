//! Failures that end a run.

use vstd::prelude::*;

verus! {

/// Why a run ends without an output document.
///
/// Files that cannot be decoded never end a run: they are left out of the
/// output and reported on the diagnostic channel.
#[derive(Clone, Copy, Debug, PartialEq, Eq, Structural)]
pub enum FatalError {
    /// The root directory does not exist or cannot be read.
    RootNotTraversable,
    /// The output destination cannot be created or written.
    OutputNotWritable,
    /// The records could not be serialised.
    Serialization,
}

/// The message that a fatal error is reported with.
pub open spec fn message_text(error: FatalError) -> Seq<char> {
    match error {
        FatalError::RootNotTraversable => "the input directory cannot be traversed"@,
        FatalError::OutputNotWritable => "the output cannot be written"@,
        FatalError::Serialization => "the records cannot be serialised"@,
    }
}

impl FatalError {
    /// A message for the person who started the run.
    pub fn message(&self) -> (text: &'static str)
        ensures
            text@ == message_text(*self),
    {
        match self {
            FatalError::RootNotTraversable => "the input directory cannot be traversed",
            FatalError::OutputNotWritable => "the output cannot be written",
            FatalError::Serialization => "the records cannot be serialised",
        }
    }
}

} // verus!
