//! The directory walker's decisions: what becomes of each thing that the
//! traversal of the root comes upon.

use crate::error::FatalError;
use crate::harvest::FileCandidate;
use vstd::prelude::*;
use vstd::string::StringExecFns;

verus! {

/// What the metadata of an entry say it is.
#[derive(Clone, Copy, Debug, PartialEq, Eq, Structural)]
pub enum EntryKind {
    RegularFile,
    Directory,
    /// Anything else, such as a link that is not followed.
    Other,
    /// The metadata could not be read.
    Unknown,
}

/// One thing that the traversal comes upon.
#[derive(Clone, Debug, PartialEq, Eq)]
pub enum WalkEvent {
    /// No entry could be produced. `depth` tells how far below the root that
    /// happened; 0 is the root itself.
    Failed { depth: usize, reason: String },
    /// An entry of the tree.
    Found { kind: EntryKind, candidate: FileCandidate },
}

/// What to do about an event.
#[derive(Clone, Debug, PartialEq, Eq)]
pub enum Step {
    /// End the run without an output document.
    Abort(FatalError),
    /// Leave the entry out and put this line on the diagnostic channel.
    Report(String),
    /// Leave the entry out and say nothing.
    Skip,
    /// Hand the file to an extraction worker.
    Decode(FileCandidate),
}

/// The entry that the diagnostic channel gets for a part of the tree that
/// could not be enumerated.
pub open spec fn enumeration_failure_line(reason: Seq<char>) -> Seq<char> {
    "failed to enumerate entry: "@ + reason
}

/// Decides what becomes of an event.
///
/// Only regular files are decoded. A root that cannot be enumerated ends the
/// run; any other failure of the traversal costs the entries it hides and
/// nothing more. Entries whose metadata cannot be read, directories and the
/// rest are passed over in silence.
pub fn next_step(event: WalkEvent) -> (step: Step)
    ensures
        match event {
            WalkEvent::Failed { depth, reason } => if depth == 0 {
                step == Step::Abort(FatalError::RootNotTraversable)
            } else {
                step matches Step::Report(line) && line@ == enumeration_failure_line(reason@)
            },
            WalkEvent::Found { kind, candidate } => if kind == EntryKind::RegularFile {
                step == Step::Decode(candidate)
            } else {
                step == Step::Skip
            },
        },
{
    match event {
        WalkEvent::Failed { depth, reason } => {
            if depth == 0 {
                Step::Abort(FatalError::RootNotTraversable)
            } else {
                Step::Report(String::from_str("failed to enumerate entry: ").concat(reason.as_str()))
            }
        },
        WalkEvent::Found { kind, candidate } => match kind {
            EntryKind::RegularFile => Step::Decode(candidate),
            _ => Step::Skip,
        },
    }
}

} // verus!
