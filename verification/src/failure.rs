//! What can go wrong, and how far each failure reaches.

use vstd::prelude::*;

verus! {

/// The kinds of failure.
#[derive(Clone, Copy, Debug, PartialEq, Eq, Structural)]
pub enum Failure {
    /// The command has no stage to run.
    BadCommand,
    /// A stage's process could not be started.
    SpawnFailure,
    /// Reading a pipeline's output failed.
    StreamError,
    /// A process would not stop.
    TerminationFailure,
    /// The lock round the line buffer could not be taken.
    StateAccessFailure,
    /// Nobody listens for update notifications any more.
    Disconnected,
    /// A thread that feeds the event loop is gone.
    DeadThread,
}

/// Whether `failure` ends the whole program. A failure of one pipeline
/// never does.
pub open spec fn fatal(failure: Failure) -> bool {
    failure == Failure::StateAccessFailure || failure == Failure::DeadThread
}

/// Whether `failure` is shown to the user as a line of output.
pub open spec fn shown_inline(failure: Failure) -> bool {
    failure == Failure::BadCommand || failure == Failure::SpawnFailure
}

/// The words for `failure`.
pub open spec fn message_of(failure: Failure) -> Seq<char> {
    match failure {
        Failure::BadCommand => "bad command"@,
        Failure::SpawnFailure => "bad command"@,
        Failure::StreamError => "failed to read"@,
        Failure::TerminationFailure => "failed to kill"@,
        Failure::StateAccessFailure => "failed to lock"@,
        Failure::Disconnected => "connection disconnected"@,
        Failure::DeadThread => "dead thread"@,
    }
}

impl Failure {
    /// Whether this failure ends the whole program.
    pub fn is_fatal(&self) -> (b: bool)
        ensures
            b == fatal(*self),
    {
        match self {
            Failure::StateAccessFailure => true,
            Failure::DeadThread => true,
            _ => false,
        }
    }

    /// Whether this failure is shown as a line of output.
    pub fn is_shown_inline(&self) -> (b: bool)
        ensures
            b == shown_inline(*self),
    {
        match self {
            Failure::BadCommand => true,
            Failure::SpawnFailure => true,
            _ => false,
        }
    }

    /// The words for this failure.
    pub fn message(&self) -> (text: String)
        ensures
            text@ == message_of(*self),
    {
        match self {
            Failure::BadCommand => "bad command".to_string(),
            Failure::SpawnFailure => "bad command".to_string(),
            Failure::StreamError => "failed to read".to_string(),
            Failure::TerminationFailure => "failed to kill".to_string(),
            Failure::StateAccessFailure => "failed to lock".to_string(),
            Failure::Disconnected => "connection disconnected".to_string(),
            Failure::DeadThread => "dead thread".to_string(),
        }
    }
}

} // verus!
