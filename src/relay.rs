use vstd::prelude::*;

verus! {

/// How one read of a line from a child's stream went.
#[derive(Clone, Copy, Debug, PartialEq, Eq, Structural)]
pub enum ReadOutcome {
    /// This many bytes were read; zero means the stream has ended.
    Read(usize),
    /// The read failed.
    Failed,
}

/// What a relay does after a read.
#[derive(Clone, Copy, Debug, PartialEq, Eq, Structural)]
pub enum RelayAction {
    /// Post the line to the logging sink, then read again.
    Forward,
    /// Nothing came yet: read again.
    Retry,
    /// The stream has ended or failed: the relay is over.
    Stop,
}

pub open spec fn relay_spec(read: ReadOutcome, line: Seq<char>) -> RelayAction {
    match read {
        ReadOutcome::Failed => RelayAction::Stop,
        ReadOutcome::Read(n) => if n == 0 {
            RelayAction::Stop
        } else if line.len() == 0 {
            RelayAction::Retry
        } else {
            RelayAction::Forward
        },
    }
}

/// Decides what to do with the outcome of a read and the line it filled.
pub fn relay_decision(read: ReadOutcome, line: &str) -> (r: RelayAction)
    ensures
        r == relay_spec(read, line@),
{
    match read {
        ReadOutcome::Failed => RelayAction::Stop,
        ReadOutcome::Read(n) => if n == 0 {
            RelayAction::Stop
        } else if line.unicode_len() == 0 {
            RelayAction::Retry
        } else {
            RelayAction::Forward
        },
    }
}

} // verus!
