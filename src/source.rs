//! Decisions of a packet data source that chains several sources: the
//! reads themselves are made by the caller.
use vstd::prelude::*;

verus! {

/// What reading from the first remaining source gave.
#[derive(Debug, Clone, Copy, PartialEq, Eq, Structural)]
pub enum ReadOutcome {
    /// A packet was read.
    Data,
    /// The source has no more packets.
    EndOfFile,
    /// The read failed for another reason.
    Failure,
}

/// What a chain of sources does next.
#[derive(Debug, Clone, Copy, PartialEq, Eq, Structural)]
pub enum ConcatStep {
    /// Read from the first remaining source.
    Read,
    /// Hand the packet read to the caller.
    Deliver,
    /// Drop the exhausted first source and read again.
    DropSource,
    /// Hand the read error to the caller.
    Fail,
    /// Every source is exhausted: report the end of the data.
    Exhausted,
}

/// The next step of a chain with `remaining` sources left, given what the
/// last read from the first of them gave, if one was made.
pub fn concat_step(remaining: usize, outcome: Option<ReadOutcome>) -> (r: ConcatStep)
    ensures
        remaining == 0 ==> r == ConcatStep::Exhausted,
        remaining > 0 && outcome is None ==> r == ConcatStep::Read,
        remaining > 0 && outcome == Some(ReadOutcome::Data) ==> r == ConcatStep::Deliver,
        remaining > 0 && outcome == Some(ReadOutcome::EndOfFile) ==> r == ConcatStep::DropSource,
        remaining > 0 && outcome == Some(ReadOutcome::Failure) ==> r == ConcatStep::Fail,
{
    if remaining == 0 {
        return ConcatStep::Exhausted;
    }
    match outcome {
        None => ConcatStep::Read,
        Some(ReadOutcome::Data) => ConcatStep::Deliver,
        Some(ReadOutcome::EndOfFile) => ConcatStep::DropSource,
        Some(ReadOutcome::Failure) => ConcatStep::Fail,
    }
}

} // verus!
