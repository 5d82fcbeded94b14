use vstd::prelude::*;

verus! {

/// The reasons a transition can be refused. Every failure is terminal for
/// the transaction that raised it: the caller must fix the input and
/// resubmit, and no record is changed by a failed call.
#[derive(Clone, Copy, Debug, PartialEq, Eq, Structural)]
pub enum ErrorCode {
    /// The poll's end is not strictly after its start.
    InvalidDates,
    /// The supplied poll id does not match the resolved poll record.
    PollDoesNotExist,
    /// The candidate record has already completed registration.
    CandidateAlreadyRegistered,
    /// The vote names a candidate that is unregistered or mismatched.
    CandidateNotRegistered,
    /// The voter has already voted in this poll.
    VoterAlreadyVoted,
    /// The vote falls outside the poll's voting window.
    PollNotActive,
}

} // verus!
