use vstd::prelude::*;

use crate::errors::ErrorCode;
use crate::instructions::{register_result, vote_result};
use crate::phase::{spec_phase, Phase};
use crate::states::{Candidate, Poll, Voter};

verus! {

/// Registration is one-way: a candidate record that has completed
/// registration for its poll is refused on every further attempt, as a
/// duplicate. Together with `register_candidate`'s guarantee that a refused
/// call mutates nothing, the poll's candidate count is unchanged by the
/// repeat.
pub proof fn lemma_registration_is_once(poll: Poll, candidate: Candidate, poll_id: u64)
    requires
        poll.id == poll_id,
        candidate.has_registered,
    ensures
        register_result(poll, candidate, poll_id) == Err::<(), ErrorCode>(
            ErrorCode::CandidateAlreadyRegistered,
        ),
{
}

/// The candidate ids a run of `n` accepted registrations assigns, in order,
/// on a poll whose registration counter stands at `count0` when the run
/// begins: each accepted call assigns `count + 1` and leaves the counter one
/// higher, so the call at position `i` of the run assigns `count0 + i + 1`.
pub open spec fn run_cids(count0: int, n: nat) -> Seq<int> {
    Seq::new(n, |i: int| count0 + i + 1)
}

/// Sequential registrations on one poll produce strictly increasing — hence
/// unique — candidate ids, and on a fresh registration counter the first id
/// assigned is 1.
pub proof fn lemma_run_cids_strictly_increasing(count0: int, n: nat)
    ensures
        forall|i: int, j: int|
            0 <= i < j < n ==> run_cids(count0, n)[i] < run_cids(count0, n)[j],
        n > 0 ==> run_cids(0, n)[0] == 1,
{
}

/// Votes are accepted exactly within the poll's half-open window: for a
/// fresh voter and a registered candidate, a vote at `start` itself is
/// accepted, a vote anywhere in `[start, end)` is accepted, and a vote
/// before `start` or at or after `end` is refused as not active.
pub proof fn lemma_vote_window(poll: Poll, candidate: Candidate, voter: Voter, now: u64)
    requires
        poll.wf(),
        candidate.has_registered,
        candidate.poll_id == poll.id,
        !voter.has_voted,
    ensures
        vote_result(poll, candidate, voter, poll.id, candidate.cid, poll.start) == Ok::<
            (),
            ErrorCode,
        >(()),
        poll.start <= now < poll.end ==> vote_result(poll, candidate, voter, poll.id, candidate.cid, now)
            == Ok::<(), ErrorCode>(()),
        now < poll.start || now >= poll.end ==> vote_result(
            poll,
            candidate,
            voter,
            poll.id,
            candidate.cid,
            now,
        ) == Err::<(), ErrorCode>(ErrorCode::PollNotActive),
{
}

/// Voting is one-way: once a voter's record for a poll is marked voted,
/// every further vote by that voter in that poll is refused as a duplicate,
/// whichever registered candidate it names and at whatever time within the
/// window. Together with `vote`'s guarantee that a refused call mutates
/// nothing, every tally reflects only the first vote.
pub proof fn lemma_vote_is_once(
    poll: Poll,
    candidate: Candidate,
    voter: Voter,
    cid: u64,
    now: u64,
)
    requires
        poll.id == candidate.poll_id,
        spec_phase(now, poll.start, poll.end) is Active,
        candidate.has_registered,
        candidate.cid == cid,
        voter.has_voted,
    ensures
        vote_result(poll, candidate, voter, poll.id, cid, now) == Err::<(), ErrorCode>(
            ErrorCode::VoterAlreadyVoted,
        ),
{
}

/// A vote that names a candidate record that has not registered is refused,
/// even inside the window and for a voter who has not voted.
pub proof fn lemma_unregistered_candidate_rejected(
    poll: Poll,
    candidate: Candidate,
    voter: Voter,
    cid: u64,
    now: u64,
)
    requires
        poll.id == candidate.poll_id,
        spec_phase(now, poll.start, poll.end) is Active,
        !candidate.has_registered,
    ensures
        vote_result(poll, candidate, voter, poll.id, cid, now) == Err::<(), ErrorCode>(
            ErrorCode::CandidateNotRegistered,
        ),
{
}

} // verus!
