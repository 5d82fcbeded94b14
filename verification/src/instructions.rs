use vstd::prelude::*;

use crate::errors::ErrorCode;
use crate::phase::{spec_phase, Phase};
use crate::states::{Candidate, Counter, Poll, Registrations, Voter};

verus! {

/// Creates the singleton poll-id counter. The storage collaborator rejects a
/// second creation of the singleton; this transition itself cannot fail.
pub fn initialize() -> (counter: Counter)
    ensures
        counter.count == 0,
{
    Counter { count: 0 }
}

/// Validates a poll's dates and, when they are in order, takes the next poll
/// id from the counter and returns the new poll record together with its
/// fresh registration counter. The validation runs before any mutation, so a
/// refused call leaves the counter untouched and creates nothing.
pub fn create_poll(
    counter: &mut Counter,
    description: String,
    start: u64,
    end: u64,
) -> (r: Result<(Poll, Registrations), ErrorCode>)
    requires
        old(counter).count < u64::MAX,
    ensures
        r is Err <==> end <= start,
        r is Err ==> r == Err::<(Poll, Registrations), ErrorCode>(ErrorCode::InvalidDates)
            && *final(counter) == *old(counter),
        r matches Ok((poll, registrations)) ==> {
            &&& final(counter).count == old(counter).count + 1
            &&& poll.id == final(counter).count
            &&& poll.description == description
            &&& poll.start == start
            &&& poll.end == end
            &&& poll.candidates == 0
            &&& poll.wf()
            &&& registrations.count == 0
        },
{
    if end <= start {
        return Err(ErrorCode::InvalidDates);
    }
    counter.count = counter.count + 1;
    let poll = Poll { id: counter.count, description, start, end, candidates: 0 };
    let registrations = Registrations { count: 0 };
    Ok((poll, registrations))
}

/// Whether a registration request is accepted, and the failure it raises
/// when it is not, from the records as they stand when the call begins. The
/// checks run in this order: the poll record must carry the requested id,
/// and the candidate record must not have registered before.
pub open spec fn register_result(poll: Poll, candidate: Candidate, poll_id: u64) -> Result<
    (),
    ErrorCode,
> {
    if poll.id != poll_id {
        Err(ErrorCode::PollDoesNotExist)
    } else if candidate.has_registered {
        Err(ErrorCode::CandidateAlreadyRegistered)
    } else {
        Ok(())
    }
}

/// Registers a candidate for a poll: takes the next candidate id from the
/// poll's registration counter, fills the candidate record, marks it
/// registered, and counts it on the poll. A refused call mutates nothing.
pub fn register_candidate(
    poll: &mut Poll,
    registrations: &mut Registrations,
    candidate: &mut Candidate,
    poll_id: u64,
    name: String,
) -> (r: Result<(), ErrorCode>)
    requires
        old(registrations).count < u64::MAX,
        old(poll).candidates < u64::MAX,
    ensures
        r == register_result(*old(poll), *old(candidate), poll_id),
        r is Err ==> *final(poll) == *old(poll) && *final(registrations) == *old(registrations)
            && *final(candidate) == *old(candidate),
        r is Ok ==> {
            &&& final(registrations).count == old(registrations).count + 1
            &&& final(candidate).cid == final(registrations).count
            &&& final(candidate).poll_id == poll_id
            &&& final(candidate).name == name
            &&& final(candidate).has_registered
            &&& final(candidate).vote_count == old(candidate).vote_count
            &&& final(poll).candidates == old(poll).candidates + 1
            &&& final(poll).id == old(poll).id
            &&& final(poll).description == old(poll).description
            &&& final(poll).start == old(poll).start
            &&& final(poll).end == old(poll).end
        },
{
    if poll.id != poll_id {
        return Err(ErrorCode::PollDoesNotExist);
    }
    if candidate.has_registered {
        return Err(ErrorCode::CandidateAlreadyRegistered);
    }
    registrations.count = registrations.count + 1;
    candidate.cid = registrations.count;
    candidate.poll_id = poll_id;
    candidate.name = name;
    candidate.has_registered = true;
    poll.candidates = poll.candidates + 1;
    Ok(())
}

/// Whether a vote is accepted, and the failure it raises when it is not,
/// from the records as they stand when the call begins. The checks run in
/// this order: the poll record must carry the requested id, the clock must
/// fall in the poll's window, the named candidate must be registered for
/// this poll under this id, and the voter must not have voted before.
pub open spec fn vote_result(
    poll: Poll,
    candidate: Candidate,
    voter: Voter,
    poll_id: u64,
    cid: u64,
    now: u64,
) -> Result<(), ErrorCode> {
    if poll.id != poll_id {
        Err(ErrorCode::PollDoesNotExist)
    } else if !(spec_phase(now, poll.start, poll.end) is Active) {
        Err(ErrorCode::PollNotActive)
    } else if !candidate.has_registered || candidate.poll_id != poll_id || candidate.cid != cid {
        Err(ErrorCode::CandidateNotRegistered)
    } else if voter.has_voted {
        Err(ErrorCode::VoterAlreadyVoted)
    } else {
        Ok(())
    }
}

/// Casts one vote at time `now` for candidate `cid` in poll `poll_id`: tallies
/// the vote on the candidate and marks the voter as having voted, both
/// together or neither. A refused call mutates nothing.
pub fn vote(
    poll: &Poll,
    candidate: &mut Candidate,
    voter: &mut Voter,
    poll_id: u64,
    cid: u64,
    now: u64,
) -> (r: Result<(), ErrorCode>)
    requires
        old(candidate).vote_count < u64::MAX,
    ensures
        r == vote_result(*poll, *old(candidate), *old(voter), poll_id, cid, now),
        r is Err ==> *final(candidate) == *old(candidate) && *final(voter) == *old(voter),
        r is Ok ==> {
            &&& final(candidate).vote_count == old(candidate).vote_count + 1
            &&& final(candidate).cid == old(candidate).cid
            &&& final(candidate).poll_id == old(candidate).poll_id
            &&& final(candidate).name == old(candidate).name
            &&& final(candidate).has_registered == old(candidate).has_registered
            &&& final(voter).has_voted
        },
{
    if poll.id != poll_id {
        return Err(ErrorCode::PollDoesNotExist);
    }
    if !(now >= poll.start && now < poll.end) {
        return Err(ErrorCode::PollNotActive);
    }
    if !candidate.has_registered || candidate.poll_id != poll_id || candidate.cid != cid {
        return Err(ErrorCode::CandidateNotRegistered);
    }
    if voter.has_voted {
        return Err(ErrorCode::VoterAlreadyVoted);
    }
    candidate.vote_count = candidate.vote_count + 1;
    voter.has_voted = true;
    Ok(())
}

/// The storage key under which the next accepted registration for this poll
/// will write its candidate record: the poll id paired with the id that
/// registration will be assigned. The storage collaborator derives the same
/// key before the transaction runs, and `register_candidate` assigns exactly
/// this id, so the key and the stored `cid` always agree.
pub fn candidate_key(poll_id: u64, registrations: &Registrations) -> (key: (u64, u64))
    requires
        registrations.count < u64::MAX,
    ensures
        key.0 == poll_id,
        key.1 == registrations.count + 1,
{
    (poll_id, registrations.count + 1)
}

} // verus!
