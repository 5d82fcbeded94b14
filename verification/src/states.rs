use vstd::prelude::*;

verus! {

/// Process-wide source of poll identifiers. A singleton: created once by
/// `initialize`, incremented exactly once per successful `create_poll`,
/// never destroyed, so its value only grows.
#[derive(Clone, Copy, Debug, PartialEq, Eq, Structural)]
pub struct Counter {
    pub count: u64,
}

/// Per-poll source of candidate identifiers, keyed by poll id. Created with
/// the poll at count 0 and incremented exactly once per accepted
/// registration, so candidate ids within a poll are unique and start at 1.
#[derive(Clone, Copy, Debug, PartialEq, Eq, Structural)]
pub struct Registrations {
    pub count: u64,
}

/// A time-bounded voting record, keyed by its id. Votes are accepted in the
/// half-open window `[start, end)`; `candidates` counts the registrations
/// accepted for this poll.
#[derive(Clone, Debug, PartialEq, Eq)]
pub struct Poll {
    pub id: u64,
    pub description: String,
    pub start: u64,
    pub end: u64,
    pub candidates: u64,
}

impl Poll {
    /// A poll is well formed when its window is non-empty: creation refuses
    /// any other pair of dates, and no transition touches the dates after
    /// that.
    pub open spec fn wf(self) -> bool {
        self.start < self.end
    }
}

/// A registered entity eligible to receive votes in one poll, keyed by
/// (poll id, candidate id). The record is created blank by the storage
/// collaborator; registration fills it and flips `has_registered`, which
/// never reverts.
#[derive(Clone, Debug, PartialEq, Eq)]
pub struct Candidate {
    pub cid: u64,
    pub poll_id: u64,
    pub name: String,
    pub has_registered: bool,
    pub vote_count: u64,
}

/// The vote-once flag for one caller identity in one poll, keyed by
/// (poll id, voter identity). Flips to true on the first accepted vote and
/// never reverts.
#[derive(Clone, Copy, Debug, PartialEq, Eq, Structural)]
pub struct Voter {
    pub has_voted: bool,
}

} // verus!
