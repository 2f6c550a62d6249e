//! The accounting of a bulk load. A load replays the rows of a source, one
//! after the other, through a creation endpoint. Reading the source and
//! reaching the endpoint are the caller's business; what became of each row
//! is told to a `LoadTally`, which counts. No row ends the load: a row that
//! fails is counted and the load goes on with the next.

use vstd::prelude::*;
use vstd::string::StringExecFns;
use crate::error::AppError;

verus! {

/// The failure of a load whose source could not be opened: one
/// `ConfigError` for the whole load, with the reason behind a fixed
/// beginning. No row is counted in that case.
pub fn source_unavailable(reason: &str) -> (error: AppError)
    ensures
        error is ConfigError,
        error->ConfigError_0@ == "Failed to open CSV file: "@ + reason@,
{
    let mut text = String::from_str("Failed to open CSV file: ");
    text.append(reason);
    AppError::ConfigError(text)
}

/// What became of one row of the source.
#[derive(Clone, Copy, Debug, PartialEq, Eq, Structural)]
pub enum RowEvent {
    /// The row could not be decoded into the data for a new record. It was
    /// not submitted.
    Undecodable,
    /// The row was submitted and the endpoint answered with this status.
    Answered(u16),
    /// The row was submitted and no answer came back.
    Unreachable,
}

impl RowEvent {
    /// Whether the row was created: the endpoint answered with a status of
    /// success, one from 200 to 299.
    pub open spec fn is_accepted(self) -> bool {
        match self {
            RowEvent::Answered(status) => 200 <= status <= 299,
            _ => false,
        }
    }

    /// Whether the row was created.
    pub fn accepted(self) -> (accepted: bool)
        ensures
            accepted == self.is_accepted(),
    {
        match self {
            RowEvent::Answered(status) => 200 <= status && status <= 299,
            _ => false,
        }
    }
}

/// The number of rows among `events` that were created.
pub open spec fn accepted_count(events: Seq<RowEvent>) -> nat
    decreases events.len(),
{
    if events.len() == 0 {
        0
    } else {
        accepted_count(events.drop_last()) + if events.last().is_accepted() {
            1nat
        } else {
            0nat
        }
    }
}

/// The number of rows among `events` that were not created, for whatever
/// reason.
pub open spec fn failed_count(events: Seq<RowEvent>) -> nat
    decreases events.len(),
{
    if events.len() == 0 {
        0
    } else {
        failed_count(events.drop_last()) + if events.last().is_accepted() {
            0nat
        } else {
            1nat
        }
    }
}

/// Every row is counted once, as created or as failed.
pub proof fn lemma_every_row_is_counted(events: Seq<RowEvent>)
    ensures
        accepted_count(events) + failed_count(events) == events.len(),
    decreases events.len(),
{
    if events.len() > 0 {
        lemma_every_row_is_counted(events.drop_last());
    }
}

/// One more row changes the counts by that row alone, whatever the row is:
/// a failed row adds one failure and leaves the count of created rows as it
/// was.
pub proof fn lemma_one_more_row(events: Seq<RowEvent>, event: RowEvent)
    ensures
        accepted_count(events.push(event)) == accepted_count(events) + if event.is_accepted() {
            1nat
        } else {
            0nat
        },
        failed_count(events.push(event)) == failed_count(events) + if event.is_accepted() {
            0nat
        } else {
            1nat
        },
{
    assert(events.push(event).drop_last() == events);
}

/// The counts of a load: the rows that were created, and the rows that were
/// not.
#[derive(Clone, Copy, Debug, PartialEq, Eq, Structural)]
pub struct LoadTally {
    pub success_count: usize,
    pub error_count: usize,
}

impl LoadTally {
    /// The number of rows that were counted.
    pub open spec fn rows(self) -> nat {
        (self.success_count + self.error_count) as nat
    }

    /// The counts after one more row.
    pub open spec fn with(self, event: RowEvent) -> (nat, nat) {
        if event.is_accepted() {
            ((self.success_count + 1) as nat, self.error_count as nat)
        } else {
            (self.success_count as nat, (self.error_count + 1) as nat)
        }
    }

    /// The counts before the first row.
    pub fn new() -> (tally: Self)
        ensures
            tally.success_count == 0,
            tally.error_count == 0,
    {
        LoadTally { success_count: 0, error_count: 0 }
    }

    /// Counts one row: as created if the endpoint answered with a status of
    /// success, as failed in every other case.
    pub fn record(&mut self, event: RowEvent)
        requires
            old(self).rows() < usize::MAX,
        ensures
            (final(self).success_count as nat, final(self).error_count as nat) == old(self).with(
                event,
            ),
            final(self).rows() == old(self).rows() + 1,
    {
        if event.accepted() {
            self.success_count = self.success_count + 1;
        } else {
            self.error_count = self.error_count + 1;
        }
    }

    /// Whether one more row can be counted.
    pub fn has_room(&self) -> (room: bool)
        ensures
            room == (self.rows() < usize::MAX),
    {
        self.success_count < usize::MAX - self.error_count
    }

    /// The counts of two loads together.
    pub fn combined(self, other: LoadTally) -> (sum: LoadTally)
        requires
            self.rows() + other.rows() <= usize::MAX,
        ensures
            sum.success_count == self.success_count + other.success_count,
            sum.error_count == self.error_count + other.error_count,
    {
        LoadTally {
            success_count: self.success_count + other.success_count,
            error_count: self.error_count + other.error_count,
        }
    }

    /// The counts of two loads together, or `None` where they do not fit.
    pub fn checked_combined(self, other: LoadTally) -> (sum: Option<LoadTally>)
        ensures
            sum is Some <==> self.rows() + other.rows() <= usize::MAX,
            sum is Some ==> sum->0.success_count == self.success_count + other.success_count
                && sum->0.error_count == self.error_count + other.error_count,
    {
        if self.has_room_for(other) {
            Some(self.combined(other))
        } else {
            None
        }
    }

    /// Whether the counts of `other` can be added to these.
    fn has_room_for(&self, other: LoadTally) -> (room: bool)
        ensures
            room == (self.rows() + other.rows() <= usize::MAX),
    {
        if self.success_count > usize::MAX - self.error_count {
            return false;
        }
        let mine: usize = self.success_count + self.error_count;
        if other.success_count > usize::MAX - other.error_count {
            return false;
        }
        let theirs: usize = other.success_count + other.error_count;
        mine <= usize::MAX - theirs
    }

    /// The counts as a pair: created rows first.
    pub fn counts(&self) -> (pair: (usize, usize))
        ensures
            pair == (self.success_count, self.error_count),
    {
        (self.success_count, self.error_count)
    }
}

/// The counts of a whole load, from what became of each of its rows: the
/// number of rows that were created and the number of all the others.
pub fn tally(events: &Vec<RowEvent>) -> (counts: LoadTally)
    ensures
        counts.success_count == accepted_count(events@),
        counts.error_count == failed_count(events@),
        counts.rows() == events@.len(),
{
    let mut counts = LoadTally::new();
    let mut at: usize = 0;
    while at < events.len()
        invariant
            at <= events.len(),
            counts.success_count == accepted_count(events@.take(at as int)),
            counts.error_count == failed_count(events@.take(at as int)),
        decreases events.len() - at,
    {
        proof {
            lemma_every_row_is_counted(events@.take(at as int));
            lemma_one_more_row(events@.take(at as int), events@[at as int]);
            assert(events@.take(at + 1) == events@.take(at as int).push(events@[at as int]));
        }
        counts.record(events[at]);
        at += 1;
    }
    proof {
        assert(events@.take(at as int) == events@);
        lemma_every_row_is_counted(events@);
    }
    counts
}

} // verus!
