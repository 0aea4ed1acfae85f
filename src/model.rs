//! Polls, participants and the errors of the poll subsystem.
//!
//! Identifiers are 128-bit values (the numeric form of a UUID) and timestamps
//! are microseconds since the Unix epoch.
use vstd::prelude::*;

verus! {

/// The fewest choices a poll may offer.
pub const MIN_CHOICES: usize = 1;

/// The most choices a poll may offer.
pub const MAX_CHOICES: usize = 4;

/// A multiple-choice question with its per-choice tallies.
#[derive(Debug, Clone)]
pub struct Poll {
    pub id: u128,
    pub question: String,
    pub choices: Vec<String>,
    pub vote_counts: Vec<i32>,
    pub creation_time: i64,
    pub deadline: Option<i64>,
    pub created_by: u128,
}

/// A registered participant and the polls they have voted in.
#[derive(Debug, Clone)]
pub struct User {
    pub id: u128,
    pub username: String,
    pub user_creation_time: i64,
    pub voted_polls: Vec<u128>,
}

/// What made an input invalid.
#[derive(Debug, Clone, Copy, PartialEq, Eq, Structural)]
pub enum Invalid {
    /// A poll must have between one and four choices.
    ChoiceCount,
    /// A username is empty once trimmed and lowercased.
    EmptyUsername,
    /// A 1-based poll selector does not name a listed poll.
    Selector,
}

/// The failures of the poll subsystem (storage failures stay with the store).
#[derive(Debug, Clone, Copy, PartialEq, Eq, Structural)]
pub enum PollError {
    Validation(Invalid),
    NotFound,
    AlreadyVoted,
    InvalidChoice,
}

/// A choice count that a poll may have.
pub open spec fn valid_choice_count(n: int) -> bool {
    MIN_CHOICES <= n <= MAX_CHOICES
}

/// Every tally is non-negative.
pub open spec fn counts_nonnegative(counts: Seq<i32>) -> bool {
    forall|i: int| 0 <= i < counts.len() ==> counts[i] >= 0
}

/// Every tally is zero.
pub open spec fn all_zero(counts: Seq<i32>) -> bool {
    forall|i: int| 0 <= i < counts.len() ==> counts[i] == 0
}

/// Tallies read as mathematical integers.
pub open spec fn tallies(counts: Seq<i32>) -> Seq<int> {
    counts.map_values(|c: i32| c as int)
}

/// The sum of a sequence of tallies.
pub open spec fn sum_of(counts: Seq<int>) -> int
    decreases counts.len(),
{
    if counts.len() == 0 {
        0
    } else {
        sum_of(counts.drop_last()) + counts.last()
    }
}

/// The tallies after one more vote for the choice at 0-based position `k`.
pub open spec fn increment(counts: Seq<int>, k: int) -> Seq<int> {
    counts.update(k, counts[k] + 1)
}

impl Poll {
    /// One to four choices, one non-negative tally per choice.
    pub open spec fn wf(&self) -> bool {
        &&& valid_choice_count(self.choices@.len() as int)
        &&& self.vote_counts@.len() == self.choices@.len()
        &&& counts_nonnegative(self.vote_counts@)
    }

    /// Checks the poll invariant on a poll that came from outside the library.
    pub fn is_well_formed(&self) -> (r: bool)
        ensures
            r == self.wf(),
    {
        let n = self.choices.len();
        if n < MIN_CHOICES || n > MAX_CHOICES || self.vote_counts.len() != n {
            return false;
        }
        let mut i: usize = 0;
        while i < n
            invariant
                n == self.vote_counts@.len(),
                0 <= i <= n,
                counts_nonnegative(self.vote_counts@.subrange(0, i as int)),
            decreases n - i,
        {
            if self.vote_counts[i] < 0 {
                return false;
            }
            i = i + 1;
            assert(self.vote_counts@.subrange(0, i as int) =~= self.vote_counts@.subrange(
                0,
                i - 1,
            ).push(self.vote_counts@[i - 1]));
        }
        assert(self.vote_counts@.subrange(0, n as int) =~= self.vote_counts@);
        true
    }
}

impl User {
    /// The participant has voted in the poll with this identifier.
    pub open spec fn has_voted(&self, poll_id: u128) -> bool {
        self.voted_polls@.contains(poll_id)
    }

    /// Tells whether the participant has voted in the poll with this identifier.
    pub fn has_voted_in(&self, poll_id: u128) -> (r: bool)
        ensures
            r == self.has_voted(poll_id),
    {
        let mut i: usize = 0;
        while i < self.voted_polls.len()
            invariant
                0 <= i <= self.voted_polls@.len(),
                forall|j: int| 0 <= j < i ==> self.voted_polls@[j] != poll_id,
            decreases self.voted_polls@.len() - i,
        {
            if self.voted_polls[i] == poll_id {
                return true;
            }
            i = i + 1;
        }
        false
    }
}

} // verus!
