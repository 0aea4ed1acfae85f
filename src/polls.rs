//! The poll store's rules: what a new poll holds, when creation is refused,
//! how a listed poll is selected, and when a lookup needs no query.
use vstd::prelude::*;

use crate::model::{all_zero, valid_choice_count, Invalid, Poll, PollError, User};
use crate::platform::{fresh_id, now_micros};

verus! {

/// Number of microseconds in one day.
pub const MICROS_PER_DAY: i64 = 86_400_000_000;

/// Refuses a choice count outside one to four.
pub fn check_choice_count(n: usize) -> (r: Result<(), PollError>)
    ensures
        r is Ok <==> valid_choice_count(n as int),
        r is Err ==> r == Err::<(), PollError>(PollError::Validation(Invalid::ChoiceCount)),
{
    if n < crate::model::MIN_CHOICES || n > crate::model::MAX_CHOICES {
        Err(PollError::Validation(Invalid::ChoiceCount))
    } else {
        Ok(())
    }
}

/// The deadline `days` whole days after `now`; none for zero days, or where
/// it would not fit in a timestamp.
pub open spec fn deadline_spec(now: int, days: int) -> Option<i64> {
    if days == 0 || now + days * MICROS_PER_DAY > i64::MAX {
        None
    } else {
        Some((now + days * MICROS_PER_DAY) as i64)
    }
}

/// Computes the deadline `days` days after the timestamp `now`.
pub fn deadline_after_days(now: i64, days: u8) -> (r: Option<i64>)
    ensures
        r == deadline_spec(now as int, days as int),
{
    if days == 0 {
        return None;
    }
    let span: i64 = days as i64 * MICROS_PER_DAY;
    if now > i64::MAX - span {
        None
    } else {
        Some(now + span)
    }
}

/// `n` zero tallies.
fn zero_counts(n: usize) -> (r: Vec<i32>)
    ensures
        r@.len() == n,
        all_zero(r@),
{
    let mut counts: Vec<i32> = Vec::new();
    let mut i: usize = 0;
    while i < n
        invariant
            0 <= i <= n,
            counts@.len() == i,
            all_zero(counts@),
        decreases n - i,
    {
        counts.push(0);
        i = i + 1;
    }
    counts
}

/// The poll that creation stores: the given fields, no votes yet.
pub open spec fn fresh_poll(
    poll: Poll,
    id: u128,
    question: Seq<char>,
    choices: Seq<String>,
    deadline: Option<i64>,
    now: i64,
    creator: u128,
) -> bool {
    &&& poll.id == id
    &&& poll.question@ == question
    &&& poll.choices@ == choices
    &&& poll.vote_counts@.len() == choices.len()
    &&& all_zero(poll.vote_counts@)
    &&& poll.creation_time == now
    &&& poll.deadline == deadline
    &&& poll.created_by == creator
}

/// Builds a new poll from its fields, refusing a choice count outside one to
/// four.
pub fn build_poll(
    id: u128,
    question: String,
    choices: Vec<String>,
    deadline: Option<i64>,
    now: i64,
    creator: u128,
) -> (r: Result<Poll, PollError>)
    ensures
        r is Ok <==> valid_choice_count(choices@.len() as int),
        r is Err ==> r == Err::<Poll, PollError>(PollError::Validation(Invalid::ChoiceCount)),
        r matches Ok(poll) ==> poll.wf() && fresh_poll(
            poll,
            id,
            question@,
            choices@,
            deadline,
            now,
            creator,
        ),
{
    check_choice_count(choices.len())?;
    let vote_counts = zero_counts(choices.len());
    Ok(
        Poll {
            id,
            question,
            choices,
            vote_counts,
            creation_time: now,
            deadline,
            created_by: creator,
        },
    )
}

/// Creates a poll by `creator` with a fresh identifier, the current time, and
/// a deadline `deadline_days` days on (none for zero).
pub fn create(question: String, choices: Vec<String>, deadline_days: u8, creator: u128) -> (r:
    Result<Poll, PollError>)
    ensures
        r is Ok <==> valid_choice_count(choices@.len() as int),
        r is Err ==> r == Err::<Poll, PollError>(PollError::Validation(Invalid::ChoiceCount)),
        r matches Ok(poll) ==> {
            &&& poll.wf()
            &&& poll.creation_time >= 0
            &&& fresh_poll(
                poll,
                poll.id,
                question@,
                choices@,
                deadline_spec(poll.creation_time as int, deadline_days as int),
                poll.creation_time,
                creator,
            )
        },
{
    check_choice_count(choices.len())?;
    let id = fresh_id();
    let now = now_micros();
    let deadline = deadline_after_days(now, deadline_days);
    build_poll(id, question, choices, deadline, now, creator)
}

/// Picks the poll named by a 1-based selector from a listing, as a 0-based
/// position.
pub fn select_poll(polls: &Vec<Poll>, selector: usize) -> (r: Result<usize, PollError>)
    ensures
        r is Ok <==> 1 <= selector <= polls@.len(),
        r matches Ok(i) ==> i == selector - 1,
        r is Err ==> r == Err::<usize, PollError>(PollError::Validation(Invalid::Selector)),
{
    if selector == 0 || selector > polls.len() {
        Err(PollError::Validation(Invalid::Selector))
    } else {
        Ok(selector - 1)
    }
}

/// The identifiers to look polls up by, or none where the set is empty and
/// no query is to be issued.
pub fn ids_to_query(ids: &Vec<u128>) -> (r: Option<Vec<u128>>)
    ensures
        r is None <==> ids@.len() == 0,
        r matches Some(q) ==> q@ == ids@,
{
    if ids.len() == 0 {
        None
    } else {
        let mut q: Vec<u128> = Vec::new();
        let mut i: usize = 0;
        while i < ids.len()
            invariant
                0 <= i <= ids@.len(),
                q@ == ids@.subrange(0, i as int),
            decreases ids@.len() - i,
        {
            q.push(ids[i]);
            i = i + 1;
            assert(q@ =~= ids@.subrange(0, i as int));
        }
        assert(q@ =~= ids@);
        Some(q)
    }
}

/// The polls a participant has voted in are looked up by their identifiers,
/// with no query where there are none.
pub fn voted_polls_query(user: &User) -> (r: Option<Vec<u128>>)
    ensures
        r is None <==> user.voted_polls@.len() == 0,
        r matches Some(q) ==> q@ == user.voted_polls@,
{
    ids_to_query(&user.voted_polls)
}

/// Turns the number of rows a tally update touched into its outcome: no row
/// means no poll with that identifier.
pub fn check_updated(rows_affected: u64) -> (r: Result<(), PollError>)
    ensures
        r is Ok <==> rows_affected > 0,
        r is Err ==> r == Err::<(), PollError>(PollError::NotFound),
{
    if rows_affected == 0 {
        Err(PollError::NotFound)
    } else {
        Ok(())
    }
}

} // verus!
