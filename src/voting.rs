//! The vote state transition: one vote per participant per poll, one more
//! vote for exactly one choice.
use vstd::prelude::*;

use crate::model::{increment, sum_of, tallies, Poll, PollError, User};
use crate::registry::record_vote;

verus! {

/// What an accepted vote reports back.
#[derive(Debug, Clone)]
pub struct VoteReceipt {
    pub poll_id: u128,
    /// 0-based position of the chosen choice.
    pub position: usize,
    /// Label of the chosen choice.
    pub label: String,
    /// Tally of the chosen choice after the vote.
    pub new_count: i32,
}

/// A 1-based choice selector that names a choice of the poll.
pub open spec fn choice_in_range(poll: Poll, choice_index: int) -> bool {
    1 <= choice_index <= poll.choices@.len()
}

/// The poll after a vote: only the chosen tally changes, by one.
pub open spec fn voted_poll(before: Poll, after: Poll, k: int) -> bool {
    &&& after.vote_counts@ == before.vote_counts@.update(k, (before.vote_counts@[k] + 1) as i32)
    &&& tallies(after.vote_counts@) == increment(tallies(before.vote_counts@), k)
    &&& after.id == before.id
    &&& after.question == before.question
    &&& after.choices == before.choices
    &&& after.creation_time == before.creation_time
    &&& after.deadline == before.deadline
    &&& after.created_by == before.created_by
}

/// The participant after a vote: the poll's identifier appended once.
pub open spec fn voted_user(before: User, after: User, poll_id: u128) -> bool {
    &&& after.voted_polls@ == before.voted_polls@.push(poll_id)
    &&& after.id == before.id
    &&& after.username == before.username
    &&& after.user_creation_time == before.user_creation_time
}

/// Casts a vote of `user` for the choice at 1-based `choice_index` of the
/// snapshot `poll`, updating both in place.
///
/// A participant who has voted in the poll already is refused first, then a
/// selector outside the choices; a refused vote changes nothing.
pub fn cast_vote(user: &mut User, poll: &mut Poll, choice_index: usize) -> (r: Result<
    VoteReceipt,
    PollError,
>)
    requires
        old(poll).wf(),
        choice_in_range(*old(poll), choice_index as int) ==> old(poll).vote_counts@[choice_index
            - 1] < i32::MAX,
    ensures
        final(poll).wf(),
        r is Ok <==> !old(user).has_voted(old(poll).id) && choice_in_range(
            *old(poll),
            choice_index as int,
        ),
        old(user).has_voted(old(poll).id) ==> r == Err::<VoteReceipt, PollError>(
            PollError::AlreadyVoted,
        ),
        !old(user).has_voted(old(poll).id) && !choice_in_range(*old(poll), choice_index as int)
            ==> r == Err::<VoteReceipt, PollError>(PollError::InvalidChoice),
        r is Err ==> *final(poll) == *old(poll) && *final(user) == *old(user),
        r matches Ok(receipt) ==> {
            &&& voted_poll(*old(poll), *final(poll), choice_index - 1)
            &&& voted_user(*old(user), *final(user), old(poll).id)
            &&& receipt.poll_id == old(poll).id
            &&& receipt.position == choice_index - 1
            &&& receipt.label == old(poll).choices@[choice_index - 1]
            &&& receipt.new_count == old(poll).vote_counts@[choice_index - 1] + 1
            &&& receipt.new_count == final(poll).vote_counts@[choice_index - 1]
        },
{
    if user.has_voted_in(poll.id) {
        return Err(PollError::AlreadyVoted);
    }
    if choice_index == 0 || choice_index > poll.choices.len() {
        return Err(PollError::InvalidChoice);
    }
    let k = choice_index - 1;
    let new_count = poll.vote_counts[k] + 1;
    poll.vote_counts.set(k, new_count);
    record_vote(user, poll.id);
    proof {
        assert(tallies(poll.vote_counts@) =~= increment(tallies(old(poll).vote_counts@), k as int));
    }
    Ok(VoteReceipt { poll_id: poll.id, position: k, label: poll.choices[k].clone(), new_count })
}

/// Once a vote in a poll is accepted, the participant counts as having voted
/// in it; `cast_vote` refuses any further vote there with `AlreadyVoted`.
pub proof fn lemma_second_vote_refused(before: User, after: User, poll_id: u128)
    requires
        voted_user(before, after, poll_id),
    ensures
        after.has_voted(poll_id),
{
    assert(after.voted_polls@[before.voted_polls@.len() as int] == poll_id);
}

/// How many of the votes name the choice at 0-based position `k`.
pub open spec fn occurrences(votes: Seq<int>, k: int) -> nat
    decreases votes.len(),
{
    if votes.len() == 0 {
        0
    } else {
        occurrences(votes.drop_last(), k) + if votes.last() == k {
            1nat
        } else {
            0nat
        }
    }
}

/// The tallies after each vote of `votes`, in order, was applied as an
/// increment of its choice.
pub open spec fn apply_votes(counts: Seq<int>, votes: Seq<int>) -> Seq<int>
    decreases votes.len(),
{
    if votes.len() == 0 {
        counts
    } else {
        increment(apply_votes(counts, votes.drop_last()), votes.last())
    }
}

/// Every vote names a choice of a poll with `n` choices.
pub open spec fn votes_in_range(votes: Seq<int>, n: int) -> bool {
    forall|i: int| 0 <= i < votes.len() ==> 0 <= #[trigger] votes[i] < n
}

proof fn lemma_sum_increment(counts: Seq<int>, k: int)
    requires
        0 <= k < counts.len(),
    ensures
        sum_of(increment(counts, k)) == sum_of(counts) + 1,
    decreases counts.len(),
{
    let after = increment(counts, k);
    if k == counts.len() - 1 {
        assert(after.drop_last() =~= counts.drop_last());
    } else {
        assert(after.drop_last() =~= increment(counts.drop_last(), k));
        lemma_sum_increment(counts.drop_last(), k);
    }
}

/// Votes applied as increments lose nothing: after any sequence of accepted
/// votes, each choice's tally has grown by the number of votes for it, and
/// the total has grown by the number of votes.
pub proof fn lemma_no_lost_updates(counts: Seq<int>, votes: Seq<int>)
    requires
        votes_in_range(votes, counts.len() as int),
    ensures
        apply_votes(counts, votes).len() == counts.len(),
        forall|k: int|
            0 <= k < counts.len() ==> #[trigger] apply_votes(counts, votes)[k] == counts[k]
                + occurrences(votes, k),
        sum_of(apply_votes(counts, votes)) == sum_of(counts) + votes.len(),
    decreases votes.len(),
{
    if votes.len() > 0 {
        let rest = votes.drop_last();
        assert(votes_in_range(rest, counts.len() as int)) by {
            assert forall|i: int| 0 <= i < rest.len() implies 0 <= #[trigger] rest[i]
                < counts.len() by {
                assert(rest[i] == votes[i]);
            }
        }
        lemma_no_lost_updates(counts, rest);
        assert(0 <= votes[votes.len() - 1] < counts.len());
        lemma_sum_increment(apply_votes(counts, rest), votes.last());
    }
}

/// The order in which votes arrive does not matter: two sequences holding
/// the same number of votes for each choice give the same tallies.
pub proof fn lemma_vote_order_irrelevant(counts: Seq<int>, votes1: Seq<int>, votes2: Seq<int>)
    requires
        votes_in_range(votes1, counts.len() as int),
        votes_in_range(votes2, counts.len() as int),
        forall|k: int| 0 <= k < counts.len() ==> occurrences(votes1, k) == occurrences(votes2, k),
    ensures
        apply_votes(counts, votes1) == apply_votes(counts, votes2),
{
    lemma_no_lost_updates(counts, votes1);
    lemma_no_lost_updates(counts, votes2);
    assert(apply_votes(counts, votes1) =~= apply_votes(counts, votes2));
}

} // verus!
