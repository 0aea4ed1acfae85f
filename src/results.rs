//! Poll results: totals, percentages, bar lengths and leading choices. Pure
//! queries over a poll's tallies.
//!
//! Percentages are given in tenths of a percent and bars in blocks of five
//! percent, both rounded to nearest with halves rounded up, so that they are
//! exact integers.
use vstd::prelude::*;

use crate::model::{counts_nonnegative, sum_of, tallies, Poll, MAX_CHOICES};

verus! {

/// The largest tally, or 0 where there are none.
pub open spec fn max_of(counts: Seq<int>) -> int
    decreases counts.len(),
{
    if counts.len() == 0 {
        0
    } else {
        let m = max_of(counts.drop_last());
        if counts.last() > m {
            counts.last()
        } else {
            m
        }
    }
}

/// `count` out of `total` in tenths of a percent, rounded half up; 0 where
/// nobody voted.
pub open spec fn percent_tenths_spec(count: int, total: int) -> int {
    if total > 0 {
        (2000 * count + total) / (2 * total)
    } else {
        0
    }
}

/// Blocks of a bar, one per five percent, rounded half up; 0 where nobody
/// voted.
pub open spec fn bar_length_spec(count: int, total: int) -> int {
    if total > 0 {
        (40 * count + total) / (2 * total)
    } else {
        0
    }
}

/// A choice leads when its tally equals the largest and someone voted.
pub open spec fn leading_spec(count: int, max: int) -> bool {
    count == max && max > 0
}

/// Tallies that a well-formed poll may hold.
pub open spec fn tallies_in_range(counts: Seq<i32>) -> bool {
    counts.len() <= MAX_CHOICES && counts_nonnegative(counts)
}

proof fn lemma_sum_bounds(counts: Seq<i32>)
    requires
        counts_nonnegative(counts),
    ensures
        0 <= sum_of(tallies(counts)) <= counts.len() * i32::MAX,
        forall|i: int| 0 <= i < counts.len() ==> counts[i] <= sum_of(tallies(counts)),
    decreases counts.len(),
{
    if counts.len() > 0 {
        let rest = counts.drop_last();
        assert(tallies(counts).drop_last() =~= tallies(rest));
        lemma_sum_bounds(rest);
        assert forall|i: int| 0 <= i < counts.len() implies counts[i] <= sum_of(
            tallies(counts),
        ) by {
            if i < counts.len() - 1 {
                assert(counts[i] == rest[i]);
            }
        }
    }
}

/// The total number of votes.
pub fn total_votes(counts: &Vec<i32>) -> (r: i64)
    requires
        tallies_in_range(counts@),
    ensures
        r == sum_of(tallies(counts@)),
{
    let mut total: i64 = 0;
    let mut i: usize = 0;
    while i < counts.len()
        invariant
            tallies_in_range(counts@),
            0 <= i <= counts@.len(),
            total == sum_of(tallies(counts@.subrange(0, i as int))),
        decreases counts@.len() - i,
    {
        proof {
            lemma_sum_bounds(counts@.subrange(0, i as int));
        }
        total = total + counts[i] as i64;
        i = i + 1;
        proof {
            let s = counts@.subrange(0, i as int);
            assert(s.drop_last() =~= counts@.subrange(0, i - 1));
            assert(tallies(s).drop_last() =~= tallies(s.drop_last()));
        }
    }
    assert(counts@.subrange(0, counts@.len() as int) =~= counts@);
    total
}

/// The largest tally, 0 where there are none.
pub fn max_votes(counts: &Vec<i32>) -> (r: i32)
    requires
        counts_nonnegative(counts@),
    ensures
        r == max_of(tallies(counts@)),
{
    let mut best: i32 = 0;
    let mut i: usize = 0;
    while i < counts.len()
        invariant
            counts_nonnegative(counts@),
            0 <= i <= counts@.len(),
            best == max_of(tallies(counts@.subrange(0, i as int))),
        decreases counts@.len() - i,
    {
        if counts[i] > best {
            best = counts[i];
        }
        i = i + 1;
        proof {
            let s = counts@.subrange(0, i as int);
            assert(s.drop_last() =~= counts@.subrange(0, i - 1));
            assert(tallies(s).drop_last() =~= tallies(s.drop_last()));
        }
    }
    assert(counts@.subrange(0, counts@.len() as int) =~= counts@);
    best
}

/// The largest total of a well-formed poll.
pub const MAX_TOTAL: i64 = 4 * 2147483647;

/// `count` out of `total` votes in tenths of a percent (250 for 25.0%).
pub fn percent_tenths(count: i64, total: i64) -> (r: u32)
    requires
        0 <= count <= total <= MAX_TOTAL,
    ensures
        r == percent_tenths_spec(count as int, total as int),
        r <= 1000,
{
    if total > 0 {
        let q = (2000 * count + total) / (2 * total);
        assert(q <= 1000) by (nonlinear_arith)
            requires
                q == (2000 * count + total) / (2 * total),
                0 <= count <= total,
                total > 0,
        {
            assert(2000 * count + total < 2 * total * 1001);
        }
        q as u32
    } else {
        0
    }
}

/// The length of a result bar, one block per five percent of `total`.
pub fn bar_length(count: i64, total: i64) -> (r: usize)
    requires
        0 <= count <= total <= MAX_TOTAL,
    ensures
        r == bar_length_spec(count as int, total as int),
        r <= 20,
{
    if total > 0 {
        let q = (40 * count + total) / (2 * total);
        assert(q <= 20) by (nonlinear_arith)
            requires
                q == (40 * count + total) / (2 * total),
                0 <= count <= total,
                total > 0,
        {
            assert(40 * count + total < 2 * total * 21);
        }
        q as usize
    } else {
        0
    }
}

/// Whether a choice with `count` votes leads where the largest tally is `max`.
pub fn is_leading(count: i32, max: i32) -> (r: bool)
    ensures
        r == leading_spec(count as int, max as int),
{
    count == max && max > 0
}

/// The result of one choice of a poll.
#[derive(Debug, Clone)]
pub struct ChoiceResult {
    pub label: String,
    pub count: i32,
    /// Share of the votes in tenths of a percent.
    pub percent_tenths: u32,
    /// Blocks of the result bar, one per five percent.
    pub bar_length: usize,
    pub leading: bool,
}

/// `res` is the result of the choice at position `j` of `poll`.
pub open spec fn choice_result_of(poll: Poll, j: int, res: ChoiceResult) -> bool {
    let counts = tallies(poll.vote_counts@);
    let total = sum_of(counts);
    &&& res.label == poll.choices@[j]
    &&& res.count == poll.vote_counts@[j]
    &&& res.percent_tenths == percent_tenths_spec(counts[j], total)
    &&& res.bar_length == bar_length_spec(counts[j], total)
    &&& res.leading == leading_spec(counts[j], max_of(counts))
}

/// The result of each choice of a poll, in choice order.
pub fn poll_results(poll: &Poll) -> (r: Vec<ChoiceResult>)
    requires
        poll.wf(),
    ensures
        r@.len() == poll.choices@.len(),
        forall|j: int| 0 <= j < r@.len() ==> choice_result_of(*poll, j, #[trigger] r@[j]),
{
    let total = total_votes(&poll.vote_counts);
    let max = max_votes(&poll.vote_counts);
    proof {
        lemma_sum_bounds(poll.vote_counts@);
    }
    let mut out: Vec<ChoiceResult> = Vec::new();
    let mut j: usize = 0;
    while j < poll.choices.len()
        invariant
            poll.wf(),
            total == sum_of(tallies(poll.vote_counts@)),
            0 <= total <= MAX_TOTAL,
            forall|i: int| 0 <= i < poll.vote_counts@.len() ==> poll.vote_counts@[i] <= total,
            max == max_of(tallies(poll.vote_counts@)),
            0 <= j <= poll.choices@.len(),
            out@.len() == j,
            forall|i: int| 0 <= i < j ==> choice_result_of(*poll, i, #[trigger] out@[i]),
        decreases poll.choices@.len() - j,
    {
        let count = poll.vote_counts[j];
        out.push(
            ChoiceResult {
                label: poll.choices[j].clone(),
                count,
                percent_tenths: percent_tenths(count as i64, total),
                bar_length: bar_length(count as i64, total),
                leading: is_leading(count, max),
            },
        );
        j = j + 1;
    }
    out
}

} // verus!
