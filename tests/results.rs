use pollster::polls::build_poll;
use pollster::results::{bar_length, is_leading, max_votes, percent_tenths, poll_results, total_votes};
use pollster::Poll;

fn poll_with(counts: Vec<i32>) -> Poll {
    let choices: Vec<String> = (0..counts.len()).map(|i| format!("c{}", i + 1)).collect();
    let mut p = build_poll(1, "q".to_string(), choices, None, 0, 2).unwrap();
    p.vote_counts = counts;
    p
}

#[test]
fn calculates_percentage_correctly() {
    let count = 25;
    let total = 100;
    let percent = percent_tenths(count, total) as f64 / 10.0;
    assert_eq!(percent, 25.0);
}

#[test]
fn percentages_and_bars_of_three_one_zero() {
    let poll = poll_with(vec![3, 1, 0]);
    assert_eq!(total_votes(&poll.vote_counts), 4);
    let r = poll_results(&poll);
    let tenths: Vec<u32> = r.iter().map(|c| c.percent_tenths).collect();
    let bars: Vec<usize> = r.iter().map(|c| c.bar_length).collect();
    assert_eq!(tenths, vec![750, 250, 0]);
    assert_eq!(bars, vec![15, 5, 0]);
    let leading: Vec<bool> = r.iter().map(|c| c.leading).collect();
    assert_eq!(leading, vec![true, false, false]);
    assert_eq!(r[1].label, "c2");
    assert_eq!(r[1].count, 1);
}

#[test]
fn ties_are_all_leading() {
    let r = poll_results(&poll_with(vec![2, 2, 0]));
    let leading: Vec<bool> = r.iter().map(|c| c.leading).collect();
    assert_eq!(leading, vec![true, true, false]);
}

#[test]
fn no_votes_means_no_leader_and_empty_bars() {
    let poll = poll_with(vec![0, 0, 0]);
    assert_eq!(max_votes(&poll.vote_counts), 0);
    let r = poll_results(&poll);
    assert!(r.iter().all(|c| !c.leading && c.percent_tenths == 0 && c.bar_length == 0));
}

#[test]
fn rounding_goes_half_up() {
    assert_eq!(percent_tenths(1, 3), 333);
    assert_eq!(percent_tenths(2, 3), 667);
    assert_eq!(bar_length(1, 8), 3);
    assert_eq!(bar_length(1, 40), 1);
    assert_eq!(bar_length(1, 3), 7);
    assert_eq!(bar_length(5, 5), 20);
    assert_eq!(percent_tenths(0, 0), 0);
}

#[test]
fn largest_tallies_fit() {
    let big = i32::MAX;
    let poll = poll_with(vec![big, big, big, big]);
    assert_eq!(total_votes(&poll.vote_counts), 4 * big as i64);
    let r = poll_results(&poll);
    assert!(r.iter().all(|c| c.percent_tenths == 250 && c.bar_length == 5 && c.leading));
    assert!(is_leading(3, 3));
    assert!(!is_leading(0, 0));
}
