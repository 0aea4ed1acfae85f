use pollster::polls::{
    build_poll, check_choice_count, check_updated, create, deadline_after_days, ids_to_query,
    select_poll, voted_polls_query, MICROS_PER_DAY,
};
use pollster::{Invalid, Poll, PollError, User};

fn labels(items: &[&str]) -> Vec<String> {
    items.iter().map(|s| s.to_string()).collect()
}

fn user_with(id: u128, voted: Vec<u128>) -> User {
    User { id, username: "tester".to_string(), user_creation_time: 0, voted_polls: voted }
}

#[test]
fn test_create_poll_and_view() {
    let user = user_with(7, vec![]);
    let poll = create(
        "What's your favorite Rust feature?".to_string(),
        labels(&["Ownership", "Borrow Checker"]),
        7,
        user.id,
    )
    .unwrap();
    assert_eq!(poll.question, "What's your favorite Rust feature?");
    assert_eq!(poll.choices.len(), 2);
    assert_eq!(poll.vote_counts, vec![0, 0]);
    assert_eq!(poll.created_by, user.id);
    assert_eq!(poll.deadline, Some(poll.creation_time + 7 * MICROS_PER_DAY));
}

#[test]
fn create_gives_zero_tallies_for_each_valid_count() {
    for n in 1..=4usize {
        let choices: Vec<String> = (0..n).map(|i| format!("choice {}", i)).collect();
        let poll = build_poll(1, "q".to_string(), choices.clone(), None, 10, 2).unwrap();
        assert_eq!(poll.vote_counts, vec![0; n]);
        assert_eq!(poll.choices, choices);
        assert!(poll.is_well_formed());
    }
}

#[test]
fn create_refuses_zero_or_more_than_four_choices() {
    let none = build_poll(1, "q".to_string(), vec![], None, 10, 2);
    assert_eq!(none.unwrap_err(), PollError::Validation(Invalid::ChoiceCount));
    let five = create("q".to_string(), labels(&["a", "b", "c", "d", "e"]), 0, 2);
    assert_eq!(five.unwrap_err(), PollError::Validation(Invalid::ChoiceCount));
    assert_eq!(check_choice_count(0), Err(PollError::Validation(Invalid::ChoiceCount)));
    assert_eq!(check_choice_count(5), Err(PollError::Validation(Invalid::ChoiceCount)));
    assert_eq!(check_choice_count(4), Ok(()));
    assert_eq!(check_choice_count(1), Ok(()));
}

#[test]
fn create_uses_fresh_identifiers_and_the_clock() {
    let a = create("q".to_string(), labels(&["x"]), 0, 3).unwrap();
    let b = create("q".to_string(), labels(&["x"]), 0, 3).unwrap();
    assert_ne!(a.id, b.id);
    assert!(a.creation_time > 0);
    assert_eq!(a.deadline, None);
}

#[test]
fn deadline_counts_whole_days() {
    assert_eq!(deadline_after_days(1_000, 0), None);
    assert_eq!(deadline_after_days(1_000, 1), Some(1_000 + 86_400_000_000));
    assert_eq!(deadline_after_days(0, 255), Some(255 * 86_400_000_000));
    assert_eq!(deadline_after_days(i64::MAX - 10, 1), None);
}

#[test]
fn select_poll_takes_one_based_selectors() {
    let p = build_poll(1, "q".to_string(), labels(&["a"]), None, 0, 2).unwrap();
    let polls: Vec<Poll> = vec![p.clone(), p.clone(), p];
    assert_eq!(select_poll(&polls, 1), Ok(0));
    assert_eq!(select_poll(&polls, 3), Ok(2));
    assert_eq!(select_poll(&polls, 0), Err(PollError::Validation(Invalid::Selector)));
    assert_eq!(select_poll(&polls, 4), Err(PollError::Validation(Invalid::Selector)));
}

#[test]
fn empty_id_set_needs_no_query() {
    assert_eq!(ids_to_query(&vec![]), None);
    assert_eq!(ids_to_query(&vec![5, 9]), Some(vec![5, 9]));
}

#[test]
fn test_view_voted_polls_returns_voted_only() {
    let mut user = user_with(1, vec![]);
    assert_eq!(voted_polls_query(&user), None);
    user.voted_polls.push(42);
    assert_eq!(voted_polls_query(&user), Some(vec![42]));
}

#[test]
fn missing_poll_on_update_is_not_found() {
    assert_eq!(check_updated(0), Err(PollError::NotFound));
    assert_eq!(check_updated(1), Ok(()));
}

#[test]
fn well_formedness_check_rejects_bad_rows() {
    let mut p = build_poll(1, "q".to_string(), labels(&["a", "b"]), None, 0, 2).unwrap();
    assert!(p.is_well_formed());
    p.vote_counts = vec![0];
    assert!(!p.is_well_formed());
    p.vote_counts = vec![0, -1];
    assert!(!p.is_well_formed());
}
