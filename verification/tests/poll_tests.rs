use passkey_polls::manage_polls;
use passkey_polls::poll_store::PollStore;
use passkey_polls::{Error, Session};

fn logged_in(user: u128) -> Session {
    let mut s = Session::new();
    s.user = Some(user);
    s
}

fn store_with_poll() -> PollStore {
    // One poll owned by user 1 with two options.
    let mut store = PollStore::new();
    store.create_poll(100, 1, "lunch", "where to eat", 1700000000).unwrap();
    store.create_option(201, 100, "pizza").unwrap();
    store.create_option(202, 100, "sushi").unwrap();
    store
}

#[test]
fn create_poll_rows() {
    let store = store_with_poll();
    let data = manage_polls::get_poll(&store, 100).unwrap();
    assert_eq!(data.title, "lunch");
    assert_eq!(data.description, "where to eat");
    assert!(data.is_active);
    assert_eq!(data.user_id, 1);
    assert_eq!(data.created_at, 1700000000);
    assert_eq!(data.options.len(), 2);
    assert_eq!(data.options[0].option_text, "pizza");
    assert_eq!(data.options[1].option_text, "sushi");
    assert_eq!(data.options[0].votes_count, 0);
}

#[test]
fn create_poll_duplicate_ids_fail() {
    let mut store = store_with_poll();
    assert!(matches!(
        store.create_poll(100, 2, "other", "", 0),
        Err(Error::DatabaseError)
    ));
    assert!(matches!(
        store.create_option(201, 100, "tacos"),
        Err(Error::DatabaseError)
    ));
    assert!(matches!(
        store.create_option(300, 999, "orphan"),
        Err(Error::DatabaseError)
    ));
}

#[test]
fn create_poll_handler_validates_request() {
    let mut store = PollStore::new();
    let anonymous = Session::new();
    let options = vec!["a".to_string(), "b".to_string()];
    assert!(matches!(
        manage_polls::create_poll(&mut store, &anonymous, "t", "d", &options, 0),
        Err(Error::Unauthorized)
    ));
    let session = logged_in(1);
    let one = vec!["only".to_string()];
    assert!(matches!(
        manage_polls::create_poll(&mut store, &session, "t", "d", &one, 0),
        Err(Error::InvalidPollOptions)
    ));
    let pid = manage_polls::create_poll(&mut store, &session, "t", "d", &options, 5).unwrap();
    let data = manage_polls::get_poll(&store, pid).unwrap();
    assert_eq!(data.user_id, 1);
    assert_eq!(data.options.len(), 2);
    assert_eq!(data.options[0].option_text, "a");
    assert_eq!(data.options[1].option_text, "b");
}

#[test]
fn get_poll_missing() {
    let store = PollStore::new();
    assert!(matches!(manage_polls::get_poll(&store, 1), Err(Error::PollNotFound)));
}

#[test]
fn vote_flow() {
    let mut store = store_with_poll();
    let session = logged_in(5);

    assert!(matches!(
        manage_polls::vote_poll(&mut store, &Session::new(), 100, 201),
        Err(Error::Unauthorized)
    ));
    assert!(matches!(
        manage_polls::vote_poll(&mut store, &session, 999, 201),
        Err(Error::PollNotFound)
    ));
    assert!(matches!(
        manage_polls::vote_poll(&mut store, &session, 100, 999),
        Err(Error::DatabaseError)
    ));

    manage_polls::vote_poll(&mut store, &session, 100, 201).unwrap();
    let data = manage_polls::get_poll(&store, 100).unwrap();
    assert_eq!(data.options[0].votes_count, 1);
    assert_eq!(data.options[1].votes_count, 0);

    // Voting again on the same poll, even for the other option, is
    // rejected.
    assert!(matches!(
        manage_polls::vote_poll(&mut store, &session, 100, 202),
        Err(Error::AlreadyVoted)
    ));
}

#[test]
fn vote_on_closed_poll_rejected() {
    let mut store = store_with_poll();
    let owner = logged_in(1);
    manage_polls::close_poll(&mut store, &owner, 100).unwrap();
    let voter = logged_in(5);
    assert!(matches!(
        manage_polls::vote_poll(&mut store, &voter, 100, 201),
        Err(Error::PollClosed)
    ));
}

#[test]
fn remove_vote_flow() {
    let mut store = store_with_poll();
    let session = logged_in(5);
    assert!(matches!(
        manage_polls::remove_vote(&mut store, &session, 100, 201),
        Err(Error::VoteNotFound)
    ));
    manage_polls::vote_poll(&mut store, &session, 100, 201).unwrap();
    manage_polls::remove_vote(&mut store, &session, 100, 201).unwrap();
    let data = manage_polls::get_poll(&store, 100).unwrap();
    assert_eq!(data.options[0].votes_count, 0);
    assert!(matches!(
        manage_polls::remove_vote(&mut store, &session, 100, 201),
        Err(Error::VoteNotFound)
    ));
}

#[test]
fn ownership_checks() {
    let store = store_with_poll();
    assert!(matches!(
        manage_polls::poll_valid_owner_authorized(&store, &Session::new(), 100),
        Err(Error::Unauthorized)
    ));
    assert!(matches!(
        manage_polls::poll_valid_owner_authorized(&store, &logged_in(2), 100),
        Err(Error::Unauthorized)
    ));
    assert!(matches!(
        manage_polls::poll_valid_owner_authorized(&store, &logged_in(1), 999),
        Err(Error::PollNotFound)
    ));
    assert!(manage_polls::poll_valid_owner_authorized(&store, &logged_in(1), 100).is_ok());
}

#[test]
fn close_poll_requires_owner() {
    let mut store = store_with_poll();
    assert!(matches!(
        manage_polls::close_poll(&mut store, &logged_in(2), 100),
        Err(Error::Unauthorized)
    ));
    manage_polls::close_poll(&mut store, &logged_in(1), 100).unwrap();
    let data = manage_polls::get_poll(&store, 100).unwrap();
    assert!(!data.is_active);
}

#[test]
fn reset_poll_clears_votes_and_counts() {
    let mut store = store_with_poll();
    manage_polls::vote_poll(&mut store, &logged_in(5), 100, 201).unwrap();
    manage_polls::vote_poll(&mut store, &logged_in(6), 100, 202).unwrap();
    manage_polls::reset_poll(&mut store, &logged_in(1), 100).unwrap();
    let data = manage_polls::get_poll(&store, 100).unwrap();
    assert_eq!(data.options[0].votes_count, 0);
    assert_eq!(data.options[1].votes_count, 0);
    // After the reset the users may vote again.
    manage_polls::vote_poll(&mut store, &logged_in(5), 100, 202).unwrap();
}

#[test]
fn delete_poll_removes_everything() {
    let mut store = store_with_poll();
    manage_polls::vote_poll(&mut store, &logged_in(5), 100, 201).unwrap();
    assert!(matches!(
        manage_polls::delete_poll(&mut store, &logged_in(2), 100),
        Err(Error::Unauthorized)
    ));
    manage_polls::delete_poll(&mut store, &logged_in(1), 100).unwrap();
    assert!(matches!(manage_polls::get_poll(&store, 100), Err(Error::PollNotFound)));
    assert!(matches!(
        manage_polls::delete_poll(&mut store, &logged_in(1), 100),
        Err(Error::PollNotFound)
    ));
}

#[test]
fn polls_brief_listing() {
    let mut store = store_with_poll();
    store.create_poll(101, 2, "coffee", "", 1).unwrap();
    store.create_poll(102, 1, "tea", "", 2).unwrap();
    let all = manage_polls::get_polls_brief(&store, None);
    assert_eq!(all.len(), 3);
    let mine = manage_polls::get_polls_brief(&store, Some(1));
    assert_eq!(mine.len(), 2);
    assert_eq!(mine[0].title, "lunch");
    assert_eq!(mine[1].title, "tea");
    let theirs = manage_polls::get_user_polls(&store, 2);
    assert_eq!(theirs.len(), 1);
    assert_eq!(theirs[0].title, "coffee");
}

#[test]
fn poll_results_winner_and_runner_up() {
    let mut store = PollStore::new();
    store.create_poll(100, 1, "best", "", 0).unwrap();
    store.create_option(201, 100, "a").unwrap();
    store.create_option(202, 100, "b").unwrap();
    store.create_option(203, 100, "c").unwrap();
    // a: 3 votes, b: 5 votes, c: 2 votes.
    for (voter, option) in [(1u128, 201u128), (2, 201), (3, 201), (4, 202), (5, 202), (6, 202), (7, 202), (8, 202), (9, 203), (10, 203)] {
        manage_polls::vote_poll(&mut store, &logged_in(voter), 100, option).unwrap();
    }
    let res = manage_polls::get_poll_results(&store, 100).unwrap();
    assert_eq!(res.title, "best");
    assert_eq!(res.total_votes, 10);
    assert_eq!(res.winner, Some(202));
    assert_eq!(res.runner_up, Some(201));
}

#[test]
fn poll_results_tie_picks_last() {
    let mut store = PollStore::new();
    store.create_poll(100, 1, "tie", "", 0).unwrap();
    store.create_option(201, 100, "a").unwrap();
    store.create_option(202, 100, "b").unwrap();
    manage_polls::vote_poll(&mut store, &logged_in(1), 100, 201).unwrap();
    manage_polls::vote_poll(&mut store, &logged_in(2), 100, 202).unwrap();
    let res = manage_polls::get_poll_results(&store, 100).unwrap();
    assert_eq!(res.total_votes, 2);
    assert_eq!(res.winner, Some(202));
    assert_eq!(res.runner_up, Some(201));
}

#[test]
fn poll_results_empty_and_missing() {
    let mut store = PollStore::new();
    assert!(matches!(
        manage_polls::get_poll_results(&store, 100),
        Err(Error::PollNotFound)
    ));
    store.create_poll(100, 1, "empty", "", 0).unwrap();
    let res = manage_polls::get_poll_results(&store, 100).unwrap();
    assert_eq!(res.total_votes, 0);
    assert_eq!(res.winner, None);
    assert_eq!(res.runner_up, None);
}

#[test]
fn increase_and_decrease_counts_directly() {
    let mut store = store_with_poll();
    store.increase_vote_count(201).unwrap();
    store.increase_vote_count(201).unwrap();
    store.decrease_vote_count(201).unwrap();
    let data = manage_polls::get_poll(&store, 100).unwrap();
    assert_eq!(data.options[0].votes_count, 1);
    // An id matching no option row changes nothing.
    store.increase_vote_count(999).unwrap();
    let data = manage_polls::get_poll(&store, 100).unwrap();
    assert_eq!(data.options[0].votes_count, 1);
    assert_eq!(data.options[1].votes_count, 0);
}

#[test]
fn has_user_voted_spans_whole_poll() {
    let mut store = store_with_poll();
    manage_polls::vote_poll(&mut store, &logged_in(5), 100, 201).unwrap();
    assert!(store.has_user_voted(202, 5, 100));
    assert!(!store.has_user_voted(201, 6, 100));
}
