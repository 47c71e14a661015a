use planning_poker::db::{
    decide_submission, find_estimations, find_or_insert_user, find_session_with_initiator,
    finish_session, insert_update_estimation, restart_session, save_session, Store, StoreError,
    SubmitOutcome,
};
use planning_poker::engine::{
    callback_handler, classify_button, may_broadcast, message_handler, response_message,
    ButtonAction, StartError,
};

fn s(text: &str) -> String {
    text.to_string()
}

fn user(store: &mut Store, tg_id: u64, name: &str) -> usize {
    find_or_insert_user(store, tg_id, s(name), s(""), s("")).unwrap()
}

fn opened() -> (Store, usize, usize, usize) {
    let mut store = Store::new();
    let alice = user(&mut store, 100, "Alice");
    let bob = user(&mut store, 200, "Bob");
    let session = save_session(&mut store, -5, 11, s("Fix login bug"), s(""), alice).unwrap();
    (store, alice, bob, session)
}

fn values(store: &Store, session: usize) -> Vec<(String, String)> {
    find_estimations(store, session).into_iter().map(|e| (e.first_name, e.value)).collect()
}

#[test]
fn first_sighting_creates_and_later_ones_overwrite() {
    let mut store = Store::new();
    let id = find_or_insert_user(&mut store, 7, s("Bob"), s("B"), s("bob")).unwrap();
    assert_eq!(id, 1);
    let other = find_or_insert_user(&mut store, 8, s("Carol"), s(""), s("")).unwrap();
    assert_eq!(other, 2);
    let again = find_or_insert_user(&mut store, 7, s("Robert"), s(""), s("")).unwrap();
    assert_eq!(again, 1);
    assert_eq!(store.users.len(), 2);
    assert_eq!(store.users[0].first_name, "Robert");
    assert_eq!(store.users[0].last_name, "");
    assert_eq!(store.users[0].username, "");
    assert_eq!(store.users[0].tg_id, 7);
    assert_eq!(store.users[1].first_name, "Carol");
}

#[test]
fn session_is_created_open_and_found_by_its_anchor() {
    let (store, alice, _, session) = opened();
    assert_eq!(session, 1);
    let found = find_session_with_initiator(&store, -5, 11).unwrap();
    assert_eq!(found.session_id, 1);
    assert_eq!(found.title, "Fix login bug");
    assert_eq!(found.description, "");
    assert_eq!(found.finished, 0);
    assert_eq!(found.initiator_first_name, "Alice");
    assert_eq!(found.initiator_db_id, alice);
}

#[test]
fn second_session_on_one_anchor_is_a_conflict() {
    let (mut store, alice, _, _) = opened();
    let r = save_session(&mut store, -5, 11, s("Other"), s(""), alice);
    assert_eq!(r, Err(StoreError::Conflict));
    assert_eq!(store.sessions.len(), 1);
    assert_eq!(save_session(&mut store, -5, 12, s("Other"), s(""), alice), Ok(2));
    assert_eq!(save_session(&mut store, -6, 11, s("Other"), s(""), alice), Ok(3));
}

#[test]
fn session_of_an_unknown_initiator_is_refused() {
    let mut store = Store::new();
    assert_eq!(save_session(&mut store, 1, 1, s("T"), s(""), 1), Err(StoreError::NotFound));
    assert_eq!(save_session(&mut store, 1, 1, s("T"), s(""), 0), Err(StoreError::NotFound));
    assert!(store.sessions.is_empty());
}

#[test]
fn unknown_anchor_is_not_found() {
    let (store, _, _, _) = opened();
    assert_eq!(find_session_with_initiator(&store, -5, 12).err(), Some(StoreError::NotFound));
}

#[test]
fn estimation_for_unknown_session_or_participant_is_refused() {
    let (mut store, _, bob, session) = opened();
    assert_eq!(insert_update_estimation(&mut store, bob, 9, s("5")), Err(StoreError::NotFound));
    assert_eq!(insert_update_estimation(&mut store, 9, session, s("5")), Err(StoreError::NotFound));
    assert!(store.estimations.is_empty());
}

#[test]
fn store_that_ran_out_of_identifiers_is_full() {
    let (mut store, _, bob, session) = opened();
    store.next_estimation_id = usize::MAX;
    assert_eq!(insert_update_estimation(&mut store, bob, session, s("5")), Err(StoreError::Full));
    assert!(store.estimations.is_empty());
}

#[test]
fn resubmitting_the_same_value_is_no_op() {
    let (mut store, _, bob, session) = opened();
    assert_eq!(insert_update_estimation(&mut store, bob, session, s("5")), Ok(SubmitOutcome::Applied));
    let before = format!("{:?}", store);
    assert_eq!(insert_update_estimation(&mut store, bob, session, s("5")), Ok(SubmitOutcome::NoOp));
    assert_eq!(format!("{:?}", store), before);
    assert_eq!(values(&store, session), vec![(s("Bob"), s("5"))]);
}

#[test]
fn submitting_another_value_replaces_the_old_one() {
    let (mut store, _, bob, session) = opened();
    assert_eq!(insert_update_estimation(&mut store, bob, session, s("5")), Ok(SubmitOutcome::Applied));
    assert_eq!(insert_update_estimation(&mut store, bob, session, s("8")), Ok(SubmitOutcome::Applied));
    assert_eq!(values(&store, session), vec![(s("Bob"), s("8"))]);
    assert_eq!(store.estimations.len(), 1);
    assert_eq!(store.estimations[0].id, 1);
}

#[test]
fn each_participant_has_one_row_with_the_last_value() {
    let (mut store, alice, bob, session) = opened();
    let carol = user(&mut store, 300, "Carol");
    for (who, value) in [(bob, "5"), (carol, "8"), (alice, "1"), (bob, "13"), (carol, "8"), (bob, "2")] {
        insert_update_estimation(&mut store, who, session, s(value)).unwrap();
    }
    assert_eq!(
        values(&store, session),
        vec![(s("Bob"), s("2")), (s("Carol"), s("8")), (s("Alice"), s("1"))]
    );
}

#[test]
fn estimations_of_two_sessions_stay_apart() {
    let (mut store, alice, bob, first) = opened();
    let second = save_session(&mut store, -5, 20, s("Other"), s(""), alice).unwrap();
    insert_update_estimation(&mut store, bob, first, s("5")).unwrap();
    insert_update_estimation(&mut store, bob, second, s("8")).unwrap();
    assert_eq!(values(&store, first), vec![(s("Bob"), s("5"))]);
    assert_eq!(values(&store, second), vec![(s("Bob"), s("8"))]);
    assert_eq!(restart_session(&mut store, first), 1);
    assert!(values(&store, first).is_empty());
    assert_eq!(values(&store, second), vec![(s("Bob"), s("8"))]);
}

#[test]
fn restart_clears_votes_and_reopens() {
    let (mut store, alice, bob, session) = opened();
    insert_update_estimation(&mut store, bob, session, s("5")).unwrap();
    insert_update_estimation(&mut store, alice, session, s("8")).unwrap();
    finish_session(&mut store, session);
    assert_eq!(store.sessions[0].finished, 1);
    assert_eq!(restart_session(&mut store, session), 1);
    assert!(find_estimations(&store, session).is_empty());
    assert_eq!(store.sessions[0].finished, 0);
    assert_eq!(restart_session(&mut store, session), 1);
    assert_eq!(store.sessions[0].finished, 0);
    assert_eq!(restart_session(&mut store, 9), 0);
}

#[test]
fn finish_twice_gives_the_same_snapshot() {
    let (mut store, alice, bob, session) = opened();
    insert_update_estimation(&mut store, bob, session, s("5")).unwrap();
    insert_update_estimation(&mut store, alice, session, s("8")).unwrap();
    let once = format!("{:?}", finish_session(&mut store, session));
    let state = format!("{:?}", store);
    let twice = format!("{:?}", finish_session(&mut store, session));
    assert_eq!(once, twice);
    assert_eq!(format!("{:?}", store), state);
    assert_eq!(store.sessions[0].finished, 1);
}

#[test]
fn decision_compares_with_the_held_value() {
    assert_eq!(decide_submission(None, &s("5")), SubmitOutcome::Applied);
    assert_eq!(decide_submission(Some(&s("5")), &s("5")), SubmitOutcome::NoOp);
    assert_eq!(decide_submission(Some(&s("5")), &s("8")), SubmitOutcome::Applied);
}

#[test]
fn tokens_are_read_as_actions() {
    assert_eq!(classify_button("restart"), ButtonAction::Restart);
    assert_eq!(classify_button("finish"), ButtonAction::Finish);
    assert_eq!(classify_button("5"), ButtonAction::Estimate);
    assert_eq!(classify_button("Restart"), ButtonAction::Estimate);
    assert_eq!(classify_button(""), ButtonAction::Estimate);
}

#[test]
fn only_the_initiator_broadcasts_lifecycle_changes() {
    assert!(may_broadcast(1, 1, ButtonAction::Restart));
    assert!(may_broadcast(1, 1, ButtonAction::Finish));
    assert!(!may_broadcast(2, 1, ButtonAction::Restart));
    assert!(!may_broadcast(2, 1, ButtonAction::Finish));
    assert!(may_broadcast(2, 1, ButtonAction::Estimate));
}

#[test]
fn response_has_text_and_keyboard() {
    let display = response_message("T", "", "Alice", "", "", 1, None, false);
    assert_eq!(display.text, "Оценка задачи: T\n\nИнициатор: Alice\n\n");
    assert_eq!(display.keyboard.len(), 1);
    assert_eq!(display.keyboard[0][0].data, "restart");
}

#[test]
fn alice_starts_a_session() {
    let mut store = Store::new();
    let display =
        message_handler(&mut store, &s("Fix login bug"), 100, s("Alice"), s(""), s(""), -5, 10).unwrap();
    assert_eq!(display.text, "Оценка задачи: Fix login bug\n\nИнициатор: Alice\n\n");
    assert_eq!(display.keyboard.len(), 4);
    assert_eq!(display.keyboard[0].len(), 4);
    assert_eq!(display.keyboard[2].len(), 3);
    assert_eq!(display.keyboard[3][0].data, "restart");
    assert_eq!(display.keyboard[3][1].data, "finish");
    assert_eq!(store.sessions.len(), 1);
    assert_eq!(store.sessions[0].tg_message_id, 11);
    assert_eq!(store.sessions[0].title, "Fix login bug");
    assert_eq!(store.sessions[0].finished, 0);
    assert!(store.estimations.is_empty());
}

#[test]
fn start_with_description_keeps_both_parts() {
    let mut store = Store::new();
    let display =
        message_handler(&mut store, &s("T\nmore. text"), 100, s("Alice"), s(""), s(""), -5, 10).unwrap();
    assert_eq!(display.text, "Оценка задачи: T_\nmore\\. text_\n\nИнициатор: Alice\n\n");
    assert_eq!(store.sessions[0].title, "T");
    assert_eq!(store.sessions[0].description, "more. text");
}

#[test]
fn start_without_title_is_refused() {
    let mut store = Store::new();
    let r = message_handler(&mut store, &s(""), 100, s("Alice"), s(""), s(""), -5, 10);
    assert_eq!(r.err(), Some(StartError::MissingTitle));
    assert!(store.users.is_empty());
    assert!(store.sessions.is_empty());
}

#[test]
fn start_with_an_empty_first_line_is_refused() {
    let mut store = Store::new();
    let r = message_handler(&mut store, &s("\nonly a description"), 100, s("Alice"), s(""), s(""), -5, 10);
    assert_eq!(r.err(), Some(StartError::MissingTitle));
    assert!(store.users.is_empty());
    assert!(store.sessions.is_empty());
}

#[test]
fn start_on_a_used_anchor_is_a_conflict() {
    let mut store = Store::new();
    message_handler(&mut store, &s("T"), 100, s("Alice"), s(""), s(""), -5, 10).unwrap();
    let r = message_handler(&mut store, &s("U"), 100, s("Alice"), s(""), s(""), -5, 10);
    assert_eq!(r.err(), Some(StartError::Store(StoreError::Conflict)));
    assert_eq!(store.sessions.len(), 1);
}

#[test]
fn start_at_the_last_message_number_is_refused() {
    let mut store = Store::new();
    let r = message_handler(&mut store, &s("T"), 100, s("Alice"), s(""), s(""), -5, i32::MAX);
    assert_eq!(r.err(), Some(StartError::Store(StoreError::Full)));
    assert!(store.sessions.is_empty());
}

fn press(store: &mut Store, tg_id: u64, name: &str, token: &str) -> Option<String> {
    callback_handler(store, tg_id, s(name), s(""), s(""), -5, 11, Some(s(token)))
        .unwrap()
        .map(|d| d.text)
}

#[test]
fn bob_submits_five_twice() {
    let mut store = Store::new();
    message_handler(&mut store, &s("T"), 100, s("Alice"), s(""), s(""), -5, 10).unwrap();
    assert!(press(&mut store, 200, "Bob", "5").is_some());
    let before = format!("{:?}", store);
    assert_eq!(press(&mut store, 200, "Bob", "5"), None);
    assert_eq!(format!("{:?}", store), before);
    assert_eq!(values(&store, 1), vec![(s("Bob"), s("5"))]);
}

#[test]
fn bob_submits_five_then_eight() {
    let mut store = Store::new();
    message_handler(&mut store, &s("T"), 100, s("Alice"), s(""), s(""), -5, 10).unwrap();
    press(&mut store, 200, "Bob", "5");
    let shown = press(&mut store, 200, "Bob", "8").unwrap();
    assert_eq!(values(&store, 1), vec![(s("Bob"), s("8"))]);
    let head = "Оценка задачи: T\n\nИнициатор: Alice\n\nОценки:\n\n";
    let symbols = ["♦️", "♠️", "♣️", "♥️"];
    assert!(symbols.iter().any(|m| shown == format!("{}{} \\- Bob\n", head, m)));
    assert!(!shown.contains('8'));
}

#[test]
fn initiator_finishes_with_two_estimations() {
    let mut store = Store::new();
    message_handler(&mut store, &s("T"), 100, s("Alice"), s(""), s(""), -5, 10).unwrap();
    press(&mut store, 200, "Bob", "5");
    press(&mut store, 300, "Carol", "8");
    let display = callback_handler(&mut store, 100, s("Alice"), s(""), s(""), -5, 11, Some(s("finish")))
        .unwrap()
        .unwrap();
    assert_eq!(
        display.text,
        "Оценка задачи: T\n\nИнициатор: Alice\n\nОценки:\n\n5 \\- Bob\n8 \\- Carol\n"
    );
    assert_eq!(display.keyboard.len(), 1);
    assert_eq!(display.keyboard[0].len(), 1);
    assert_eq!(display.keyboard[0][0].label, "Перезапустить");
    assert_eq!(display.keyboard[0][0].data, "restart");
    assert_eq!(store.sessions[0].finished, 1);
}

#[test]
fn finish_by_another_participant_is_done_but_not_shown() {
    let mut store = Store::new();
    message_handler(&mut store, &s("T"), 100, s("Alice"), s(""), s(""), -5, 10).unwrap();
    press(&mut store, 200, "Bob", "5");
    assert_eq!(press(&mut store, 200, "Bob", "finish"), None);
    assert_eq!(store.sessions[0].finished, 1);
    assert_eq!(press(&mut store, 200, "Bob", "restart"), None);
    assert_eq!(store.sessions[0].finished, 0);
    assert!(store.estimations.is_empty());
}

#[test]
fn restart_by_the_initiator_shows_the_open_session() {
    let mut store = Store::new();
    message_handler(&mut store, &s("T"), 100, s("Alice"), s(""), s(""), -5, 10).unwrap();
    press(&mut store, 200, "Bob", "5");
    press(&mut store, 100, "Alice", "finish");
    let display = callback_handler(&mut store, 100, s("Alice"), s(""), s(""), -5, 11, Some(s("restart")))
        .unwrap()
        .unwrap();
    assert_eq!(display.text, "Оценка задачи: T\n\nИнициатор: Alice\n\n");
    assert_eq!(display.keyboard.len(), 4);
    assert!(find_estimations(&store, 1).is_empty());
    assert_eq!(store.sessions[0].finished, 0);
}

#[test]
fn press_without_token_changes_only_the_presser() {
    let mut store = Store::new();
    message_handler(&mut store, &s("T"), 100, s("Alice"), s(""), s(""), -5, 10).unwrap();
    let r = callback_handler(&mut store, 200, s("Bob"), s(""), s(""), -5, 11, None).unwrap();
    assert!(r.is_none());
    assert_eq!(store.users.len(), 2);
    assert!(store.estimations.is_empty());
}

#[test]
fn press_on_an_unknown_message_is_not_found() {
    let mut store = Store::new();
    let r = callback_handler(&mut store, 200, s("Bob"), s(""), s(""), -5, 11, Some(s("5")));
    assert_eq!(r.err(), Some(StoreError::NotFound));
}
