use planning_poker::db::EstimationWithUser;
use planning_poker::render::{draw_picks, make_keyboard, render_text, render_text_with, Button};

fn vote(id: usize, value: &str, first_name: &str) -> EstimationWithUser {
    EstimationWithUser {
        id,
        value: value.to_string(),
        first_name: first_name.to_string(),
        last_name: String::new(),
        username: String::new(),
    }
}

fn pairs(rows: &Vec<Vec<Button>>) -> Vec<Vec<(String, String)>> {
    rows.iter()
        .map(|row| row.iter().map(|b| (b.label.clone(), b.data.clone())).collect())
        .collect()
}

fn value_row(values: &[&str]) -> Vec<(String, String)> {
    values.iter().map(|v| (v.to_string(), v.to_string())).collect()
}

#[test]
fn new_session_shows_title_initiator_and_no_votes() {
    let text = render_text("Fix login bug", "", "Alice", "", "", 0, None);
    assert_eq!(text, "Оценка задачи: Fix login bug\n\nИнициатор: Alice\n\n");
}

#[test]
fn new_session_has_the_full_keyboard() {
    let keyboard = pairs(&make_keyboard(0, false));
    let expected = vec![
        value_row(&["0", "1", "2", "3"]),
        value_row(&["5", "8", "13", "21"]),
        value_row(&["34", "55", "89"]),
        vec![
            ("Перезапустить".to_string(), "restart".to_string()),
            ("Завершить".to_string(), "finish".to_string()),
        ],
    ];
    assert_eq!(keyboard, expected);
}

#[test]
fn finished_session_has_restart_only() {
    let keyboard = pairs(&make_keyboard(1, false));
    assert_eq!(keyboard, vec![vec![("Перезапустить".to_string(), "restart".to_string())]]);
}

#[test]
fn restart_of_a_finished_session_has_the_full_keyboard() {
    assert_eq!(pairs(&make_keyboard(1, true)), pairs(&make_keyboard(0, false)));
    assert_eq!(make_keyboard(1, true).len(), 4);
}

#[test]
fn finished_session_reveals_values_in_order() {
    let votes = Some(vec![vote(1, "5", "Bob"), vote(2, "8", "Carol")]);
    let text = render_text("Fix login bug", "", "Alice", "", "", 1, votes);
    assert_eq!(
        text,
        "Оценка задачи: Fix login bug\n\nИнициатор: Alice\n\nОценки:\n\n5 \\- Bob\n8 \\- Carol\n"
    );
}

#[test]
fn hidden_votes_show_the_picked_symbols() {
    let votes = Some(vec![vote(1, "5", "Bob"), vote(2, "8", "Carol")]);
    let text = render_text_with(
        "T", "", "Alice", "", "", 0, &votes, false, &None, &vec![0, 3],
    );
    assert_eq!(
        text,
        "Оценка задачи: T\n\nИнициатор: Alice\n\nОценки:\n\n♦️ \\- Bob\n♥️ \\- Carol\n"
    );
}

#[test]
fn hidden_votes_do_not_depend_on_values() {
    let a = Some(vec![vote(1, "5", "Bob"), vote(2, "8", "Carol")]);
    let b = Some(vec![vote(1, "89", "Bob"), vote(2, "0", "Carol")]);
    let picks = vec![1, 2];
    let text_a = render_text_with("T", "d", "Alice", "", "", 0, &a, false, &None, &picks);
    let text_b = render_text_with("T", "d", "Alice", "", "", 0, &b, false, &None, &picks);
    assert_eq!(text_a, text_b);
    assert!(!text_a.contains('5'));
    assert!(!text_a.contains('8'));
}

#[test]
fn hidden_votes_drawn_at_random_are_symbols() {
    let votes = Some(vec![vote(1, "13", "Bob")]);
    let text = render_text("T", "", "Alice", "", "", 0, votes);
    let symbols = ["♦️", "♠️", "♣️", "♥️"];
    let head = "Оценка задачи: T\n\nИнициатор: Alice\n\nОценки:\n\n";
    assert!(symbols.iter().any(|m| text == format!("{}{} \\- Bob\n", head, m)));
    assert!(!text.contains("13"));
}

#[test]
fn picks_are_one_symbol_for_each_vote() {
    let picks = draw_picks(50);
    assert_eq!(picks.len(), 50);
    assert!(picks.iter().all(|p| *p < 4));
    assert!(draw_picks(0).is_empty());
}

#[test]
fn markup_in_title_is_escaped() {
    let text = render_text("a*b_c[d]", "", "Alice", "", "", 0, None);
    assert_eq!(text, "Оценка задачи: a\\*b\\_c\\[d\\]\n\nИнициатор: Alice\n\n");
}

#[test]
fn every_markup_character_gets_a_backslash() {
    let text = render_text("_*[]()~`>#+-=|{}.!", "", "A", "", "", 0, None);
    assert_eq!(
        text,
        "Оценка задачи: \\_\\*\\[\\]\\(\\)\\~\\`\\>\\#\\+\\-\\=\\|\\{\\}\\.\\!\n\nИнициатор: A\n\n"
    );
}

#[test]
fn description_is_escaped_and_in_italics() {
    let text = render_text("T", "see (this)", "Alice", "", "", 0, None);
    assert_eq!(text, "Оценка задачи: T_\nsee \\(this\\)_\n\nИнициатор: Alice\n\n");
}

#[test]
fn initiator_line_is_escaped() {
    let text = render_text("T", "", "Al!ce", "S.", "a_b", 0, None);
    assert_eq!(text, "Оценка задачи: T\n\nИнициатор: Al\\!ce S\\. \\(@a\\_b\\)\n\n");
}

#[test]
fn link_title_with_issue_id_becomes_a_link_to_the_id() {
    let text = render_text("https://jira.example.com/browse/ABC-123", "", "Alice", "", "", 0, None);
    assert_eq!(
        text,
        "Оценка задачи: [https://jira\\.example\\.com/browse/ABC\\-123](ABC-123)\n\nИнициатор: Alice\n\n"
    );
}

#[test]
fn link_title_without_issue_id_stays_text() {
    let text = render_text("https://example.com/x", "", "Alice", "", "", 0, None);
    assert_eq!(text, "Оценка задачи: https://example\\.com/x\n\nИнициатор: Alice\n\n");
}

#[test]
fn issue_id_without_link_stays_text() {
    let text = render_text("ABC-123", "", "Alice", "", "", 0, None);
    assert_eq!(text, "Оценка задачи: ABC\\-123\n\nИнициатор: Alice\n\n");
}

#[test]
fn link_target_has_its_closing_bracket_escaped() {
    let text = render_text_with(
        "t", "", "A", "", "", 0, &None, true, &Some("X)`Y".to_string()), &vec![],
    );
    assert_eq!(text, "Оценка задачи: [t](X\\)\\`Y)\n\nИнициатор: A\n\n");
}

#[test]
fn empty_vote_list_shows_no_votes_paragraph() {
    let text = render_text("T", "", "Alice", "", "", 1, Some(vec![]));
    assert_eq!(text, "Оценка задачи: T\n\nИнициатор: Alice\n\n");
}

#[test]
fn state_other_than_finished_hides_votes() {
    let votes = Some(vec![vote(1, "5", "Bob")]);
    let text = render_text_with("T", "", "A", "", "", 2, &votes, false, &None, &vec![2]);
    assert_eq!(text, "Оценка задачи: T\n\nИнициатор: A\n\nОценки:\n\n♣️ \\- Bob\n");
}
