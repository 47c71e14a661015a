use planning_poker::constants::{seq_value, symbol, SEQ_LEN, SYMBOL_COUNT};
use planning_poker::helpers::{
    extract_issue_id, is_url_valid, make_username_line, parse_title_and_description,
};

fn s(text: &str) -> String {
    text.to_string()
}

#[test]
fn payload_without_line_feed_is_all_title() {
    let (title, description) = parse_title_and_description(&s("Fix login bug"));
    assert_eq!(title, "Fix login bug");
    assert_eq!(description, "");
}

#[test]
fn payload_splits_at_first_line_feed_only() {
    let (title, description) = parse_title_and_description(&s("Title\nfirst\nsecond"));
    assert_eq!(title, "Title");
    assert_eq!(description, "first\nsecond");
}

#[test]
fn payload_that_ends_with_line_feed_has_empty_description() {
    let (title, description) = parse_title_and_description(&s("Title\n"));
    assert_eq!(title, "Title");
    assert_eq!(description, "");
}

#[test]
fn payload_that_begins_with_line_feed_has_empty_title() {
    let (title, description) = parse_title_and_description(&s("\nrest"));
    assert_eq!(title, "");
    assert_eq!(description, "rest");
}

#[test]
fn empty_payload_gives_two_empty_texts() {
    let (title, description) = parse_title_and_description(&s(""));
    assert_eq!(title, "");
    assert_eq!(description, "");
}

#[test]
fn payload_with_letters_beyond_ascii_splits_by_character() {
    let (title, description) = parse_title_and_description(&s("Задача ♦️\nописание"));
    assert_eq!(title, "Задача ♦️");
    assert_eq!(description, "описание");
}

#[test]
fn username_line_with_first_name_only() {
    assert_eq!(make_username_line(&s("Alice"), &s(""), &s("")), "Alice");
}

#[test]
fn username_line_with_last_name() {
    assert_eq!(make_username_line(&s("Alice"), &s("Smith"), &s("")), "Alice Smith");
}

#[test]
fn username_line_with_handle_only() {
    assert_eq!(make_username_line(&s("Alice"), &s(""), &s("al")), "Alice (@al)");
}

#[test]
fn username_line_with_everything() {
    assert_eq!(make_username_line(&s("Alice"), &s("Smith"), &s("al")), "Alice Smith (@al)");
}

#[test]
fn link_is_recognised() {
    assert!(is_url_valid("https://jira.example.com/browse/ABC-123"));
    assert!(is_url_valid("see http://www.example.org/x"));
}

#[test]
fn plain_text_is_no_link() {
    assert!(!is_url_valid("Fix login bug"));
    assert!(!is_url_valid("ABC-123"));
    assert!(!is_url_valid(""));
}

#[test]
fn issue_id_is_extracted_from_a_longer_text() {
    assert_eq!(
        extract_issue_id("https://jira.example.com/browse/ABC-123?x=1"),
        Some(s("ABC-123"))
    );
}

#[test]
fn first_of_two_issue_ids_is_taken() {
    assert_eq!(extract_issue_id("XY-1 and ZZ-22"), Some(s("XY-1")));
}

#[test]
fn text_without_issue_id_gives_none() {
    assert_eq!(extract_issue_id("abc-123"), None);
    assert_eq!(extract_issue_id("ABC-"), None);
    assert_eq!(extract_issue_id(""), None);
}

#[test]
fn sequence_values_in_order() {
    let expected = ["0", "1", "2", "3", "5", "8", "13", "21", "34", "55", "89"];
    assert_eq!(SEQ_LEN, expected.len());
    for i in 0..SEQ_LEN {
        assert_eq!(seq_value(i), expected[i]);
    }
}

#[test]
fn masking_symbols_in_order() {
    let expected = ["♦️", "♠️", "♣️", "♥️"];
    assert_eq!(SYMBOL_COUNT, expected.len());
    for i in 0..SYMBOL_COUNT {
        assert_eq!(symbol(i), expected[i]);
    }
}
