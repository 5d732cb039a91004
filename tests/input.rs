use todo_list::text::{
    check_text, index_input, parse_number, push_decimal, rejection_line, IndexInput, TextCheck,
};

#[test]
fn cancel_sentinel_is_recognised() {
    assert_eq!(check_text("0", 1, 50), TextCheck::Cancel);
    assert_eq!(check_text("0", 0, 250), TextCheck::Cancel);
}

#[test]
fn empty_text_is_rejected() {
    assert_eq!(check_text("", 0, 250), TextCheck::Empty);
    assert_eq!(check_text("", 1, 50), TextCheck::Empty);
}

#[test]
fn short_and_long_texts_are_rejected() {
    assert_eq!(check_text("abc", 5, 10), TextCheck::TooShort);
    assert_eq!(check_text("abcdefghijk", 5, 10), TextCheck::TooLong);
    let fifty = "a".repeat(50);
    let fifty_one = "a".repeat(51);
    assert_eq!(check_text(&fifty, 1, 50), TextCheck::Accept);
    assert_eq!(check_text(&fifty_one, 1, 50), TextCheck::TooLong);
}

#[test]
fn accepted_text_within_bounds() {
    assert_eq!(check_text("Buy milk", 1, 50), TextCheck::Accept);
    assert_eq!(check_text("00", 1, 2), TextCheck::Accept);
    assert_eq!(check_text("x", 1, 1), TextCheck::Accept);
}

#[test]
fn lengths_count_characters() {
    // five characters, ten bytes
    assert_eq!(check_text("ééééé", 1, 5), TextCheck::Accept);
    assert_eq!(check_text("éé", 1, 1), TextCheck::TooLong);
}

#[test]
fn numbers_are_parsed() {
    assert_eq!(parse_number("12"), Some(12));
    assert_eq!(parse_number("007"), Some(7));
    assert_eq!(parse_number("+5"), Some(5));
    assert_eq!(parse_number("0"), Some(0));
    assert_eq!(parse_number(""), None);
    assert_eq!(parse_number("+"), None);
    assert_eq!(parse_number("1a"), None);
    assert_eq!(parse_number("-1"), None);
    assert_eq!(parse_number(" 1"), None);
}

#[test]
fn numbers_that_overflow_are_refused() {
    let max = usize::MAX.to_string();
    assert_eq!(parse_number(&max), Some(usize::MAX));
    let over = format!("{}0", max);
    assert_eq!(parse_number(&over), None);
}

#[test]
fn index_answers() {
    assert_eq!(index_input("0", 3), IndexInput::Cancel);
    assert_eq!(index_input("00", 3), IndexInput::Cancel);
    assert_eq!(index_input("2", 3), IndexInput::Pick(2));
    assert_eq!(index_input("3", 3), IndexInput::Pick(3));
    assert_eq!(index_input("4", 3), IndexInput::Invalid);
    assert_eq!(index_input("x", 3), IndexInput::Invalid);
    assert_eq!(index_input("+0", 3), IndexInput::Cancel);
    assert_eq!(index_input("", 3), IndexInput::Invalid);
    assert_eq!(index_input("-1", 3), IndexInput::Invalid);
    assert_eq!(index_input("123", 200), IndexInput::Pick(123));
    assert_eq!(index_input("100", 100), IndexInput::Pick(100));
    assert_eq!(index_input("101", 100), IndexInput::Invalid);
}

#[test]
fn decimal_spelling() {
    let mut s = String::from("n=");
    push_decimal(&mut s, 0);
    assert_eq!(s, "n=0");
    let mut t = String::new();
    push_decimal(&mut t, 1204);
    assert_eq!(t, "1204");
}

#[test]
fn rejection_messages() {
    assert_eq!(rejection_line(TextCheck::Empty, 1, 50), "Input cannot be empty.");
    assert_eq!(rejection_line(TextCheck::TooShort, 3, 50), "Input must be at least 3 characters.");
    assert_eq!(rejection_line(TextCheck::TooLong, 1, 250), "Input must be at most 250 characters.");
}
