use demo_runner::module::istring::{first_word, SPACE};
use demo_runner::text::decimal;

#[test]
fn first_word_of_string_runner_ends_at_six() {
    assert_eq!(first_word(&String::from("string runner")), 6);
}

#[test]
fn first_word_without_space_is_the_whole_text() {
    assert_eq!(first_word(&String::from("stringrunner")), 12);
    assert_eq!(first_word(&String::from("x")), 1);
}

#[test]
fn first_word_of_empty_text_ends_at_zero() {
    assert_eq!(first_word(&String::new()), 0);
}

#[test]
fn first_word_stops_at_the_first_of_several_spaces() {
    assert_eq!(first_word(&String::from("a b c")), 1);
    assert_eq!(first_word(&String::from("hello  world")), 5);
}

#[test]
fn first_word_with_leading_or_trailing_space() {
    assert_eq!(first_word(&String::from(" lead")), 0);
    assert_eq!(first_word(&String::from("trail ")), 5);
    assert_eq!(first_word(&String::from(" ")), 0);
}

#[test]
fn first_word_counts_bytes() {
    assert_eq!(first_word(&String::from("h\u{e9}llo w")), 6);
    assert_eq!(first_word(&String::from("\u{65e5}\u{672c}")), 6);
    assert_eq!(first_word(&String::from("a\tb")), 3);
}

#[test]
fn space_is_the_ascii_space() {
    assert_eq!(SPACE, b' ');
}

#[test]
fn decimal_of_single_digits() {
    assert_eq!(decimal(0), "0");
    assert_eq!(decimal(6), "6");
    assert_eq!(decimal(9), "9");
}

#[test]
fn decimal_of_longer_numbers() {
    assert_eq!(decimal(10), "10");
    assert_eq!(decimal(13), "13");
    assert_eq!(decimal(100), "100");
    assert_eq!(decimal(1234567890), "1234567890");
    assert_eq!(decimal(9007), "9007");
}

#[test]
fn decimal_agrees_with_the_standard_text() {
    for n in [0usize, 1, 9, 10, 11, 99, 100, 101, 4095, 65536, usize::MAX] {
        assert_eq!(decimal(n), n.to_string());
    }
}
