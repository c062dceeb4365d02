use donkeytype::helpers::{chars_of, remove_last_word, split_by_char_index, string_from_chars};

#[test]
fn helpers_should_work_with_non_ascii_chars() {
    let (first_part, second_part) = split_by_char_index("Բարեւ Ձեզ", 5);

    assert_eq!((first_part, second_part), ("Բարեւ", " Ձեզ"));
}

#[test]
fn split_past_the_end_keeps_whole_string() {
    assert_eq!(split_by_char_index("abc", 3), ("abc", ""));
    assert_eq!(split_by_char_index("abc", 10), ("abc", ""));
    assert_eq!(split_by_char_index("abc", 0), ("", "abc"));
    assert_eq!(split_by_char_index("", 0), ("", ""));
}

#[test]
fn chars_round_trip_through_string() {
    let chars = chars_of("Բարեւ x");
    assert_eq!(chars.len(), 7);
    assert_eq!(string_from_chars(&chars), "Բարեւ x");
}

fn without_last_word(s: &str) -> String {
    string_from_chars(&remove_last_word(&chars_of(s)))
}

#[test]
fn remove_last_word_cases() {
    assert_eq!(without_last_word("foo bar"), "foo ");
    assert_eq!(without_last_word("foo bar "), "foo ");
    assert_eq!(without_last_word("foo  bar"), "foo ");
    assert_eq!(without_last_word("foo"), "");
    assert_eq!(without_last_word("   "), "");
    assert_eq!(without_last_word(""), "");
    assert_eq!(without_last_word("one two three"), "one two ");
}
