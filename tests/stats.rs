use donkeytype::helpers::chars_of;
use donkeytype::stats::{calculate_stats, Ratio};

fn value(r: Ratio) -> f64 {
    r.numerator as f64 / r.denominator as f64
}

#[test]
fn exact_input_has_full_accuracy() {
    let input = chars_of("hello world");
    let stats = calculate_stats(&input, &input, 11, 0, 30);
    assert_eq!(stats.mistakes_count, 0);
    assert_eq!(value(stats.accuracy), 100.0);
    assert_eq!(value(stats.raw_accuracy), 100.0);
}

#[test]
fn empty_input_has_zero_accuracy() {
    let empty: Vec<char> = Vec::new();
    let stats = calculate_stats(&empty, &empty, 0, 0, 30);
    assert_eq!(stats.typed_characters_count, 0);
    assert_eq!(value(stats.accuracy), 0.0);
    assert_eq!(value(stats.raw_accuracy), 0.0);
    assert_eq!(value(stats.wpm), 0.0);
}

#[test]
fn wpm_of_300_valid_characters_in_a_minute() {
    let input: Vec<char> = vec!['a'; 300];
    let stats = calculate_stats(&input, &input, 300, 0, 60);
    assert_eq!(stats.valid_characters_count, 300);
    assert_eq!(value(stats.wpm), 60.0);
}

#[test]
fn counts_mistakes_after_corrections() {
    let input = chars_of("helxo");
    let expected = chars_of("hello");
    let stats = calculate_stats(&input, &expected, 7, 3, 30);
    assert_eq!(stats.typed_characters_count, 5);
    assert_eq!(stats.mistakes_count, 1);
    assert_eq!(stats.valid_characters_count, 4);
    assert_eq!(value(stats.accuracy), 80.0);
    assert_eq!(stats.raw_typed_characters_count, 10);
    assert_eq!(value(stats.raw_accuracy), 70.0);
    assert_eq!(stats.wpm, Ratio { numerator: 240, denominator: 150 });
    assert_eq!(value(stats.wpm), 1.6);
}
