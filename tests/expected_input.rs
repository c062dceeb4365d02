use donkeytype::corpus::{CorpusOptions, RATIO_SCALE};
use donkeytype::expected_input::{ConstructionError, ExpectedInput, ExpectedInputInterface};
use rand::rngs::StdRng;
use rand::SeedableRng;

fn plain_options() -> CorpusOptions {
    CorpusOptions {
        numbers: false,
        numbers_ratio: 50_000,
        uppercase: false,
        uppercase_ratio: 150_000,
        symbols: false,
        symbols_ratio: 100_000,
    }
}

#[test]
fn new_expected_input_should_correctly_convert_to_str() {
    let mut rng = StdRng::seed_from_u64(1);
    let dictionary = "the\nquick\nbrown\nfox\njumps";
    let expected_input =
        ExpectedInput::new(dictionary, &plain_options(), &mut rng).expect("unable to create expected input");

    assert_eq!(expected_input.get_string(12).chars().count(), 12);
}

#[test]
fn should_read_file() {
    let mut rng = StdRng::seed_from_u64(30);
    let expected_input =
        ExpectedInput::new("halo", &plain_options(), &mut rng).expect("unable to create expected input");

    assert_eq!(expected_input.get_string(4), "halo");
}

#[test]
fn should_trim_string_to_match_len() {
    let expected_input = ExpectedInput::from_corpus("abcdef");

    assert_eq!(expected_input.get_string(3), "abc");
}

#[test]
fn should_repeat_string_if_len_is_too_big() {
    let expected_input = ExpectedInput::from_corpus("abc");

    assert_eq!(expected_input.get_string(11), "abc abc abc");
}

#[test]
fn expected_input_should_work_with_non_ascii_chars() {
    let expected_input = ExpectedInput::from_corpus("Բարեւ Ձեզ");

    assert_eq!(expected_input.get_string(5), "Բարեւ");
}

#[test]
fn halo_dictionary_repeats_with_single_space() {
    let mut rng = StdRng::seed_from_u64(7);
    let expected_input =
        ExpectedInput::new("halo", &plain_options(), &mut rng).expect("unable to create expected input");

    assert_eq!(expected_input.get_string(4), "halo");
    assert_eq!(expected_input.get_string(11), "halo halo h");
}

#[test]
fn get_string_has_exact_char_count() {
    for corpus in ["abc", "Բարեւ Ձեզ", "x", "日本語 テキスト"] {
        let expected_input = ExpectedInput::from_corpus(corpus);
        for n in [0usize, 1, 2, 5, 17, 100, 1000] {
            assert_eq!(expected_input.get_string(n).chars().count(), n);
        }
    }
}

#[test]
fn get_string_of_zero_is_empty() {
    let expected_input = ExpectedInput::from_corpus("abc");
    assert_eq!(expected_input.get_string(0), "");
}

#[test]
fn shorter_text_is_prefix_of_longer() {
    let expected_input = ExpectedInput::from_corpus("Բարեւ Ձեզ abc");
    let long = expected_input.get_string(60);
    for n in 0..60 {
        let short = expected_input.get_string(n);
        assert!(long.starts_with(&short));
    }
}

#[test]
fn get_string_does_not_change_the_corpus() {
    let expected_input = ExpectedInput::from_corpus("abc");
    let _ = expected_input.get_string(50);
    assert_eq!(expected_input.corpus(), "abc");
    assert_eq!(expected_input.get_string(11), "abc abc abc");
}

#[test]
fn empty_dictionary_is_rejected() {
    let mut rng = StdRng::seed_from_u64(3);
    let result = ExpectedInput::new("", &plain_options(), &mut rng);
    assert_eq!(result.err(), Some(ConstructionError::EmptyCorpus));

    let result = ExpectedInput::new(" \n \n", &plain_options(), &mut rng);
    assert_eq!(result.err(), Some(ConstructionError::EmptyCorpus));
}

#[test]
fn whitespace_dictionary_turned_into_digits_is_accepted() {
    let mut rng = StdRng::seed_from_u64(3);
    let options = CorpusOptions { numbers: true, numbers_ratio: RATIO_SCALE, ..plain_options() };
    let expected_input = ExpectedInput::new(" ", &options, &mut rng).expect("digits expected");
    let corpus = expected_input.corpus();
    assert_eq!(corpus.chars().count(), 1);
    assert!(corpus.chars().all(|c| c.is_ascii_digit()));
}

#[test]
fn corpus_keeps_every_word_without_perturbations() {
    let mut rng = StdRng::seed_from_u64(11);
    let dictionary = "alpha\nbeta\ngamma\ndelta\nepsilon";
    let expected_input = ExpectedInput::new(dictionary, &plain_options(), &mut rng).unwrap();
    let mut words: Vec<String> = expected_input.corpus().split(' ').map(|w| w.to_string()).collect();
    words.sort();
    assert_eq!(words, vec!["alpha", "beta", "delta", "epsilon", "gamma"]);
}
