//! Statistics of a finished session, derived from the final input, the
//! matching reference text and the raw keystroke counters.

use vstd::prelude::*;

verus! {

/// An exact non-negative rational number `numerator / denominator`.
#[derive(Clone, Copy, Debug, PartialEq, Eq, Structural)]
pub struct Ratio {
    pub numerator: u128,
    pub denominator: u128,
}

impl Ratio {
    /// True when the ratio has a denominator and equals the whole number `n`.
    pub open spec fn is_whole(self, n: nat) -> bool {
        &&& self.denominator > 0
        &&& self.numerator == n * self.denominator
    }
}

/// `100 * part / whole` as a ratio, or zero when `whole` is zero.
pub open spec fn percentage(part: nat, whole: nat) -> Ratio {
    if whole == 0 {
        Ratio { numerator: 0, denominator: 1 }
    } else {
        Ratio { numerator: (100 * part) as u128, denominator: whole as u128 }
    }
}

/// Words per minute, a word being five characters:
/// `(valid / 5) * (60 / duration_secs)`.
pub open spec fn words_per_minute(valid: nat, duration_secs: nat) -> Ratio {
    Ratio { numerator: (60 * valid) as u128, denominator: (5 * duration_secs) as u128 }
}

/// Number of positions below `input.len()` where `input` and `expected` differ.
pub open spec fn mismatches(input: Seq<char>, expected: Seq<char>) -> nat
    decreases input.len(),
{
    if input.len() == 0 {
        0
    } else {
        mismatches(input.drop_last(), expected) + if input.last() != expected[input.len() - 1] {
            1nat
        } else {
            0nat
        }
    }
}

/// Statistics of a session.
#[derive(Clone, Copy, Debug, PartialEq, Eq, Structural)]
pub struct Stats {
    pub wpm: Ratio,
    pub raw_accuracy: Ratio,
    pub raw_valid_characters_count: u64,
    pub raw_mistakes_count: u64,
    pub raw_typed_characters_count: u64,
    pub accuracy: Ratio,
    pub valid_characters_count: u64,
    pub typed_characters_count: u64,
    pub mistakes_count: u64,
}

/// The statistics of a session that never produced any: every count zero,
/// every ratio zero.
pub open spec fn zero_stats() -> Stats {
    Stats {
        wpm: Ratio { numerator: 0, denominator: 1 },
        raw_accuracy: Ratio { numerator: 0, denominator: 1 },
        raw_valid_characters_count: 0,
        raw_mistakes_count: 0,
        raw_typed_characters_count: 0,
        accuracy: Ratio { numerator: 0, denominator: 1 },
        valid_characters_count: 0,
        typed_characters_count: 0,
        mistakes_count: 0,
    }
}

/// The statistics of a final `input` typed against `expected`, with the raw
/// counters of the session and its duration in seconds.
pub open spec fn stats_of(
    input: Seq<char>,
    expected: Seq<char>,
    raw_valid: u64,
    raw_mistakes: u64,
    duration_secs: u64,
) -> Stats {
    let typed = input.len();
    let mistakes = mismatches(input, expected);
    let valid = (typed - mistakes) as nat;
    Stats {
        wpm: words_per_minute(valid, duration_secs as nat),
        raw_accuracy: percentage(raw_valid as nat, (raw_valid + raw_mistakes) as nat),
        raw_valid_characters_count: raw_valid,
        raw_mistakes_count: raw_mistakes,
        raw_typed_characters_count: (raw_valid + raw_mistakes) as u64,
        accuracy: percentage(valid, typed),
        valid_characters_count: valid as u64,
        typed_characters_count: typed as u64,
        mistakes_count: mistakes as u64,
    }
}

proof fn lemma_mismatches_bounded(input: Seq<char>, expected: Seq<char>)
    ensures
        mismatches(input, expected) <= input.len(),
    decreases input.len(),
{
    if input.len() > 0 {
        lemma_mismatches_bounded(input.drop_last(), expected);
    }
}

proof fn lemma_mismatches_step(input: Seq<char>, expected: Seq<char>, i: int)
    requires
        0 <= i < input.len(),
    ensures
        mismatches(input.subrange(0, i + 1), expected) == mismatches(input.subrange(0, i), expected)
            + if input[i] != expected[i] {
            1nat
        } else {
            0nat
        },
{
    assert(input.subrange(0, i + 1).drop_last() =~= input.subrange(0, i));
}

impl Stats {
    /// Statistics with every count and every ratio zero.
    pub fn default() -> (r: Stats)
        ensures
            r == zero_stats(),
    {
        let zero = Ratio { numerator: 0, denominator: 1 };
        Stats {
            wpm: zero,
            raw_accuracy: zero,
            raw_valid_characters_count: 0,
            raw_mistakes_count: 0,
            raw_typed_characters_count: 0,
            accuracy: zero,
            valid_characters_count: 0,
            typed_characters_count: 0,
            mistakes_count: 0,
        }
    }
}

/// `100 * part / whole`, or zero when `whole` is zero.
fn get_percentage(part: u64, whole: u64) -> (r: Ratio)
    ensures
        r == percentage(part as nat, whole as nat),
{
    if whole == 0 {
        Ratio { numerator: 0, denominator: 1 }
    } else {
        Ratio { numerator: 100 * (part as u128), denominator: whole as u128 }
    }
}

/// Statistics of the final `input` against the reference text under it,
/// `expected`, with the raw counters kept while typing.
pub fn calculate_stats(
    input: &Vec<char>,
    expected: &Vec<char>,
    raw_valid: u64,
    raw_mistakes: u64,
    duration_secs: u64,
) -> (r: Stats)
    requires
        expected@.len() == input@.len(),
        raw_valid + raw_mistakes <= u64::MAX,
    ensures
        r == stats_of(input@, expected@, raw_valid, raw_mistakes, duration_secs),
        r.valid_characters_count + r.mistakes_count == r.typed_characters_count,
{
    let typed = input.len();
    let mut mistakes: usize = 0;
    for i in 0..typed
        invariant
            typed == input@.len(),
            expected@.len() == input@.len(),
            mistakes == mismatches(input@.subrange(0, i as int), expected@),
            mistakes <= i,
    {
        proof {
            lemma_mismatches_step(input@, expected@, i as int);
        }
        if input[i] != expected[i] {
            mistakes = mistakes + 1;
        }
    }
    assert(input@.subrange(0, typed as int) =~= input@);
    proof {
        lemma_mismatches_bounded(input@, expected@);
    }
    let valid = typed - mistakes;
    Stats {
        wpm: Ratio { numerator: 60 * (valid as u128), denominator: 5 * (duration_secs as u128) },
        raw_accuracy: get_percentage(raw_valid, raw_valid + raw_mistakes),
        raw_valid_characters_count: raw_valid,
        raw_mistakes_count: raw_mistakes,
        raw_typed_characters_count: raw_valid + raw_mistakes,
        accuracy: get_percentage(valid as u64, typed as u64),
        valid_characters_count: valid as u64,
        typed_characters_count: typed as u64,
        mistakes_count: mistakes as u64,
    }
}

/// Typing exactly the reference text leaves no mistake and gives an accuracy
/// of one hundred percent; typing nothing gives an accuracy of zero.
pub proof fn lemma_exact_input_accuracy(
    input: Seq<char>,
    raw_valid: u64,
    raw_mistakes: u64,
    duration_secs: u64,
)
    requires
        input.len() <= u64::MAX,
    ensures
        stats_of(input, input, raw_valid, raw_mistakes, duration_secs).mistakes_count == 0,
        input.len() > 0 ==> stats_of(
            input,
            input,
            raw_valid,
            raw_mistakes,
            duration_secs,
        ).accuracy.is_whole(100),
        input.len() == 0 ==> stats_of(
            input,
            input,
            raw_valid,
            raw_mistakes,
            duration_secs,
        ).accuracy.is_whole(0),
{
    lemma_no_mismatch_with_itself(input, input, input.len() as int);
    assert(input.subrange(0, input.len() as int) =~= input);
}

proof fn lemma_no_mismatch_with_itself(input: Seq<char>, expected: Seq<char>, n: int)
    requires
        0 <= n <= input.len(),
        n <= expected.len(),
        forall|i: int| 0 <= i < n ==> input[i] == expected[i],
    ensures
        mismatches(input.subrange(0, n), expected) == 0,
    decreases n,
{
    if n > 0 {
        assert(input.subrange(0, n).drop_last() =~= input.subrange(0, n - 1));
        lemma_no_mismatch_with_itself(input, expected, n - 1);
    }
}

} // verus!
