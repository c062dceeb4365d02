//! Construction of the corpus: the dictionary's words, shuffled, perturbed
//! word by word with digits, capitals and symbols, shuffled again and joined
//! with single spaces.

use rand::rngs::StdRng;
use rand::seq::SliceRandom;
use rand::Rng;
use vstd::prelude::*;

use crate::helpers::{chars_of, is_whitespace, is_whitespace_char, trim_end_whitespace};

verus! {

#[verifier::external_type_specification]
#[verifier::external_body]
pub struct ExStdRng(StdRng);

/// Denominator of the perturbation ratios: a ratio of `RATIO_SCALE` applies
/// to every word.
pub const RATIO_SCALE: u32 = 1000000;

/// Which perturbations apply, and to what share of the words, each share in
/// parts of `RATIO_SCALE`.
#[derive(Clone, Copy, Debug, PartialEq, Eq, Structural)]
pub struct CorpusOptions {
    pub numbers: bool,
    pub numbers_ratio: u32,
    pub uppercase: bool,
    pub uppercase_ratio: u32,
    pub symbols: bool,
    pub symbols_ratio: u32,
}

impl CorpusOptions {
    /// Every ratio lies between zero and one.
    pub open spec fn valid(self) -> bool {
        &&& self.numbers_ratio <= RATIO_SCALE
        &&& self.uppercase_ratio <= RATIO_SCALE
        &&& self.symbols_ratio <= RATIO_SCALE
    }
}

/// A symbol added to a word: one of the ending symbols appended, or one of
/// the matching pairs put around it.
#[derive(Clone, Copy, Debug, PartialEq, Eq, Structural)]
pub enum Symbol {
    Ending(usize),
    Surrounding(usize),
}

/// Number of ending symbols.
pub const ENDING_COUNT: usize = 4;

/// Number of surrounding pairs.
pub const PAIR_COUNT: usize = 5;

impl Symbol {
    pub open spec fn valid(self) -> bool {
        match self {
            Symbol::Ending(i) => i < ENDING_COUNT,
            Symbol::Surrounding(i) => i < PAIR_COUNT,
        }
    }
}

/// The perturbations drawn for one word.
#[derive(Clone, Debug)]
pub struct WordPlan {
    /// Digits that replace the word's characters, one for each.
    pub digits: Option<Vec<u8>>,
    /// Whether the first character is capitalized.
    pub uppercase: bool,
    pub symbol: Option<Symbol>,
}

/// Whether `plan` is one that the options allow for a word of `len`
/// characters. A ratio of zero never applies and a ratio of one always does.
pub open spec fn plan_fits(plan: WordPlan, len: nat, options: CorpusOptions) -> bool {
    &&& plan.digits is Some ==> {
        &&& options.numbers
        &&& options.numbers_ratio > 0
        &&& plan.digits->0@.len() == len
        &&& forall|i: int| 0 <= i < len ==> plan.digits->0@[i] < 10
    }
    &&& options.numbers && options.numbers_ratio == RATIO_SCALE ==> plan.digits is Some
    &&& plan.uppercase ==> options.uppercase && options.uppercase_ratio > 0
    &&& options.uppercase && options.uppercase_ratio == RATIO_SCALE ==> plan.uppercase
    &&& plan.symbol is Some ==> options.symbols && options.symbols_ratio > 0
        && plan.symbol->0.valid()
    &&& options.symbols && options.symbols_ratio == RATIO_SCALE ==> plan.symbol is Some
}

/// The decimal digit `d`.
pub open spec fn digit_char(d: u8) -> char {
    if d == 0 {
        '0'
    } else if d == 1 {
        '1'
    } else if d == 2 {
        '2'
    } else if d == 3 {
        '3'
    } else if d == 4 {
        '4'
    } else if d == 5 {
        '5'
    } else if d == 6 {
        '6'
    } else if d == 7 {
        '7'
    } else if d == 8 {
        '8'
    } else {
        '9'
    }
}

pub open spec fn ending_symbol(i: int) -> char {
    if i == 0 {
        '.'
    } else if i == 1 {
        ','
    } else if i == 2 {
        '!'
    } else {
        '?'
    }
}

pub open spec fn pair_open(i: int) -> char {
    if i == 0 {
        '['
    } else if i == 1 {
        '{'
    } else if i == 2 {
        '('
    } else if i == 3 {
        '"'
    } else {
        '\''
    }
}

pub open spec fn pair_close(i: int) -> char {
    if i == 0 {
        ']'
    } else if i == 1 {
        '}'
    } else if i == 2 {
        ')'
    } else if i == 3 {
        '"'
    } else {
        '\''
    }
}

/// What the upper-case mapping turns `c` into (one or more characters).
pub uninterp spec fn uppercase_of(c: char) -> Seq<char>;

/// `word` with its first character capitalized; an empty word stays empty.
pub open spec fn capitalized(word: Seq<char>) -> Seq<char> {
    if word.len() == 0 {
        word
    } else {
        uppercase_of(word[0]) + word.drop_first()
    }
}

pub open spec fn with_symbol(word: Seq<char>, symbol: Symbol) -> Seq<char> {
    match symbol {
        Symbol::Ending(i) => word.push(ending_symbol(i as int)),
        Symbol::Surrounding(i) => seq![pair_open(i as int)] + word + seq![pair_close(i as int)],
    }
}

/// `word` after the perturbations of `plan`: digits first, then the
/// capital, then the symbol.
pub open spec fn perturbed(word: Seq<char>, plan: WordPlan) -> Seq<char> {
    let numbered = match plan.digits {
        Some(d) => d@.map_values(|x: u8| digit_char(x)),
        None => word,
    };
    let cased = if plan.uppercase {
        capitalized(numbered)
    } else {
        numbered
    };
    match plan.symbol {
        Some(s) => with_symbol(cased, s),
        None => cased,
    }
}

/// The lines of `s`, split at each `'\n'`; a text without one is a single line.
pub open spec fn lines(s: Seq<char>) -> Seq<Seq<char>>
    decreases s.len(),
{
    if s.len() == 0 {
        seq![Seq::empty()]
    } else {
        let before = lines(s.drop_last());
        if s.last() == '\n' {
            before.push(Seq::empty())
        } else {
            before.update(before.len() - 1, before.last().push(s.last()))
        }
    }
}

/// The words joined with single spaces.
pub open spec fn joined(words: Seq<Seq<char>>) -> Seq<char>
    decreases words.len(),
{
    if words.len() == 0 {
        Seq::empty()
    } else if words.len() == 1 {
        words[0]
    } else {
        joined(words.drop_last()) + seq![' '] + words.last()
    }
}

/// `s` without its leading whitespace.
pub open spec fn trim_start_whitespace(s: Seq<char>) -> Seq<char>
    decreases s.len(),
{
    if s.len() > 0 && is_whitespace_char(s[0]) {
        trim_start_whitespace(s.drop_first())
    } else {
        s
    }
}

/// `s` without leading and trailing whitespace.
pub open spec fn trimmed(s: Seq<char>) -> Seq<char> {
    trim_end_whitespace(trim_start_whitespace(s))
}

/// The views of a sequence of character vectors.
pub open spec fn views(ws: Seq<Vec<char>>) -> Seq<Seq<char>> {
    ws.map_values(|w: Vec<char>| w@)
}

/// `p` is an order of the indices of `b` that lays `b` out as `a`.
pub open spec fn reorders<T>(p: Seq<int>, a: Seq<T>, b: Seq<T>) -> bool {
    &&& p.len() == b.len()
    &&& a.len() == b.len()
    &&& forall|i: int| 0 <= i < p.len() ==> 0 <= #[trigger] p[i] < b.len()
    &&& forall|i: int, j: int| 0 <= i < j < p.len() ==> p[i] != p[j]
    &&& forall|i: int| 0 <= i < a.len() ==> a[i] == b[#[trigger] p[i]]
}

/// `a` holds the elements of `b` in some order.
pub open spec fn is_shuffle_of<T>(a: Seq<T>, b: Seq<T>) -> bool {
    exists|p: Seq<int>| reorders(p, a, b)
}

/// Relies on `SliceRandom::shuffle` of rand: it swaps elements only, so the
/// result is a reordering of the input.
#[verifier::external_body]
fn shuffle<T>(v: &mut Vec<T>, rng: &mut StdRng)
    ensures
        is_shuffle_of(final(v)@, old(v)@),
{
    v.shuffle(rng)
}

/// Relies on `Rng::gen_range` of rand: a number in `0..n`, which must not be empty.
#[verifier::external_body]
fn draw_below(rng: &mut StdRng, n: usize) -> (r: usize)
    requires
        n > 0,
    ensures
        r < n,
{
    rng.gen_range(0..n)
}

/// Relies on `Rng::gen_ratio` of rand: true with probability
/// `numerator / denominator`; never for a zero numerator, always when the
/// two are equal. It panics on a zero denominator or a numerator above it.
#[verifier::external_body]
fn draw_chance(rng: &mut StdRng, numerator: u32, denominator: u32) -> (r: bool)
    requires
        0 < denominator,
        numerator <= denominator,
    ensures
        numerator == 0 ==> !r,
        numerator == denominator ==> r,
{
    rng.gen_ratio(numerator, denominator)
}

/// Relies on `char::to_uppercase`: the upper-case mapping of a character,
/// which depends on the character alone.
#[verifier::external_body]
fn to_uppercase(c: char) -> (r: Vec<char>)
    ensures
        r@ == uppercase_of(c),
{
    c.to_uppercase().collect()
}

fn digit(d: u8) -> (r: char)
    requires
        d < 10,
    ensures
        r == digit_char(d),
{
    match d {
        0 => '0',
        1 => '1',
        2 => '2',
        3 => '3',
        4 => '4',
        5 => '5',
        6 => '6',
        7 => '7',
        8 => '8',
        _ => '9',
    }
}

/// Replaces each character of a word by the digit given for its position.
pub fn replace_with_digits(digits: &Vec<u8>) -> (r: Vec<char>)
    requires
        forall|i: int| 0 <= i < digits@.len() ==> digits@[i] < 10,
    ensures
        r@ == digits@.map_values(|x: u8| digit_char(x)),
{
    let mut r: Vec<char> = Vec::new();
    for i in 0..digits.len()
        invariant
            forall|j: int| 0 <= j < digits@.len() ==> digits@[j] < 10,
            r@ == digits@.subrange(0, i as int).map_values(|x: u8| digit_char(x)),
    {
        r.push(digit(digits[i]));
        assert(r@ =~= digits@.subrange(0, i + 1).map_values(|x: u8| digit_char(x)));
    }
    assert(digits@.subrange(0, digits@.len() as int) =~= digits@);
    r
}

/// The word with its first character capitalized.
pub fn capitalize(word: &Vec<char>) -> (r: Vec<char>)
    ensures
        r@ == capitalized(word@),
{
    if word.len() == 0 {
        return Vec::new();
    }
    let mut r = to_uppercase(word[0]);
    for i in 1..word.len()
        invariant
            r@ == uppercase_of(word@[0]) + word@.subrange(1, i as int),
    {
        r.push(word[i]);
        assert(r@ =~= uppercase_of(word@[0]) + word@.subrange(1, i + 1));
    }
    assert(word@.subrange(1, word@.len() as int) =~= word@.drop_first());
    r
}

/// The word with the symbol added.
pub fn add_symbol(word: &Vec<char>, symbol: Symbol) -> (r: Vec<char>)
    requires
        symbol.valid(),
    ensures
        r@ == with_symbol(word@, symbol),
{
    let mut r: Vec<char> = Vec::new();
    if let Symbol::Surrounding(i) = symbol {
        r.push(open_symbol(i));
    }
    let ghost start = r@;
    for k in 0..word.len()
        invariant
            r@ == start + word@.subrange(0, k as int),
    {
        r.push(word[k]);
        assert(r@ =~= start + word@.subrange(0, k + 1));
    }
    assert(word@.subrange(0, word@.len() as int) =~= word@);
    match symbol {
        Symbol::Ending(i) => r.push(end_symbol(i)),
        Symbol::Surrounding(i) => r.push(close_symbol(i)),
    }
    assert(r@ =~= with_symbol(word@, symbol));
    r
}

fn end_symbol(i: usize) -> (r: char)
    ensures
        r == ending_symbol(i as int),
{
    match i {
        0 => '.',
        1 => ',',
        2 => '!',
        _ => '?',
    }
}

fn open_symbol(i: usize) -> (r: char)
    ensures
        r == pair_open(i as int),
{
    match i {
        0 => '[',
        1 => '{',
        2 => '(',
        3 => '"',
        _ => '\'',
    }
}

fn close_symbol(i: usize) -> (r: char)
    ensures
        r == pair_close(i as int),
{
    match i {
        0 => ']',
        1 => '}',
        2 => ')',
        3 => '"',
        _ => '\'',
    }
}

/// The word after the perturbations of `plan`.
pub fn perturb_word(word: &Vec<char>, plan: &WordPlan) -> (r: Vec<char>)
    requires
        plan.digits is Some ==> forall|i: int|
            0 <= i < plan.digits->0@.len() ==> plan.digits->0@[i] < 10,
        plan.symbol is Some ==> plan.symbol->0.valid(),
    ensures
        r@ == perturbed(word@, *plan),
{
    let numbered = match &plan.digits {
        Some(d) => replace_with_digits(d),
        None => word.clone(),
    };
    assert(numbered@ =~= match plan.digits {
        Some(d) => d@.map_values(|x: u8| digit_char(x)),
        None => word@,
    });
    let cased = if plan.uppercase {
        capitalize(&numbered)
    } else {
        numbered
    };
    match plan.symbol {
        Some(s) => add_symbol(&cased, s),
        None => cased,
    }
}

/// The lines of `source`, split at each `'\n'`.
pub fn split_lines(source: &Vec<char>) -> (r: Vec<Vec<char>>)
    ensures
        views(r@) == lines(source@),
{
    let mut words: Vec<Vec<char>> = Vec::new();
    let mut current: Vec<char> = Vec::new();
    assert(source@.subrange(0, 0) =~= Seq::<char>::empty());
    assert(views(words@).push(current@) =~= lines(source@.subrange(0, 0)));
    for i in 0..source.len()
        invariant
            views(words@).push(current@) == lines(source@.subrange(0, i as int)),
    {
        let c = source[i];
        let ghost before = lines(source@.subrange(0, i as int));
        assert(source@.subrange(0, i + 1).drop_last() =~= source@.subrange(0, i as int));
        if c == '\n' {
            let done = current;
            words.push(done);
            current = Vec::new();
            assert(views(words@).push(current@) =~= before.push(Seq::empty()));
        } else {
            current.push(c);
            assert(views(words@).push(current@) =~= before.update(
                before.len() - 1,
                before.last().push(c),
            ));
        }
    }
    assert(source@.subrange(0, source@.len() as int) =~= source@);
    let ghost done = views(words@).push(current@);
    words.push(current);
    assert(views(words@) =~= done);
    words
}

/// The words joined with single spaces.
pub fn join_words(words: &Vec<Vec<char>>) -> (r: Vec<char>)
    ensures
        r@ == joined(views(words@)),
{
    let mut r: Vec<char> = Vec::new();
    for i in 0..words.len()
        invariant
            r@ == joined(views(words@).subrange(0, i as int)),
    {
        let ghost all = views(words@);
        assert(all.subrange(0, i + 1).drop_last() =~= all.subrange(0, i as int));
        if i > 0 {
            r.push(' ');
        }
        let ghost start = r@;
        let word = &words[i];
        for k in 0..word.len()
            invariant
                word@ == all[i as int],
                r@ == start + word@.subrange(0, k as int),
        {
            r.push(word[k]);
            assert(r@ =~= start + word@.subrange(0, k + 1));
        }
        assert(word@.subrange(0, word@.len() as int) =~= word@);
        assert(r@ =~= joined(all.subrange(0, i + 1)));
    }
    assert(views(words@).subrange(0, words@.len() as int) =~= views(words@));
    r
}

/// The characters without leading and trailing whitespace.
pub fn trim(chars: &Vec<char>) -> (r: Vec<char>)
    ensures
        r@ == trimmed(chars@),
{
    let n = chars.len();
    let mut start: usize = 0;
    assert(chars@.subrange(0, n as int) =~= chars@);
    while start < n && is_whitespace(chars[start])
        invariant
            n == chars@.len(),
            start <= n,
            trim_start_whitespace(chars@.subrange(start as int, n as int))
                == trim_start_whitespace(chars@),
        decreases n - start,
    {
        assert(chars@.subrange(start as int, n as int).drop_first() =~= chars@.subrange(
            start + 1,
            n as int,
        ));
        start = start + 1;
    }
    let ghost tail = chars@.subrange(start as int, n as int);
    assert(trim_start_whitespace(tail) == tail);
    let mut end = n;
    while end > start && is_whitespace(chars[end - 1])
        invariant
            n == chars@.len(),
            start <= end <= n,
            tail == chars@.subrange(start as int, n as int),
            trim_end_whitespace(chars@.subrange(start as int, end as int)) == trim_end_whitespace(
                tail,
            ),
        decreases end,
    {
        assert(chars@.subrange(start as int, end as int).drop_last() =~= chars@.subrange(
            start as int,
            end - 1,
        ));
        end = end - 1;
    }
    let ghost kept = chars@.subrange(start as int, end as int);
    assert(trim_end_whitespace(kept) == kept);
    let mut r: Vec<char> = Vec::new();
    for i in start..end
        invariant
            end <= n == chars@.len(),
            r@ == chars@.subrange(start as int, i as int),
    {
        r.push(chars[i]);
        assert(r@ =~= chars@.subrange(start as int, i + 1));
    }
    r
}

/// Draws the perturbations of one word of `len` characters.
pub fn draw_plan(len: usize, options: &CorpusOptions, rng: &mut StdRng) -> (r: WordPlan)
    requires
        options.valid(),
    ensures
        plan_fits(r, len as nat, *options),
{
    let digits = if options.numbers && draw_chance(rng, options.numbers_ratio, RATIO_SCALE) {
        let mut d: Vec<u8> = Vec::new();
        for i in 0..len
            invariant
                d@.len() == i,
                forall|j: int| 0 <= j < i ==> d@[j] < 10,
        {
            let x = draw_below(rng, 10);
            d.push(x as u8);
        }
        Some(d)
    } else {
        None
    };
    let uppercase = options.uppercase && draw_chance(rng, options.uppercase_ratio, RATIO_SCALE);
    let symbol = if options.symbols && draw_chance(rng, options.symbols_ratio, RATIO_SCALE) {
        if draw_below(rng, 2) == 0 {
            Some(Symbol::Ending(draw_below(rng, ENDING_COUNT)))
        } else {
            Some(Symbol::Surrounding(draw_below(rng, PAIR_COUNT)))
        }
    } else {
        None
    };
    WordPlan { digits, uppercase, symbol }
}

/// Reordering the elements reorders their views alike.
pub proof fn lemma_shuffle_views(a: Seq<Vec<char>>, b: Seq<Vec<char>>)
    requires
        is_shuffle_of(a, b),
    ensures
        is_shuffle_of(views(a), views(b)),
{
    let p = choose|p: Seq<int>| reorders(p, a, b);
    assert(reorders(p, views(a), views(b)));
}

/// The stages of building `corpus` from the dictionary's `words`: a first
/// order of the words, a plan of perturbations for each, a second order of
/// the perturbed words, which are joined and trimmed.
pub open spec fn corpus_stages(
    corpus: Seq<char>,
    words: Seq<Seq<char>>,
    options: CorpusOptions,
    first: Seq<Seq<char>>,
    plans: Seq<WordPlan>,
    second: Seq<Seq<char>>,
) -> bool {
    &&& is_shuffle_of(first, words)
    &&& plans.len() == first.len()
    &&& forall|i: int| 0 <= i < plans.len() ==> plan_fits(plans[i], first[i].len(), options)
    &&& is_shuffle_of(second, Seq::new(first.len(), |i: int| perturbed(first[i], plans[i])))
    &&& corpus == trimmed(joined(second))
}

/// `corpus` is one that the dictionary text and the options can produce.
pub open spec fn is_corpus_of(corpus: Seq<char>, dictionary: Seq<char>, options: CorpusOptions) -> bool {
    exists|first: Seq<Seq<char>>, plans: Seq<WordPlan>, second: Seq<Seq<char>>|
        #[trigger] corpus_stages(corpus, lines(dictionary), options, first, plans, second)
}

/// Builds a corpus from the dictionary text: one word per line, shuffled,
/// each word perturbed as the options draw it, shuffled again, joined with
/// single spaces and trimmed.
pub fn build_corpus(dictionary: &str, options: &CorpusOptions, rng: &mut StdRng) -> (r: Vec<char>)
    requires
        options.valid(),
    ensures
        is_corpus_of(r@, dictionary@, *options),
{
    let source = chars_of(dictionary);
    let mut words = split_lines(&source);
    let ghost original = words@;
    shuffle(&mut words, rng);
    proof {
        lemma_shuffle_views(words@, original);
    }
    let ghost first = views(words@);
    let ghost mut plans: Seq<WordPlan> = Seq::empty();
    let mut changed: Vec<Vec<char>> = Vec::new();
    for i in 0..words.len()
        invariant
            options.valid(),
            first == views(words@),
            plans.len() == i,
            changed@.len() == i,
            forall|j: int| 0 <= j < i ==> plan_fits(plans[j], first[j].len(), *options),
            forall|j: int| 0 <= j < i ==> #[trigger] changed@[j]@ == perturbed(first[j], plans[j]),
    {
        let plan = draw_plan(words[i].len(), options, rng);
        let word = perturb_word(&words[i], &plan);
        changed.push(word);
        proof {
            plans = plans.push(plan);
        }
    }
    let ghost expected_changed = Seq::new(first.len(), |i: int| perturbed(first[i], plans[i]));
    assert(views(changed@) =~= expected_changed);
    let ghost before_second = changed@;
    shuffle(&mut changed, rng);
    proof {
        lemma_shuffle_views(changed@, before_second);
    }
    let ghost second = views(changed@);
    let all = join_words(&changed);
    let r = trim(&all);
    assert(corpus_stages(r@, lines(dictionary@), *options, first, plans, second));
    r
}

} // verus!
