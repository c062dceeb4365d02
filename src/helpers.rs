//! Character-indexed string helpers.

use vstd::prelude::*;

verus! {

/// The smaller of two natural numbers.
pub open spec fn min_nat(a: nat, b: nat) -> nat {
    if a <= b { a } else { b }
}

/// Whether `c` has the Unicode `White_Space` property.
pub uninterp spec fn is_whitespace_char(c: char) -> bool;

/// Relies on `char::is_whitespace`: whether the character has the Unicode
/// `White_Space` property, a function of the character alone.
#[verifier::external_body]
pub(crate) fn is_whitespace(c: char) -> (r: bool)
    ensures
        r == is_whitespace_char(c),
{
    c.is_whitespace()
}

/// `s` without its trailing whitespace.
pub open spec fn trim_end_whitespace(s: Seq<char>) -> Seq<char>
    decreases s.len(),
{
    if s.len() > 0 && is_whitespace_char(s.last()) {
        trim_end_whitespace(s.drop_last())
    } else {
        s
    }
}

/// `s` without its trailing run of non-whitespace characters.
pub open spec fn trim_end_word(s: Seq<char>) -> Seq<char>
    decreases s.len(),
{
    if s.len() > 0 && !is_whitespace_char(s.last()) {
        trim_end_word(s.drop_last())
    } else {
        s
    }
}

/// `s` without its last word and the whitespace around it, followed by a
/// single space unless nothing is left.
pub open spec fn without_last_word(s: Seq<char>) -> Seq<char> {
    let rest = trim_end_whitespace(trim_end_word(trim_end_whitespace(s)));
    if rest.len() == 0 {
        rest
    } else {
        rest.push(' ')
    }
}

/// `input` without its last word and the whitespace around it, followed by
/// a single space when anything remains.
pub fn remove_last_word(input: &Vec<char>) -> (r: Vec<char>)
    ensures
        r@ == without_last_word(input@),
{
    let mut end = input.len();
    assert(input@.subrange(0, input@.len() as int) =~= input@);
    while end > 0 && is_whitespace(input[end - 1])
        invariant
            end <= input@.len(),
            trim_end_whitespace(input@.subrange(0, end as int)) == trim_end_whitespace(input@),
        decreases end,
    {
        assert(input@.subrange(0, end as int).drop_last() =~= input@.subrange(0, end - 1));
        end = end - 1;
    }
    let ghost stripped = input@.subrange(0, end as int);
    assert(trim_end_whitespace(stripped) == stripped);
    let stripped_end = end;
    while end > 0 && !is_whitespace(input[end - 1])
        invariant
            end <= stripped_end <= input@.len(),
            stripped == input@.subrange(0, stripped_end as int),
            trim_end_word(input@.subrange(0, end as int)) == trim_end_word(stripped),
        decreases end,
    {
        assert(input@.subrange(0, end as int).drop_last() =~= input@.subrange(0, end - 1));
        end = end - 1;
    }
    let ghost word_gone = input@.subrange(0, end as int);
    assert(trim_end_word(word_gone) == word_gone);
    let word_start = end;
    while end > 0 && is_whitespace(input[end - 1])
        invariant
            end <= word_start <= input@.len(),
            word_gone == input@.subrange(0, word_start as int),
            trim_end_whitespace(input@.subrange(0, end as int)) == trim_end_whitespace(word_gone),
        decreases end,
    {
        assert(input@.subrange(0, end as int).drop_last() =~= input@.subrange(0, end - 1));
        end = end - 1;
    }
    let ghost rest = input@.subrange(0, end as int);
    assert(trim_end_whitespace(rest) == rest);
    let mut r: Vec<char> = Vec::new();
    for i in 0..end
        invariant
            end <= input@.len(),
            r@ == input@.subrange(0, i as int),
    {
        r.push(input[i]);
        assert(r@ =~= input@.subrange(0, i + 1));
    }
    assert(r@ =~= rest);
    if end > 0 {
        r.push(' ');
    }
    r
}

/// Relies on `String::push`: the character is appended at the end.
#[verifier::external_body]
pub(crate) fn push_char(s: &mut String, c: char)
    ensures
        final(s)@ == old(s)@.push(c),
{
    s.push(c)
}

/// Splits `string` before its `char_index`-th character (counted in Unicode
/// scalar values, not bytes). When the string has no character at that index
/// the whole string is the first part and the second is empty.
pub fn split_by_char_index(string: &str, char_index: usize) -> (r: (&str, &str))
    ensures
        r.0@ == string@.subrange(0, min_nat(char_index as nat, string@.len()) as int),
        r.1@ == string@.subrange(
            min_nat(char_index as nat, string@.len()) as int,
            string@.len() as int,
        ),
        r.0@ + r.1@ == string@,
{
    let len = string.unicode_len();
    let at = if char_index <= len { char_index } else { len };
    let first = string.substring_char(0, at);
    let second = string.substring_char(at, len);
    assert(first@ + second@ =~= string@);
    (first, second)
}

/// The decimal digit for `d`, which is below ten.
pub open spec fn decimal_digit(d: nat) -> char {
    if d == 0 {
        '0'
    } else if d == 1 {
        '1'
    } else if d == 2 {
        '2'
    } else if d == 3 {
        '3'
    } else if d == 4 {
        '4'
    } else if d == 5 {
        '5'
    } else if d == 6 {
        '6'
    } else if d == 7 {
        '7'
    } else if d == 8 {
        '8'
    } else {
        '9'
    }
}

/// The decimal notation of `n`, without leading zeros.
pub open spec fn decimal(n: nat) -> Seq<char>
    decreases n,
{
    if n < 10 {
        seq![decimal_digit(n)]
    } else {
        decimal(n / 10).push(decimal_digit(n % 10))
    }
}

fn digit_of(d: u64) -> (r: char)
    requires
        d < 10,
    ensures
        r == decimal_digit(d as nat),
{
    match d {
        0 => '0',
        1 => '1',
        2 => '2',
        3 => '3',
        4 => '4',
        5 => '5',
        6 => '6',
        7 => '7',
        8 => '8',
        _ => '9',
    }
}

/// Appends the decimal notation of `n` to `s`.
pub fn push_decimal(s: &mut String, n: u64)
    ensures
        final(s)@ == old(s)@ + decimal(n as nat),
    decreases n,
{
    if n >= 10 {
        push_decimal(s, n / 10);
    }
    push_char(s, digit_of(n % 10));
    assert(s@ =~= old(s)@ + decimal(n as nat));
}

/// A `String` holding exactly the given characters.
pub fn string_from_chars(chars: &Vec<char>) -> (r: String)
    ensures
        r@ == chars@,
{
    let mut s = String::new();
    for i in 0..chars.len()
        invariant
            s@ == chars@.subrange(0, i as int),
    {
        push_char(&mut s, chars[i]);
        assert(s@ =~= chars@.subrange(0, i + 1));
    }
    assert(chars@.subrange(0, chars.len() as int) =~= chars@);
    s
}

/// The characters of `s`, in order.
pub fn chars_of(s: &str) -> (r: Vec<char>)
    ensures
        r@ == s@,
{
    let mut v: Vec<char> = Vec::new();
    for c in it: s.chars()
        invariant
            v@ == it.seq().subrange(0, it.index() as int),
    {
        v.push(c);
    }
    v
}

} // verus!
