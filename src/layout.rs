//! Alignment of the reference text with a wrapped display of fixed width,
//! following the position of the user's cursor.

use vstd::prelude::*;

use crate::expected_input::ExpectedInputInterface;
use crate::helpers::split_by_char_index;

verus! {

/// The characters of `expected` at positions `from` up to, not including, `to`.
pub open spec fn text_between<E: ExpectedInputInterface>(expected: &E, from: nat, to: nat) -> Seq<
    char,
> {
    Seq::new((to - from) as nat, |i: int| expected.char_at((from + i) as nat))
}

/// The reference text around the cursor, cut where the display wraps it.
pub struct LineWrap {
    /// Reference text under what was typed so far.
    pub already_typed: String,
    /// Reference text from the cursor to the end of the cursor's line.
    pub current_line_rest: String,
    /// The line after the cursor's line.
    pub following_lines: String,
    /// Index of the display line that holds the cursor.
    pub line_index: usize,
    /// Column of the cursor in that line.
    pub line_offset: usize,
}

proof fn lemma_line_bounds(typed: int, width: int)
    requires
        typed >= 0,
        width >= 1,
    ensures
        (typed / width) * width + typed % width == typed,
        0 <= typed % width < width,
        typed / width >= 0,
        typed < (typed / width + 1) * width,
        (typed / width + 1) * width + width == (typed / width + 2) * width,
        (typed / width + 1) * width - typed == width - typed % width,
{
    let q = typed / width;
    let m = typed % width;
    vstd::arithmetic::div_mod::lemma_fundamental_div_mod(typed, width);
    vstd::arithmetic::div_mod::lemma_mod_bound(typed, width);
    vstd::arithmetic::div_mod::lemma_div_pos_is_pos(typed, width);
    assert(q * width + m == typed) by (nonlinear_arith)
        requires
            typed == width * q + m,
    ;
    assert((q + 1) * width == q * width + width) by (nonlinear_arith);
    assert((q + 2) * width == q * width + 2 * width) by (nonlinear_arith);
}

/// `r` cuts the text of `expected` for a display `width` characters wide when
/// `typed` characters have been typed.
pub open spec fn is_line_wrap<E: ExpectedInputInterface>(
    r: LineWrap,
    expected: &E,
    typed: nat,
    width: nat,
) -> bool {
    let line_end = (r.line_index + 1) * width;
    &&& r.line_index == typed / width
    &&& r.line_offset == typed % width
    &&& r.already_typed@ == text_between(expected, 0, typed)
    &&& r.current_line_rest@ == text_between(expected, typed, line_end as nat)
    &&& r.following_lines@ == text_between(expected, line_end as nat, (line_end + width) as nat)
    &&& r.already_typed@.len() == typed
    &&& r.current_line_rest@.len() == width - r.line_offset
    &&& r.following_lines@.len() == width
}

/// Splits the reference text for a display `width` characters wide when
/// `typed_length` characters have been typed: the text under the typed
/// characters, the rest of the cursor's line, and one more line.
pub fn line_wrap_layout<E: ExpectedInputInterface>(
    expected: &E,
    typed_length: usize,
    width: usize,
) -> (r: LineWrap)
    requires
        width >= 1,
        (typed_length / width + 2) * width <= usize::MAX,
    ensures
        is_line_wrap(r, expected, typed_length as nat, width as nat),
{
    let line_index = typed_length / width;
    let line_offset = typed_length % width;
    proof {
        lemma_line_bounds(typed_length as int, width as int);
    }
    let block_end = (line_index + 1) * width;
    let total = block_end + width;
    let text = expected.get_string(total);
    let (current_block, following) = split_by_char_index(text.as_str(), block_end);
    let (typed, rest) = split_by_char_index(current_block, typed_length);
    let r = LineWrap {
        already_typed: typed.to_owned(),
        current_line_rest: rest.to_owned(),
        following_lines: following.to_owned(),
        line_index,
        line_offset,
    };
    assert(r.already_typed@ =~= text_between(expected, 0, typed_length as nat));
    assert(r.current_line_rest@ =~= text_between(expected, typed_length as nat, block_end as nat));
    assert(r.following_lines@ =~= text_between(expected, block_end as nat, total as nat));
    r
}

} // verus!
