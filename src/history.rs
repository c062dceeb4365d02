//! The window of past results that a chart of the given width shows, and
//! the two-digit labels under its bars.

use vstd::prelude::*;

use crate::helpers::{decimal, push_decimal};

verus! {

/// Width of one bar of the chart, in columns; bars are one column apart.
pub const BAR_WIDTH: u16 = 5;

/// How many bars fit in `frame_width` columns.
pub fn bars_to_show(frame_width: u16) -> (r: usize)
    ensures
        r == (frame_width + 1) / (BAR_WIDTH + 1) as int,
{
    ((frame_width as usize) + 1) / ((BAR_WIDTH as usize) + 1)
}

/// Index of the first of `results_len` results that the chart shows: the
/// latest results that fit, or all of them.
pub fn chart_start(results_len: usize, frame_width: u16) -> (r: usize)
    ensures
        r == if results_len >= (frame_width + 1) / (BAR_WIDTH + 1) as int {
            results_len - (frame_width + 1) / (BAR_WIDTH + 1) as int
        } else {
            0
        },
{
    let bars = bars_to_show(frame_width);
    if results_len >= bars {
        results_len - bars
    } else {
        0
    }
}

/// A number with at least two digits: a leading zero below ten.
pub open spec fn two_digits(number: nat) -> Seq<char> {
    if number < 10 {
        seq!['0'] + decimal(number)
    } else {
        decimal(number)
    }
}

/// Formats an hour, minute, month or day with at least two digits.
pub fn fmt_num(number: u32) -> (r: String)
    ensures
        r@ == two_digits(number as nat),
{
    let mut s = String::new();
    if number < 10 {
        s.append("0");
        proof {
            reveal_strlit("0");
        }
    }
    push_decimal(&mut s, number as u64);
    assert(s@ =~= two_digits(number as nat));
    s
}

} // verus!
