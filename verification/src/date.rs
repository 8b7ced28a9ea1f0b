//! Calendar dates as plain values, and the `YYYY-MM-DD` version label that
//! an unpinned entry takes from its latest commit's timestamp.

use vstd::prelude::*;

verus! {

/// A calendar date, held as plain integers.  The surrounding program fills
/// one in from a commit timestamp; the library only formats it.
#[derive(Clone, Copy, Debug, PartialEq, Eq, Structural)]
pub struct Date {
    pub year: u32,
    pub month: u8,
    pub day: u8,
}

impl Date {
    /// A date the version label can represent: four-digit year, real month
    /// and day ranges.
    pub open spec fn wf(&self) -> bool {
        self.year <= 9999 && 1 <= self.month <= 12 && 1 <= self.day <= 31
    }
}

/// The decimal digit character for `d` (`0 <= d <= 9`).
pub open spec fn dec_digit(d: int) -> char {
    if d == 0 {
        '0'
    } else if d == 1 {
        '1'
    } else if d == 2 {
        '2'
    } else if d == 3 {
        '3'
    } else if d == 4 {
        '4'
    } else if d == 5 {
        '5'
    } else if d == 6 {
        '6'
    } else if d == 7 {
        '7'
    } else if d == 8 {
        '8'
    } else {
        '9'
    }
}

/// `n` rendered as exactly two decimal digits, zero-padded.
pub open spec fn two_digits(n: int) -> Seq<char> {
    seq![dec_digit(n / 10), dec_digit(n % 10)]
}

/// `n` rendered as exactly four decimal digits, zero-padded.
pub open spec fn four_digits(n: int) -> Seq<char> {
    seq![
        dec_digit(n / 1000),
        dec_digit((n / 100) % 10),
        dec_digit((n / 10) % 10),
        dec_digit(n % 10),
    ]
}

/// The version label of an unpinned entry: the commit date as `YYYY-MM-DD`.
pub open spec fn version_label_spec(d: Date) -> Seq<char> {
    four_digits(d.year as int) + seq!['-'] + two_digits(d.month as int) + seq!['-'] + two_digits(
        d.day as int,
    )
}

/// Append the single decimal digit `d` to `out`.
fn push_digit(out: &mut String, d: usize)
    requires
        d <= 9,
    ensures
        final(out)@ == old(out)@ + seq![dec_digit(d as int)],
{
    let table = "0123456789";
    proof {
        reveal_strlit("0123456789");
    }
    let piece = table.substring_char(d, d + 1);
    proof {
        assert(piece@ =~= seq![dec_digit(d as int)]);
    }
    out.append(piece);
}

/// Render a date as its `YYYY-MM-DD` version label.
pub fn version_label(d: &Date) -> (r: String)
    requires
        d.wf(),
    ensures
        r@ == version_label_spec(*d),
{
    let mut out = String::new();
    let y = d.year as usize;
    push_digit(&mut out, y / 1000);
    push_digit(&mut out, (y / 100) % 10);
    push_digit(&mut out, (y / 10) % 10);
    push_digit(&mut out, y % 10);
    out.append("-");
    let m = d.month as usize;
    push_digit(&mut out, m / 10);
    push_digit(&mut out, m % 10);
    out.append("-");
    let dd = d.day as usize;
    push_digit(&mut out, dd / 10);
    push_digit(&mut out, dd % 10);
    proof {
        reveal_strlit("-");
        assert(out@ =~= version_label_spec(*d));
    }
    out
}

} // verus!
