//! Decimal rendering of the numbers that appear in partition paths.

use vstd::prelude::*;
use vstd::string::StringExecFns;

verus! {

/// The character of a decimal digit.
pub open spec fn digit_char(d: nat) -> char {
    if d == 0 {
        '0'
    } else if d == 1 {
        '1'
    } else if d == 2 {
        '2'
    } else if d == 3 {
        '3'
    } else if d == 4 {
        '4'
    } else if d == 5 {
        '5'
    } else if d == 6 {
        '6'
    } else if d == 7 {
        '7'
    } else if d == 8 {
        '8'
    } else {
        '9'
    }
}

/// `n` in decimal, with leading zeros up to at least `width` digits.
pub open spec fn padded_decimal(n: nat, width: nat) -> Seq<char>
    decreases n + width,
{
    if n < 10 && width <= 1 {
        seq![digit_char(n)]
    } else {
        let w: nat = if width > 0 { (width - 1) as nat } else { 0 };
        padded_decimal(n / 10, w).push(digit_char(n % 10))
    }
}

/// A year as `%Y` writes it: four digits for 0 through 9999, else a sign
/// followed by at least four digits.
pub open spec fn year_text(y: int) -> Seq<char> {
    if 0 <= y <= 9999 {
        padded_decimal(y as nat, 4)
    } else if y > 9999 {
        seq!['+'] + padded_decimal(y as nat, 4)
    } else {
        seq!['-'] + padded_decimal((-y) as nat, 4)
    }
}

fn digit_str(d: u32) -> (r: &'static str)
    requires
        d < 10,
    ensures
        r@ == seq![digit_char(d as nat)],
{
    proof {
        reveal_strlit("0");
        reveal_strlit("1");
        reveal_strlit("2");
        reveal_strlit("3");
        reveal_strlit("4");
        reveal_strlit("5");
        reveal_strlit("6");
        reveal_strlit("7");
        reveal_strlit("8");
        reveal_strlit("9");
    }
    if d == 0 {
        "0"
    } else if d == 1 {
        "1"
    } else if d == 2 {
        "2"
    } else if d == 3 {
        "3"
    } else if d == 4 {
        "4"
    } else if d == 5 {
        "5"
    } else if d == 6 {
        "6"
    } else if d == 7 {
        "7"
    } else if d == 8 {
        "8"
    } else {
        "9"
    }
}

/// Appends `n` in decimal, zero-padded to at least `width` digits.
pub fn append_padded(s: &mut String, n: u32, width: u32)
    ensures
        final(s)@ == old(s)@ + padded_decimal(n as nat, width as nat),
    decreases n + width,
{
    if n < 10 && width <= 1 {
        s.append(digit_str(n));
    } else {
        let w: u32 = if width > 0 { width - 1 } else { 0 };
        append_padded(s, n / 10, w);
        s.append(digit_str(n % 10));
        assert(final(s)@ =~= old(s)@ + padded_decimal(n as nat, width as nat));
    }
}

/// Appends the year as `%Y` writes it.
pub fn append_year(s: &mut String, y: i32)
    ensures
        final(s)@ == old(s)@ + year_text(y as int),
{
    proof {
        reveal_strlit("+");
        reveal_strlit("-");
    }
    if 0 <= y && y <= 9999 {
        append_padded(s, y as u32, 4);
    } else if y > 9999 {
        s.append("+");
        append_padded(s, y as u32, 4);
        assert(final(s)@ =~= old(s)@ + year_text(y as int));
    } else {
        s.append("-");
        let a: u32 = (0i64 - y as i64) as u32;
        append_padded(s, a, 4);
        assert(final(s)@ =~= old(s)@ + year_text(y as int));
    }
}

} // verus!
