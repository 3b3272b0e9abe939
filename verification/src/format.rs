//! Display formatting for whole numbers: decimal digits grouped in threes.

use vstd::prelude::*;
use vstd::string::StrSliceExecFns;
use vstd::string::StringExecFns;

verus! {

/// The decimal digit character for a value below ten.
pub open spec fn spec_digit_char(d: int) -> char {
    if d == 0 {
        '0'
    } else if d == 1 {
        '1'
    } else if d == 2 {
        '2'
    } else if d == 3 {
        '3'
    } else if d == 4 {
        '4'
    } else if d == 5 {
        '5'
    } else if d == 6 {
        '6'
    } else if d == 7 {
        '7'
    } else if d == 8 {
        '8'
    } else {
        '9'
    }
}

/// The decimal digits of a number, most significant first; 0 reads as "0".
pub open spec fn spec_decimal_chars(n: int) -> Seq<char>
    recommends
        0 <= n,
    decreases n,
{
    if n < 10 {
        seq![spec_digit_char(n)]
    } else {
        spec_decimal_chars(n / 10).push(spec_digit_char(n % 10))
    }
}

/// The same digits with a comma before every complete group of three
/// counted from the right.
pub open spec fn spec_grouped(s: Seq<char>) -> Seq<char>
    decreases s.len(),
{
    if s.len() <= 3 {
        s
    } else {
        spec_grouped(s.take(s.len() - 3)) + seq![','] + s.skip(s.len() - 3)
    }
}

/// A number written in decimal with thousands separators.
pub open spec fn spec_format_number(n: int) -> Seq<char> {
    spec_grouped(spec_decimal_chars(n))
}

/// The one-character string for a decimal digit.
fn digit_str(d: u32) -> (r: &'static str)
    requires
        d < 10,
    ensures
        r@ == seq![spec_digit_char(d as int)],
{
    proof {
        reveal_strlit("0");
        reveal_strlit("1");
        reveal_strlit("2");
        reveal_strlit("3");
        reveal_strlit("4");
        reveal_strlit("5");
        reveal_strlit("6");
        reveal_strlit("7");
        reveal_strlit("8");
        reveal_strlit("9");
    }
    let r = match d {
        0 => "0",
        1 => "1",
        2 => "2",
        3 => "3",
        4 => "4",
        5 => "5",
        6 => "6",
        7 => "7",
        8 => "8",
        _ => "9",
    };
    proof {
        assert(r@ =~= seq![spec_digit_char(d as int)]);
    }
    r
}

/// Appends the decimal digits of `n`, most significant first.
fn push_decimal_chars(out: &mut String, n: u32)
    ensures
        final (out)@ == old(out)@ + spec_decimal_chars(n as int),
    decreases n,
{
    if n < 10 {
        out.append(digit_str(n));
        assert(final (out)@ =~= old(out)@ + spec_decimal_chars(n as int));
    } else {
        push_decimal_chars(out, n / 10);
        out.append(digit_str(n % 10));
        assert(final (out)@ =~= old(out)@ + spec_decimal_chars(n as int));
    }
}

/// Rebuilds a digit string with a comma before every complete group of
/// three digits counted from the right.
fn grouped(s: &str) -> (r: String)
    ensures
        r@ == spec_grouped(s@),
    decreases s@.len(),
{
    let len = s.unicode_len();
    if len <= 3 {
        s.to_owned()
    } else {
        let head = s.substring_char(0, len - 3);
        let tail = s.substring_char(len - 3, len);
        assert(head@ =~= s@.take(s@.len() - 3));
        assert(tail@ =~= s@.skip(s@.len() - 3));
        let mut r = grouped(head);
        r.append(",");
        r.append(tail);
        proof {
            reveal_strlit(",");
            assert(","@ =~= seq![',']);
            assert(r@ =~= spec_grouped(s@));
        }
        r
    }
}

/// A number in decimal with a comma between each group of three digits.
pub fn format_number(num: u32) -> (r: String)
    ensures
        r@ == spec_format_number(num as int),
{
    let mut digits = String::new();
    push_decimal_chars(&mut digits, num);
    assert(digits@ =~= spec_decimal_chars(num as int));
    grouped(digits.as_str())
}

} // verus!
