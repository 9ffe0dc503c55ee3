//! Decimal rendering of integers, with an exact character-level specification.

use vstd::prelude::*;
use vstd::string::StringExecFns;

verus! {

/// The character for a single decimal digit value.
pub open spec fn spec_digit(d: nat) -> char {
    if d == 0 {
        '0'
    } else if d == 1 {
        '1'
    } else if d == 2 {
        '2'
    } else if d == 3 {
        '3'
    } else if d == 4 {
        '4'
    } else if d == 5 {
        '5'
    } else if d == 6 {
        '6'
    } else if d == 7 {
        '7'
    } else if d == 8 {
        '8'
    } else {
        '9'
    }
}

/// Whether a character is a decimal digit.
pub open spec fn spec_is_digit(c: char) -> bool {
    c == '0' || c == '1' || c == '2' || c == '3' || c == '4' || c == '5' || c == '6' || c == '7'
        || c == '8' || c == '9'
}

/// The decimal digit string of a nonnegative integer, most significant digit
/// first, with no leading zeros (except for zero itself).
pub open spec fn spec_udec(n: nat) -> Seq<char>
    decreases n,
{
    if n < 10 {
        seq![spec_digit(n)]
    } else {
        spec_udec(n / 10) + seq![spec_digit(n % 10)]
    }
}

/// The decimal string of an integer: a minus sign before the digits of the
/// magnitude when negative.
pub open spec fn spec_idec(n: int) -> Seq<char> {
    if n < 0 {
        seq!['-'] + spec_udec((-n) as nat)
    } else {
        spec_udec(n as nat)
    }
}

/// Every character of an unsigned decimal string is a digit, and the string is
/// nonempty.
pub proof fn lemma_udec_digits(n: nat)
    ensures
        spec_udec(n).len() >= 1,
        forall|i: int| 0 <= i < spec_udec(n).len() ==> spec_is_digit(#[trigger] spec_udec(n)[i]),
    decreases n,
{
    if n >= 10 {
        lemma_udec_digits(n / 10);
    }
}

/// Every character of a signed decimal string is a digit or a minus sign, and
/// the string is nonempty.
pub proof fn lemma_idec_chars(n: int)
    ensures
        spec_idec(n).len() >= 1,
        forall|i: int| 0 <= i < spec_idec(n).len() ==> (spec_is_digit(#[trigger] spec_idec(n)[i])
            || spec_idec(n)[i] == '-'),
{
    if n < 0 {
        lemma_udec_digits((-n) as nat);
    } else {
        lemma_udec_digits(n as nat);
    }
}

/// The single-character string for one decimal digit value.
fn digit_to_string(d: u8) -> (s: String)
    requires
        d < 10,
    ensures
        s@ == seq![spec_digit(d as nat)],
{
    let r: &str = match d {
        0 => "0",
        1 => "1",
        2 => "2",
        3 => "3",
        4 => "4",
        5 => "5",
        6 => "6",
        7 => "7",
        8 => "8",
        _ => "9",
    };
    proof {
        reveal_strlit("0");
        reveal_strlit("1");
        reveal_strlit("2");
        reveal_strlit("3");
        reveal_strlit("4");
        reveal_strlit("5");
        reveal_strlit("6");
        reveal_strlit("7");
        reveal_strlit("8");
        reveal_strlit("9");
        assert(r@ =~= seq![spec_digit(d as nat)]);
    }
    String::from_str(r)
}

/// Renders a nonnegative integer in decimal.
pub fn u128_to_string(n: u128) -> (s: String)
    ensures
        s@ == spec_udec(n as nat),
    decreases n,
{
    if n < 10 {
        digit_to_string(n as u8)
    } else {
        let mut s = u128_to_string(n / 10);
        let d = digit_to_string((n % 10) as u8);
        s.append(d.as_str());
        s
    }
}

/// Renders a signed integer in decimal.
pub fn i64_to_string(n: i64) -> (s: String)
    ensures
        s@ == spec_idec(n as int),
{
    if n >= 0 {
        let s = u128_to_string(n as u128);
        s
    } else {
        let m: i128 = -(n as i128);
        let mut s = String::from_str("-");
        let d = u128_to_string(m as u128);
        s.append(d.as_str());
        proof {
            reveal_strlit("-");
            assert(s@ =~= spec_idec(n as int));
        }
        s
    }
}

} // verus!
