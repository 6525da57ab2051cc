//! Decimal rendering of integers, used for diagnostics that must reproduce a
//! host status code exactly and for the fixed-width fields of a timestamp.

use vstd::prelude::*;
use vstd::string::StringExecFns;

verus! {

/// The character for one decimal digit.
pub open spec fn dec_digit(n: int) -> char
    recommends
        0 <= n < 10,
{
    if n == 0 {
        '0'
    } else if n == 1 {
        '1'
    } else if n == 2 {
        '2'
    } else if n == 3 {
        '3'
    } else if n == 4 {
        '4'
    } else if n == 5 {
        '5'
    } else if n == 6 {
        '6'
    } else if n == 7 {
        '7'
    } else if n == 8 {
        '8'
    } else {
        '9'
    }
}

/// The decimal representation of a non-negative integer, most significant
/// digit first, with no leading zeros (except for zero itself).
pub open spec fn dec_rep(n: int) -> Seq<char>
    recommends
        n >= 0,
    decreases n,
{
    if n < 10 {
        seq![dec_digit(n)]
    } else {
        dec_rep(n / 10).push(dec_digit(n % 10))
    }
}

/// The decimal representation of any integer: a minus sign before the
/// magnitude when negative.
pub open spec fn int_rep(n: int) -> Seq<char> {
    if n < 0 {
        seq!['-'] + dec_rep(-n)
    } else {
        dec_rep(n)
    }
}

/// Append one decimal digit to a string.
pub fn push_digit(s: &mut String, d: u64)
    requires
        d < 10,
    ensures
        final(s)@ == old(s)@ + seq![dec_digit(d as int)],
{
    proof {
        reveal_strlit("0");
        reveal_strlit("1");
        reveal_strlit("2");
        reveal_strlit("3");
        reveal_strlit("4");
        reveal_strlit("5");
        reveal_strlit("6");
        reveal_strlit("7");
        reveal_strlit("8");
        reveal_strlit("9");
    }
    if d == 0 {
        s.append("0");
        proof { assert(s@ =~= old(s)@ + seq![dec_digit(d as int)]); }
    } else if d == 1 {
        s.append("1");
        proof { assert(s@ =~= old(s)@ + seq![dec_digit(d as int)]); }
    } else if d == 2 {
        s.append("2");
        proof { assert(s@ =~= old(s)@ + seq![dec_digit(d as int)]); }
    } else if d == 3 {
        s.append("3");
        proof { assert(s@ =~= old(s)@ + seq![dec_digit(d as int)]); }
    } else if d == 4 {
        s.append("4");
        proof { assert(s@ =~= old(s)@ + seq![dec_digit(d as int)]); }
    } else if d == 5 {
        s.append("5");
        proof { assert(s@ =~= old(s)@ + seq![dec_digit(d as int)]); }
    } else if d == 6 {
        s.append("6");
        proof { assert(s@ =~= old(s)@ + seq![dec_digit(d as int)]); }
    } else if d == 7 {
        s.append("7");
        proof { assert(s@ =~= old(s)@ + seq![dec_digit(d as int)]); }
    } else if d == 8 {
        s.append("8");
        proof { assert(s@ =~= old(s)@ + seq![dec_digit(d as int)]); }
    } else {
        s.append("9");
        proof { assert(s@ =~= old(s)@ + seq![dec_digit(d as int)]); }
    }
}

/// Render a non-negative integer in decimal.
pub fn u64_to_decimal(n: u64) -> (r: String)
    ensures
        r@ == dec_rep(n as int),
    decreases n,
{
    if n < 10 {
        let mut s = String::new();
        push_digit(&mut s, n);
        proof { assert(s@ =~= dec_rep(n as int)); }
        s
    } else {
        let mut s = u64_to_decimal(n / 10);
        push_digit(&mut s, n % 10);
        proof { assert(s@ =~= dec_rep(n as int)); }
        s
    }
}

/// Render a (possibly negative) status code in decimal.
pub fn i32_to_decimal(code: i32) -> (r: String)
    ensures
        r@ == int_rep(code as int),
{
    if code >= 0 {
        u64_to_decimal(code as u64)
    } else {
        let magnitude: u64 = (-(code as i64)) as u64;
        let mut s = String::from_str("-");
        let digits = u64_to_decimal(magnitude);
        s.append(digits.as_str());
        proof {
            reveal_strlit("-");
            assert(s@ =~= int_rep(code as int));
        }
        s
    }
}

/// Render a negative integer, given its magnitude.
pub fn negative_decimal(magnitude: u64) -> (r: String)
    ensures
        r@ == seq!['-'] + dec_rep(magnitude as int),
{
    let mut s = String::from_str("-");
    let digits = u64_to_decimal(magnitude);
    s.append(digits.as_str());
    proof {
        reveal_strlit("-");
        assert(s@ =~= seq!['-'] + dec_rep(magnitude as int));
    }
    s
}

/// Wrap a text value in quotes: the agreed textual encoding of a string
/// value whose text needs no escaping (no quote, no backslash, no control
/// character), such as a rendered timestamp.
pub fn quote_text(value: &str) -> (r: String)
    ensures
        r@ == "\""@ + value@ + "\""@,
{
    let mut s = String::from_str("\"");
    s.append(value);
    s.append("\"");
    s
}

/// Two decimal digits, zero padded.
pub open spec fn pad2_rep(n: int) -> Seq<char>
    recommends
        0 <= n < 100,
{
    seq![dec_digit(n / 10), dec_digit(n % 10)]
}

/// Four decimal digits, zero padded.
pub open spec fn pad4_rep(n: int) -> Seq<char>
    recommends
        0 <= n < 10000,
{
    seq![
        dec_digit(n / 1000),
        dec_digit(n / 100 % 10),
        dec_digit(n / 10 % 10),
        dec_digit(n % 10),
    ]
}

/// Nine decimal digits, zero padded.
pub open spec fn pad9_rep(n: int) -> Seq<char>
    recommends
        0 <= n < 1000000000,
{
    seq![
        dec_digit(n / 100000000),
        dec_digit(n / 10000000 % 10),
        dec_digit(n / 1000000 % 10),
        dec_digit(n / 100000 % 10),
        dec_digit(n / 10000 % 10),
        dec_digit(n / 1000 % 10),
        dec_digit(n / 100 % 10),
        dec_digit(n / 10 % 10),
        dec_digit(n % 10),
    ]
}

/// Append a number as exactly two decimal digits.
pub fn push_pad2(s: &mut String, n: u64)
    requires
        n < 100,
    ensures
        final(s)@ == old(s)@ + pad2_rep(n as int),
{
    push_digit(s, n / 10);
    push_digit(s, n % 10);
    proof { assert(s@ =~= old(s)@ + pad2_rep(n as int)); }
}

/// Append a number as exactly four decimal digits.
pub fn push_pad4(s: &mut String, n: u64)
    requires
        n < 10000,
    ensures
        final(s)@ == old(s)@ + pad4_rep(n as int),
{
    push_digit(s, n / 1000);
    push_digit(s, n / 100 % 10);
    push_digit(s, n / 10 % 10);
    push_digit(s, n % 10);
    proof { assert(s@ =~= old(s)@ + pad4_rep(n as int)); }
}

/// Append a number as exactly nine decimal digits.
pub fn push_pad9(s: &mut String, n: u64)
    requires
        n < 1000000000,
    ensures
        final(s)@ == old(s)@ + pad9_rep(n as int),
{
    push_digit(s, n / 100000000);
    push_digit(s, n / 10000000 % 10);
    push_digit(s, n / 1000000 % 10);
    push_digit(s, n / 100000 % 10);
    push_digit(s, n / 10000 % 10);
    push_digit(s, n / 1000 % 10);
    push_digit(s, n / 100 % 10);
    push_digit(s, n / 10 % 10);
    push_digit(s, n % 10);
    proof { assert(s@ =~= old(s)@ + pad9_rep(n as int)); }
}

} // verus!
