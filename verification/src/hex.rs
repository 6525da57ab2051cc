//! Hexadecimal text to bytes.

use vstd::prelude::*;
use vstd::string::StrSliceExecFns;

verus! {

/// The value of one hexadecimal digit character, if it is one.
pub open spec fn hex_digit_value(c: char) -> Option<int> {
    let v = c as int;
    if 48 <= v <= 57 {
        Some(v - 48)
    } else if 97 <= v <= 102 {
        Some(v - 87)
    } else if 65 <= v <= 70 {
        Some(v - 55)
    } else {
        None
    }
}

/// The bytes an even-length run of hexadecimal digits encodes, two digits to
/// a byte, high digit first; `None` when the text is not such a run.
pub open spec fn hex_decode_rep(s: Seq<char>) -> Option<Seq<u8>>
    decreases s.len(),
{
    if s.len() == 0 {
        Some(Seq::<u8>::empty())
    } else if s.len() == 1 {
        None
    } else {
        match (hex_digit_value(s[0]), hex_digit_value(s[1])) {
            (Some(h), Some(l)) => match hex_decode_rep(s.skip(2)) {
                Some(rest) => Some(seq![(h * 16 + l) as u8] + rest),
                None => None,
            },
            _ => None,
        }
    }
}

/// The value of one hexadecimal digit character.
fn hex_digit(c: char) -> (r: Option<u8>)
    ensures
        r is Some <==> hex_digit_value(c) is Some,
        r matches Some(v) ==> hex_digit_value(c) == Some(v as int) && v < 16,
{
    let v = c as u32;
    if 48 <= v && v <= 57 {
        Some((v - 48) as u8)
    } else if 97 <= v && v <= 102 {
        Some((v - 87) as u8)
    } else if 65 <= v && v <= 70 {
        Some((v - 55) as u8)
    } else {
        None
    }
}

/// Decode a run of hexadecimal digits into the bytes it spells, or `None`
/// when the text is not an even-length run of hex digits.
pub fn hex_decode(s: &str) -> (r: Option<Vec<u8>>)
    ensures
        r matches Some(b) ==> hex_decode_rep(s@) == Some(b@),
        r is None <==> hex_decode_rep(s@) is None,
{
    let n = s.unicode_len();
    let mut out: Vec<u8> = Vec::new();
    let mut i: usize = 0;
    proof {
        assert(s@.skip(0) =~= s@);
        if hex_decode_rep(s@) is Some {
            assert(hex_decode_rep(s@)->Some_0 =~= out@ + (hex_decode_rep(s@.skip(0))->Some_0));
        }
    }
    while i < n
        invariant
            i <= n,
            n == s@.len(),
            i % 2 == 0,
            hex_decode_rep(s@) is Some <==> hex_decode_rep(s@.skip(i as int)) is Some,
            hex_decode_rep(s@) matches Some(all) ==> all == out@ + (hex_decode_rep(
                s@.skip(i as int),
            )->Some_0),
        decreases n - i,
    {
        if i + 1 == n {
            return None;
        }
        let c0 = s.get_char(i);
        let c1 = s.get_char(i + 1);
        let d0 = hex_digit(c0);
        let d1 = hex_digit(c1);
        if d0.is_none() || d1.is_none() {
            return None;
        }
        let h = d0.unwrap();
        let l = d1.unwrap();
        proof {
            assert(s@.skip(i as int).skip(2) =~= s@.skip(i as int + 2));
            assert(s@.skip(i as int)[0] == s@[i as int]);
            assert(s@.skip(i as int)[1] == s@[i as int + 1]);
        }
        out.push(h * 16 + l);
        proof {
            if hex_decode_rep(s@) is Some {
                let all = hex_decode_rep(s@)->Some_0;
                assert(all =~= out@ + (hex_decode_rep(s@.skip(i as int + 2))->Some_0));
            }
        }
        i = i + 2;
    }
    proof {
        assert(s@.skip(n as int) =~= Seq::<char>::empty());
        if hex_decode_rep(s@) is Some {
            let all = hex_decode_rep(s@)->Some_0;
            assert(all =~= out@);
        }
    }
    Some(out)
}

} // verus!
