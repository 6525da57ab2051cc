//! MsgPack items rendered as the agreed textual value encoding.
//!
//! The bridge's decode transformation carries a narrow subset of MsgPack:
//! nil, booleans, integers, and plain strings (strings whose text contains no
//! quote, no backslash and no control character, so that the text is its own
//! encoding body).  Floats, containers, binary and extension items, and
//! strings that would need escaping, are outside the subset and decode to
//! `None`.

use crate::codec::decode_text;
use crate::text::{dec_rep, int_rep, negative_decimal, u64_to_decimal};
use vstd::prelude::*;
use vstd::string::{StrSliceExecFns, StringExecFns};
use vstd::utf8::{decode_utf8, valid_utf8};

verus! {

/// Big-endian integer value of a byte sequence.
pub open spec fn be_value(bytes: Seq<u8>) -> int
    decreases bytes.len(),
{
    if bytes.len() == 0 {
        0
    } else {
        be_value(bytes.drop_last()) * 256 + bytes.last()
    }
}

/// 256 to the power `n`.
pub open spec fn pow256(n: int) -> int
    decreases n,
{
    if n <= 0 {
        1
    } else {
        256 * pow256(n - 1)
    }
}

proof fn lemma_pow256_pos(n: int)
    ensures
        pow256(n) >= 1,
    decreases n,
{
    if n > 0 {
        lemma_pow256_pos(n - 1);
    }
}

proof fn lemma_pow256_le(a: int, b: int)
    requires
        a <= b,
    ensures
        pow256(a) <= pow256(b),
    decreases b - a,
{
    if a < b {
        lemma_pow256_le(a, b - 1);
        lemma_pow256_pos(b - 1);
    }
}

/// Two's-complement reading of the unsigned value of an `n`-byte item.
pub open spec fn as_signed(v: int, n: int) -> int {
    if v < pow256(n) / 2 {
        v
    } else {
        v - pow256(n)
    }
}

/// A string whose text is its own encoding body: no quote, no backslash, no
/// control character.
pub open spec fn string_plain(chars: Seq<char>) -> bool {
    forall|i: int|
        0 <= i < chars.len() ==> (#[trigger] chars[i]) != '"' && chars[i] != '\\' && chars[i]
            as int >= 32
}

/// The textual encoding of a MsgPack string body of the stated length.
pub open spec fn string_rep(body: Seq<u8>, len: int) -> Option<Seq<char>> {
    if body.len() == len && valid_utf8(body) && string_plain(decode_utf8(body)) {
        Some("\""@ + decode_utf8(body) + "\""@)
    } else {
        None
    }
}

/// The textual value a single MsgPack item denotes, for the subset carried
/// over this bridge; `None` when the bytes are not exactly one such item.
pub open spec fn msgpack_json_rep(bytes: Seq<u8>) -> Option<Seq<char>> {
    if bytes.len() == 0 {
        None
    } else {
        let tag = bytes[0] as int;
        let body = bytes.skip(1);
        if tag == 0xc0 {
            if body.len() == 0 {
                Some("null"@)
            } else {
                None
            }
        } else if tag == 0xc2 {
            if body.len() == 0 {
                Some("false"@)
            } else {
                None
            }
        } else if tag == 0xc3 {
            if body.len() == 0 {
                Some("true"@)
            } else {
                None
            }
        } else if tag < 0x80 {
            if body.len() == 0 {
                Some(dec_rep(tag))
            } else {
                None
            }
        } else if tag >= 0xe0 {
            if body.len() == 0 {
                Some(int_rep(tag - 256))
            } else {
                None
            }
        } else if tag == 0xcc {
            if body.len() == 1 {
                Some(dec_rep(be_value(body)))
            } else {
                None
            }
        } else if tag == 0xcd {
            if body.len() == 2 {
                Some(dec_rep(be_value(body)))
            } else {
                None
            }
        } else if tag == 0xce {
            if body.len() == 4 {
                Some(dec_rep(be_value(body)))
            } else {
                None
            }
        } else if tag == 0xcf {
            if body.len() == 8 {
                Some(dec_rep(be_value(body)))
            } else {
                None
            }
        } else if tag == 0xd0 {
            if body.len() == 1 {
                Some(int_rep(as_signed(be_value(body), 1)))
            } else {
                None
            }
        } else if tag == 0xd1 {
            if body.len() == 2 {
                Some(int_rep(as_signed(be_value(body), 2)))
            } else {
                None
            }
        } else if tag == 0xd2 {
            if body.len() == 4 {
                Some(int_rep(as_signed(be_value(body), 4)))
            } else {
                None
            }
        } else if tag == 0xd3 {
            if body.len() == 8 {
                Some(int_rep(as_signed(be_value(body), 8)))
            } else {
                None
            }
        } else if 0xa0 <= tag && tag <= 0xbf {
            string_rep(body, tag - 0xa0)
        } else if tag == 0xd9 {
            if body.len() >= 1 {
                string_rep(body.skip(1), body[0] as int)
            } else {
                None
            }
        } else {
            None
        }
    }
}

/// Read `count` bytes starting at `start` as one big-endian unsigned value.
fn read_be(bytes: &Vec<u8>, start: usize, count: usize) -> (r: u64)
    requires
        start + count <= bytes@.len(),
        count <= 8,
    ensures
        r == be_value(bytes@.subrange(start as int, start as int + count as int)),
        r < pow256(count as int),
{
    let total = bytes.len();
    let end = start + count;
    let mut acc: u64 = 0;
    let mut idx: usize = start;
    proof {
        assert(bytes@.subrange(start as int, start as int) =~= Seq::<u8>::empty());
    }
    while idx < end
        invariant
            start <= idx <= end,
            end == start + count,
            count <= 8,
            end <= bytes@.len(),
            acc == be_value(bytes@.subrange(start as int, idx as int)),
            acc < pow256(idx - start),
        decreases end - idx,
    {
        let b = bytes[idx];
        proof {
            let prefix = bytes@.subrange(start as int, idx as int);
            let next = bytes@.subrange(start as int, idx as int + 1);
            assert(next.drop_last() =~= prefix);
            assert(next.last() == bytes@[idx as int]);
            assert(pow256(idx - start + 1) == 256 * pow256(idx - start));
            assert(acc * 256 + b < pow256(idx - start + 1)) by (nonlinear_arith)
                requires
                    0 <= acc < pow256(idx - start),
                    b < 256,
                    pow256(idx - start + 1) == 256 * pow256(idx - start),
            ;
            lemma_pow256_le(idx - start + 1, 8);
            reveal_with_fuel(pow256, 9);
            assert(pow256(8) == 0x1_0000_0000_0000_0000);
        }
        acc = acc * 256 + (b as u64);
        idx = idx + 1;
    }
    acc
}

/// Decode the byte run from `start` to the end as a MsgPack string body.
fn decode_string_body(bytes: &Vec<u8>, start: usize) -> (r: Option<String>)
    requires
        start <= bytes@.len(),
    ensures
        r matches Some(s) ==> string_rep(bytes@.skip(start as int), bytes@.len() - start) == Some(
            s@,
        ),
        r is None <==> string_rep(bytes@.skip(start as int), bytes@.len() - start) is None,
{
    let mut content: Vec<u8> = Vec::new();
    let mut j: usize = start;
    proof {
        assert(content@ =~= bytes@.subrange(start as int, start as int));
    }
    while j < bytes.len()
        invariant
            start <= j <= bytes@.len(),
            content@ == bytes@.subrange(start as int, j as int),
        decreases bytes@.len() - j,
    {
        let b = bytes[j];
        content.push(b);
        proof {
            assert(bytes@.subrange(start as int, j as int + 1) =~= bytes@.subrange(
                start as int,
                j as int,
            ).push(bytes@[j as int]));
        }
        j = j + 1;
    }
    proof {
        assert(content@ =~= bytes@.skip(start as int));
    }
    let decoded = match decode_text(content) {
        Ok(s) => s,
        Err(_) => {
            return None;
        },
    };
    let m = decoded.as_str().unicode_len();
    let mut k: usize = 0;
    while k < m
        invariant
            k <= m,
            m == decoded@.len(),
            decoded@ == decode_utf8(bytes@.skip(start as int)),
            forall|t: int|
                0 <= t < k ==> (#[trigger] decoded@[t]) != '"' && decoded@[t] != '\\'
                    && decoded@[t] as int >= 32,
        decreases m - k,
    {
        let c = decoded.as_str().get_char(k);
        if c == '"' || c == '\\' || (c as u32) < 32 {
            return None;
        }
        k = k + 1;
    }
    let mut out = String::from_str("\"");
    out.append(decoded.as_str());
    out.append("\"");
    Some(out)
}

/// Render a single MsgPack item of the supported subset as its textual value
/// encoding; `None` when the bytes are not exactly one such item.
pub fn msgpack_to_json(bytes: &Vec<u8>) -> (r: Option<String>)
    ensures
        r matches Some(s) ==> msgpack_json_rep(bytes@) == Some(s@),
        r is None <==> msgpack_json_rep(bytes@) is None,
{
    let n = bytes.len();
    if n == 0 {
        return None;
    }
    let tag = bytes[0];
    proof {
        assert(bytes@.skip(1).len() == bytes@.len() - 1);
        reveal_with_fuel(pow256, 9);
    }
    if tag == 0xc0 {
        if n == 1 {
            Some(String::from_str("null"))
        } else {
            None
        }
    } else if tag == 0xc2 {
        if n == 1 {
            Some(String::from_str("false"))
        } else {
            None
        }
    } else if tag == 0xc3 {
        if n == 1 {
            Some(String::from_str("true"))
        } else {
            None
        }
    } else if tag < 0x80 {
        if n == 1 {
            Some(u64_to_decimal(tag as u64))
        } else {
            None
        }
    } else if tag >= 0xe0 {
        if n == 1 {
            Some(negative_decimal(256 - (tag as u64)))
        } else {
            None
        }
    } else if tag == 0xcc {
        if n == 2 {
            let v = read_be(bytes, 1, 1);
            proof {
                assert(bytes@.subrange(1, 2) =~= bytes@.skip(1));
            }
            Some(u64_to_decimal(v))
        } else {
            None
        }
    } else if tag == 0xcd {
        if n == 3 {
            let v = read_be(bytes, 1, 2);
            proof {
                assert(bytes@.subrange(1, 3) =~= bytes@.skip(1));
            }
            Some(u64_to_decimal(v))
        } else {
            None
        }
    } else if tag == 0xce {
        if n == 5 {
            let v = read_be(bytes, 1, 4);
            proof {
                assert(bytes@.subrange(1, 5) =~= bytes@.skip(1));
            }
            Some(u64_to_decimal(v))
        } else {
            None
        }
    } else if tag == 0xcf {
        if n == 9 {
            let v = read_be(bytes, 1, 8);
            proof {
                assert(bytes@.subrange(1, 9) =~= bytes@.skip(1));
            }
            Some(u64_to_decimal(v))
        } else {
            None
        }
    } else if tag == 0xd0 {
        if n == 2 {
            let v = read_be(bytes, 1, 1);
            proof {
                assert(bytes@.subrange(1, 2) =~= bytes@.skip(1));
            }
            if v < 0x80 {
                Some(u64_to_decimal(v))
            } else {
                Some(negative_decimal(0x100 - v))
            }
        } else {
            None
        }
    } else if tag == 0xd1 {
        if n == 3 {
            let v = read_be(bytes, 1, 2);
            proof {
                assert(bytes@.subrange(1, 3) =~= bytes@.skip(1));
            }
            if v < 0x8000 {
                Some(u64_to_decimal(v))
            } else {
                Some(negative_decimal(0x1_0000 - v))
            }
        } else {
            None
        }
    } else if tag == 0xd2 {
        if n == 5 {
            let v = read_be(bytes, 1, 4);
            proof {
                assert(bytes@.subrange(1, 5) =~= bytes@.skip(1));
            }
            if v < 0x8000_0000 {
                Some(u64_to_decimal(v))
            } else {
                Some(negative_decimal(0x1_0000_0000 - v))
            }
        } else {
            None
        }
    } else if tag == 0xd3 {
        if n == 9 {
            let v = read_be(bytes, 1, 8);
            proof {
                assert(bytes@.subrange(1, 9) =~= bytes@.skip(1));
            }
            if v < 0x8000_0000_0000_0000 {
                Some(u64_to_decimal(v))
            } else {
                let magnitude = (0xffff_ffff_ffff_ffff - v) + 1;
                proof {
                    assert(magnitude as int == pow256(8) - v);
                }
                Some(negative_decimal(magnitude))
            }
        } else {
            None
        }
    } else if 0xa0 <= tag && tag <= 0xbf {
        let len = (tag - 0xa0) as usize;
        if n == 1 + len {
            decode_string_body(bytes, 1)
        } else {
            None
        }
    } else if tag == 0xd9 {
        if n >= 2 {
            let len = bytes[1] as usize;
            if n == 2 + len {
                proof {
                    assert(bytes@.skip(1).skip(1) =~= bytes@.skip(2));
                    assert(bytes@.skip(1)[0] == bytes@[1]);
                }
                decode_string_body(bytes, 2)
            } else {
                None
            }
        } else {
            None
        }
    } else {
        None
    }
}

} // verus!
