//! Hex-string codecs.
//!
//! Byte arrays travel as `0x`-prefixed hex strings. An empty string or a
//! bare `0x` means the field is absent; anything else must carry the
//! prefix and an even run of hex digits, or the field is malformed.

use vstd::prelude::*;
use vstd::arithmetic::div_mod::{lemma_fundamental_div_mod, lemma_mod_division_less_than_divisor};
use crate::errors::CodecError;

verus! {

/// Whether `c` is a hex digit, either case.
pub open spec fn is_hex_digit(c: char) -> bool {
    ('0' <= c && c <= '9') || ('a' <= c && c <= 'f') || ('A' <= c && c <= 'F')
}

/// The numeric value of a hex digit character.
pub open spec fn hex_digit_val(c: char) -> nat {
    if '0' <= c && c <= '9' {
        (c as u32 - '0' as u32) as nat
    } else if 'a' <= c && c <= 'f' {
        (c as u32 - 'a' as u32 + 10) as nat
    } else {
        (c as u32 - 'A' as u32 + 10) as nat
    }
}

/// The lowercase character for a hex digit value below sixteen.
pub open spec fn hex_digit_char(d: nat) -> char {
    if d < 10 {
        ((d + 48) as u8) as char
    } else {
        ((d + 87) as u8) as char
    }
}

/// Whether every character of `s` is a hex digit.
pub open spec fn all_hex_digits(s: Seq<char>) -> bool {
    forall|i: int| 0 <= i < s.len() ==> is_hex_digit(#[trigger] s[i])
}

/// Whether the wire string means "no value": empty, or the bare prefix.
pub open spec fn hex_absent(s: Seq<char>) -> bool {
    s.len() == 0 || s == seq!['0', 'x']
}

/// Whether the wire string is a decodable non-absent hex field: the `0x`
/// prefix followed by a non-empty, even run of hex digits.
pub open spec fn hex_valid(s: Seq<char>) -> bool {
    s.len() > 2 && s[0] == '0' && s[1] == 'x' && (s.len() - 2) % 2 == 0 && all_hex_digits(
        s.skip(2),
    )
}

/// The bytes an even run of hex digits denotes.
pub open spec fn hex_bytes(digits: Seq<char>) -> Seq<u8> {
    Seq::new(
        digits.len() / 2,
        |i: int| (hex_digit_val(digits[2 * i]) * 16 + hex_digit_val(digits[2 * i + 1])) as u8,
    )
}

/// The digit run that encodes a byte sequence, lowercase.
pub open spec fn hex_digits_of(bs: Seq<u8>) -> Seq<char> {
    Seq::new(
        2 * bs.len(),
        |i: int| if i % 2 == 0 {
            hex_digit_char((bs[i / 2] / 16) as nat)
        } else {
            hex_digit_char((bs[i / 2] % 16) as nat)
        },
    )
}

/// The full wire encoding of a byte sequence: prefix plus digits.
pub open spec fn hex_str_of(bs: Seq<u8>) -> Seq<char> {
    seq!['0', 'x'] + hex_digits_of(bs)
}

/// The decoding rule for an optional hex-string field of any length:
/// empty or the bare prefix is absent.
pub open spec fn hex_opt_spec(s: Seq<char>) -> Result<Option<Seq<u8>>, CodecError> {
    if hex_absent(s) {
        Ok(None)
    } else if hex_valid(s) {
        Ok(Some(hex_bytes(s.skip(2))))
    } else {
        Err(CodecError::MalformedHex)
    }
}

/// The value of a hex digit character, or nothing for any other char.
fn hex_digit_of(c: char) -> (r: Option<u8>)
    ensures
        match r {
            Some(v) => is_hex_digit(c) && v == hex_digit_val(c) && v < 16,
            None => !is_hex_digit(c),
        },
{
    if c >= '0' && c <= '9' {
        Some((c as u32 - 48) as u8)
    } else if c >= 'a' && c <= 'f' {
        Some((c as u32 - 97 + 10) as u8)
    } else if c >= 'A' && c <= 'F' {
        Some((c as u32 - 65 + 10) as u8)
    } else {
        None
    }
}

/// The single-character string for a hex digit value, lowercase.
fn hex_digit_str(d: u8) -> (r: &'static str)
    requires
        d < 16,
    ensures
        r@ == seq![hex_digit_char(d as nat)],
{
    proof {
        reveal_strlit("0");
        reveal_strlit("1");
        reveal_strlit("2");
        reveal_strlit("3");
        reveal_strlit("4");
        reveal_strlit("5");
        reveal_strlit("6");
        reveal_strlit("7");
        reveal_strlit("8");
        reveal_strlit("9");
        reveal_strlit("a");
        reveal_strlit("b");
        reveal_strlit("c");
        reveal_strlit("d");
        reveal_strlit("e");
        reveal_strlit("f");
    }
    let r = match d {
        0 => "0",
        1 => "1",
        2 => "2",
        3 => "3",
        4 => "4",
        5 => "5",
        6 => "6",
        7 => "7",
        8 => "8",
        9 => "9",
        10 => "a",
        11 => "b",
        12 => "c",
        13 => "d",
        14 => "e",
        _ => "f",
    };
    proof {
        assert(r@ =~= seq![hex_digit_char(d as nat)]);
    }
    r
}

/// Decodes a hex-string field. An empty string or a bare `0x` is absent;
/// otherwise decoding succeeds exactly on a `0x`-prefixed even run of hex
/// digits, and yields their bytes.
pub fn decode_hex(s: &str) -> (r: Result<Option<Vec<u8>>, CodecError>)
    ensures
        match r {
            Ok(opt) => match opt {
                Option::None => hex_absent(s@),
                Option::Some(b) => hex_valid(s@) && b@ == hex_bytes(s@.skip(2)),
            },
            Err(e) => e == CodecError::MalformedHex && !hex_absent(s@) && !hex_valid(s@),
        },
{
    let n = s.unicode_len();
    if n == 0 {
        return Ok(None);
    }
    if n < 2 || s.get_char(0) != '0' || s.get_char(1) != 'x' {
        proof {
            assert(s@ != seq!['0', 'x']);
        }
        return Err(CodecError::MalformedHex);
    }
    if n == 2 {
        proof {
            assert(s@ =~= seq!['0', 'x']);
        }
        return Ok(None);
    }
    if (n - 2) % 2 != 0 {
        proof {
            assert(s@ != seq!['0', 'x']);
        }
        return Err(CodecError::MalformedHex);
    }
    let m = (n - 2) / 2;
    let mut out: Vec<u8> = Vec::new();
    let mut i: usize = 0;
    while i < m
        invariant
            n == s@.len(),
            n > 2,
            2 * m == n - 2,
            0 <= i <= m,
            out@.len() == i,
            forall|j: int| 0 <= j < 2 * i ==> is_hex_digit(#[trigger] s@[2 + j]),
            forall|k: int| 0 <= k < i ==> #[trigger] out@[k] == hex_digit_val(s@[2 + 2 * k]) * 16
                + hex_digit_val(s@[2 + 2 * k + 1]),
        decreases m - i,
    {
        let hi = match hex_digit_of(s.get_char(2 + 2 * i)) {
            Some(v) => v,
            None => {
                proof {
                    assert(!all_hex_digits(s@.skip(2))) by {
                        assert(s@.skip(2)[2 * i as int] == s@[2 + 2 * i]);
                    }
                    assert(s@ != seq!['0', 'x']);
                }
                return Err(CodecError::MalformedHex);
            },
        };
        let lo = match hex_digit_of(s.get_char(2 + 2 * i + 1)) {
            Some(v) => v,
            None => {
                proof {
                    assert(!all_hex_digits(s@.skip(2))) by {
                        assert(s@.skip(2)[2 * i as int + 1] == s@[2 + 2 * i + 1]);
                    }
                    assert(s@ != seq!['0', 'x']);
                }
                return Err(CodecError::MalformedHex);
            },
        };
        out.push(hi * 16 + lo);
        i = i + 1;
    }
    proof {
        assert(all_hex_digits(s@.skip(2))) by {
            assert forall|j: int| 0 <= j < s@.skip(2).len() implies is_hex_digit(
                #[trigger] s@.skip(2)[j],
            ) by {
                assert(s@.skip(2)[j] == s@[2 + j]);
            }
        }
        assert(hex_valid(s@));
        assert(out@ =~= hex_bytes(s@.skip(2))) by {
            assert forall|k: int| 0 <= k < m implies out@[k] == #[trigger] hex_bytes(
                s@.skip(2),
            )[k] by {
                assert(s@.skip(2)[2 * k] == s@[2 + 2 * k]);
                assert(s@.skip(2)[2 * k + 1] == s@[2 + 2 * k + 1]);
            }
        }
    }
    Ok(Some(out))
}

/// Encodes an optional byte sequence as a hex-string field: absent is the
/// bare prefix, a present value is the prefix plus lowercase digits.
pub fn encode_hex(bs: &Vec<u8>) -> (r: String)
    ensures
        r@ == hex_str_of(bs@),
{
    let mut out = String::from_str("0x");
    proof {
        reveal_strlit("0x");
        assert(out@ =~= hex_str_of(bs@).subrange(0, 2));
    }
    let mut i: usize = 0;
    let len = bs.len();
    while i < len
        invariant
            len == bs@.len(),
            0 <= i <= len,
            out@ =~= hex_str_of(bs@).subrange(0, 2 + 2 * i),
        decreases len - i,
    {
        let b = bs[i];
        let hi = b / 16;
        let lo = b % 16;
        out.append(hex_digit_str(hi));
        out.append(hex_digit_str(lo));
        proof {
            let full = hex_str_of(bs@);
            assert(full[2 + 2 * i] == hex_digit_char((bs@[i as int] / 16) as nat)) by {
                assert((2 * i as int) % 2 == 0 && (2 * i as int) / 2 == i as int);
            }
            assert(full[2 + 2 * i + 1] == hex_digit_char((bs@[i as int] % 16) as nat)) by {
                assert((2 * i as int + 1) % 2 == 1 && (2 * i as int + 1) / 2 == i as int);
            }
            assert(out@ =~= full.subrange(0, 2 + 2 * (i + 1)));
        }
        i = i + 1;
    }
    proof {
        assert(out@ =~= hex_str_of(bs@));
    }
    out
}

/// Encodes an optional byte sequence: an absent field is the bare
/// prefix, the inverse of the absent rule of `decode_hex`.
pub fn encode_hex_opt(bs: &Option<Vec<u8>>) -> (r: String)
    ensures
        match bs {
            Option::None => r@ == seq!['0', 'x'],
            Option::Some(b) => r@ == hex_str_of(b@),
        },
{
    match bs {
        None => {
            let out = String::from_str("0x");
            proof {
                reveal_strlit("0x");
                assert(out@ =~= seq!['0', 'x']);
            }
            out
        },
        Some(b) => encode_hex(b),
    }
}

/// Law: hex-encoding a non-empty byte sequence yields a decodable (not
/// absent) hex string whose decoding is the original bytes. The empty
/// sequence encodes to the bare prefix, which decodes to absent instead.
pub proof fn lemma_hex_round_trip(bs: Seq<u8>)
    requires
        bs.len() > 0,
    ensures
        hex_valid(hex_str_of(bs)),
        !hex_absent(hex_str_of(bs)),
        hex_bytes(hex_str_of(bs).skip(2)) == bs,
{
    let full = hex_str_of(bs);
    let digits = hex_digits_of(bs);
    assert(full.skip(2) =~= digits);
    assert forall|j: int| 0 <= j < digits.len() implies is_hex_digit(#[trigger] digits[j]) by {
        let v: nat = if j % 2 == 0 {
            (bs[j / 2] / 16) as nat
        } else {
            (bs[j / 2] % 16) as nat
        };
        assert(v < 16);
        assert(digits[j] == hex_digit_char(v));
    }
    assert(hex_valid(full));
    assert(hex_bytes(digits) =~= bs) by {
        assert forall|k: int| 0 <= k < bs.len() implies #[trigger] hex_bytes(digits)[k]
            == bs[k] by {
            assert((2 * k) % 2 == 0 && (2 * k) / 2 == k);
            assert((2 * k + 1) % 2 == 1 && (2 * k + 1) / 2 == k);
            assert(digits[2 * k] == hex_digit_char((bs[k] / 16) as nat));
            assert(digits[2 * k + 1] == hex_digit_char((bs[k] % 16) as nat));
            let hi = (bs[k] / 16) as nat;
            let lo = (bs[k] % 16) as nat;
            assert(hi < 16 && lo < 16);
            assert(hex_digit_val(hex_digit_char(hi)) == hi);
            assert(hex_digit_val(hex_digit_char(lo)) == lo);
            lemma_fundamental_div_mod(bs[k] as int, 16);
        }
    }
}

} // verus!
