//! Decimal numeric-string codecs.
//!
//! The explorer API serialises every number as a base-10 string. The
//! domain widths are 64 bits (page numbers, confirmations, indices) and
//! 256 bits (values, gas figures, nonces). Decoding succeeds exactly when
//! the whole string is a non-empty run of decimal digits whose value fits
//! the target width; encoding emits the canonical (no leading zero)
//! decimal form.

use vstd::prelude::*;
use vstd::arithmetic::div_mod::{
    lemma_fundamental_div_mod,
    lemma_fundamental_div_mod_converse,
    lemma_mod_division_less_than_divisor,
    lemma_multiply_divide_lt,
};
use crate::errors::CodecError;

verus! {

/// 2^64, the limb base.
pub open spec fn p64() -> nat {
    0x1_0000_0000_0000_0000nat
}

/// 2^128.
pub open spec fn p128() -> nat {
    0x1_0000_0000_0000_0000_0000_0000_0000_0000nat
}

/// 2^192.
pub open spec fn p192() -> nat {
    0x1_0000_0000_0000_0000_0000_0000_0000_0000_0000_0000_0000_0000nat
}

/// 2^256, one past the largest 256-bit value.
pub open spec fn p256() -> nat {
    0x1_0000_0000_0000_0000_0000_0000_0000_0000_0000_0000_0000_0000_0000_0000_0000_0000nat
}

/// Whether `c` is an ASCII decimal digit.
pub open spec fn is_dec_digit(c: char) -> bool {
    '0' <= c && c <= '9'
}

/// The numeric value of a decimal digit character.
pub open spec fn dec_digit_val(c: char) -> nat {
    (c as u32 - '0' as u32) as nat
}

/// The character for a decimal digit value below ten.
pub open spec fn dec_digit_char(d: nat) -> char {
    ((d + 48) as u8) as char
}

/// Whether every character of `s` is a decimal digit.
pub open spec fn all_dec_digits(s: Seq<char>) -> bool {
    forall|i: int| 0 <= i < s.len() ==> is_dec_digit(#[trigger] s[i])
}

/// The value a run of decimal digits denotes, most significant first.
pub open spec fn dec_val(s: Seq<char>) -> nat
    decreases s.len(),
{
    if s.len() == 0 {
        0
    } else {
        dec_val(s.drop_last()) * 10 + dec_digit_val(s.last())
    }
}

/// The canonical decimal rendering of `n`: no leading zero, except that
/// zero itself renders as `"0"`.
pub open spec fn dec_digits(n: nat) -> Seq<char>
    decreases n,
{
    if n < 10 {
        seq![dec_digit_char(n)]
    } else {
        dec_digits(n / 10).push(dec_digit_char(n % 10))
    }
}

/// Whether `s` is a decodable numeric string for a width that admits
/// values below `bound`: non-empty, all digits, value in range.
pub open spec fn dec_valid(s: Seq<char>, bound: nat) -> bool {
    s.len() > 0 && all_dec_digits(s) && dec_val(s) < bound
}

/// The decoding rule for a required numeric-string field of a width that
/// admits values below `bound`.
pub open spec fn dec_spec(s: Seq<char>, bound: nat) -> Result<nat, CodecError> {
    if dec_valid(s, bound) {
        Ok(dec_val(s))
    } else {
        Err(CodecError::MalformedNumeric)
    }
}

/// The decoding rule for an optional numeric-string field: empty is
/// absent rather than an error.
pub open spec fn dec_opt_spec(s: Seq<char>, bound: nat) -> Result<Option<nat>, CodecError> {
    if s.len() == 0 {
        Ok(None)
    } else if dec_valid(s, bound) {
        Ok(Some(dec_val(s)))
    } else {
        Err(CodecError::MalformedNumeric)
    }
}

/// An unsigned 256-bit integer, held as four 64-bit limbs, least
/// significant first.
#[derive(Clone, Copy, Debug, PartialEq, Eq, Structural, Hash)]
pub struct Uint256 {
    pub w0: u64,
    pub w1: u64,
    pub w2: u64,
    pub w3: u64,
}

impl Uint256 {
    /// The number this value stands for.
    pub open spec fn as_nat(self) -> nat {
        (self.w0 + self.w1 * p64() + self.w2 * p128() + self.w3 * p192()) as nat
    }

    /// Every limb combination stands for a number below 2^256.
    pub proof fn lemma_as_nat_bound(self)
        ensures
            self.as_nat() < p256(),
    {
        assert(self.w0 < p64() && self.w1 < p64() && self.w2 < p64() && self.w3 < p64());
        assert(self.w1 * p64() <= (p64() - 1) * p64()) by (nonlinear_arith)
            requires self.w1 <= p64() - 1;
        assert(self.w2 * p128() <= (p64() - 1) * p128()) by (nonlinear_arith)
            requires self.w2 <= p64() - 1;
        assert(self.w3 * p192() <= (p64() - 1) * p192()) by (nonlinear_arith)
            requires self.w3 <= p64() - 1;
    }

    /// The zero value.
    pub fn zero() -> (r: Uint256)
        ensures
            r.as_nat() == 0,
    {
        Uint256 { w0: 0, w1: 0, w2: 0, w3: 0 }
    }

    /// Widens a 64-bit value.
    pub fn from_u64(x: u64) -> (r: Uint256)
        ensures
            r.as_nat() == x,
    {
        Uint256 { w0: x, w1: 0, w2: 0, w3: 0 }
    }

    /// Whether the value is zero.
    pub fn is_zero(&self) -> (r: bool)
        ensures
            r == (self.as_nat() == 0),
    {
        proof {
            if self.w1 != 0 {
                assert(self.w1 * p64() >= p64()) by (nonlinear_arith)
                    requires self.w1 >= 1;
            }
            if self.w2 != 0 {
                assert(self.w2 * p128() >= p128()) by (nonlinear_arith)
                    requires self.w2 >= 1;
            }
            if self.w3 != 0 {
                assert(self.w3 * p192() >= p192()) by (nonlinear_arith)
                    requires self.w3 >= 1;
            }
        }
        self.w0 == 0 && self.w1 == 0 && self.w2 == 0 && self.w3 == 0
    }

    /// The value as a 64-bit integer, where it fits.
    pub fn to_u64(&self) -> (r: Option<u64>)
        ensures
            match r {
                Some(v) => v == self.as_nat(),
                None => self.as_nat() >= p64(),
            },
    {
        proof {
            if self.w1 != 0 {
                assert(self.w1 * p64() >= p64()) by (nonlinear_arith)
                    requires self.w1 >= 1;
            }
            if self.w2 != 0 {
                assert(self.w2 * p128() >= p128()) by (nonlinear_arith)
                    requires self.w2 >= 1;
            }
            if self.w3 != 0 {
                assert(self.w3 * p192() >= p192()) by (nonlinear_arith)
                    requires self.w3 >= 1;
            }
        }
        if self.w1 == 0 && self.w2 == 0 && self.w3 == 0 {
            Some(self.w0)
        } else {
            None
        }
    }

    /// Multiplies by ten and adds a digit, reporting overflow past 2^256.
    pub fn mul10_add(self, d: u8) -> (r: (Uint256, bool))
        requires
            d < 10,
        ensures
            !r.1 ==> r.0.as_nat() == self.as_nat() * 10 + d,
            r.1 ==> self.as_nat() * 10 + d >= p256(),
    {
        let b: u128 = 0x1_0000_0000_0000_0000;
        let t0: u128 = (self.w0 as u128) * 10 + (d as u128);
        let n0: u64 = (t0 % b) as u64;
        let c0: u64 = (t0 / b) as u64;
        let t1: u128 = (self.w1 as u128) * 10 + (c0 as u128);
        let n1: u64 = (t1 % b) as u64;
        let c1: u64 = (t1 / b) as u64;
        let t2: u128 = (self.w2 as u128) * 10 + (c1 as u128);
        let n2: u64 = (t2 % b) as u64;
        let c2: u64 = (t2 / b) as u64;
        let t3: u128 = (self.w3 as u128) * 10 + (c2 as u128);
        let n3: u64 = (t3 % b) as u64;
        let c3: u64 = (t3 / b) as u64;
        let out = Uint256 { w0: n0, w1: n1, w2: n2, w3: n3 };
        proof {
            lemma_fundamental_div_mod(t0 as int, b as int);
            lemma_mod_division_less_than_divisor(t0 as int, b as int);
            lemma_fundamental_div_mod(t1 as int, b as int);
            lemma_mod_division_less_than_divisor(t1 as int, b as int);
            lemma_fundamental_div_mod(t2 as int, b as int);
            lemma_mod_division_less_than_divisor(t2 as int, b as int);
            lemma_fundamental_div_mod(t3 as int, b as int);
            lemma_mod_division_less_than_divisor(t3 as int, b as int);
            assert(out.as_nat() + c3 * p256() == self.as_nat() * 10 + d) by (nonlinear_arith)
                requires
                    t0 == self.w0 * 10 + d,
                    t1 == self.w1 * 10 + c0,
                    t2 == self.w2 * 10 + c1,
                    t3 == self.w3 * 10 + c2,
                    t0 == b * c0 + n0,
                    t1 == b * c1 + n1,
                    t2 == b * c2 + n2,
                    t3 == b * c3 + n3,
                    b == p64(),
                    out == (Uint256 { w0: n0, w1: n1, w2: n2, w3: n3 }),
                    out.as_nat() == n0 + n1 * p64() + n2 * p128() + n3 * p192(),
                    self.as_nat() == self.w0 + self.w1 * p64() + self.w2 * p128() + self.w3
                        * p192(),
                    p128() == p64() * p64(),
                    p192() == p128() * p64(),
                    p256() == p192() * p64(),
            ;
            if c3 != 0 {
                assert(c3 * p256() >= p256()) by (nonlinear_arith)
                    requires c3 >= 1;
            }
        }
        (out, c3 != 0)
    }

    /// Divides by ten, returning quotient and remainder digit.
    pub fn divmod10(self) -> (r: (Uint256, u8))
        ensures
            self.as_nat() == r.0.as_nat() * 10 + r.1,
            r.1 < 10,
    {
        let b: u128 = 0x1_0000_0000_0000_0000;
        let t3: u128 = self.w3 as u128;
        let q3: u64 = (t3 / 10) as u64;
        let r3: u128 = t3 % 10;
        let t2: u128 = r3 * b + (self.w2 as u128);
        let q2: u64 = (t2 / 10) as u64;
        let r2: u128 = t2 % 10;
        let t1: u128 = r2 * b + (self.w1 as u128);
        let q1: u64 = (t1 / 10) as u64;
        let r1: u128 = t1 % 10;
        let t0: u128 = r1 * b + (self.w0 as u128);
        let q0: u64 = (t0 / 10) as u64;
        let r0: u128 = t0 % 10;
        let quo = Uint256 { w0: q0, w1: q1, w2: q2, w3: q3 };
        proof {
            lemma_fundamental_div_mod(t3 as int, 10);
            lemma_mod_division_less_than_divisor(t3 as int, 10);
            lemma_multiply_divide_lt(t3 as int, 10, b as int);
            lemma_fundamental_div_mod(t2 as int, 10);
            lemma_mod_division_less_than_divisor(t2 as int, 10);
            lemma_multiply_divide_lt(t2 as int, 10, b as int);
            lemma_fundamental_div_mod(t1 as int, 10);
            lemma_mod_division_less_than_divisor(t1 as int, 10);
            lemma_multiply_divide_lt(t1 as int, 10, b as int);
            lemma_fundamental_div_mod(t0 as int, 10);
            lemma_mod_division_less_than_divisor(t0 as int, 10);
            lemma_multiply_divide_lt(t0 as int, 10, b as int);
            assert(self.as_nat() == quo.as_nat() * 10 + (t0 % 10)) by (nonlinear_arith)
                requires
                    t3 == self.w3,
                    t2 == (t3 % 10) * b + self.w2,
                    t1 == (t2 % 10) * b + self.w1,
                    t0 == (t1 % 10) * b + self.w0,
                    t3 == 10 * q3 + t3 % 10,
                    t2 == 10 * q2 + t2 % 10,
                    t1 == 10 * q1 + t1 % 10,
                    t0 == 10 * q0 + t0 % 10,
                    b == p64(),
                    quo == (Uint256 { w0: q0, w1: q1, w2: q2, w3: q3 }),
                    quo.as_nat() == q0 + q1 * p64() + q2 * p128() + q3 * p192(),
                    self.as_nat() == self.w0 + self.w1 * p64() + self.w2 * p128() + self.w3
                        * p192(),
                    p128() == p64() * p64(),
                    p192() == p128() * p64(),
            ;
        }
        (quo, r0 as u8)
    }
}

/// Extending a digit prefix by one character multiplies its value by ten
/// and adds the new digit's value.
pub proof fn lemma_dec_val_extend(s: Seq<char>, j: int)
    requires
        0 <= j < s.len(),
    ensures
        dec_val(s.subrange(0, j + 1)) == dec_val(s.subrange(0, j)) * 10 + dec_digit_val(s[j]),
{
    let ext = s.subrange(0, j + 1);
    assert(ext.drop_last() =~= s.subrange(0, j));
    assert(ext.last() == s[j]);
}

/// The value of a prefix never exceeds the value of the whole string.
pub proof fn lemma_dec_val_prefix_le(s: Seq<char>, j: int)
    requires
        0 <= j <= s.len(),
    ensures
        dec_val(s.subrange(0, j)) <= dec_val(s),
    decreases s.len() - j,
{
    if j == s.len() {
        assert(s.subrange(0, j) =~= s);
    } else {
        lemma_dec_val_extend(s, j);
        lemma_dec_val_prefix_le(s, j + 1);
    }
}

/// The canonical decimal rendering of any number is a non-empty digit run
/// that decodes back to that number.
pub proof fn lemma_dec_digits_val(n: nat)
    ensures
        dec_digits(n).len() >= 1,
        all_dec_digits(dec_digits(n)),
        dec_val(dec_digits(n)) == n,
    decreases n,
{
    if n < 10 {
        let s = dec_digits(n);
        assert(s =~= seq![dec_digit_char(n)]);
        assert(s.drop_last() =~= Seq::<char>::empty());
        assert(is_dec_digit(dec_digit_char(n)) && dec_digit_val(dec_digit_char(n)) == n);
        assert(s.last() == dec_digit_char(n));
        assert(dec_val(Seq::<char>::empty()) == 0);
        assert(dec_val(s) == dec_val(s.drop_last()) * 10 + dec_digit_val(s.last()));
    } else {
        lemma_dec_digits_val(n / 10);
        lemma_fundamental_div_mod(n as int, 10);
        lemma_mod_division_less_than_divisor(n as int, 10);
        let s = dec_digits(n);
        let pre = dec_digits(n / 10);
        assert(s == pre.push(dec_digit_char(n % 10)));
        assert(s.drop_last() =~= pre);
        assert(is_dec_digit(dec_digit_char(n % 10)) && dec_digit_val(dec_digit_char(n % 10))
            == n % 10);
        assert forall|i: int| 0 <= i < s.len() implies is_dec_digit(#[trigger] s[i]) by {
            if i < pre.len() {
                assert(s[i] == pre[i]);
            }
        }
        assert(dec_val(s) == dec_val(pre) * 10 + dec_digit_val(s.last()));
        assert(dec_val(s) == (n / 10) * 10 + n % 10);
    }
}

/// Law: for every value `n` below a width bound, the canonical decimal
/// encoding of `n` is a valid numeric string for that width and decodes
/// back to `n` (encode-then-decode round trip).
pub proof fn lemma_dec_round_trip(n: nat, bound: nat)
    requires
        n < bound,
    ensures
        dec_valid(dec_digits(n), bound),
        dec_val(dec_digits(n)) == n,
{
    lemma_dec_digits_val(n);
}

/// Decodes a numeric-string field into a 256-bit value: succeeds exactly
/// on a non-empty all-digit string whose value fits 256 bits.
pub fn decode_u256_dec(s: &str) -> (r: Result<Uint256, CodecError>)
    ensures
        match r {
            Ok(v) => dec_valid(s@, p256()) && v.as_nat() == dec_val(s@),
            Err(e) => e == CodecError::MalformedNumeric && !dec_valid(s@, p256()),
        },
{
    let n = s.unicode_len();
    if n == 0 {
        return Err(CodecError::MalformedNumeric);
    }
    let mut acc = Uint256::zero();
    let mut i: usize = 0;
    while i < n
        invariant
            n == s@.len(),
            0 <= i <= n,
            all_dec_digits(s@.subrange(0, i as int)),
            acc.as_nat() == dec_val(s@.subrange(0, i as int)),
        decreases n - i,
    {
        let c = s.get_char(i);
        if !(c >= '0' && c <= '9') {
            return Err(CodecError::MalformedNumeric);
        }
        let d: u8 = (c as u32 - 48) as u8;
        let (acc2, overflowed) = acc.mul10_add(d);
        proof {
            lemma_dec_val_extend(s@, i as int);
        }
        if overflowed {
            proof {
                lemma_dec_val_prefix_le(s@, i + 1);
            }
            return Err(CodecError::MalformedNumeric);
        }
        acc = acc2;
        i = i + 1;
    }
    proof {
        assert(s@.subrange(0, n as int) =~= s@);
        acc.lemma_as_nat_bound();
    }
    Ok(acc)
}

/// Decodes a numeric-string field into a 64-bit value: succeeds exactly
/// on a non-empty all-digit string whose value fits 64 bits.
pub fn decode_u64_dec(s: &str) -> (r: Result<u64, CodecError>)
    ensures
        match r {
            Ok(v) => dec_valid(s@, p64()) && v == dec_val(s@),
            Err(e) => e == CodecError::MalformedNumeric && !dec_valid(s@, p64()),
        },
{
    match decode_u256_dec(s) {
        Err(e) => Err(e),
        Ok(wide) => match wide.to_u64() {
            Some(v) => Ok(v),
            None => Err(CodecError::MalformedNumeric),
        },
    }
}

/// Decodes an optional numeric-string field into a 256-bit value: an
/// empty string is absent rather than an error.
pub fn decode_u256_opt(s: &str) -> (r: Result<Option<Uint256>, CodecError>)
    ensures
        match r {
            Ok(opt) => match opt {
                Option::None => s@.len() == 0,
                Option::Some(v) => dec_valid(s@, p256()) && v.as_nat() == dec_val(s@),
            },
            Err(e) => e == CodecError::MalformedNumeric && s@.len() > 0 && !dec_valid(
                s@,
                p256(),
            ),
        },
{
    if s.is_empty() {
        Ok(None)
    } else {
        match decode_u256_dec(s) {
            Ok(v) => Ok(Some(v)),
            Err(e) => Err(e),
        }
    }
}

/// Decodes an optional numeric-string field into a 64-bit value: an
/// empty string is absent rather than an error.
pub fn decode_u64_opt(s: &str) -> (r: Result<Option<u64>, CodecError>)
    ensures
        match r {
            Ok(opt) => match opt {
                Option::None => s@.len() == 0,
                Option::Some(v) => dec_valid(s@, p64()) && v == dec_val(s@),
            },
            Err(e) => e == CodecError::MalformedNumeric && s@.len() > 0 && !dec_valid(s@, p64()),
        },
{
    if s.is_empty() {
        Ok(None)
    } else {
        match decode_u64_dec(s) {
            Ok(v) => Ok(Some(v)),
            Err(e) => Err(e),
        }
    }
}

/// The single-character string for a decimal digit value.
fn dec_digit_str(d: u8) -> (r: &'static str)
    requires
        d < 10,
    ensures
        r@ == seq![dec_digit_char(d as nat)],
{
    proof {
        reveal_strlit("0");
        reveal_strlit("1");
        reveal_strlit("2");
        reveal_strlit("3");
        reveal_strlit("4");
        reveal_strlit("5");
        reveal_strlit("6");
        reveal_strlit("7");
        reveal_strlit("8");
        reveal_strlit("9");
    }
    let r = match d {
        0 => "0",
        1 => "1",
        2 => "2",
        3 => "3",
        4 => "4",
        5 => "5",
        6 => "6",
        7 => "7",
        8 => "8",
        _ => "9",
    };
    proof {
        assert(r@ =~= seq![dec_digit_char(d as nat)]);
    }
    r
}

/// The rendering of a digit stack (least significant digit first) as
/// characters, most significant digit first.
pub open spec fn digits_rev_chars(ds: Seq<u8>) -> Seq<char> {
    Seq::new(ds.len(), |i: int| dec_digit_char(ds[ds.len() - 1 - i] as nat))
}

impl Uint256 {
    /// Encodes the value in its canonical decimal form.
    pub fn to_dec_string(self) -> (r: String)
        ensures
            r@ == dec_digits(self.as_nat()),
    {
        let ghost orig: nat = self.as_nat();
        let mut digits: Vec<u8> = Vec::new();
        let mut cur = self;
        if cur.is_zero() {
            let out = String::from_str("0");
            proof {
                reveal_strlit("0");
                assert(out@ =~= dec_digits(orig));
            }
            return out;
        }
        while !cur.is_zero()
            invariant
                forall|k: int| 0 <= k < digits@.len() ==> #[trigger] digits@[k] < 10,
                cur.as_nat() > 0 ==> dec_digits(orig) == dec_digits(cur.as_nat())
                    + digits_rev_chars(digits@),
                cur.as_nat() == 0 ==> dec_digits(orig) == digits_rev_chars(digits@)
                    && digits@.len() > 0,
            decreases cur.as_nat(),
    {
            let ghost before: nat = cur.as_nat();
            let (q, d) = cur.divmod10();
            proof {
                lemma_fundamental_div_mod_converse(
                    before as int,
                    10,
                    q.as_nat() as int,
                    d as int,
                );
                if q.as_nat() == 0 {
                    assert(dec_digits(before) =~= seq![dec_digit_char(d as nat)]);
                } else {
                    assert(before >= 10);
                    assert(dec_digits(before) == dec_digits(before / 10).push(
                        dec_digit_char(before % 10),
                    ));
                }
                assert(digits_rev_chars(digits@.push(d)) =~= seq![dec_digit_char(d as nat)]
                    + digits_rev_chars(digits@));
                assert(dec_digits(orig) == dec_digits(q.as_nat()) + digits_rev_chars(
                    digits@.push(d),
                ) || (q.as_nat() == 0 && dec_digits(orig) =~= digits_rev_chars(
                    digits@.push(d),
                ))) by {
                    if q.as_nat() == 0 {
                        assert(dec_digits(orig) == seq![dec_digit_char(d as nat)]
                            + digits_rev_chars(digits@));
                    } else {
                        assert((dec_digits(q.as_nat()).push(dec_digit_char(d as nat)))
                            + digits_rev_chars(digits@) =~= dec_digits(q.as_nat()) + (seq![
                            dec_digit_char(d as nat)
                        ] + digits_rev_chars(digits@)));
                    }
                }
            }
            digits.push(d);
            cur = q;
        }
        let mut out = String::new();
        let mut i: usize = 0;
        let len = digits.len();
        while i < len
            invariant
                len == digits@.len(),
                0 <= i <= len,
                forall|k: int| 0 <= k < digits@.len() ==> #[trigger] digits@[k] < 10,
                dec_digits(orig) == digits_rev_chars(digits@),
                out@ =~= digits_rev_chars(digits@).subrange(0, i as int),
            decreases len - i,
        {
            let d = digits[len - 1 - i];
            out.append(dec_digit_str(d));
            proof {
                assert(out@ =~= digits_rev_chars(digits@).subrange(0, i as int + 1));
            }
            i = i + 1;
        }
        proof {
            assert(out@ =~= digits_rev_chars(digits@));
        }
        out
    }
}

/// Encodes an optional 256-bit value: an absent field is the empty
/// string, the inverse of the absent rule of the optional decoder.
pub fn encode_u256_opt(x: &Option<Uint256>) -> (r: String)
    ensures
        match x {
            Option::None => r@ == Seq::<char>::empty(),
            Option::Some(v) => r@ == dec_digits(v.as_nat()),
        },
{
    match x {
        None => String::new(),
        Some(v) => v.to_dec_string(),
    }
}

/// Encodes a 64-bit value in its canonical decimal form.
pub fn encode_u64_dec(x: u64) -> (r: String)
    ensures
        r@ == dec_digits(x as nat),
{
    Uint256::from_u64(x).to_dec_string()
}

} // verus!
