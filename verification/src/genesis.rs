//! The genesis-aware optional type.
//!
//! Rows emitted for the chain's bootstrap (genesis) state violate the
//! normal schema: hash, sender, contract-address and input fields may
//! carry a literal sentinel marker instead of a decodable value. This
//! tri-state type lets one record schema accept both normal and genesis
//! rows: a field is absent, the genesis sentinel, or a present value.

use vstd::prelude::*;
use crate::embedded::{
    decode_json_address, decode_json_bytes, decode_json_hash256, embedded_bytes_spec,
    embedded_var_bytes_spec,
};
use crate::errors::CodecError;
use crate::types::{Address, Hash256};

verus! {

/// A field that may be missing, may be the genesis sentinel, or may hold
/// a decoded value. Exactly one state holds.
#[derive(Clone, Debug, PartialEq, Eq)]
pub enum GenesisOption<T> {
    /// The wire string was empty.
    Absent,
    /// The wire string started with the literal sentinel token.
    GenesisSentinel,
    /// The wire string decoded to a normal value.
    Present(T),
}

impl<T> GenesisOption<T> {
    /// Whether this is the genesis sentinel.
    pub fn is_genesis(&self) -> (r: bool)
        ensures
            r == (self is GenesisSentinel),
    {
        match self {
            GenesisOption::GenesisSentinel => true,
            _ => false,
        }
    }

    /// The present value, if any.
    pub fn value(&self) -> (r: Option<&T>)
        ensures
            match r {
                Some(v) => self matches GenesisOption::Present(p) && v == p,
                None => !(self is Present),
            },
    {
        match self {
            GenesisOption::Present(v) => Some(v),
            _ => None,
        }
    }

    /// Collapses to a plain optional value, losing the distinction
    /// between an absent field and the genesis sentinel.
    pub fn into_option(self) -> (r: Option<T>)
        ensures
            match r {
                Some(v) => self == GenesisOption::Present(v),
                None => !(self is Present),
            },
    {
        match self {
            GenesisOption::Present(v) => Some(v),
            _ => None,
        }
    }
}

/// The literal sentinel token that genesis rows carry.
pub open spec fn genesis_token() -> Seq<char> {
    seq!['G', 'E', 'N', 'E', 'S', 'I', 'S']
}

/// Whether the wire string starts with the sentinel token. Trailing
/// characters do not matter: the sentinel wins before any codec runs.
pub open spec fn genesis_marked(s: Seq<char>) -> bool {
    s.len() >= 7 && s.subrange(0, 7) == genesis_token()
}

/// Whether the wire string starts with the sentinel token.
pub fn is_genesis_marked(s: &str) -> (r: bool)
    ensures
        r == genesis_marked(s@),
{
    let n = s.unicode_len();
    if n < 7 {
        proof {
            assert(!genesis_marked(s@));
        }
        return false;
    }
    let r = s.get_char(0) == 'G' && s.get_char(1) == 'E' && s.get_char(2) == 'N' && s.get_char(3)
        == 'E' && s.get_char(4) == 'S' && s.get_char(5) == 'I' && s.get_char(6) == 'S';
    proof {
        if r {
            assert(s@.subrange(0, 7) =~= genesis_token());
        } else {
            assert(s@.subrange(0, 7) != genesis_token()) by {
                if s@.subrange(0, 7) == genesis_token() {
                    assert(s@[0] == s@.subrange(0, 7)[0]);
                    assert(s@[1] == s@.subrange(0, 7)[1]);
                    assert(s@[2] == s@.subrange(0, 7)[2]);
                    assert(s@[3] == s@.subrange(0, 7)[3]);
                    assert(s@[4] == s@.subrange(0, 7)[4]);
                    assert(s@[5] == s@.subrange(0, 7)[5]);
                    assert(s@[6] == s@.subrange(0, 7)[6]);
                }
            }
        }
    }
    r
}

/// The decoding rule for a genesis-aware fixed-width hex field: empty is
/// absent, the sentinel prefix wins over every codec, and anything else
/// goes through the JSON-embedded hex codec for `want` bytes.
pub open spec fn genesis_bytes_spec(s: Seq<char>, want: nat) -> Result<
    GenesisOption<Seq<u8>>,
    CodecError,
> {
    if s.len() == 0 {
        Ok(GenesisOption::Absent)
    } else if genesis_marked(s) {
        Ok(GenesisOption::GenesisSentinel)
    } else {
        match embedded_bytes_spec(s, want) {
            Ok(Some(b)) => Ok(GenesisOption::Present(b)),
            Ok(None) => Ok(GenesisOption::Absent),
            Err(e) => Err(e),
        }
    }
}

/// The decoding rule for a genesis-aware byte-string field of any length.
pub open spec fn genesis_var_bytes_spec(s: Seq<char>) -> Result<
    GenesisOption<Seq<u8>>,
    CodecError,
> {
    if s.len() == 0 {
        Ok(GenesisOption::Absent)
    } else if genesis_marked(s) {
        Ok(GenesisOption::GenesisSentinel)
    } else {
        match embedded_var_bytes_spec(s) {
            Ok(Some(b)) => Ok(GenesisOption::Present(b)),
            Ok(None) => Ok(GenesisOption::Absent),
            Err(e) => Err(e),
        }
    }
}

/// Decodes a genesis-aware address field.
pub fn decode_genesis_address(s: &str) -> (r: Result<GenesisOption<Address>, CodecError>)
    ensures
        match r {
            Ok(g) => match g {
                GenesisOption::Absent => genesis_bytes_spec(s@, 20) == Ok::<
                    GenesisOption<Seq<u8>>,
                    CodecError,
                >(GenesisOption::Absent),
                GenesisOption::GenesisSentinel => genesis_bytes_spec(s@, 20) == Ok::<
                    GenesisOption<Seq<u8>>,
                    CodecError,
                >(GenesisOption::GenesisSentinel),
                GenesisOption::Present(a) => genesis_bytes_spec(s@, 20) == Ok::<
                    GenesisOption<Seq<u8>>,
                    CodecError,
                >(GenesisOption::Present(a.bytes@)) && a.wf(),
            },
            Err(e) => genesis_bytes_spec(s@, 20) == Err::<GenesisOption<Seq<u8>>, CodecError>(e),
        },
{
    if s.is_empty() {
        return Ok(GenesisOption::Absent);
    }
    if is_genesis_marked(s) {
        return Ok(GenesisOption::GenesisSentinel);
    }
    match decode_json_address(s) {
        Ok(Some(a)) => Ok(GenesisOption::Present(a)),
        Ok(None) => Ok(GenesisOption::Absent),
        Err(e) => Err(e),
    }
}

/// Decodes a genesis-aware hash field.
pub fn decode_genesis_hash256(s: &str) -> (r: Result<GenesisOption<Hash256>, CodecError>)
    ensures
        match r {
            Ok(g) => match g {
                GenesisOption::Absent => genesis_bytes_spec(s@, 32) == Ok::<
                    GenesisOption<Seq<u8>>,
                    CodecError,
                >(GenesisOption::Absent),
                GenesisOption::GenesisSentinel => genesis_bytes_spec(s@, 32) == Ok::<
                    GenesisOption<Seq<u8>>,
                    CodecError,
                >(GenesisOption::GenesisSentinel),
                GenesisOption::Present(h) => genesis_bytes_spec(s@, 32) == Ok::<
                    GenesisOption<Seq<u8>>,
                    CodecError,
                >(GenesisOption::Present(h.bytes@)) && h.wf(),
            },
            Err(e) => genesis_bytes_spec(s@, 32) == Err::<GenesisOption<Seq<u8>>, CodecError>(e),
        },
{
    if s.is_empty() {
        return Ok(GenesisOption::Absent);
    }
    if is_genesis_marked(s) {
        return Ok(GenesisOption::GenesisSentinel);
    }
    match decode_json_hash256(s) {
        Ok(Some(h)) => Ok(GenesisOption::Present(h)),
        Ok(None) => Ok(GenesisOption::Absent),
        Err(e) => Err(e),
    }
}

/// Decodes a genesis-aware byte-string field of any length.
pub fn decode_genesis_bytes(s: &str) -> (r: Result<GenesisOption<Vec<u8>>, CodecError>)
    ensures
        match r {
            Ok(g) => match g {
                GenesisOption::Absent => genesis_var_bytes_spec(s@) == Ok::<
                    GenesisOption<Seq<u8>>,
                    CodecError,
                >(GenesisOption::Absent),
                GenesisOption::GenesisSentinel => genesis_var_bytes_spec(s@) == Ok::<
                    GenesisOption<Seq<u8>>,
                    CodecError,
                >(GenesisOption::GenesisSentinel),
                GenesisOption::Present(b) => genesis_var_bytes_spec(s@) == Ok::<
                    GenesisOption<Seq<u8>>,
                    CodecError,
                >(GenesisOption::Present(b@)),
            },
            Err(e) => genesis_var_bytes_spec(s@) == Err::<GenesisOption<Seq<u8>>, CodecError>(e),
        },
{
    if s.is_empty() {
        return Ok(GenesisOption::Absent);
    }
    if is_genesis_marked(s) {
        return Ok(GenesisOption::GenesisSentinel);
    }
    match decode_json_bytes(s) {
        Ok(Some(b)) => Ok(GenesisOption::Present(b)),
        Ok(None) => Ok(GenesisOption::Absent),
        Err(e) => Err(e),
    }
}

/// The encoding rule for a genesis-aware byte field: the inverse of the
/// decode rule on its canonical forms.
pub open spec fn genesis_encode_spec(g: GenesisOption<Seq<u8>>) -> Seq<char> {
    match g {
        GenesisOption::Absent => Seq::empty(),
        GenesisOption::GenesisSentinel => genesis_token(),
        GenesisOption::Present(b) => crate::hex::hex_str_of(b),
    }
}

/// Encodes a genesis-aware address field: absent is the empty string, the
/// sentinel is the literal token, a present value is its hex form.
pub fn encode_genesis_address(g: &GenesisOption<Address>) -> (r: String)
    ensures
        match g {
            GenesisOption::Absent => r@ == Seq::<char>::empty(),
            GenesisOption::GenesisSentinel => r@ == genesis_token(),
            GenesisOption::Present(a) => r@ == crate::hex::hex_str_of(a.bytes@),
        },
{
    match g {
        GenesisOption::Absent => String::new(),
        GenesisOption::GenesisSentinel => {
            let out = String::from_str("GENESIS");
            proof {
                reveal_strlit("GENESIS");
                assert(out@ =~= genesis_token());
            }
            out
        },
        GenesisOption::Present(a) => a.encode(),
    }
}

/// Encodes a genesis-aware hash field: absent is the empty string, the
/// sentinel is the literal token, a present value is its hex form.
pub fn encode_genesis_hash256(g: &GenesisOption<Hash256>) -> (r: String)
    ensures
        match g {
            GenesisOption::Absent => r@ == Seq::<char>::empty(),
            GenesisOption::GenesisSentinel => r@ == genesis_token(),
            GenesisOption::Present(h) => r@ == crate::hex::hex_str_of(h.bytes@),
        },
{
    match g {
        GenesisOption::Absent => String::new(),
        GenesisOption::GenesisSentinel => {
            let out = String::from_str("GENESIS");
            proof {
                reveal_strlit("GENESIS");
                assert(out@ =~= genesis_token());
            }
            out
        },
        GenesisOption::Present(h) => h.encode(),
    }
}

/// Law: a wire string that starts with the literal sentinel token decodes
/// to the genesis sentinel under every genesis-aware codec, no matter
/// what the rest of the string holds and whether the underlying codec
/// would also have accepted it.
pub proof fn lemma_genesis_sentinel_wins(s: Seq<char>, want: nat)
    requires
        genesis_marked(s),
    ensures
        genesis_bytes_spec(s, want) == Ok::<GenesisOption<Seq<u8>>, CodecError>(
            GenesisOption::GenesisSentinel,
        ),
        genesis_var_bytes_spec(s) == Ok::<GenesisOption<Seq<u8>>, CodecError>(
            GenesisOption::GenesisSentinel,
        ),
{
}

} // verus!
