//! Fixed-width byte-string domain types: account addresses (20 bytes),
//! transaction/block hashes (32 bytes) and method selectors (4 bytes),
//! all carried on the wire as `0x`-prefixed hex strings.

use vstd::prelude::*;
use crate::errors::CodecError;
use crate::hex::{decode_hex, encode_hex, hex_absent, hex_bytes, hex_str_of, hex_valid};

verus! {

/// Whether a wire string is a well-formed, present hex field of exactly
/// `want` bytes.
pub open spec fn hex_req_valid(s: Seq<char>, want: nat) -> bool {
    hex_valid(s) && hex_bytes(s.skip(2)).len() == want
}

/// The decoding rule for a required fixed-width hex field: absent is not
/// allowed, and the digit run must hold exactly `want` bytes.
pub open spec fn hex_req_spec(s: Seq<char>, want: nat) -> Result<Seq<u8>, CodecError> {
    if hex_req_valid(s, want) {
        Ok(hex_bytes(s.skip(2)))
    } else {
        Err(CodecError::MalformedHex)
    }
}

/// Decodes a required hex field of exactly `want` bytes.
pub fn decode_hex_req(s: &str, want: usize) -> (r: Result<Vec<u8>, CodecError>)
    ensures
        match r {
            Ok(b) => hex_req_spec(s@, want as nat) == Ok::<Seq<u8>, CodecError>(b@),
            Err(e) => hex_req_spec(s@, want as nat) == Err::<Seq<u8>, CodecError>(e),
        },
{
    match decode_hex(s) {
        Ok(Some(b)) => {
            if b.len() == want {
                Ok(b)
            } else {
                Err(CodecError::MalformedHex)
            }
        },
        Ok(None) => Err(CodecError::MalformedHex),
        Err(e) => Err(e),
    }
}

/// A 20-byte account address.
#[derive(Clone, Debug, PartialEq, Eq)]
pub struct Address {
    pub bytes: Vec<u8>,
}

impl Address {
    /// Well-formedness: exactly twenty bytes.
    pub open spec fn wf(&self) -> bool {
        self.bytes@.len() == 20
    }

    /// Decodes a required address field from its hex wire form.
    pub fn decode(s: &str) -> (r: Result<Address, CodecError>)
        ensures
            match r {
                Ok(a) => hex_req_spec(s@, 20) == Ok::<Seq<u8>, CodecError>(a.bytes@) && a.wf(),
                Err(e) => hex_req_spec(s@, 20) == Err::<Seq<u8>, CodecError>(e),
            },
    {
        match decode_hex_req(s, 20) {
            Ok(b) => Ok(Address { bytes: b }),
            Err(e) => Err(e),
        }
    }

    /// Decodes an optional address field: empty or `0x` is absent.
    pub fn decode_opt(s: &str) -> (r: Result<Option<Address>, CodecError>)
        ensures
            match r {
                Ok(opt) => match opt {
                    Option::None => hex_opt_fixed_spec(s@, 20) == Ok::<
                        Option<Seq<u8>>,
                        CodecError,
                    >(None),
                    Option::Some(a) => hex_opt_fixed_spec(s@, 20) == Ok::<
                        Option<Seq<u8>>,
                        CodecError,
                    >(Some(a.bytes@)) && a.wf(),
                },
                Err(e) => hex_opt_fixed_spec(s@, 20) == Err::<Option<Seq<u8>>, CodecError>(e),
            },
    {
        match decode_hex(s) {
            Ok(None) => Ok(None),
            Ok(Some(b)) => {
                if b.len() == 20 {
                    Ok(Some(Address { bytes: b }))
                } else {
                    Err(CodecError::MalformedHex)
                }
            },
            Err(e) => Err(e),
        }
    }

    /// Encodes the address in its canonical lowercase hex wire form.
    pub fn encode(&self) -> (r: String)
        ensures
            r@ == hex_str_of(self.bytes@),
    {
        encode_hex(&self.bytes)
    }
}

/// A 32-byte transaction or block hash.
#[derive(Clone, Debug, PartialEq, Eq)]
pub struct Hash256 {
    pub bytes: Vec<u8>,
}

impl Hash256 {
    /// Well-formedness: exactly thirty-two bytes.
    pub open spec fn wf(&self) -> bool {
        self.bytes@.len() == 32
    }

    /// Decodes a required hash field from its hex wire form.
    pub fn decode(s: &str) -> (r: Result<Hash256, CodecError>)
        ensures
            match r {
                Ok(h) => hex_req_spec(s@, 32) == Ok::<Seq<u8>, CodecError>(h.bytes@) && h.wf(),
                Err(e) => hex_req_spec(s@, 32) == Err::<Seq<u8>, CodecError>(e),
            },
    {
        match decode_hex_req(s, 32) {
            Ok(b) => Ok(Hash256 { bytes: b }),
            Err(e) => Err(e),
        }
    }

    /// Encodes the hash in its canonical lowercase hex wire form.
    pub fn encode(&self) -> (r: String)
        ensures
            r@ == hex_str_of(self.bytes@),
    {
        encode_hex(&self.bytes)
    }
}

/// A 4-byte method selector.
#[derive(Clone, Debug, PartialEq, Eq)]
pub struct Hash32 {
    pub bytes: Vec<u8>,
}

/// The decoding rule for an optional fixed-width hex field: empty or the
/// bare prefix is absent; a present value must hold exactly `want` bytes.
pub open spec fn hex_opt_fixed_spec(s: Seq<char>, want: nat) -> Result<
    Option<Seq<u8>>,
    CodecError,
> {
    if hex_absent(s) {
        Ok(None)
    } else if hex_req_valid(s, want) {
        Ok(Some(hex_bytes(s.skip(2))))
    } else {
        Err(CodecError::MalformedHex)
    }
}

impl Hash32 {
    /// Well-formedness: exactly four bytes.
    pub open spec fn wf(&self) -> bool {
        self.bytes@.len() == 4
    }

    /// Decodes an optional selector field: empty or `0x` is absent.
    pub fn decode_opt(s: &str) -> (r: Result<Option<Hash32>, CodecError>)
        ensures
            match r {
                Ok(opt) => match opt {
                    Option::None => hex_opt_fixed_spec(s@, 4) == Ok::<
                        Option<Seq<u8>>,
                        CodecError,
                    >(None),
                    Option::Some(h) => hex_opt_fixed_spec(s@, 4) == Ok::<
                        Option<Seq<u8>>,
                        CodecError,
                    >(Some(h.bytes@)) && h.wf(),
                },
                Err(e) => hex_opt_fixed_spec(s@, 4) == Err::<Option<Seq<u8>>, CodecError>(e),
            },
    {
        match decode_hex(s) {
            Ok(None) => Ok(None),
            Ok(Some(b)) => {
                if b.len() == 4 {
                    Ok(Some(Hash32 { bytes: b }))
                } else {
                    Err(CodecError::MalformedHex)
                }
            },
            Err(e) => Err(e),
        }
    }

    /// Encodes the selector in its canonical lowercase hex wire form.
    pub fn encode(&self) -> (r: String)
        ensures
            r@ == hex_str_of(self.bytes@),
    {
        encode_hex(&self.bytes)
    }
}

} // verus!
