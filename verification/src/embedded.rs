//! JSON-embedded-string codecs.
//!
//! Some fields are double-encoded: the field's wire value is itself a
//! JSON value serialised as a string. Decoding wraps the wire string in
//! quotes and re-parses it as a JSON string (honouring escapes), then
//! decodes the unwrapped text into the target type. An empty wire string
//! is absent; any re-parse or target-decode failure is a malformed
//! embedded-JSON field.

use vstd::prelude::*;
use crate::errors::CodecError;
use crate::hex::{hex_absent, hex_bytes, hex_valid};
use crate::num::{dec_val, dec_valid, p256, Uint256};
use crate::types::{hex_req_valid, Address, Hash256};

verus! {

/// What re-parsing a wire string as a quoted JSON string yields: the
/// unescaped character sequence, or nothing when the quoted form is not
/// valid JSON.
pub uninterp spec fn json_unescaped(s: Seq<char>) -> Option<Seq<char>>;

/// Whether `c` may stand for itself inside a JSON string: anything but
/// the quote, the backslash, and the control range.
pub open spec fn json_plain_char(c: char) -> bool {
    c != '"' && c != '\\' && c as u32 >= 0x20
}

/// Whether every character of `s` stands for itself in a JSON string.
pub open spec fn json_plain(s: Seq<char>) -> bool {
    forall|i: int| 0 <= i < s.len() ==> json_plain_char(#[trigger] s[i])
}

/// Relies on serde_json::from_str::<String>, applied to the wire text
/// wrapped in quotes, to re-parse a double-encoded field as a JSON
/// string. A run of plain characters (no quote, no backslash, no control
/// character) is a JSON string denoting itself.
#[verifier::external_body]
fn json_reparse(s: &str) -> (r: Option<String>)
    ensures
        match r {
            Some(u) => json_unescaped(s@) == Some(u@) && (json_plain(s@) ==> u@ == s@),
            None => json_unescaped(s@) is None && !json_plain(s@),
        },
{
    let quoted = format!("\"{}\"", s);
    serde_json::from_str::<String>(&quoted).ok()
}

/// The decoding rule for a JSON-embedded string field: empty is absent,
/// otherwise the unescaped text itself.
pub open spec fn embedded_string_spec(s: Seq<char>) -> Result<Option<Seq<char>>, CodecError> {
    if s.len() == 0 {
        Ok(None)
    } else {
        match json_unescaped(s) {
            Some(u) => Ok(Some(u)),
            None => Err(CodecError::MalformedEmbeddedJson),
        }
    }
}

/// Decodes a JSON-embedded string field into the unescaped text.
pub fn decode_json_string(s: &str) -> (r: Result<Option<String>, CodecError>)
    ensures
        match r {
            Ok(opt) => match opt {
                Option::None => embedded_string_spec(s@) == Ok::<Option<Seq<char>>, CodecError>(
                    None,
                ),
                Option::Some(u) => embedded_string_spec(s@) == Ok::<
                    Option<Seq<char>>,
                    CodecError,
                >(Some(u@)),
            },
            Err(e) => embedded_string_spec(s@) == Err::<Option<Seq<char>>, CodecError>(e),
        },
{
    if s.is_empty() {
        Ok(None)
    } else {
        match json_reparse(s) {
            Some(u) => Ok(Some(u)),
            None => Err(CodecError::MalformedEmbeddedJson),
        }
    }
}

/// The decoding rule for a JSON-embedded fixed-width hex field: empty is
/// absent, otherwise the unescaped text must be a hex string of exactly
/// `want` bytes.
pub open spec fn embedded_bytes_spec(s: Seq<char>, want: nat) -> Result<
    Option<Seq<u8>>,
    CodecError,
> {
    if s.len() == 0 {
        Ok(None)
    } else {
        match json_unescaped(s) {
            Some(u) => if hex_req_valid(u, want) {
                Ok(Some(hex_bytes(u.skip(2))))
            } else {
                Err(CodecError::MalformedEmbeddedJson)
            },
            None => Err(CodecError::MalformedEmbeddedJson),
        }
    }
}

/// Decodes a JSON-embedded address field.
pub fn decode_json_address(s: &str) -> (r: Result<Option<Address>, CodecError>)
    ensures
        match r {
            Ok(opt) => match opt {
                Option::None => embedded_bytes_spec(s@, 20) == Ok::<
                    Option<Seq<u8>>,
                    CodecError,
                >(None),
                Option::Some(a) => embedded_bytes_spec(s@, 20) == Ok::<
                    Option<Seq<u8>>,
                    CodecError,
                >(Some(a.bytes@)) && a.wf(),
            },
            Err(e) => embedded_bytes_spec(s@, 20) == Err::<Option<Seq<u8>>, CodecError>(e),
        },
{
    if s.is_empty() {
        return Ok(None);
    }
    match json_reparse(s) {
        Some(u) => match Address::decode(u.as_str()) {
            Ok(a) => Ok(Some(a)),
            Err(_) => Err(CodecError::MalformedEmbeddedJson),
        },
        None => Err(CodecError::MalformedEmbeddedJson),
    }
}

/// Decodes a JSON-embedded hash field.
pub fn decode_json_hash256(s: &str) -> (r: Result<Option<Hash256>, CodecError>)
    ensures
        match r {
            Ok(opt) => match opt {
                Option::None => embedded_bytes_spec(s@, 32) == Ok::<
                    Option<Seq<u8>>,
                    CodecError,
                >(None),
                Option::Some(h) => embedded_bytes_spec(s@, 32) == Ok::<
                    Option<Seq<u8>>,
                    CodecError,
                >(Some(h.bytes@)) && h.wf(),
            },
            Err(e) => embedded_bytes_spec(s@, 32) == Err::<Option<Seq<u8>>, CodecError>(e),
        },
{
    if s.is_empty() {
        return Ok(None);
    }
    match json_reparse(s) {
        Some(u) => match Hash256::decode(u.as_str()) {
            Ok(h) => Ok(Some(h)),
            Err(_) => Err(CodecError::MalformedEmbeddedJson),
        },
        None => Err(CodecError::MalformedEmbeddedJson),
    }
}

/// The decoding rule for a JSON-embedded byte-string field of any
/// length: empty is absent, and so is an unescaped bare `0x`.
pub open spec fn embedded_var_bytes_spec(s: Seq<char>) -> Result<Option<Seq<u8>>, CodecError> {
    if s.len() == 0 {
        Ok(None)
    } else {
        match json_unescaped(s) {
            Some(u) => if hex_absent(u) {
                Ok(None)
            } else if hex_valid(u) {
                Ok(Some(hex_bytes(u.skip(2))))
            } else {
                Err(CodecError::MalformedEmbeddedJson)
            },
            None => Err(CodecError::MalformedEmbeddedJson),
        }
    }
}

/// Decodes a JSON-embedded byte-string field of any length.
pub fn decode_json_bytes(s: &str) -> (r: Result<Option<Vec<u8>>, CodecError>)
    ensures
        match r {
            Ok(opt) => match opt {
                Option::None => embedded_var_bytes_spec(s@) == Ok::<
                    Option<Seq<u8>>,
                    CodecError,
                >(None),
                Option::Some(b) => embedded_var_bytes_spec(s@) == Ok::<
                    Option<Seq<u8>>,
                    CodecError,
                >(Some(b@)),
            },
            Err(e) => embedded_var_bytes_spec(s@) == Err::<Option<Seq<u8>>, CodecError>(e),
        },
{
    if s.is_empty() {
        return Ok(None);
    }
    match json_reparse(s) {
        Some(u) => match crate::hex::decode_hex(u.as_str()) {
            Ok(opt) => Ok(opt),
            Err(_) => Err(CodecError::MalformedEmbeddedJson),
        },
        None => Err(CodecError::MalformedEmbeddedJson),
    }
}

/// The decoding rule for a JSON-embedded numeric field: empty is absent,
/// otherwise the unescaped text must be a decimal run fitting 256 bits.
pub open spec fn embedded_u256_spec(s: Seq<char>) -> Result<Option<nat>, CodecError> {
    if s.len() == 0 {
        Ok(None)
    } else {
        match json_unescaped(s) {
            Some(u) => if dec_valid(u, p256()) {
                Ok(Some(dec_val(u)))
            } else {
                Err(CodecError::MalformedEmbeddedJson)
            },
            None => Err(CodecError::MalformedEmbeddedJson),
        }
    }
}

/// Decodes a JSON-embedded 256-bit numeric field.
pub fn decode_json_u256(s: &str) -> (r: Result<Option<Uint256>, CodecError>)
    ensures
        match r {
            Ok(opt) => match opt {
                Option::None => embedded_u256_spec(s@) == Ok::<Option<nat>, CodecError>(None),
                Option::Some(v) => embedded_u256_spec(s@) == Ok::<Option<nat>, CodecError>(
                    Some(v.as_nat()),
                ),
            },
            Err(e) => embedded_u256_spec(s@) == Err::<Option<nat>, CodecError>(e),
        },
{
    if s.is_empty() {
        return Ok(None);
    }
    match json_reparse(s) {
        Some(u) => match crate::num::decode_u256_dec(u.as_str()) {
            Ok(v) => Ok(Some(v)),
            Err(_) => Err(CodecError::MalformedEmbeddedJson),
        },
        None => Err(CodecError::MalformedEmbeddedJson),
    }
}

/// Encodes an optional JSON-embedded string field: absent is the empty
/// string, a present value is its canonical (unescaped) text.
pub fn encode_json_string(o: &Option<String>) -> (r: String)
    ensures
        match o {
            Option::None => r@ == Seq::<char>::empty(),
            Option::Some(s) => r@ == s@,
        },
{
    match o {
        None => String::new(),
        Some(s) => s.clone(),
    }
}

} // verus!
