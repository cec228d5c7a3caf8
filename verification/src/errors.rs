//! Error kinds reported by the decoding layer and the envelope interpreter.

use vstd::prelude::*;

verus! {

/// A field-level decoding failure, before the field's name is known.
#[derive(Clone, Copy, Debug, PartialEq, Eq, Structural)]
pub enum CodecError {
    /// A numeric-string field did not parse fully as a non-negative
    /// base-10 integer in the target width.
    MalformedNumeric,
    /// A hex-string field lacked the `0x` prefix, had an odd number of
    /// digits, held a non-hex character, or had the wrong byte length.
    MalformedHex,
    /// A JSON-embedded-string field failed to re-parse as JSON into the
    /// target type.
    MalformedEmbeddedJson,
}

/// Every failure a caller of this crate can observe: a field-level codec
/// failure tagged with the wire name of the field that failed, or a
/// non-success response envelope.
#[derive(Clone, Debug, PartialEq, Eq)]
pub enum EtherscanError {
    /// A numeric-string field (named by its wire name) failed to parse.
    MalformedNumeric(String),
    /// A hex-string field (named by its wire name) failed to decode.
    MalformedHex(String),
    /// A JSON-embedded-string field (named by its wire name) failed to
    /// re-parse.
    MalformedEmbeddedJson(String),
    /// A balance endpoint answered with status `"0"`.
    BalanceFailed,
    /// An envelope carried a status other than `"1"` or `"0"`; the raw
    /// status string is kept for diagnostics.
    BadStatusCode(String),
}

/// The mathematical shape of an [`EtherscanError`]: the same five kinds,
/// with every string abstracted to its character sequence.
pub enum ErrorModel {
    MalformedNumeric(Seq<char>),
    MalformedHex(Seq<char>),
    MalformedEmbeddedJson(Seq<char>),
    BalanceFailed,
    BadStatusCode(Seq<char>),
}

impl View for EtherscanError {
    type V = ErrorModel;

    open spec fn view(&self) -> ErrorModel {
        match self {
            EtherscanError::MalformedNumeric(f) => ErrorModel::MalformedNumeric(f@),
            EtherscanError::MalformedHex(f) => ErrorModel::MalformedHex(f@),
            EtherscanError::MalformedEmbeddedJson(f) => ErrorModel::MalformedEmbeddedJson(f@),
            EtherscanError::BalanceFailed => ErrorModel::BalanceFailed,
            EtherscanError::BadStatusCode(s) => ErrorModel::BadStatusCode(s@),
        }
    }
}

/// The error model that tags a field-level codec failure with the wire
/// name of the field on which it happened.
pub open spec fn spec_at_field(kind: CodecError, field: Seq<char>) -> ErrorModel {
    match kind {
        CodecError::MalformedNumeric => ErrorModel::MalformedNumeric(field),
        CodecError::MalformedHex => ErrorModel::MalformedHex(field),
        CodecError::MalformedEmbeddedJson => ErrorModel::MalformedEmbeddedJson(field),
    }
}

impl EtherscanError {
    /// Tags a field-level codec failure with the wire name of the field
    /// on which it happened.
    pub fn at_field(kind: CodecError, field: &str) -> (r: EtherscanError)
        ensures
            r@ == spec_at_field(kind, field@),
    {
        match kind {
            CodecError::MalformedNumeric => {
                EtherscanError::MalformedNumeric(field.to_owned())
            },
            CodecError::MalformedHex => EtherscanError::MalformedHex(field.to_owned()),
            CodecError::MalformedEmbeddedJson => {
                EtherscanError::MalformedEmbeddedJson(field.to_owned())
            },
        }
    }
}

} // verus!
