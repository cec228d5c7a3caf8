//! Record schemas: token-transfer events.
//!
//! The three transfer-list endpoints (fungible, non-fungible and
//! multi-token) share most of their shape; they differ in the token
//! fields in the middle of the row. Decoding is all-or-nothing per row,
//! exactly as for the transaction records.

use vstd::prelude::*;
use crate::errors::{spec_at_field, CodecError, ErrorModel, EtherscanError};
use crate::num::{
    decode_u256_dec, decode_u256_opt, decode_u64_dec, dec_opt_spec, dec_spec, p256, p64, Uint256,
};
use crate::records::{opt_address_model, opt_u256_model};
use crate::types::{hex_opt_fixed_spec, hex_req_spec, Address, Hash256};

verus! {

/// The raw wire form of one fungible-token transfer row.
#[derive(Clone, Debug, PartialEq, Eq)]
pub struct RawERC20TokenTransferEvent {
    pub block_number: String,
    pub time_stamp: String,
    pub hash: String,
    pub nonce: String,
    pub block_hash: String,
    pub from: String,
    pub contract_address: String,
    pub to: String,
    pub value: String,
    pub token_name: String,
    pub token_symbol: String,
    pub token_decimal: String,
    pub transaction_index: String,
    pub gas: String,
    pub gas_price: String,
    pub gas_used: String,
    pub cumulative_gas_used: String,
    pub input: String,
    pub confirmations: String,
}

/// One row of the fungible-token transfer endpoint. The `input` field is
/// deprecated on the wire and kept as the raw string.
#[derive(Clone, Debug, PartialEq, Eq)]
pub struct ERC20TokenTransferEvent {
    pub block_number: u64,
    pub time_stamp: String,
    pub hash: Hash256,
    pub nonce: Uint256,
    pub block_hash: Hash256,
    pub from: Address,
    pub contract_address: Address,
    pub to: Option<Address>,
    pub value: Uint256,
    pub token_name: String,
    pub token_symbol: String,
    pub token_decimal: String,
    pub transaction_index: u64,
    pub gas: Uint256,
    pub gas_price: Option<Uint256>,
    pub gas_used: Uint256,
    pub cumulative_gas_used: Uint256,
    pub input: String,
    pub confirmations: u64,
}

/// The first field of a raw fungible-token transfer row whose codec
/// fails, in declaration order, if any.
pub open spec fn erc20_first_error(raw: RawERC20TokenTransferEvent) -> Option<ErrorModel> {
    if dec_spec(raw.block_number@, p64()) is Err {
        Some(spec_at_field(CodecError::MalformedNumeric, "blockNumber"@))
    } else if hex_req_spec(raw.hash@, 32) is Err {
        Some(spec_at_field(CodecError::MalformedHex, "hash"@))
    } else if dec_spec(raw.nonce@, p256()) is Err {
        Some(spec_at_field(CodecError::MalformedNumeric, "nonce"@))
    } else if hex_req_spec(raw.block_hash@, 32) is Err {
        Some(spec_at_field(CodecError::MalformedHex, "blockHash"@))
    } else if hex_req_spec(raw.from@, 20) is Err {
        Some(spec_at_field(CodecError::MalformedHex, "from"@))
    } else if hex_req_spec(raw.contract_address@, 20) is Err {
        Some(spec_at_field(CodecError::MalformedHex, "contractAddress"@))
    } else if hex_opt_fixed_spec(raw.to@, 20) is Err {
        Some(spec_at_field(CodecError::MalformedHex, "to"@))
    } else if dec_spec(raw.value@, p256()) is Err {
        Some(spec_at_field(CodecError::MalformedNumeric, "value"@))
    } else if dec_spec(raw.transaction_index@, p64()) is Err {
        Some(spec_at_field(CodecError::MalformedNumeric, "transactionIndex"@))
    } else if dec_spec(raw.gas@, p256()) is Err {
        Some(spec_at_field(CodecError::MalformedNumeric, "gas"@))
    } else if dec_opt_spec(raw.gas_price@, p256()) is Err {
        Some(spec_at_field(CodecError::MalformedNumeric, "gasPrice"@))
    } else if dec_spec(raw.gas_used@, p256()) is Err {
        Some(spec_at_field(CodecError::MalformedNumeric, "gasUsed"@))
    } else if dec_spec(raw.cumulative_gas_used@, p256()) is Err {
        Some(spec_at_field(CodecError::MalformedNumeric, "cumulativeGasUsed"@))
    } else if dec_spec(raw.confirmations@, p64()) is Err {
        Some(spec_at_field(CodecError::MalformedNumeric, "confirmations"@))
    } else {
        None
    }
}

/// Whether a decoded fungible-token transfer matches its raw wire form
/// field by field.
pub open spec fn erc20_matches(
    raw: RawERC20TokenTransferEvent,
    t: ERC20TokenTransferEvent,
) -> bool {
    &&& dec_spec(raw.block_number@, p64()) == Ok::<nat, CodecError>(t.block_number as nat)
    &&& t.time_stamp@ == raw.time_stamp@
    &&& hex_req_spec(raw.hash@, 32) == Ok::<Seq<u8>, CodecError>(t.hash.bytes@)
    &&& dec_spec(raw.nonce@, p256()) == Ok::<nat, CodecError>(t.nonce.as_nat())
    &&& hex_req_spec(raw.block_hash@, 32) == Ok::<Seq<u8>, CodecError>(t.block_hash.bytes@)
    &&& hex_req_spec(raw.from@, 20) == Ok::<Seq<u8>, CodecError>(t.from.bytes@)
    &&& hex_req_spec(raw.contract_address@, 20) == Ok::<Seq<u8>, CodecError>(
        t.contract_address.bytes@,
    )
    &&& hex_opt_fixed_spec(raw.to@, 20) == Ok::<Option<Seq<u8>>, CodecError>(
        opt_address_model(t.to),
    )
    &&& dec_spec(raw.value@, p256()) == Ok::<nat, CodecError>(t.value.as_nat())
    &&& t.token_name@ == raw.token_name@
    &&& t.token_symbol@ == raw.token_symbol@
    &&& t.token_decimal@ == raw.token_decimal@
    &&& dec_spec(raw.transaction_index@, p64()) == Ok::<nat, CodecError>(
        t.transaction_index as nat,
    )
    &&& dec_spec(raw.gas@, p256()) == Ok::<nat, CodecError>(t.gas.as_nat())
    &&& dec_opt_spec(raw.gas_price@, p256()) == Ok::<Option<nat>, CodecError>(
        opt_u256_model(t.gas_price),
    )
    &&& dec_spec(raw.gas_used@, p256()) == Ok::<nat, CodecError>(t.gas_used.as_nat())
    &&& dec_spec(raw.cumulative_gas_used@, p256()) == Ok::<nat, CodecError>(
        t.cumulative_gas_used.as_nat(),
    )
    &&& t.input@ == raw.input@
    &&& dec_spec(raw.confirmations@, p64()) == Ok::<nat, CodecError>(t.confirmations as nat)
}

impl ERC20TokenTransferEvent {
    /// Decodes a fungible-token transfer row, all-or-nothing: the first
    /// field whose codec fails decides the error.
    pub fn decode(raw: &RawERC20TokenTransferEvent) -> (r: Result<
        ERC20TokenTransferEvent,
        EtherscanError,
    >)
        ensures
            match r {
                Ok(t) => erc20_first_error(*raw) is None && erc20_matches(*raw, t),
                Err(e) => erc20_first_error(*raw) == Some(e@),
            },
    {
        let block_number = match decode_u64_dec(raw.block_number.as_str()) {
            Ok(v) => v,
            Err(e) => {
                return Err(EtherscanError::at_field(e, "blockNumber"));
            },
        };
        let hash = match Hash256::decode(raw.hash.as_str()) {
            Ok(v) => v,
            Err(e) => {
                return Err(EtherscanError::at_field(e, "hash"));
            },
        };
        let nonce = match decode_u256_dec(raw.nonce.as_str()) {
            Ok(v) => v,
            Err(e) => {
                return Err(EtherscanError::at_field(e, "nonce"));
            },
        };
        let block_hash = match Hash256::decode(raw.block_hash.as_str()) {
            Ok(v) => v,
            Err(e) => {
                return Err(EtherscanError::at_field(e, "blockHash"));
            },
        };
        let from = match Address::decode(raw.from.as_str()) {
            Ok(v) => v,
            Err(e) => {
                return Err(EtherscanError::at_field(e, "from"));
            },
        };
        let contract_address = match Address::decode(raw.contract_address.as_str()) {
            Ok(v) => v,
            Err(e) => {
                return Err(EtherscanError::at_field(e, "contractAddress"));
            },
        };
        let to = match Address::decode_opt(raw.to.as_str()) {
            Ok(v) => v,
            Err(e) => {
                return Err(EtherscanError::at_field(e, "to"));
            },
        };
        let value = match decode_u256_dec(raw.value.as_str()) {
            Ok(v) => v,
            Err(e) => {
                return Err(EtherscanError::at_field(e, "value"));
            },
        };
        let transaction_index = match decode_u64_dec(raw.transaction_index.as_str()) {
            Ok(v) => v,
            Err(e) => {
                return Err(EtherscanError::at_field(e, "transactionIndex"));
            },
        };
        let gas = match decode_u256_dec(raw.gas.as_str()) {
            Ok(v) => v,
            Err(e) => {
                return Err(EtherscanError::at_field(e, "gas"));
            },
        };
        let gas_price = match decode_u256_opt(raw.gas_price.as_str()) {
            Ok(v) => v,
            Err(e) => {
                return Err(EtherscanError::at_field(e, "gasPrice"));
            },
        };
        let gas_used = match decode_u256_dec(raw.gas_used.as_str()) {
            Ok(v) => v,
            Err(e) => {
                return Err(EtherscanError::at_field(e, "gasUsed"));
            },
        };
        let cumulative_gas_used = match decode_u256_dec(raw.cumulative_gas_used.as_str()) {
            Ok(v) => v,
            Err(e) => {
                return Err(EtherscanError::at_field(e, "cumulativeGasUsed"));
            },
        };
        let confirmations = match decode_u64_dec(raw.confirmations.as_str()) {
            Ok(v) => v,
            Err(e) => {
                return Err(EtherscanError::at_field(e, "confirmations"));
            },
        };
        Ok(ERC20TokenTransferEvent {
            block_number,
            time_stamp: raw.time_stamp.clone(),
            hash,
            nonce,
            block_hash,
            from,
            contract_address,
            to,
            value,
            token_name: raw.token_name.clone(),
            token_symbol: raw.token_symbol.clone(),
            token_decimal: raw.token_decimal.clone(),
            transaction_index,
            gas,
            gas_price,
            gas_used,
            cumulative_gas_used,
            input: raw.input.clone(),
            confirmations,
        })
    }
}

/// The raw wire form of one non-fungible-token transfer row.
#[derive(Clone, Debug, PartialEq, Eq)]
pub struct RawERC721TokenTransferEvent {
    pub block_number: String,
    pub time_stamp: String,
    pub hash: String,
    pub nonce: String,
    pub block_hash: String,
    pub from: String,
    pub contract_address: String,
    pub to: String,
    pub token_id: String,
    pub token_name: String,
    pub token_symbol: String,
    pub token_decimal: String,
    pub transaction_index: String,
    pub gas: String,
    pub gas_price: String,
    pub gas_used: String,
    pub cumulative_gas_used: String,
    pub input: String,
    pub confirmations: String,
}

/// One row of the non-fungible-token transfer endpoint. The token identifier and the
/// deprecated `input` field are kept as raw strings. Wire `tokenID` is
/// `token_id`.
#[derive(Clone, Debug, PartialEq, Eq)]
pub struct ERC721TokenTransferEvent {
    pub block_number: u64,
    pub time_stamp: String,
    pub hash: Hash256,
    pub nonce: Uint256,
    pub block_hash: Hash256,
    pub from: Address,
    pub contract_address: Address,
    pub to: Option<Address>,
    pub token_id: String,
    pub token_name: String,
    pub token_symbol: String,
    pub token_decimal: String,
    pub transaction_index: u64,
    pub gas: Uint256,
    pub gas_price: Option<Uint256>,
    pub gas_used: Uint256,
    pub cumulative_gas_used: Uint256,
    pub input: String,
    pub confirmations: u64,
}

/// The first field of a raw non-fungible-token transfer row whose codec
/// fails, in declaration order, if any.
pub open spec fn erc721_first_error(raw: RawERC721TokenTransferEvent) -> Option<ErrorModel> {
    if dec_spec(raw.block_number@, p64()) is Err {
        Some(spec_at_field(CodecError::MalformedNumeric, "blockNumber"@))
    } else if hex_req_spec(raw.hash@, 32) is Err {
        Some(spec_at_field(CodecError::MalformedHex, "hash"@))
    } else if dec_spec(raw.nonce@, p256()) is Err {
        Some(spec_at_field(CodecError::MalformedNumeric, "nonce"@))
    } else if hex_req_spec(raw.block_hash@, 32) is Err {
        Some(spec_at_field(CodecError::MalformedHex, "blockHash"@))
    } else if hex_req_spec(raw.from@, 20) is Err {
        Some(spec_at_field(CodecError::MalformedHex, "from"@))
    } else if hex_req_spec(raw.contract_address@, 20) is Err {
        Some(spec_at_field(CodecError::MalformedHex, "contractAddress"@))
    } else if hex_opt_fixed_spec(raw.to@, 20) is Err {
        Some(spec_at_field(CodecError::MalformedHex, "to"@))
    } else if dec_spec(raw.transaction_index@, p64()) is Err {
        Some(spec_at_field(CodecError::MalformedNumeric, "transactionIndex"@))
    } else if dec_spec(raw.gas@, p256()) is Err {
        Some(spec_at_field(CodecError::MalformedNumeric, "gas"@))
    } else if dec_opt_spec(raw.gas_price@, p256()) is Err {
        Some(spec_at_field(CodecError::MalformedNumeric, "gasPrice"@))
    } else if dec_spec(raw.gas_used@, p256()) is Err {
        Some(spec_at_field(CodecError::MalformedNumeric, "gasUsed"@))
    } else if dec_spec(raw.cumulative_gas_used@, p256()) is Err {
        Some(spec_at_field(CodecError::MalformedNumeric, "cumulativeGasUsed"@))
    } else if dec_spec(raw.confirmations@, p64()) is Err {
        Some(spec_at_field(CodecError::MalformedNumeric, "confirmations"@))
    } else {
        None
    }
}

/// Whether a decoded non-fungible-token transfer matches its raw wire form
/// field by field.
pub open spec fn erc721_matches(
    raw: RawERC721TokenTransferEvent,
    t: ERC721TokenTransferEvent,
) -> bool {
    &&& dec_spec(raw.block_number@, p64()) == Ok::<nat, CodecError>(t.block_number as nat)
    &&& t.time_stamp@ == raw.time_stamp@
    &&& hex_req_spec(raw.hash@, 32) == Ok::<Seq<u8>, CodecError>(t.hash.bytes@)
    &&& dec_spec(raw.nonce@, p256()) == Ok::<nat, CodecError>(t.nonce.as_nat())
    &&& hex_req_spec(raw.block_hash@, 32) == Ok::<Seq<u8>, CodecError>(t.block_hash.bytes@)
    &&& hex_req_spec(raw.from@, 20) == Ok::<Seq<u8>, CodecError>(t.from.bytes@)
    &&& hex_req_spec(raw.contract_address@, 20) == Ok::<Seq<u8>, CodecError>(
        t.contract_address.bytes@,
    )
    &&& hex_opt_fixed_spec(raw.to@, 20) == Ok::<Option<Seq<u8>>, CodecError>(
        opt_address_model(t.to),
    )
    &&& t.token_id@ == raw.token_id@
    &&& t.token_name@ == raw.token_name@
    &&& t.token_symbol@ == raw.token_symbol@
    &&& t.token_decimal@ == raw.token_decimal@
    &&& dec_spec(raw.transaction_index@, p64()) == Ok::<nat, CodecError>(
        t.transaction_index as nat,
    )
    &&& dec_spec(raw.gas@, p256()) == Ok::<nat, CodecError>(t.gas.as_nat())
    &&& dec_opt_spec(raw.gas_price@, p256()) == Ok::<Option<nat>, CodecError>(
        opt_u256_model(t.gas_price),
    )
    &&& dec_spec(raw.gas_used@, p256()) == Ok::<nat, CodecError>(t.gas_used.as_nat())
    &&& dec_spec(raw.cumulative_gas_used@, p256()) == Ok::<nat, CodecError>(
        t.cumulative_gas_used.as_nat(),
    )
    &&& t.input@ == raw.input@
    &&& dec_spec(raw.confirmations@, p64()) == Ok::<nat, CodecError>(t.confirmations as nat)
}

impl ERC721TokenTransferEvent {
    /// Decodes a non-fungible-token transfer row, all-or-nothing: the first
    /// field whose codec fails decides the error.
    pub fn decode(raw: &RawERC721TokenTransferEvent) -> (r: Result<
        ERC721TokenTransferEvent,
        EtherscanError,
    >)
        ensures
            match r {
                Ok(t) => erc721_first_error(*raw) is None && erc721_matches(*raw, t),
                Err(e) => erc721_first_error(*raw) == Some(e@),
            },
    {
        let block_number = match decode_u64_dec(raw.block_number.as_str()) {
            Ok(v) => v,
            Err(e) => {
                return Err(EtherscanError::at_field(e, "blockNumber"));
            },
        };
        let hash = match Hash256::decode(raw.hash.as_str()) {
            Ok(v) => v,
            Err(e) => {
                return Err(EtherscanError::at_field(e, "hash"));
            },
        };
        let nonce = match decode_u256_dec(raw.nonce.as_str()) {
            Ok(v) => v,
            Err(e) => {
                return Err(EtherscanError::at_field(e, "nonce"));
            },
        };
        let block_hash = match Hash256::decode(raw.block_hash.as_str()) {
            Ok(v) => v,
            Err(e) => {
                return Err(EtherscanError::at_field(e, "blockHash"));
            },
        };
        let from = match Address::decode(raw.from.as_str()) {
            Ok(v) => v,
            Err(e) => {
                return Err(EtherscanError::at_field(e, "from"));
            },
        };
        let contract_address = match Address::decode(raw.contract_address.as_str()) {
            Ok(v) => v,
            Err(e) => {
                return Err(EtherscanError::at_field(e, "contractAddress"));
            },
        };
        let to = match Address::decode_opt(raw.to.as_str()) {
            Ok(v) => v,
            Err(e) => {
                return Err(EtherscanError::at_field(e, "to"));
            },
        };
        let transaction_index = match decode_u64_dec(raw.transaction_index.as_str()) {
            Ok(v) => v,
            Err(e) => {
                return Err(EtherscanError::at_field(e, "transactionIndex"));
            },
        };
        let gas = match decode_u256_dec(raw.gas.as_str()) {
            Ok(v) => v,
            Err(e) => {
                return Err(EtherscanError::at_field(e, "gas"));
            },
        };
        let gas_price = match decode_u256_opt(raw.gas_price.as_str()) {
            Ok(v) => v,
            Err(e) => {
                return Err(EtherscanError::at_field(e, "gasPrice"));
            },
        };
        let gas_used = match decode_u256_dec(raw.gas_used.as_str()) {
            Ok(v) => v,
            Err(e) => {
                return Err(EtherscanError::at_field(e, "gasUsed"));
            },
        };
        let cumulative_gas_used = match decode_u256_dec(raw.cumulative_gas_used.as_str()) {
            Ok(v) => v,
            Err(e) => {
                return Err(EtherscanError::at_field(e, "cumulativeGasUsed"));
            },
        };
        let confirmations = match decode_u64_dec(raw.confirmations.as_str()) {
            Ok(v) => v,
            Err(e) => {
                return Err(EtherscanError::at_field(e, "confirmations"));
            },
        };
        Ok(ERC721TokenTransferEvent {
            block_number,
            time_stamp: raw.time_stamp.clone(),
            hash,
            nonce,
            block_hash,
            from,
            contract_address,
            to,
            token_id: raw.token_id.clone(),
            token_name: raw.token_name.clone(),
            token_symbol: raw.token_symbol.clone(),
            token_decimal: raw.token_decimal.clone(),
            transaction_index,
            gas,
            gas_price,
            gas_used,
            cumulative_gas_used,
            input: raw.input.clone(),
            confirmations,
        })
    }
}

/// The raw wire form of one multi-token transfer row.
#[derive(Clone, Debug, PartialEq, Eq)]
pub struct RawERC1155TokenTransferEvent {
    pub block_number: String,
    pub time_stamp: String,
    pub hash: String,
    pub nonce: String,
    pub block_hash: String,
    pub from: String,
    pub contract_address: String,
    pub to: String,
    pub token_id: String,
    pub token_value: String,
    pub token_name: String,
    pub token_symbol: String,
    pub transaction_index: String,
    pub gas: String,
    pub gas_price: String,
    pub gas_used: String,
    pub cumulative_gas_used: String,
    pub input: String,
    pub confirmations: String,
}

/// One row of the multi-token transfer endpoint. The token identifier, the
/// transferred amount and the deprecated `input` field are kept as raw
/// strings. Wire `tokenID` is `token_id`.
#[derive(Clone, Debug, PartialEq, Eq)]
pub struct ERC1155TokenTransferEvent {
    pub block_number: u64,
    pub time_stamp: String,
    pub hash: Hash256,
    pub nonce: Uint256,
    pub block_hash: Hash256,
    pub from: Address,
    pub contract_address: Address,
    pub to: Option<Address>,
    pub token_id: String,
    pub token_value: String,
    pub token_name: String,
    pub token_symbol: String,
    pub transaction_index: u64,
    pub gas: Uint256,
    pub gas_price: Option<Uint256>,
    pub gas_used: Uint256,
    pub cumulative_gas_used: Uint256,
    pub input: String,
    pub confirmations: u64,
}

/// The first field of a raw multi-token transfer row whose codec
/// fails, in declaration order, if any.
pub open spec fn erc1155_first_error(raw: RawERC1155TokenTransferEvent) -> Option<ErrorModel> {
    if dec_spec(raw.block_number@, p64()) is Err {
        Some(spec_at_field(CodecError::MalformedNumeric, "blockNumber"@))
    } else if hex_req_spec(raw.hash@, 32) is Err {
        Some(spec_at_field(CodecError::MalformedHex, "hash"@))
    } else if dec_spec(raw.nonce@, p256()) is Err {
        Some(spec_at_field(CodecError::MalformedNumeric, "nonce"@))
    } else if hex_req_spec(raw.block_hash@, 32) is Err {
        Some(spec_at_field(CodecError::MalformedHex, "blockHash"@))
    } else if hex_req_spec(raw.from@, 20) is Err {
        Some(spec_at_field(CodecError::MalformedHex, "from"@))
    } else if hex_req_spec(raw.contract_address@, 20) is Err {
        Some(spec_at_field(CodecError::MalformedHex, "contractAddress"@))
    } else if hex_opt_fixed_spec(raw.to@, 20) is Err {
        Some(spec_at_field(CodecError::MalformedHex, "to"@))
    } else if dec_spec(raw.transaction_index@, p64()) is Err {
        Some(spec_at_field(CodecError::MalformedNumeric, "transactionIndex"@))
    } else if dec_spec(raw.gas@, p256()) is Err {
        Some(spec_at_field(CodecError::MalformedNumeric, "gas"@))
    } else if dec_opt_spec(raw.gas_price@, p256()) is Err {
        Some(spec_at_field(CodecError::MalformedNumeric, "gasPrice"@))
    } else if dec_spec(raw.gas_used@, p256()) is Err {
        Some(spec_at_field(CodecError::MalformedNumeric, "gasUsed"@))
    } else if dec_spec(raw.cumulative_gas_used@, p256()) is Err {
        Some(spec_at_field(CodecError::MalformedNumeric, "cumulativeGasUsed"@))
    } else if dec_spec(raw.confirmations@, p64()) is Err {
        Some(spec_at_field(CodecError::MalformedNumeric, "confirmations"@))
    } else {
        None
    }
}

/// Whether a decoded multi-token transfer matches its raw wire form
/// field by field.
pub open spec fn erc1155_matches(
    raw: RawERC1155TokenTransferEvent,
    t: ERC1155TokenTransferEvent,
) -> bool {
    &&& dec_spec(raw.block_number@, p64()) == Ok::<nat, CodecError>(t.block_number as nat)
    &&& t.time_stamp@ == raw.time_stamp@
    &&& hex_req_spec(raw.hash@, 32) == Ok::<Seq<u8>, CodecError>(t.hash.bytes@)
    &&& dec_spec(raw.nonce@, p256()) == Ok::<nat, CodecError>(t.nonce.as_nat())
    &&& hex_req_spec(raw.block_hash@, 32) == Ok::<Seq<u8>, CodecError>(t.block_hash.bytes@)
    &&& hex_req_spec(raw.from@, 20) == Ok::<Seq<u8>, CodecError>(t.from.bytes@)
    &&& hex_req_spec(raw.contract_address@, 20) == Ok::<Seq<u8>, CodecError>(
        t.contract_address.bytes@,
    )
    &&& hex_opt_fixed_spec(raw.to@, 20) == Ok::<Option<Seq<u8>>, CodecError>(
        opt_address_model(t.to),
    )
    &&& t.token_id@ == raw.token_id@
    &&& t.token_value@ == raw.token_value@
    &&& t.token_name@ == raw.token_name@
    &&& t.token_symbol@ == raw.token_symbol@
    &&& dec_spec(raw.transaction_index@, p64()) == Ok::<nat, CodecError>(
        t.transaction_index as nat,
    )
    &&& dec_spec(raw.gas@, p256()) == Ok::<nat, CodecError>(t.gas.as_nat())
    &&& dec_opt_spec(raw.gas_price@, p256()) == Ok::<Option<nat>, CodecError>(
        opt_u256_model(t.gas_price),
    )
    &&& dec_spec(raw.gas_used@, p256()) == Ok::<nat, CodecError>(t.gas_used.as_nat())
    &&& dec_spec(raw.cumulative_gas_used@, p256()) == Ok::<nat, CodecError>(
        t.cumulative_gas_used.as_nat(),
    )
    &&& t.input@ == raw.input@
    &&& dec_spec(raw.confirmations@, p64()) == Ok::<nat, CodecError>(t.confirmations as nat)
}

impl ERC1155TokenTransferEvent {
    /// Decodes a multi-token transfer row, all-or-nothing: the first
    /// field whose codec fails decides the error.
    pub fn decode(raw: &RawERC1155TokenTransferEvent) -> (r: Result<
        ERC1155TokenTransferEvent,
        EtherscanError,
    >)
        ensures
            match r {
                Ok(t) => erc1155_first_error(*raw) is None && erc1155_matches(*raw, t),
                Err(e) => erc1155_first_error(*raw) == Some(e@),
            },
    {
        let block_number = match decode_u64_dec(raw.block_number.as_str()) {
            Ok(v) => v,
            Err(e) => {
                return Err(EtherscanError::at_field(e, "blockNumber"));
            },
        };
        let hash = match Hash256::decode(raw.hash.as_str()) {
            Ok(v) => v,
            Err(e) => {
                return Err(EtherscanError::at_field(e, "hash"));
            },
        };
        let nonce = match decode_u256_dec(raw.nonce.as_str()) {
            Ok(v) => v,
            Err(e) => {
                return Err(EtherscanError::at_field(e, "nonce"));
            },
        };
        let block_hash = match Hash256::decode(raw.block_hash.as_str()) {
            Ok(v) => v,
            Err(e) => {
                return Err(EtherscanError::at_field(e, "blockHash"));
            },
        };
        let from = match Address::decode(raw.from.as_str()) {
            Ok(v) => v,
            Err(e) => {
                return Err(EtherscanError::at_field(e, "from"));
            },
        };
        let contract_address = match Address::decode(raw.contract_address.as_str()) {
            Ok(v) => v,
            Err(e) => {
                return Err(EtherscanError::at_field(e, "contractAddress"));
            },
        };
        let to = match Address::decode_opt(raw.to.as_str()) {
            Ok(v) => v,
            Err(e) => {
                return Err(EtherscanError::at_field(e, "to"));
            },
        };
        let transaction_index = match decode_u64_dec(raw.transaction_index.as_str()) {
            Ok(v) => v,
            Err(e) => {
                return Err(EtherscanError::at_field(e, "transactionIndex"));
            },
        };
        let gas = match decode_u256_dec(raw.gas.as_str()) {
            Ok(v) => v,
            Err(e) => {
                return Err(EtherscanError::at_field(e, "gas"));
            },
        };
        let gas_price = match decode_u256_opt(raw.gas_price.as_str()) {
            Ok(v) => v,
            Err(e) => {
                return Err(EtherscanError::at_field(e, "gasPrice"));
            },
        };
        let gas_used = match decode_u256_dec(raw.gas_used.as_str()) {
            Ok(v) => v,
            Err(e) => {
                return Err(EtherscanError::at_field(e, "gasUsed"));
            },
        };
        let cumulative_gas_used = match decode_u256_dec(raw.cumulative_gas_used.as_str()) {
            Ok(v) => v,
            Err(e) => {
                return Err(EtherscanError::at_field(e, "cumulativeGasUsed"));
            },
        };
        let confirmations = match decode_u64_dec(raw.confirmations.as_str()) {
            Ok(v) => v,
            Err(e) => {
                return Err(EtherscanError::at_field(e, "confirmations"));
            },
        };
        Ok(ERC1155TokenTransferEvent {
            block_number,
            time_stamp: raw.time_stamp.clone(),
            hash,
            nonce,
            block_hash,
            from,
            contract_address,
            to,
            token_id: raw.token_id.clone(),
            token_value: raw.token_value.clone(),
            token_name: raw.token_name.clone(),
            token_symbol: raw.token_symbol.clone(),
            transaction_index,
            gas,
            gas_price,
            gas_used,
            cumulative_gas_used,
            input: raw.input.clone(),
            confirmations,
        })
    }
}

} // verus!
