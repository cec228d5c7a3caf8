//! Record schemas: balance, normal and internal transactions, and mined
//! blocks.
//!
//! Each record is a fixed set of named fields, each bound to one scalar
//! codec or to the genesis-aware type. A record decodes from the raw wire
//! strings all-or-nothing: the first field (in declaration order) whose
//! codec fails decides the error, and no partial record is ever built.

use vstd::prelude::*;
use crate::embedded::{
    decode_json_address, decode_json_hash256, decode_json_string, decode_json_u256,
    embedded_bytes_spec, embedded_string_spec, embedded_u256_spec,
};
use crate::errors::{spec_at_field, CodecError, ErrorModel, EtherscanError};
use crate::genesis::{
    decode_genesis_address, decode_genesis_bytes, decode_genesis_hash256, genesis_bytes_spec,
    genesis_var_bytes_spec, GenesisOption,
};
use crate::hex::{decode_hex, hex_opt_spec};
use crate::num::{
    decode_u256_dec, decode_u256_opt, decode_u64_dec, decode_u64_opt, dec_opt_spec, dec_spec,
    p256, p64, Uint256,
};
use crate::types::{hex_req_spec, Address, Hash256, Hash32};

verus! {

/// An optional 64-bit value, as a number.
pub open spec fn opt_u64_model(o: Option<u64>) -> Option<nat> {
    match o {
        Some(v) => Some(v as nat),
        None => None,
    }
}

/// An optional 256-bit value, as a number.
pub open spec fn opt_u256_model(o: Option<Uint256>) -> Option<nat> {
    match o {
        Some(v) => Some(v.as_nat()),
        None => None,
    }
}

/// An optional address, as its bytes.
pub open spec fn opt_address_model(o: Option<Address>) -> Option<Seq<u8>> {
    match o {
        Some(a) => Some(a.bytes@),
        None => None,
    }
}

/// An optional hash, as its bytes.
pub open spec fn opt_hash256_model(o: Option<Hash256>) -> Option<Seq<u8>> {
    match o {
        Some(h) => Some(h.bytes@),
        None => None,
    }
}

/// An optional selector, as its bytes.
pub open spec fn opt_hash32_model(o: Option<Hash32>) -> Option<Seq<u8>> {
    match o {
        Some(h) => Some(h.bytes@),
        None => None,
    }
}

/// An optional byte string, as its bytes.
pub open spec fn opt_bytes_model(o: Option<Vec<u8>>) -> Option<Seq<u8>> {
    match o {
        Some(b) => Some(b@),
        None => None,
    }
}

/// An optional string, as its characters.
pub open spec fn opt_string_model(o: Option<String>) -> Option<Seq<char>> {
    match o {
        Some(s) => Some(s@),
        None => None,
    }
}

/// A genesis-aware address, with the present value as its bytes.
pub open spec fn genesis_address_model(g: GenesisOption<Address>) -> GenesisOption<Seq<u8>> {
    match g {
        GenesisOption::Absent => GenesisOption::Absent,
        GenesisOption::GenesisSentinel => GenesisOption::GenesisSentinel,
        GenesisOption::Present(a) => GenesisOption::Present(a.bytes@),
    }
}

/// A genesis-aware hash, with the present value as its bytes.
pub open spec fn genesis_hash256_model(g: GenesisOption<Hash256>) -> GenesisOption<Seq<u8>> {
    match g {
        GenesisOption::Absent => GenesisOption::Absent,
        GenesisOption::GenesisSentinel => GenesisOption::GenesisSentinel,
        GenesisOption::Present(h) => GenesisOption::Present(h.bytes@),
    }
}

/// A genesis-aware byte string, with the present value as its bytes.
pub open spec fn genesis_bytes_model(g: GenesisOption<Vec<u8>>) -> GenesisOption<Seq<u8>> {
    match g {
        GenesisOption::Absent => GenesisOption::Absent,
        GenesisOption::GenesisSentinel => GenesisOption::GenesisSentinel,
        GenesisOption::Present(b) => GenesisOption::Present(b@),
    }
}

/// The raw response of the balance endpoints, one account per row.
#[derive(Clone, Debug, PartialEq, Eq)]
pub struct RawAccountBalance {
    pub account: String,
    pub balance: String,
}

/// One account's balance: the address, and the balance kept in its raw
/// decimal-string form as the endpoint reports it.
#[derive(Clone, Debug, PartialEq, Eq)]
pub struct AccountBalance {
    pub account: Address,
    pub balance: String,
}

/// The first field of a raw balance row whose codec fails, if any.
pub open spec fn account_balance_first_error(raw: RawAccountBalance) -> Option<ErrorModel> {
    if hex_req_spec(raw.account@, 20) is Err {
        Some(spec_at_field(CodecError::MalformedHex, "account"@))
    } else {
        None
    }
}

/// Whether a decoded balance row matches its raw wire form field by
/// field.
pub open spec fn account_balance_matches(raw: RawAccountBalance, t: AccountBalance) -> bool {
    &&& hex_req_spec(raw.account@, 20) == Ok::<Seq<u8>, CodecError>(t.account.bytes@)
    &&& t.account.wf()
    &&& t.balance@ == raw.balance@
}

impl AccountBalance {
    /// Decodes a balance row, all-or-nothing.
    pub fn decode(raw: &RawAccountBalance) -> (r: Result<AccountBalance, EtherscanError>)
        ensures
            match r {
                Ok(t) => account_balance_first_error(*raw) is None && account_balance_matches(
                    *raw,
                    t,
                ),
                Err(e) => account_balance_first_error(*raw) == Some(e@),
            },
    {
        let account = match Address::decode(raw.account.as_str()) {
            Ok(a) => a,
            Err(e) => {
                return Err(EtherscanError::at_field(e, "account"));
            },
        };
        Ok(AccountBalance { account, balance: raw.balance.clone() })
    }
}

/// The raw wire form of one normal-transaction row: every field as the
/// string the endpoint sent, under the documented wire names.
#[derive(Clone, Debug, PartialEq, Eq)]
pub struct RawNormalTransaction {
    pub is_error: String,
    pub block_number: String,
    pub time_stamp: String,
    pub hash: String,
    pub nonce: String,
    pub block_hash: String,
    pub transaction_index: String,
    pub from: String,
    pub to: String,
    pub value: String,
    pub gas: String,
    pub gas_price: String,
    pub tx_receipt_status: String,
    pub input: String,
    pub contract_address: String,
    pub gas_used: String,
    pub cumulative_gas_used: String,
    pub confirmations: String,
    pub method_id: String,
    pub function_name: String,
}

/// One row of the normal-transaction list endpoint. Genesis rows carry
/// the sentinel in `hash` and `from`; the always-numeric fields decode
/// normally even there. Wire names differ where documented: wire
/// `txreceipt_status` is `tx_receipt_status`, wire `methodId` is
/// `method_id`, wire `functionName` is `function_name`.
#[derive(Clone, Debug, PartialEq, Eq)]
pub struct NormalTransaction {
    pub is_error: String,
    pub block_number: u64,
    pub time_stamp: String,
    pub hash: GenesisOption<Hash256>,
    pub nonce: Option<Uint256>,
    pub block_hash: Option<Hash256>,
    pub transaction_index: Option<u64>,
    pub from: GenesisOption<Address>,
    pub to: Option<Address>,
    pub value: Uint256,
    pub gas: Uint256,
    pub gas_price: Option<Uint256>,
    pub tx_receipt_status: String,
    pub input: Option<Vec<u8>>,
    pub contract_address: Option<Address>,
    pub gas_used: Uint256,
    pub cumulative_gas_used: Uint256,
    pub confirmations: u64,
    pub method_id: Option<Hash32>,
    pub function_name: Option<String>,
}

/// The first field of a raw normal-transaction row whose codec fails, in
/// declaration order, if any.
pub open spec fn normal_tx_first_error(raw: RawNormalTransaction) -> Option<ErrorModel> {
    if dec_spec(raw.block_number@, p64()) is Err {
        Some(spec_at_field(CodecError::MalformedNumeric, "blockNumber"@))
    } else if genesis_bytes_spec(raw.hash@, 32) is Err {
        Some(spec_at_field(CodecError::MalformedEmbeddedJson, "hash"@))
    } else if embedded_u256_spec(raw.nonce@) is Err {
        Some(spec_at_field(CodecError::MalformedEmbeddedJson, "nonce"@))
    } else if embedded_bytes_spec(raw.block_hash@, 32) is Err {
        Some(spec_at_field(CodecError::MalformedEmbeddedJson, "blockHash"@))
    } else if dec_opt_spec(raw.transaction_index@, p64()) is Err {
        Some(spec_at_field(CodecError::MalformedNumeric, "transactionIndex"@))
    } else if genesis_bytes_spec(raw.from@, 20) is Err {
        Some(spec_at_field(CodecError::MalformedEmbeddedJson, "from"@))
    } else if embedded_bytes_spec(raw.to@, 20) is Err {
        Some(spec_at_field(CodecError::MalformedEmbeddedJson, "to"@))
    } else if dec_spec(raw.value@, p256()) is Err {
        Some(spec_at_field(CodecError::MalformedNumeric, "value"@))
    } else if dec_spec(raw.gas@, p256()) is Err {
        Some(spec_at_field(CodecError::MalformedNumeric, "gas"@))
    } else if dec_opt_spec(raw.gas_price@, p256()) is Err {
        Some(spec_at_field(CodecError::MalformedNumeric, "gasPrice"@))
    } else if hex_opt_spec(raw.input@) is Err {
        Some(spec_at_field(CodecError::MalformedHex, "input"@))
    } else if embedded_bytes_spec(raw.contract_address@, 20) is Err {
        Some(spec_at_field(CodecError::MalformedEmbeddedJson, "contractAddress"@))
    } else if dec_spec(raw.gas_used@, p256()) is Err {
        Some(spec_at_field(CodecError::MalformedNumeric, "gasUsed"@))
    } else if dec_spec(raw.cumulative_gas_used@, p256()) is Err {
        Some(spec_at_field(CodecError::MalformedNumeric, "cumulativeGasUsed"@))
    } else if dec_spec(raw.confirmations@, p64()) is Err {
        Some(spec_at_field(CodecError::MalformedNumeric, "confirmations"@))
    } else if crate::types::hex_opt_fixed_spec(raw.method_id@, 4) is Err {
        Some(spec_at_field(CodecError::MalformedHex, "methodId"@))
    } else if embedded_string_spec(raw.function_name@) is Err {
        Some(spec_at_field(CodecError::MalformedEmbeddedJson, "functionName"@))
    } else {
        None
    }
}

/// Whether a decoded normal transaction matches its raw wire form field
/// by field.
pub open spec fn normal_tx_matches(raw: RawNormalTransaction, t: NormalTransaction) -> bool {
    &&& t.is_error@ == raw.is_error@
    &&& dec_spec(raw.block_number@, p64()) == Ok::<nat, CodecError>(t.block_number as nat)
    &&& t.time_stamp@ == raw.time_stamp@
    &&& genesis_bytes_spec(raw.hash@, 32) == Ok::<GenesisOption<Seq<u8>>, CodecError>(
        genesis_hash256_model(t.hash),
    )
    &&& embedded_u256_spec(raw.nonce@) == Ok::<Option<nat>, CodecError>(opt_u256_model(t.nonce))
    &&& embedded_bytes_spec(raw.block_hash@, 32) == Ok::<Option<Seq<u8>>, CodecError>(
        opt_hash256_model(t.block_hash),
    )
    &&& dec_opt_spec(raw.transaction_index@, p64()) == Ok::<Option<nat>, CodecError>(
        opt_u64_model(t.transaction_index),
    )
    &&& genesis_bytes_spec(raw.from@, 20) == Ok::<GenesisOption<Seq<u8>>, CodecError>(
        genesis_address_model(t.from),
    )
    &&& embedded_bytes_spec(raw.to@, 20) == Ok::<Option<Seq<u8>>, CodecError>(
        opt_address_model(t.to),
    )
    &&& dec_spec(raw.value@, p256()) == Ok::<nat, CodecError>(t.value.as_nat())
    &&& dec_spec(raw.gas@, p256()) == Ok::<nat, CodecError>(t.gas.as_nat())
    &&& dec_opt_spec(raw.gas_price@, p256()) == Ok::<Option<nat>, CodecError>(
        opt_u256_model(t.gas_price),
    )
    &&& t.tx_receipt_status@ == raw.tx_receipt_status@
    &&& hex_opt_spec(raw.input@) == Ok::<Option<Seq<u8>>, CodecError>(opt_bytes_model(t.input))
    &&& embedded_bytes_spec(raw.contract_address@, 20) == Ok::<Option<Seq<u8>>, CodecError>(
        opt_address_model(t.contract_address),
    )
    &&& dec_spec(raw.gas_used@, p256()) == Ok::<nat, CodecError>(t.gas_used.as_nat())
    &&& dec_spec(raw.cumulative_gas_used@, p256()) == Ok::<nat, CodecError>(
        t.cumulative_gas_used.as_nat(),
    )
    &&& dec_spec(raw.confirmations@, p64()) == Ok::<nat, CodecError>(t.confirmations as nat)
    &&& crate::types::hex_opt_fixed_spec(raw.method_id@, 4) == Ok::<Option<Seq<u8>>, CodecError>(
        opt_hash32_model(t.method_id),
    )
    &&& embedded_string_spec(raw.function_name@) == Ok::<Option<Seq<char>>, CodecError>(
        opt_string_model(t.function_name),
    )
}

impl NormalTransaction {
    /// Decodes a normal-transaction row, all-or-nothing: the first field
    /// whose codec fails decides the error, and no partial record is
    /// built.
    pub fn decode(raw: &RawNormalTransaction) -> (r: Result<NormalTransaction, EtherscanError>)
        ensures
            match r {
                Ok(t) => normal_tx_first_error(*raw) is None && normal_tx_matches(*raw, t),
                Err(e) => normal_tx_first_error(*raw) == Some(e@),
            },
    {
        let block_number = match decode_u64_dec(raw.block_number.as_str()) {
            Ok(v) => v,
            Err(e) => {
                return Err(EtherscanError::at_field(e, "blockNumber"));
            },
        };
        let hash = match decode_genesis_hash256(raw.hash.as_str()) {
            Ok(v) => v,
            Err(e) => {
                return Err(EtherscanError::at_field(e, "hash"));
            },
        };
        let nonce = match decode_json_u256(raw.nonce.as_str()) {
            Ok(v) => v,
            Err(e) => {
                return Err(EtherscanError::at_field(e, "nonce"));
            },
        };
        let block_hash = match decode_json_hash256(raw.block_hash.as_str()) {
            Ok(v) => v,
            Err(e) => {
                return Err(EtherscanError::at_field(e, "blockHash"));
            },
        };
        let transaction_index = match decode_u64_opt(raw.transaction_index.as_str()) {
            Ok(v) => v,
            Err(e) => {
                return Err(EtherscanError::at_field(e, "transactionIndex"));
            },
        };
        let from = match decode_genesis_address(raw.from.as_str()) {
            Ok(v) => v,
            Err(e) => {
                return Err(EtherscanError::at_field(e, "from"));
            },
        };
        let to = match decode_json_address(raw.to.as_str()) {
            Ok(v) => v,
            Err(e) => {
                return Err(EtherscanError::at_field(e, "to"));
            },
        };
        let value = match decode_u256_dec(raw.value.as_str()) {
            Ok(v) => v,
            Err(e) => {
                return Err(EtherscanError::at_field(e, "value"));
            },
        };
        let gas = match decode_u256_dec(raw.gas.as_str()) {
            Ok(v) => v,
            Err(e) => {
                return Err(EtherscanError::at_field(e, "gas"));
            },
        };
        let gas_price = match decode_u256_opt(raw.gas_price.as_str()) {
            Ok(v) => v,
            Err(e) => {
                return Err(EtherscanError::at_field(e, "gasPrice"));
            },
        };
        let input = match decode_hex(raw.input.as_str()) {
            Ok(v) => v,
            Err(e) => {
                return Err(EtherscanError::at_field(e, "input"));
            },
        };
        let contract_address = match decode_json_address(raw.contract_address.as_str()) {
            Ok(v) => v,
            Err(e) => {
                return Err(EtherscanError::at_field(e, "contractAddress"));
            },
        };
        let gas_used = match decode_u256_dec(raw.gas_used.as_str()) {
            Ok(v) => v,
            Err(e) => {
                return Err(EtherscanError::at_field(e, "gasUsed"));
            },
        };
        let cumulative_gas_used = match decode_u256_dec(raw.cumulative_gas_used.as_str()) {
            Ok(v) => v,
            Err(e) => {
                return Err(EtherscanError::at_field(e, "cumulativeGasUsed"));
            },
        };
        let confirmations = match decode_u64_dec(raw.confirmations.as_str()) {
            Ok(v) => v,
            Err(e) => {
                return Err(EtherscanError::at_field(e, "confirmations"));
            },
        };
        let method_id = match Hash32::decode_opt(raw.method_id.as_str()) {
            Ok(v) => v,
            Err(e) => {
                return Err(EtherscanError::at_field(e, "methodId"));
            },
        };
        let function_name = match decode_json_string(raw.function_name.as_str()) {
            Ok(v) => v,
            Err(e) => {
                return Err(EtherscanError::at_field(e, "functionName"));
            },
        };
        Ok(NormalTransaction {
            is_error: raw.is_error.clone(),
            block_number,
            time_stamp: raw.time_stamp.clone(),
            hash,
            nonce,
            block_hash,
            transaction_index,
            from,
            to,
            value,
            gas,
            gas_price,
            tx_receipt_status: raw.tx_receipt_status.clone(),
            input,
            contract_address,
            gas_used,
            cumulative_gas_used,
            confirmations,
            method_id,
            function_name,
        })
    }
}

/// The raw wire form of one internal-transaction row.
#[derive(Clone, Debug, PartialEq, Eq)]
pub struct RawInternalTransaction {
    pub block_number: String,
    pub time_stamp: String,
    pub hash: String,
    pub from: String,
    pub to: String,
    pub value: String,
    pub contract_address: String,
    pub input: String,
    pub result_type: String,
    pub gas: String,
    pub gas_used: String,
    pub trace_id: String,
    pub is_error: String,
    pub err_code: String,
}

/// One row of the internal-transaction list endpoint. Genesis rows carry
/// the sentinel in `to`, `contract_address` and `input`. Wire names
/// differ where documented: wire `type` is `result_type`, wire `traceId`
/// is `trace_id`, wire `errCode` is `err_code`.
#[derive(Clone, Debug, PartialEq, Eq)]
pub struct InternalTransaction {
    pub block_number: u64,
    pub time_stamp: String,
    pub hash: Hash256,
    pub from: Address,
    pub to: GenesisOption<Address>,
    pub value: Uint256,
    pub contract_address: GenesisOption<Address>,
    pub input: GenesisOption<Vec<u8>>,
    pub result_type: String,
    pub gas: Uint256,
    pub gas_used: Uint256,
    pub trace_id: String,
    pub is_error: String,
    pub err_code: String,
}

/// The first field of a raw internal-transaction row whose codec fails,
/// in declaration order, if any.
pub open spec fn internal_tx_first_error(raw: RawInternalTransaction) -> Option<ErrorModel> {
    if dec_spec(raw.block_number@, p64()) is Err {
        Some(spec_at_field(CodecError::MalformedNumeric, "blockNumber"@))
    } else if hex_req_spec(raw.hash@, 32) is Err {
        Some(spec_at_field(CodecError::MalformedHex, "hash"@))
    } else if hex_req_spec(raw.from@, 20) is Err {
        Some(spec_at_field(CodecError::MalformedHex, "from"@))
    } else if genesis_bytes_spec(raw.to@, 20) is Err {
        Some(spec_at_field(CodecError::MalformedEmbeddedJson, "to"@))
    } else if dec_spec(raw.value@, p256()) is Err {
        Some(spec_at_field(CodecError::MalformedNumeric, "value"@))
    } else if genesis_bytes_spec(raw.contract_address@, 20) is Err {
        Some(spec_at_field(CodecError::MalformedEmbeddedJson, "contractAddress"@))
    } else if genesis_var_bytes_spec(raw.input@) is Err {
        Some(spec_at_field(CodecError::MalformedEmbeddedJson, "input"@))
    } else if dec_spec(raw.gas@, p256()) is Err {
        Some(spec_at_field(CodecError::MalformedNumeric, "gas"@))
    } else if dec_spec(raw.gas_used@, p256()) is Err {
        Some(spec_at_field(CodecError::MalformedNumeric, "gasUsed"@))
    } else {
        None
    }
}

/// Whether a decoded internal transaction matches its raw wire form
/// field by field.
pub open spec fn internal_tx_matches(raw: RawInternalTransaction, t: InternalTransaction) -> bool {
    &&& dec_spec(raw.block_number@, p64()) == Ok::<nat, CodecError>(t.block_number as nat)
    &&& t.time_stamp@ == raw.time_stamp@
    &&& hex_req_spec(raw.hash@, 32) == Ok::<Seq<u8>, CodecError>(t.hash.bytes@)
    &&& hex_req_spec(raw.from@, 20) == Ok::<Seq<u8>, CodecError>(t.from.bytes@)
    &&& genesis_bytes_spec(raw.to@, 20) == Ok::<GenesisOption<Seq<u8>>, CodecError>(
        genesis_address_model(t.to),
    )
    &&& dec_spec(raw.value@, p256()) == Ok::<nat, CodecError>(t.value.as_nat())
    &&& genesis_bytes_spec(raw.contract_address@, 20) == Ok::<
        GenesisOption<Seq<u8>>,
        CodecError,
    >(genesis_address_model(t.contract_address))
    &&& genesis_var_bytes_spec(raw.input@) == Ok::<GenesisOption<Seq<u8>>, CodecError>(
        genesis_bytes_model(t.input),
    )
    &&& t.result_type@ == raw.result_type@
    &&& dec_spec(raw.gas@, p256()) == Ok::<nat, CodecError>(t.gas.as_nat())
    &&& dec_spec(raw.gas_used@, p256()) == Ok::<nat, CodecError>(t.gas_used.as_nat())
    &&& t.trace_id@ == raw.trace_id@
    &&& t.is_error@ == raw.is_error@
    &&& t.err_code@ == raw.err_code@
}

impl InternalTransaction {
    /// Decodes an internal-transaction row, all-or-nothing: the first
    /// field whose codec fails decides the error, and no partial record
    /// is built.
    pub fn decode(raw: &RawInternalTransaction) -> (r: Result<
        InternalTransaction,
        EtherscanError,
    >)
        ensures
            match r {
                Ok(t) => internal_tx_first_error(*raw) is None && internal_tx_matches(*raw, t),
                Err(e) => internal_tx_first_error(*raw) == Some(e@),
            },
    {
        let block_number = match decode_u64_dec(raw.block_number.as_str()) {
            Ok(v) => v,
            Err(e) => {
                return Err(EtherscanError::at_field(e, "blockNumber"));
            },
        };
        let hash = match Hash256::decode(raw.hash.as_str()) {
            Ok(v) => v,
            Err(e) => {
                return Err(EtherscanError::at_field(e, "hash"));
            },
        };
        let from = match Address::decode(raw.from.as_str()) {
            Ok(v) => v,
            Err(e) => {
                return Err(EtherscanError::at_field(e, "from"));
            },
        };
        let to = match decode_genesis_address(raw.to.as_str()) {
            Ok(v) => v,
            Err(e) => {
                return Err(EtherscanError::at_field(e, "to"));
            },
        };
        let value = match decode_u256_dec(raw.value.as_str()) {
            Ok(v) => v,
            Err(e) => {
                return Err(EtherscanError::at_field(e, "value"));
            },
        };
        let contract_address = match decode_genesis_address(raw.contract_address.as_str()) {
            Ok(v) => v,
            Err(e) => {
                return Err(EtherscanError::at_field(e, "contractAddress"));
            },
        };
        let input = match decode_genesis_bytes(raw.input.as_str()) {
            Ok(v) => v,
            Err(e) => {
                return Err(EtherscanError::at_field(e, "input"));
            },
        };
        let gas = match decode_u256_dec(raw.gas.as_str()) {
            Ok(v) => v,
            Err(e) => {
                return Err(EtherscanError::at_field(e, "gas"));
            },
        };
        let gas_used = match decode_u256_dec(raw.gas_used.as_str()) {
            Ok(v) => v,
            Err(e) => {
                return Err(EtherscanError::at_field(e, "gasUsed"));
            },
        };
        Ok(InternalTransaction {
            block_number,
            time_stamp: raw.time_stamp.clone(),
            hash,
            from,
            to,
            value,
            contract_address,
            input,
            result_type: raw.result_type.clone(),
            gas,
            gas_used,
            trace_id: raw.trace_id.clone(),
            is_error: raw.is_error.clone(),
            err_code: raw.err_code.clone(),
        })
    }
}

/// The raw wire form of one mined-block row.
#[derive(Clone, Debug, PartialEq, Eq)]
pub struct RawMinedBlock {
    pub block_number: String,
    pub time_stamp: String,
    pub block_reward: String,
}

/// One row of the mined-blocks endpoint. The reward is kept in its raw
/// decimal-string form as the endpoint reports it.
#[derive(Clone, Debug, PartialEq, Eq)]
pub struct MinedBlock {
    pub block_number: u64,
    pub time_stamp: String,
    pub block_reward: String,
}

/// The first field of a raw mined-block row whose codec fails, if any.
pub open spec fn mined_block_first_error(raw: RawMinedBlock) -> Option<ErrorModel> {
    if dec_spec(raw.block_number@, p64()) is Err {
        Some(spec_at_field(CodecError::MalformedNumeric, "blockNumber"@))
    } else {
        None
    }
}

/// Whether a decoded mined-block row matches its raw wire form field by
/// field.
pub open spec fn mined_block_matches(raw: RawMinedBlock, t: MinedBlock) -> bool {
    &&& dec_spec(raw.block_number@, p64()) == Ok::<nat, CodecError>(t.block_number as nat)
    &&& t.time_stamp@ == raw.time_stamp@
    &&& t.block_reward@ == raw.block_reward@
}

impl MinedBlock {
    /// Decodes a mined-block row, all-or-nothing.
    pub fn decode(raw: &RawMinedBlock) -> (r: Result<MinedBlock, EtherscanError>)
        ensures
            match r {
                Ok(t) => mined_block_first_error(*raw) is None && mined_block_matches(*raw, t),
                Err(e) => mined_block_first_error(*raw) == Some(e@),
            },
    {
        let block_number = match decode_u64_dec(raw.block_number.as_str()) {
            Ok(v) => v,
            Err(e) => {
                return Err(EtherscanError::at_field(e, "blockNumber"));
            },
        };
        Ok(MinedBlock {
            block_number,
            time_stamp: raw.time_stamp.clone(),
            block_reward: raw.block_reward.clone(),
        })
    }
}

} // verus!
