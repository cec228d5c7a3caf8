use etherscan_account::envelope::{interpret_balance, interpret_list, Response};
use etherscan_account::errors::EtherscanError;
use etherscan_account::events::{
    ERC1155TokenTransferEvent, ERC20TokenTransferEvent, ERC721TokenTransferEvent,
    RawERC1155TokenTransferEvent, RawERC20TokenTransferEvent, RawERC721TokenTransferEvent,
};
use etherscan_account::genesis::GenesisOption;
use etherscan_account::num::Uint256;
use etherscan_account::records::{
    AccountBalance, InternalTransaction, MinedBlock, NormalTransaction, RawAccountBalance,
    RawInternalTransaction, RawMinedBlock, RawNormalTransaction,
};
use etherscan_account::types::{Address, Hash256, Hash32};

const ADDR: &str = "0x1234567890abcdef1234567890abcdef12345678";
const ADDR2: &str = "0xfedcba0987654321fedcba0987654321fedcba09";
const HASH: &str = "0x4040404040404040404040404040404040404040404040404040404040404040";
const BLOCK_HASH: &str = "0x5050505050505050505050505050505050505050505050505050505050505050";

fn s(v: &str) -> String {
    v.to_owned()
}

fn valid_raw_normal_tx() -> RawNormalTransaction {
    RawNormalTransaction {
        is_error: s("0"),
        block_number: s("14923678"),
        time_stamp: s("1654646411"),
        hash: s(HASH),
        nonce: s("7"),
        block_hash: s(BLOCK_HASH),
        transaction_index: s("41"),
        from: s(ADDR),
        to: s(ADDR2),
        value: s("1000000000000000000"),
        gas: s("21000"),
        gas_price: s("20000000000"),
        tx_receipt_status: s("1"),
        input: s("0x"),
        contract_address: s(""),
        gas_used: s("21000"),
        cumulative_gas_used: s("1305520"),
        confirmations: s("122"),
        method_id: s("0x12345678"),
        function_name: s("transfer(address,uint256)"),
    }
}

fn expected_normal_tx() -> NormalTransaction {
    NormalTransaction {
        is_error: s("0"),
        block_number: 14923678,
        time_stamp: s("1654646411"),
        hash: GenesisOption::Present(Hash256::decode(HASH).unwrap()),
        nonce: Some(Uint256::from_u64(7)),
        block_hash: Some(Hash256::decode(BLOCK_HASH).unwrap()),
        transaction_index: Some(41),
        from: GenesisOption::Present(Address::decode(ADDR).unwrap()),
        to: Some(Address::decode(ADDR2).unwrap()),
        value: Uint256::from_u64(1000000000000000000),
        gas: Uint256::from_u64(21000),
        gas_price: Some(Uint256::from_u64(20000000000)),
        tx_receipt_status: s("1"),
        input: None,
        contract_address: None,
        gas_used: Uint256::from_u64(21000),
        cumulative_gas_used: Uint256::from_u64(1305520),
        confirmations: 122,
        method_id: Some(Hash32 { bytes: vec![0x12, 0x34, 0x56, 0x78] }),
        function_name: Some(s("transfer(address,uint256)")),
    }
}

#[test]
fn envelope_success_yields_decoded_record() {
    let tx = NormalTransaction::decode(&valid_raw_normal_tx()).unwrap();
    assert_eq!(tx, expected_normal_tx());
    let resp = Response { status: s("1"), message: s("OK"), result: vec![tx] };
    let list = interpret_list(resp);
    assert_eq!(list.len(), 1);
    assert_eq!(list[0], expected_normal_tx());
}

#[test]
fn balance_endpoint_status_is_authoritative() {
    let resp = Response { status: s("0"), message: s("NOTOK"), result: s("0") };
    assert_eq!(interpret_balance(resp), Err(EtherscanError::BalanceFailed));
    let resp = Response { status: s("1"), message: s("OK"), result: s("628471") };
    assert_eq!(interpret_balance(resp), Ok(s("628471")));
    let resp = Response { status: s("2"), message: s("NOTOK"), result: s("") };
    assert_eq!(interpret_balance(resp), Err(EtherscanError::BadStatusCode(s("2"))));
}

#[test]
fn list_endpoint_ignores_status() {
    let raw = RawMinedBlock {
        block_number: s("3462296"),
        time_stamp: s("1491118514"),
        block_reward: s("5194770940000000000"),
    };
    let block = MinedBlock::decode(&raw).unwrap();
    let resp = Response { status: s("0"), message: s("No transactions found"), result: vec![
        block.clone(),
    ] };
    let list = interpret_list(resp);
    assert_eq!(list, vec![block]);
}

#[test]
fn genesis_row_decodes_with_numeric_fields_intact() {
    let mut raw = valid_raw_normal_tx();
    raw.hash = s("GENESIS");
    raw.from = s("GENESIS_1234567890abcdef1234567890abcdef12345678");
    let tx = NormalTransaction::decode(&raw).unwrap();
    assert!(tx.hash.is_genesis());
    assert!(tx.from.is_genesis());
    assert_eq!(tx.value, Uint256::from_u64(1000000000000000000));
    assert_eq!(tx.gas, Uint256::from_u64(21000));
    assert_eq!(tx.gas_used, Uint256::from_u64(21000));
}

#[test]
fn malformed_numeric_fails_whole_record() {
    let mut raw = valid_raw_normal_tx();
    raw.value = s("not_a_number");
    assert_eq!(
        NormalTransaction::decode(&raw),
        Err(EtherscanError::MalformedNumeric(s("value")))
    );
}

#[test]
fn first_failing_field_wins() {
    let mut raw = valid_raw_normal_tx();
    raw.value = s("not_a_number");
    raw.gas = s("also_not_a_number");
    raw.block_number = s("bad");
    assert_eq!(
        NormalTransaction::decode(&raw),
        Err(EtherscanError::MalformedNumeric(s("blockNumber")))
    );
}

#[test]
fn malformed_hex_and_embedded_json_fields() {
    let mut raw = valid_raw_normal_tx();
    raw.method_id = s("0x123");
    assert_eq!(
        NormalTransaction::decode(&raw),
        Err(EtherscanError::MalformedHex(s("methodId")))
    );
    let mut raw = valid_raw_normal_tx();
    raw.to = s("0xshort");
    assert_eq!(
        NormalTransaction::decode(&raw),
        Err(EtherscanError::MalformedEmbeddedJson(s("to")))
    );
    let mut raw = valid_raw_normal_tx();
    raw.input = s("0xabc");
    assert_eq!(
        NormalTransaction::decode(&raw),
        Err(EtherscanError::MalformedHex(s("input")))
    );
}

#[test]
fn account_balance_decode() {
    let raw = RawAccountBalance { account: s(ADDR), balance: s("40807168566070000000000") };
    let b = AccountBalance::decode(&raw).unwrap();
    assert_eq!(b.account.encode(), ADDR);
    assert_eq!(b.balance, "40807168566070000000000");
    let raw = RawAccountBalance { account: s("0xbad"), balance: s("1") };
    assert_eq!(AccountBalance::decode(&raw), Err(EtherscanError::MalformedHex(s("account"))));
}

fn valid_raw_internal_tx() -> RawInternalTransaction {
    RawInternalTransaction {
        block_number: s("2535368"),
        time_stamp: s("1477837690"),
        hash: s(HASH),
        from: s(ADDR),
        to: s(""),
        value: s("0"),
        contract_address: s(ADDR2),
        input: s(""),
        result_type: s("create"),
        gas: s("254791"),
        gas_used: s("46750"),
        trace_id: s("0"),
        is_error: s("0"),
        err_code: s(""),
    }
}

#[test]
fn internal_transaction_decode() {
    let t = InternalTransaction::decode(&valid_raw_internal_tx()).unwrap();
    assert_eq!(t.block_number, 2535368);
    assert!(matches!(t.to, GenesisOption::Absent));
    assert_eq!(t.contract_address.value().unwrap().encode(), ADDR2);
    assert!(matches!(t.input, GenesisOption::Absent));
    assert_eq!(t.result_type, "create");
    assert_eq!(t.gas, Uint256::from_u64(254791));
}

#[test]
fn internal_transaction_genesis_fields() {
    let mut raw = valid_raw_internal_tx();
    raw.to = s("GENESIS");
    raw.contract_address = s("GENESIS_marker");
    raw.input = s("GENESIS");
    let t = InternalTransaction::decode(&raw).unwrap();
    assert!(t.to.is_genesis());
    assert!(t.contract_address.is_genesis());
    assert!(t.input.is_genesis());
}

#[test]
fn internal_transaction_malformed_value() {
    let mut raw = valid_raw_internal_tx();
    raw.value = s("2.5");
    assert_eq!(
        InternalTransaction::decode(&raw),
        Err(EtherscanError::MalformedNumeric(s("value")))
    );
}

fn valid_raw_erc20() -> RawERC20TokenTransferEvent {
    RawERC20TokenTransferEvent {
        block_number: s("4730207"),
        time_stamp: s("1513240363"),
        hash: s(HASH),
        nonce: s("406"),
        block_hash: s(BLOCK_HASH),
        from: s(ADDR),
        contract_address: s(ADDR2),
        to: s(ADDR),
        value: s("5901522149285533025181"),
        token_name: s("Maker"),
        token_symbol: s("MKR"),
        token_decimal: s("18"),
        transaction_index: s("81"),
        gas: s("940000"),
        gas_price: s("32010000000"),
        gas_used: s("77759"),
        cumulative_gas_used: s("2523379"),
        input: s("deprecated"),
        confirmations: s("7968350"),
    }
}

#[test]
fn erc20_transfer_decode() {
    let t = ERC20TokenTransferEvent::decode(&valid_raw_erc20()).unwrap();
    assert_eq!(t.block_number, 4730207);
    assert_eq!(t.to.unwrap().encode(), ADDR);
    assert_eq!(t.token_name, "Maker");
    assert_eq!(t.gas_price, Some(Uint256::from_u64(32010000000)));
    assert_eq!(t.input, "deprecated");
}

#[test]
fn erc20_transfer_absent_to_and_gas_price() {
    let mut raw = valid_raw_erc20();
    raw.to = s("");
    raw.gas_price = s("");
    let t = ERC20TokenTransferEvent::decode(&raw).unwrap();
    assert_eq!(t.to, None);
    assert_eq!(t.gas_price, None);
}

#[test]
fn erc20_transfer_malformed_nonce() {
    let mut raw = valid_raw_erc20();
    raw.nonce = s("4o6");
    assert_eq!(
        ERC20TokenTransferEvent::decode(&raw),
        Err(EtherscanError::MalformedNumeric(s("nonce")))
    );
}

#[test]
fn erc721_transfer_decode() {
    let raw = RawERC721TokenTransferEvent {
        block_number: s("4708120"),
        time_stamp: s("1512907118"),
        hash: s(HASH),
        nonce: s("0"),
        block_hash: s(BLOCK_HASH),
        from: s(ADDR),
        contract_address: s(ADDR2),
        to: s(ADDR),
        token_id: s("202106"),
        token_name: s("KittyCore"),
        token_symbol: s("CK"),
        token_decimal: s("0"),
        transaction_index: s("81"),
        gas: s("158820"),
        gas_price: s("40000000000"),
        gas_used: s("60508"),
        cumulative_gas_used: s("4880352"),
        input: s("deprecated"),
        confirmations: s("7990490"),
    };
    let t = ERC721TokenTransferEvent::decode(&raw).unwrap();
    assert_eq!(t.token_id, "202106");
    assert_eq!(t.token_symbol, "CK");
    assert_eq!(t.confirmations, 7990490);
}

#[test]
fn erc1155_transfer_decode() {
    let raw = RawERC1155TokenTransferEvent {
        block_number: s("13472395"),
        time_stamp: s("1634973285"),
        hash: s(HASH),
        nonce: s("41"),
        block_hash: s(BLOCK_HASH),
        from: s(ADDR),
        contract_address: s(ADDR2),
        to: s(ADDR),
        token_id: s("2"),
        token_value: s("1"),
        token_name: s("Parallel"),
        token_symbol: s("LL"),
        transaction_index: s("100"),
        gas: s("140000"),
        gas_price: s("52898577246"),
        gas_used: s("105030"),
        cumulative_gas_used: s("11739203"),
        input: s("deprecated"),
        confirmations: s("1447769"),
    };
    let t = ERC1155TokenTransferEvent::decode(&raw).unwrap();
    assert_eq!(t.token_id, "2");
    assert_eq!(t.token_value, "1");
    assert_eq!(t.token_name, "Parallel");
    assert_eq!(t.block_number, 13472395);
}

#[test]
fn mined_block_decode() {
    let raw = RawMinedBlock {
        block_number: s("3462296"),
        time_stamp: s("1491118514"),
        block_reward: s("5194770940000000000"),
    };
    let b = MinedBlock::decode(&raw).unwrap();
    assert_eq!(b.block_number, 3462296);
    assert_eq!(b.block_reward, "5194770940000000000");
    let raw = RawMinedBlock {
        block_number: s("-1"),
        time_stamp: s("0"),
        block_reward: s("0"),
    };
    assert_eq!(MinedBlock::decode(&raw), Err(EtherscanError::MalformedNumeric(s("blockNumber"))));
}
