use etherscan_account::params::{
    BlockType, InternalTxQueryOption, Sort, Tag, TokenQueryOption, TxListParams,
};
use etherscan_account::queries::{
    account_module, balance_multi_query, balance_query, erc1155_transfers_query,
    erc20_transfers_query, erc721_transfers_query, internal_transactions_query,
    join_addresses, mined_blocks_query, transactions_query,
};
use etherscan_account::types::{Address, Hash256};

const ADDR: &str = "0x1234567890abcdef1234567890abcdef12345678";
const ADDR2: &str = "0xfedcba0987654321fedcba0987654321fedcba09";
const HASH: &str = "0x4040404040404040404040404040404040404040404040404040404040404040";

fn addr() -> Address {
    Address::decode(ADDR).unwrap()
}

fn addr2() -> Address {
    Address::decode(ADDR2).unwrap()
}

fn pairs_eq(actual: &[(String, String)], expected: &[(&str, &str)]) {
    assert_eq!(actual.len(), expected.len());
    for (a, e) in actual.iter().zip(expected.iter()) {
        assert_eq!(a.0, e.0);
        assert_eq!(a.1, e.1);
    }
}

#[test]
fn tx_list_params_exact_pairs() {
    let p = TxListParams::new(5, 99, 2, 30, Sort::Desc);
    pairs_eq(&p.into_pairs(), &[
        ("startBlock", "5"),
        ("endBlock", "99"),
        ("page", "2"),
        ("offset", "30"),
        ("sort", "desc"),
    ]);
}

#[test]
fn tx_list_params_default_pairs() {
    let p: TxListParams = Default::default();
    pairs_eq(&p.into_pairs(), &[
        ("startBlock", "0"),
        ("endBlock", "99999999"),
        ("page", "0"),
        ("offset", "10000"),
        ("sort", "asc"),
    ]);
}

#[test]
fn wire_spellings() {
    assert_eq!(Tag::Earliest.as_str(), "earliest");
    assert_eq!(Tag::Pending.as_str(), "pending");
    assert_eq!(Tag::Latest.as_str(), "latest");
    assert_eq!(Sort::Asc.as_str(), "asc");
    assert_eq!(Sort::Desc.as_str(), "desc");
    assert_eq!(BlockType::CanonicalBlocks.as_str(), "blocks");
    assert_eq!(BlockType::Uncles.as_str(), "uncles");
    assert_eq!(account_module(), "account");
}

#[test]
fn token_query_by_address_adds_one_key() {
    let ps = TokenQueryOption::ByAddress(addr()).into_params(Default::default());
    pairs_eq(&ps, &[
        ("startBlock", "0"),
        ("endBlock", "99999999"),
        ("page", "0"),
        ("offset", "10000"),
        ("sort", "asc"),
        ("address", ADDR),
    ]);
}

#[test]
fn token_query_by_contract_adds_one_key() {
    let ps = TokenQueryOption::ByContract(addr2()).into_params(Default::default());
    assert_eq!(ps.len(), 6);
    assert_eq!(ps[5].0, "contractaddress");
    assert_eq!(ps[5].1, ADDR2);
}

#[test]
fn token_query_both_filters_add_both_keys() {
    let ps = TokenQueryOption::ByAddressAndContract(addr(), addr2()).into_params(
        Default::default(),
    );
    assert_eq!(ps.len(), 7);
    assert_eq!(ps[5], ("address".to_owned(), ADDR.to_owned()));
    assert_eq!(ps[6], ("contractaddress".to_owned(), ADDR2.to_owned()));
}

#[test]
fn internal_query_variants() {
    let by_range = InternalTxQueryOption::ByBlockRange.into_params(Default::default());
    assert_eq!(by_range.len(), 5);
    assert!(by_range.iter().all(|p| p.0 != "address" && p.0 != "txhash"));

    let by_addr = InternalTxQueryOption::ByAddress(addr()).into_params(Default::default());
    assert_eq!(by_addr.len(), 6);
    assert_eq!(by_addr[5], ("address".to_owned(), ADDR.to_owned()));

    let h = Hash256::decode(HASH).unwrap();
    let by_hash = InternalTxQueryOption::ByTransactionHash(h).into_params(Default::default());
    assert_eq!(by_hash.len(), 6);
    assert_eq!(by_hash[5], ("txhash".to_owned(), HASH.to_owned()));
}

#[test]
fn balance_query_pairs() {
    let (action, ps) = balance_query(&addr(), None);
    assert_eq!(action, "balance");
    pairs_eq(&ps, &[("address", ADDR), ("tag", "latest")]);
    let (_, ps) = balance_query(&addr(), Some(Tag::Earliest));
    pairs_eq(&ps, &[("address", ADDR), ("tag", "earliest")]);
}

#[test]
fn balance_multi_query_joins_addresses() {
    assert_eq!(join_addresses(&vec![]), "");
    assert_eq!(join_addresses(&vec![addr()]), ADDR);
    let joined = format!("{},{}", ADDR, ADDR2);
    assert_eq!(join_addresses(&vec![addr(), addr2()]), joined);
    let (action, ps) = balance_multi_query(&vec![addr(), addr2()], None);
    assert_eq!(action, "balancemulti");
    pairs_eq(&ps, &[("address", &joined), ("tag", "latest")]);
}

#[test]
fn transactions_query_pairs() {
    let (action, ps) = transactions_query(&addr(), None);
    assert_eq!(action, "txlist");
    assert_eq!(ps.len(), 6);
    assert_eq!(ps[5], ("address".to_owned(), ADDR.to_owned()));
}

#[test]
fn list_endpoint_actions() {
    let (action, _) = internal_transactions_query(InternalTxQueryOption::ByBlockRange, None);
    assert_eq!(action, "txlistinternal");
    let (action, _) = erc20_transfers_query(TokenQueryOption::ByAddress(addr()), None);
    assert_eq!(action, "tokentx");
    let (action, _) = erc721_transfers_query(TokenQueryOption::ByAddress(addr()), None);
    assert_eq!(action, "tokennfttx");
    let (action, _) = erc1155_transfers_query(TokenQueryOption::ByAddress(addr()), None);
    assert_eq!(action, "token1155tx");
}

#[test]
fn mined_blocks_query_pairs() {
    let (action, ps) = mined_blocks_query(&addr(), None, None);
    assert_eq!(action, "getminedblocks");
    pairs_eq(&ps, &[("address", ADDR), ("blocktype", "blocks")]);
    let (_, ps) = mined_blocks_query(&addr(), Some(BlockType::Uncles), Some((3, 50)));
    pairs_eq(&ps, &[
        ("address", ADDR),
        ("blocktype", "uncles"),
        ("page", "3"),
        ("offset", "50"),
    ]);
}
