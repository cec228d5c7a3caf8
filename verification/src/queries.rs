//! Per-endpoint query construction.
//!
//! Each account endpoint is addressed by the fixed module `"account"`,
//! an action name, and a parameter mapping. These builders are the pure
//! part of each endpoint call: the transport collaborator performs the
//! HTTP request with the triple they return.

use vstd::prelude::*;
use crate::hex::hex_str_of;
use crate::num::{dec_digits, encode_u64_dec};
use crate::params::{
    pairs_model, BlockType, InternalTxQueryOption, Sort, Tag, TokenQueryOption, TxListParams,
};
use crate::types::Address;

verus! {

/// The module identifier every account endpoint uses.
pub fn account_module() -> (r: &'static str)
    ensures
        r@ == "account"@,
{
    "account"
}

/// The tag argument a balance query uses when none is given.
pub open spec fn spec_tag_or_default(tag: Option<Tag>) -> Tag {
    match tag {
        Some(t) => t,
        None => Tag::Latest,
    }
}

/// The parameter mapping of the single-address balance endpoint: the
/// account's address and the block tag, nothing else.
pub open spec fn spec_balance_pairs(address: Address, tag: Option<Tag>) -> Seq<
    (Seq<char>, Seq<char>),
> {
    seq![
        ("address"@, hex_str_of(address.bytes@)),
        ("tag"@, spec_tag_or_default(tag).spec_str()),
    ]
}

/// Builds the `balance` query for one account.
pub fn balance_query(address: &Address, tag: Option<Tag>) -> (r: (
    &'static str,
    Vec<(String, String)>,
))
    ensures
        r.0@ == "balance"@,
        pairs_model(r.1@) == spec_balance_pairs(*address, tag),
{
    let tag_val = match tag {
        Some(t) => t,
        None => Tag::Latest,
    };
    let mut v: Vec<(String, String)> = Vec::new();
    v.push(("address".to_owned(), address.encode()));
    v.push(("tag".to_owned(), tag_val.as_str().to_owned()));
    proof {
        assert(pairs_model(v@) =~= spec_balance_pairs(*address, tag));
    }
    ("balance", v)
}

/// The comma-joined hex encodings of a list of addresses.
pub open spec fn spec_joined_addresses(addrs: Seq<Address>) -> Seq<char>
    decreases addrs.len(),
{
    if addrs.len() == 0 {
        Seq::empty()
    } else if addrs.len() == 1 {
        hex_str_of(addrs[0].bytes@)
    } else {
        spec_joined_addresses(addrs.drop_last()) + seq![','] + hex_str_of(addrs.last().bytes@)
    }
}

/// Joins the hex encodings of the given addresses with commas.
pub fn join_addresses(addresses: &Vec<Address>) -> (r: String)
    ensures
        r@ == spec_joined_addresses(addresses@),
{
    let mut out = String::new();
    let mut i: usize = 0;
    let len = addresses.len();
    while i < len
        invariant
            len == addresses@.len(),
            0 <= i <= len,
            out@ == spec_joined_addresses(addresses@.subrange(0, i as int)),
        decreases len - i,
    {
        if i > 0 {
            out.append(",");
        }
        let enc = addresses[i].encode();
        out.append(enc.as_str());
        proof {
            reveal_strlit(",");
            let pre = addresses@.subrange(0, i as int);
            let ext = addresses@.subrange(0, i as int + 1);
            assert(ext.drop_last() =~= pre);
            assert(ext.last() == addresses@[i as int]);
            if i == 0 {
                assert(out@ =~= spec_joined_addresses(ext));
            } else {
                assert(out@ =~= spec_joined_addresses(ext));
            }
        }
        i = i + 1;
    }
    proof {
        assert(addresses@.subrange(0, len as int) =~= addresses@);
    }
    out
}

/// The parameter mapping of the multi-address balance endpoint: the
/// comma-joined addresses and the block tag, nothing else.
pub open spec fn spec_balance_multi_pairs(addrs: Seq<Address>, tag: Option<Tag>) -> Seq<
    (Seq<char>, Seq<char>),
> {
    seq![
        ("address"@, spec_joined_addresses(addrs)),
        ("tag"@, spec_tag_or_default(tag).spec_str()),
    ]
}

/// Builds the `balancemulti` query for a list of accounts.
pub fn balance_multi_query(addresses: &Vec<Address>, tag: Option<Tag>) -> (r: (
    &'static str,
    Vec<(String, String)>,
))
    ensures
        r.0@ == "balancemulti"@,
        pairs_model(r.1@) == spec_balance_multi_pairs(addresses@, tag),
{
    let tag_val = match tag {
        Some(t) => t,
        None => Tag::Latest,
    };
    let mut v: Vec<(String, String)> = Vec::new();
    v.push(("address".to_owned(), join_addresses(addresses)));
    v.push(("tag".to_owned(), tag_val.as_str().to_owned()));
    proof {
        assert(pairs_model(v@) =~= spec_balance_multi_pairs(addresses@, tag));
    }
    ("balancemulti", v)
}

/// The list parameters a query uses when none are given.
pub open spec fn spec_params_or_default(params: Option<TxListParams>) -> TxListParams {
    match params {
        Some(p) => p,
        None => TxListParams {
            start_block: 0u64,
            end_block: 99999999u64,
            page: 0u64,
            offset: 10000u64,
            sort: Sort::Asc,
        },
    }
}

/// Unwraps optional list parameters to the documented defaults.
pub fn params_or_default(params: Option<TxListParams>) -> (r: TxListParams)
    ensures
        r == spec_params_or_default(params),
{
    match params {
        Some(p) => p,
        None => TxListParams::new(0, 99999999, 0, 10000, Sort::Asc),
    }
}

/// Builds the `txlist` query: the pagination/sort pairs, then the
/// account's address.
pub fn transactions_query(address: &Address, params: Option<TxListParams>) -> (r: (
    &'static str,
    Vec<(String, String)>,
))
    ensures
        r.0@ == "txlist"@,
        pairs_model(r.1@) == spec_params_or_default(params).spec_pairs() + seq![
            ("address"@, hex_str_of(address.bytes@)),
        ],
{
    let mut v = params_or_default(params).into_pairs();
    v.push(("address".to_owned(), address.encode()));
    proof {
        assert(pairs_model(v@) =~= spec_params_or_default(params).spec_pairs() + seq![
            ("address"@, hex_str_of(address.bytes@)),
        ]);
    }
    ("txlist", v)
}

/// Builds the `txlistinternal` query: the pagination/sort pairs, then
/// exactly the pairs the filter variant implies.
pub fn internal_transactions_query(
    tx_query_option: InternalTxQueryOption,
    params: Option<TxListParams>,
) -> (r: (&'static str, Vec<(String, String)>))
    ensures
        r.0@ == "txlistinternal"@,
        pairs_model(r.1@) == spec_params_or_default(params).spec_pairs()
            + tx_query_option.spec_filter_pairs(),
{
    let v = tx_query_option.into_params(params_or_default(params));
    ("txlistinternal", v)
}

/// Builds the `tokentx` query for fungible token transfers.
pub fn erc20_transfers_query(
    event_query_option: TokenQueryOption,
    params: Option<TxListParams>,
) -> (r: (&'static str, Vec<(String, String)>))
    ensures
        r.0@ == "tokentx"@,
        pairs_model(r.1@) == spec_params_or_default(params).spec_pairs()
            + event_query_option.spec_filter_pairs(),
{
    let v = event_query_option.into_params(params_or_default(params));
    ("tokentx", v)
}

/// Builds the `tokennfttx` query for non-fungible token transfers.
pub fn erc721_transfers_query(
    event_query_option: TokenQueryOption,
    params: Option<TxListParams>,
) -> (r: (&'static str, Vec<(String, String)>))
    ensures
        r.0@ == "tokennfttx"@,
        pairs_model(r.1@) == spec_params_or_default(params).spec_pairs()
            + event_query_option.spec_filter_pairs(),
{
    let v = event_query_option.into_params(params_or_default(params));
    ("tokennfttx", v)
}

/// Builds the `token1155tx` query for multi-token transfers.
pub fn erc1155_transfers_query(
    event_query_option: TokenQueryOption,
    params: Option<TxListParams>,
) -> (r: (&'static str, Vec<(String, String)>))
    ensures
        r.0@ == "token1155tx"@,
        pairs_model(r.1@) == spec_params_or_default(params).spec_pairs()
            + event_query_option.spec_filter_pairs(),
{
    let v = event_query_option.into_params(params_or_default(params));
    ("token1155tx", v)
}

/// The parameter mapping of the mined-blocks endpoint: the miner's
/// address and the block type, then the page pair exactly when paging is
/// requested.
pub open spec fn spec_mined_blocks_pairs(
    address: Address,
    block_type: Option<BlockType>,
    page_and_offset: Option<(u64, u64)>,
) -> Seq<(Seq<char>, Seq<char>)> {
    let base = seq![
        ("address"@, hex_str_of(address.bytes@)),
        ("blocktype"@, match block_type {
            Some(b) => b.spec_str(),
            None => BlockType::CanonicalBlocks.spec_str(),
        }),
    ];
    match page_and_offset {
        Some((page, offset)) => base + seq![
            ("page"@, dec_digits(page as nat)),
            ("offset"@, dec_digits(offset as nat)),
        ],
        None => base,
    }
}

/// Builds the `getminedblocks` query.
pub fn mined_blocks_query(
    address: &Address,
    block_type: Option<BlockType>,
    page_and_offset: Option<(u64, u64)>,
) -> (r: (&'static str, Vec<(String, String)>))
    ensures
        r.0@ == "getminedblocks"@,
        pairs_model(r.1@) == spec_mined_blocks_pairs(*address, block_type, page_and_offset),
{
    let bt = match block_type {
        Some(b) => b,
        None => BlockType::CanonicalBlocks,
    };
    let mut v: Vec<(String, String)> = Vec::new();
    v.push(("address".to_owned(), address.encode()));
    v.push(("blocktype".to_owned(), bt.as_str().to_owned()));
    match page_and_offset {
        Some((page, offset)) => {
            v.push(("page".to_owned(), encode_u64_dec(page)));
            v.push(("offset".to_owned(), encode_u64_dec(offset)));
        },
        None => {},
    }
    proof {
        assert(pairs_model(v@) =~= spec_mined_blocks_pairs(*address, block_type, page_and_offset));
    }
    ("getminedblocks", v)
}

} // verus!
