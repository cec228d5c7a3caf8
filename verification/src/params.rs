//! List-endpoint query parameters.
//!
//! Every list endpoint takes the same five pagination/sort parameters,
//! and each query variant layers zero or more filter parameters on top.
//! The builder is a pure function from the typed parameters to an ordered
//! key/value mapping with the wire protocol's exact key names; each
//! variant's key set is disjoint from the others.

use vstd::prelude::*;
use crate::hex::hex_str_of;
use crate::num::{dec_digits, encode_u64_dec};
use crate::types::{Address, Hash256};

verus! {

/// The key/value pairs of a parameter mapping, abstracted to character
/// sequences.
pub open spec fn pairs_model(ps: Seq<(String, String)>) -> Seq<(Seq<char>, Seq<char>)> {
    Seq::new(ps.len(), |i: int| (ps[i].0@, ps[i].1@))
}

/// The pre-defined block parameter for balance endpoints.
#[derive(Clone, Copy, Debug, PartialEq, Eq, Structural)]
pub enum Tag {
    Earliest,
    Pending,
    Latest,
}

impl Tag {
    /// The wire spelling of the tag.
    pub open spec fn spec_str(self) -> Seq<char> {
        match self {
            Tag::Earliest => "earliest"@,
            Tag::Pending => "pending"@,
            Tag::Latest => "latest"@,
        }
    }

    /// The wire spelling of the tag.
    pub fn as_str(self) -> (r: &'static str)
        ensures
            r@ == self.spec_str(),
    {
        match self {
            Tag::Earliest => "earliest",
            Tag::Pending => "pending",
            Tag::Latest => "latest",
        }
    }
}

impl Default for Tag {
    /// The balance endpoints default to the latest block.
    fn default() -> (r: Tag)
        ensures
            r == Tag::Latest,
    {
        Tag::Latest
    }
}

/// The list sorting preference.
#[derive(Clone, Copy, Debug, PartialEq, Eq, Structural)]
pub enum Sort {
    Asc,
    Desc,
}

impl Sort {
    /// The wire spelling of the sort order.
    pub open spec fn spec_str(self) -> Seq<char> {
        match self {
            Sort::Asc => "asc"@,
            Sort::Desc => "desc"@,
        }
    }

    /// The wire spelling of the sort order.
    pub fn as_str(self) -> (r: &'static str)
        ensures
            r@ == self.spec_str(),
    {
        match self {
            Sort::Asc => "asc",
            Sort::Desc => "desc",
        }
    }
}

/// The pre-defined block type for the mined-blocks endpoint.
#[derive(Clone, Copy, Debug, PartialEq, Eq, Structural)]
pub enum BlockType {
    CanonicalBlocks,
    Uncles,
}

impl BlockType {
    /// The wire spelling of the block type.
    pub open spec fn spec_str(self) -> Seq<char> {
        match self {
            BlockType::CanonicalBlocks => "blocks"@,
            BlockType::Uncles => "uncles"@,
        }
    }

    /// The wire spelling of the block type.
    pub fn as_str(self) -> (r: &'static str)
        ensures
            r@ == self.spec_str(),
    {
        match self {
            BlockType::CanonicalBlocks => "blocks",
            BlockType::Uncles => "uncles",
        }
    }
}

impl Default for BlockType {
    /// The mined-blocks endpoint defaults to canonical blocks.
    fn default() -> (r: BlockType)
        ensures
            r == BlockType::CanonicalBlocks,
    {
        BlockType::CanonicalBlocks
    }
}

/// Common pagination and sorting arguments of the transaction and event
/// list endpoints. Immutable once constructed.
#[derive(Clone, Copy, Debug, PartialEq, Eq, Structural)]
pub struct TxListParams {
    pub start_block: u64,
    pub end_block: u64,
    pub page: u64,
    pub offset: u64,
    pub sort: Sort,
}

impl TxListParams {
    /// Bundles the five pagination/sort arguments.
    pub fn new(start_block: u64, end_block: u64, page: u64, offset: u64, sort: Sort) -> (r:
        TxListParams)
        ensures
            r == (TxListParams { start_block, end_block, page, offset, sort }),
    {
        TxListParams { start_block, end_block, page, offset, sort }
    }

    /// Exactly the five pagination/sort pairs, in wire spelling and
    /// order, with every number in canonical decimal form.
    pub open spec fn spec_pairs(self) -> Seq<(Seq<char>, Seq<char>)> {
        seq![
            ("startBlock"@, dec_digits(self.start_block as nat)),
            ("endBlock"@, dec_digits(self.end_block as nat)),
            ("page"@, dec_digits(self.page as nat)),
            ("offset"@, dec_digits(self.offset as nat)),
            ("sort"@, self.sort.spec_str()),
        ]
    }

    /// Produces the parameter mapping: exactly the five pagination/sort
    /// keys with the configured values, nothing else.
    pub fn into_pairs(self) -> (r: Vec<(String, String)>)
        ensures
            pairs_model(r@) == self.spec_pairs(),
    {
        let mut v: Vec<(String, String)> = Vec::new();
        v.push(("startBlock".to_owned(), encode_u64_dec(self.start_block)));
        v.push(("endBlock".to_owned(), encode_u64_dec(self.end_block)));
        v.push(("page".to_owned(), encode_u64_dec(self.page)));
        v.push(("offset".to_owned(), encode_u64_dec(self.offset)));
        v.push(("sort".to_owned(), self.sort.as_str().to_owned()));
        proof {
            assert(pairs_model(v@) =~= self.spec_pairs());
        }
        v
    }
}

impl Default for TxListParams {
    /// The whole block range, first page, ten thousand rows, ascending.
    fn default() -> (r: TxListParams)
        ensures
            r == (TxListParams {
                start_block: 0u64,
                end_block: 99999999u64,
                page: 0u64,
                offset: 10000u64,
                sort: Sort::Asc,
            }),
    {
        TxListParams {
            start_block: 0,
            end_block: 99999999,
            page: 0,
            offset: 10000,
            sort: Sort::Asc,
        }
    }
}

/// How to filter the internal-transactions endpoint.
#[derive(Clone, Debug, PartialEq, Eq)]
pub enum InternalTxQueryOption {
    /// Internal transactions of one account.
    ByAddress(Address),
    /// Internal transactions inside one transaction.
    ByTransactionHash(Hash256),
    /// No filter beyond the block range already in the list parameters.
    ByBlockRange,
}

impl InternalTxQueryOption {
    /// The filter pairs this variant contributes: its key set is disjoint
    /// from the five pagination/sort keys and from the other variants'.
    pub open spec fn spec_filter_pairs(self) -> Seq<(Seq<char>, Seq<char>)> {
        match self {
            InternalTxQueryOption::ByAddress(a) => seq![("address"@, hex_str_of(a.bytes@))],
            InternalTxQueryOption::ByTransactionHash(h) => seq![
                ("txhash"@, hex_str_of(h.bytes@)),
            ],
            InternalTxQueryOption::ByBlockRange => Seq::empty(),
        }
    }

    /// Produces the full parameter mapping: the five pagination/sort
    /// pairs, then exactly the pairs this variant implies.
    pub fn into_params(self, list_params: TxListParams) -> (r: Vec<(String, String)>)
        ensures
            pairs_model(r@) == list_params.spec_pairs() + self.spec_filter_pairs(),
    {
        let mut v = list_params.into_pairs();
        match self {
            InternalTxQueryOption::ByAddress(address) => {
                v.push(("address".to_owned(), address.encode()));
            },
            InternalTxQueryOption::ByTransactionHash(tx_hash) => {
                v.push(("txhash".to_owned(), tx_hash.encode()));
            },
            InternalTxQueryOption::ByBlockRange => {},
        }
        proof {
            assert(pairs_model(v@) =~= list_params.spec_pairs() + self.spec_filter_pairs());
        }
        v
    }
}

/// How to filter the token-transfer endpoints.
#[derive(Clone, Debug, PartialEq, Eq)]
pub enum TokenQueryOption {
    /// Transfers touching one account.
    ByAddress(Address),
    /// Transfers of one token contract.
    ByContract(Address),
    /// Transfers of one token contract touching one account.
    ByAddressAndContract(Address, Address),
}

impl TokenQueryOption {
    /// The filter pairs this variant contributes: one key each for the
    /// account and the contract, both when both are given.
    pub open spec fn spec_filter_pairs(self) -> Seq<(Seq<char>, Seq<char>)> {
        match self {
            TokenQueryOption::ByAddress(a) => seq![("address"@, hex_str_of(a.bytes@))],
            TokenQueryOption::ByContract(c) => seq![("contractaddress"@, hex_str_of(c.bytes@))],
            TokenQueryOption::ByAddressAndContract(a, c) => seq![
                ("address"@, hex_str_of(a.bytes@)),
                ("contractaddress"@, hex_str_of(c.bytes@)),
            ],
        }
    }

    /// Produces the full parameter mapping: the five pagination/sort
    /// pairs, then exactly the pairs this variant implies.
    pub fn into_params(self, list_params: TxListParams) -> (r: Vec<(String, String)>)
        ensures
            pairs_model(r@) == list_params.spec_pairs() + self.spec_filter_pairs(),
    {
        let mut v = list_params.into_pairs();
        match self {
            TokenQueryOption::ByAddress(address) => {
                v.push(("address".to_owned(), address.encode()));
            },
            TokenQueryOption::ByContract(contract) => {
                v.push(("contractaddress".to_owned(), contract.encode()));
            },
            TokenQueryOption::ByAddressAndContract(address, contract) => {
                v.push(("address".to_owned(), address.encode()));
                v.push(("contractaddress".to_owned(), contract.encode()));
            },
        }
        proof {
            assert(pairs_model(v@) =~= list_params.spec_pairs() + self.spec_filter_pairs());
        }
        v
    }
}

} // verus!
