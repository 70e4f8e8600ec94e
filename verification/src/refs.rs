//! Tagged block-reference parameters for the block-query layer, and the
//! adapters that carry identifiers into them.
//!
//! These adapters are total, lossless and one-directional: they exist solely
//! to bridge vocabulary at the boundary with the query interface, and they
//! are the only sanctioned crossing between identifier families.

use vstd::prelude::*;
use crate::identifiers::{EthereumBlockNumber, StarknetBlockHash, StarknetBlockNumber};

verus! {

/// A symbolic position in the chain, as the query layer understands it.
#[derive(Debug, Copy, Clone, PartialEq, Eq)]
pub enum Tag {
    /// The most recent block.
    Latest,
    /// The block currently being sequenced.
    Pending,
}

/// A block referenced by its height, or symbolically by a tag.
#[derive(Debug, Copy, Clone, PartialEq, Eq)]
pub enum BlockNumberOrTag {
    Number(StarknetBlockNumber),
    Tag(Tag),
}

/// A block referenced by its hash, or symbolically by a tag.
#[derive(Debug, Copy, Clone, PartialEq)]
pub enum BlockHashOrTag {
    Hash(StarknetBlockHash),
    Tag(Tag),
}

impl From<StarknetBlockNumber> for BlockNumberOrTag {
    /// Wraps a height as a by-number block reference, losing nothing.
    fn from(number: StarknetBlockNumber) -> (r: Self) {
        BlockNumberOrTag::Number(number)
    }
}

impl vstd::std_specs::convert::FromSpecImpl<StarknetBlockNumber> for BlockNumberOrTag {
    open spec fn obeys_from_spec() -> bool {
        true
    }

    open spec fn from_spec(v: StarknetBlockNumber) -> Self {
        BlockNumberOrTag::Number(v)
    }
}

impl From<StarknetBlockHash> for BlockHashOrTag {
    /// Wraps a block hash as a by-hash block reference, losing nothing.
    fn from(hash: StarknetBlockHash) -> (r: Self) {
        BlockHashOrTag::Hash(hash)
    }
}

impl vstd::std_specs::convert::FromSpecImpl<StarknetBlockHash> for BlockHashOrTag {
    open spec fn obeys_from_spec() -> bool {
        true
    }

    open spec fn from_spec(v: StarknetBlockHash) -> Self {
        BlockHashOrTag::Hash(v)
    }
}

#[verifier::external_type_specification]
#[verifier::external_body]
pub struct ExBlockId(web3::types::BlockId);

impl EthereumBlockNumber {
    /// Relies on web3::types::BlockId and web3::types::BlockNumber: wraps the
    /// height, unchanged, as the numeric block-query parameter an
    /// Ethereum-compatible chain client expects. The value is opaque here;
    /// only the client reads it.
    #[verifier::external_body]
    pub fn to_block_id(&self) -> web3::types::BlockId {
        web3::types::BlockId::Number(web3::types::BlockNumber::Number(self.0.into()))
    }
}

} // verus!
