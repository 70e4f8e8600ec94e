//! Tests for the block-reference adapters at the query-layer boundary.

use pathfinder_core::felt::StarkHash;
use pathfinder_core::identifiers::{
    EthereumBlockNumber, StarknetBlockHash, StarknetBlockNumber,
};
use pathfinder_core::refs::{BlockHashOrTag, BlockNumberOrTag, Tag};

#[test]
fn block_number_converts_to_by_number_reference() {
    let number = StarknetBlockNumber(42);
    assert_eq!(
        BlockNumberOrTag::from(number),
        BlockNumberOrTag::Number(number)
    );
    assert_ne!(
        BlockNumberOrTag::from(number),
        BlockNumberOrTag::Tag(Tag::Latest)
    );
}

#[test]
fn tags_reference_blocks_symbolically() {
    assert_eq!(
        BlockNumberOrTag::Tag(Tag::Pending),
        BlockNumberOrTag::Tag(Tag::Pending)
    );
    assert_ne!(
        BlockNumberOrTag::Tag(Tag::Pending),
        BlockNumberOrTag::Tag(Tag::Latest)
    );
    assert_ne!(
        BlockNumberOrTag::Tag(Tag::Latest),
        BlockNumberOrTag::Number(StarknetBlockNumber(0))
    );
}

#[test]
fn block_hash_converts_to_by_hash_reference() {
    let mut b = [0u8; 32];
    b[31] = 0x77;
    let hash = StarknetBlockHash(StarkHash::from_be_bytes(b).unwrap());
    let reference: BlockHashOrTag = hash.into();
    match reference {
        BlockHashOrTag::Hash(h) => assert_eq!(h, hash),
        BlockHashOrTag::Tag(_) => panic!("a hash must convert to a by-hash reference"),
    }
}

#[test]
fn ethereum_block_number_converts_to_numeric_block_id() {
    let number = EthereumBlockNumber(7);
    assert_eq!(
        number.to_block_id(),
        web3::types::BlockId::Number(web3::types::BlockNumber::Number(7u64.into()))
    );
    let large = EthereumBlockNumber(u64::MAX);
    assert_eq!(
        large.to_block_id(),
        web3::types::BlockId::Number(web3::types::BlockNumber::Number(u64::MAX.into()))
    );
}
