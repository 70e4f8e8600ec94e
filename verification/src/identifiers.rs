//! The identifier catalogue: one nominal wrapper type per protocol concept.
//!
//! Every type wraps exactly one underlying representation — a field element,
//! a 64-bit unsigned integer, or an Ethereum word — and no implicit conversion
//! exists between two distinct identifier types, even when they share the
//! underlying representation. Equality is structural over the wrapped value.

use vstd::prelude::*;
use crate::felt::StarkHash;
use crate::word::{Word160, Word256};

verus! {

/// The address of a StarkNet contract.
#[derive(Debug, Copy, Clone, PartialEq, Eq, Hash)]
pub struct ContractAddress(pub StarkHash);

/// The salt of a StarkNet contract address.
#[derive(Debug, Copy, Clone, PartialEq)]
pub struct ContractAddressSalt(pub StarkHash);

/// A StarkNet contract's hash. This is a hash over a contract's
/// deployment properties e.g. code and ABI.
///
/// Not to be confused with [ContractStateHash].
#[derive(Debug, Copy, Clone, PartialEq, Eq, Hash)]
pub struct ContractHash(pub StarkHash);

/// A StarkNet contract's state hash. This is the value stored
/// in the global state tree.
///
/// Not to be confused with [ContractHash].
#[derive(Debug, Copy, Clone, PartialEq)]
pub struct ContractStateHash(pub StarkHash);

/// A commitment root of a StarkNet contract. This is the entry-point
/// for a contract's state at a specific point in time via the contract
/// state tree.
#[derive(Debug, Copy, Clone, PartialEq)]
pub struct ContractRoot(pub StarkHash);

/// A StarkNet contract's bytecode and ABI.
#[derive(Debug, Clone, PartialEq)]
pub struct ContractCode {
    pub bytecode: Vec<ByteCodeWord>,
    pub abi: String,
}

/// Entry point of a StarkNet `call`.
#[derive(Debug, Copy, Clone, PartialEq)]
pub struct EntryPoint(pub StarkHash);

/// A single parameter passed to a StarkNet `call`.
#[derive(Debug, Copy, Clone, PartialEq)]
pub struct CallParam(pub StarkHash);

/// A single parameter passed to a StarkNet contract constructor.
#[derive(Debug, Copy, Clone, PartialEq)]
pub struct ConstructorParam(pub StarkHash);

/// A single result value of a StarkNet `call`.
#[derive(Debug, Copy, Clone, PartialEq)]
pub struct CallResultValue(pub StarkHash);

/// A single element of a signature used to secure a StarkNet `call`.
#[derive(Debug, Copy, Clone, PartialEq)]
pub struct CallSignatureElem(pub StarkHash);

/// A word from a StarkNet contract bytecode.
#[derive(Debug, Copy, Clone, PartialEq)]
pub struct ByteCodeWord(pub StarkHash);

/// The address of a storage element for a StarkNet contract.
#[derive(Debug, Copy, Clone, PartialEq)]
pub struct StorageAddress(pub StarkHash);

/// The value of a storage element for a StarkNet contract.
#[derive(Debug, Copy, Clone, PartialEq)]
pub struct StorageValue(pub StarkHash);

/// A commitment root of the global StarkNet state. This is the entry-point
/// for the global state at a specific point in time via the global state tree.
#[derive(Debug, Copy, Clone, PartialEq)]
pub struct GlobalRoot(pub StarkHash);

/// A StarkNet block hash.
#[derive(Debug, Copy, Clone, PartialEq)]
pub struct StarknetBlockHash(pub StarkHash);

/// A StarkNet block number.
#[derive(Debug, Copy, Clone, PartialEq, Eq)]
pub struct StarknetBlockNumber(pub u64);

/// The timestamp of a Starknet block.
#[derive(Debug, Copy, Clone, PartialEq)]
pub struct StarknetBlockTimestamp(pub u64);

/// A StarkNet transaction hash.
#[derive(Debug, Copy, Clone, PartialEq)]
pub struct StarknetTransactionHash(pub StarkHash);

/// A StarkNet transaction's index within a block.
#[derive(Debug, Copy, Clone, PartialEq)]
pub struct StarknetTransactionIndex(pub u64);

/// A single element of a signature used to secure a StarkNet transaction.
#[derive(Debug, Copy, Clone, PartialEq)]
pub struct TransactionSignatureElem(pub StarkHash);

/// A nonce that is added to an L1 to L2 message in a StarkNet transaction.
#[derive(Debug, Copy, Clone, PartialEq)]
pub struct L1ToL2MessageNonce(pub StarkHash);

/// A single element of the payload of an L1 to L2 message in a StarkNet transaction.
#[derive(Debug, Copy, Clone, PartialEq)]
pub struct L1ToL2MessagePayloadElem(pub StarkHash);

/// A single element of the payload of an L2 to L1 message in a StarkNet transaction.
#[derive(Debug, Copy, Clone, PartialEq)]
pub struct L2ToL1MessagePayloadElem(pub StarkHash);

/// StarkNet transaction event data.
#[derive(Debug, Copy, Clone, PartialEq)]
pub struct EventData(pub StarkHash);

/// StarkNet transaction event key.
#[derive(Debug, Copy, Clone, PartialEq)]
pub struct EventKey(pub StarkHash);

/// StarkNet protocol version.
#[derive(Debug, Copy, Clone, PartialEq)]
pub struct StarknetProtocolVersion(pub Word256);

/// An Ethereum address.
#[derive(Debug, Copy, Clone, PartialEq)]
pub struct EthereumAddress(pub Word160);

/// An Ethereum block hash.
#[derive(Debug, Copy, Clone, PartialEq, Hash, Eq)]
pub struct EthereumBlockHash(pub Word256);

/// An Ethereum block number.
#[derive(Debug, Copy, Clone, PartialEq, Hash, Eq)]
pub struct EthereumBlockNumber(pub u64);

/// An Ethereum transaction hash.
#[derive(Debug, Copy, Clone, PartialEq, Hash, Eq)]
pub struct EthereumTransactionHash(pub Word256);

/// An Ethereum transaction's index within a block.
#[derive(Debug, Copy, Clone, PartialEq, Hash, Eq)]
pub struct EthereumTransactionIndex(pub u64);

/// An Ethereum log's index within a block.
#[derive(Debug, Copy, Clone, PartialEq, Hash, Eq)]
pub struct EthereumLogIndex(pub u64);

} // verus!
