//! Strongly-typed domain identifiers for a StarkNet-style layer-2 protocol
//! and its Ethereum layer-1 bridge.
//!
//! Every semantically distinct protocol value gets its own nominal wrapper
//! type over one of three underlying representations — a 252-bit field
//! element, a 64-bit unsigned integer, or an Ethereum word — so that values
//! originating from different protocol concepts cannot be silently
//! interchanged. The crate also owns the canonical derivation of a contract
//! entry-point selector from a function name, total ordering and offset
//! arithmetic over block heights, and the adapters into the vocabulary of an
//! external block-query interface.

pub mod block;
pub mod encoding;
pub mod felt;
pub mod identifiers;
pub mod refs;
pub mod selector;
pub mod word;
