//! Derivation of a contract entry-point selector from a human-readable
//! function name: the Keccak-256 digest of the name, truncated to a valid
//! field element by masking its six most significant bits.

use vstd::prelude::*;
use sha3::Digest;
use crate::encoding::be_value;
use crate::felt::{
    field_prime, truncate_to_field, truncate_to_field_spec, lemma_view_determines_felt,
};
use crate::identifiers::EntryPoint;

verus! {

/// The Keccak-256 digest of a byte string: a function of the input bytes
/// alone, identical across calls, processes and machines.
pub uninterp spec fn keccak256_of(input: Seq<u8>) -> Seq<u8>;

/// Relies on sha3::Keccak256: computes the 32-byte Keccak-256 digest of the
/// input, a pure function of the input bytes alone.
#[verifier::external_body]
fn keccak256(input: &[u8]) -> (r: [u8; 32])
    ensures
        r@ == keccak256_of(input@),
{
    let digest = sha3::Keccak256::digest(input);
    let mut out = [0u8; 32];
    out.copy_from_slice(&digest);
    out
}

/// The selector bytes a function name derives to: the truncated Keccak-256
/// digest of the name.
pub open spec fn selector_of(input: Seq<u8>) -> Seq<u8> {
    truncate_to_field_spec(keccak256_of(input))
}

impl EntryPoint {
    /// Returns a new EntryPoint which has been truncated to fit from the
    /// Keccak-256 digest of the input.
    ///
    /// Total and deterministic: every byte string, the empty one included,
    /// derives to exactly one selector, always strictly below the field
    /// prime. Collisions between distinct names are an accepted
    /// protocol-level property, not detected here.
    pub fn hashed(input: &[u8]) -> (r: Self)
        ensures
            r.0.wf(),
            r.0@ == selector_of(input@),
            be_value(r.0@) < field_prime(),
    {
        EntryPoint(truncate_to_field(keccak256(input)))
    }
}

/// Selector derivation is deterministic: two well-formed field elements that
/// both carry the selector bytes of the same name are the same element, so
/// repeated derivations of one name agree.
pub proof fn lemma_selector_deterministic(input: Seq<u8>, a: EntryPoint, b: EntryPoint)
    requires
        a.0@ == selector_of(input),
        b.0@ == selector_of(input),
    ensures
        a == b,
{
    lemma_view_determines_felt(a.0, b.0);
}

} // verus!
