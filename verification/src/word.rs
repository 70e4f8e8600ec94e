//! The Ethereum word representations underlying the layer-1 identifiers: a
//! 256-bit hash word and a 160-bit address word, each held as its canonical
//! big-endian byte string. Any byte string of the right width is valid.

use vstd::prelude::*;

verus! {

/// A 256-bit Ethereum word: 32 big-endian bytes.
#[derive(Debug, Copy, Clone, PartialEq, Eq, Hash)]
pub struct Word256 {
    bytes: [u8; 32],
}

impl View for Word256 {
    type V = Seq<u8>;

    closed spec fn view(&self) -> Seq<u8> {
        self.bytes@
    }
}

impl Word256 {
    /// Constructs a word from its canonical 32-byte big-endian encoding;
    /// total, every byte string is a valid word.
    pub fn from_be_bytes(b: [u8; 32]) -> (r: Word256)
        ensures
            r@ == b@,
    {
        Word256 { bytes: b }
    }

    /// Returns the canonical 32-byte big-endian encoding of this word.
    pub fn to_be_bytes(&self) -> (r: [u8; 32])
        ensures
            r@ == self@,
    {
        self.bytes
    }
}

/// A 256-bit word is determined by its canonical encoding: equal encodings
/// mean equal words, so decoding a word's encoding yields the word back.
pub proof fn lemma_word256_round_trip(a: Word256, b: Word256)
    requires
        a@ == b@,
    ensures
        a == b,
{
    assert(a.bytes =~= b.bytes);
}

/// A 160-bit Ethereum address word: 20 big-endian bytes.
#[derive(Debug, Copy, Clone, PartialEq, Eq, Hash)]
pub struct Word160 {
    bytes: [u8; 20],
}

impl View for Word160 {
    type V = Seq<u8>;

    closed spec fn view(&self) -> Seq<u8> {
        self.bytes@
    }
}

impl Word160 {
    /// Constructs an address word from its canonical 20-byte big-endian
    /// encoding; total, every byte string is a valid word.
    pub fn from_be_bytes(b: [u8; 20]) -> (r: Word160)
        ensures
            r@ == b@,
    {
        Word160 { bytes: b }
    }

    /// Returns the canonical 20-byte big-endian encoding of this word.
    pub fn to_be_bytes(&self) -> (r: [u8; 20])
        ensures
            r@ == self@,
    {
        self.bytes
    }
}

/// A 160-bit word is determined by its canonical encoding: equal encodings
/// mean equal words, so decoding a word's encoding yields the word back.
pub proof fn lemma_word160_round_trip(a: Word160, b: Word160)
    requires
        a@ == b@,
    ensures
        a == b,
{
    assert(a.bytes =~= b.bytes);
}

} // verus!
