//! The field-element representation underlying most StarkNet identifiers: a
//! 252-bit unsigned value held as 32 big-endian bytes, always strictly below
//! the field prime `2^251 + 17 * 2^192 + 1`.

use vstd::prelude::*;
use crate::encoding::{
    be_value, lt_be, pow256, lemma_lt_be_value, lemma_lt_be_from_prefix,
    lemma_not_lt_be_from_prefix, lemma_lt_be_irrefl,
};

verus! {

/// The canonical 32-byte big-endian encoding of the field prime
/// `2^251 + 17 * 2^192 + 1`.
pub open spec fn field_prime_bytes() -> Seq<u8> {
    Seq::new(32, |i: int| if i == 0 {
        0x08u8
    } else if i == 7 {
        0x11u8
    } else if i == 31 {
        0x01u8
    } else {
        0u8
    })
}

/// The field prime `2^251 + 17 * 2^192 + 1`, as the value its canonical
/// encoding denotes.
pub open spec fn field_prime() -> nat {
    be_value(field_prime_bytes())
}

/// A field element: 32 big-endian bytes denoting a value strictly below the
/// field prime. Every StarkNet field-element identifier wraps exactly one of
/// these.
#[derive(Debug, Copy, Clone, PartialEq, Eq, Hash)]
pub struct StarkHash {
    bytes: [u8; 32],
}

impl View for StarkHash {
    type V = Seq<u8>;

    closed spec fn view(&self) -> Seq<u8> {
        self.bytes@
    }
}

impl StarkHash {
    /// A field element is well formed when its bytes denote a value strictly
    /// below the field prime.
    pub open spec fn wf(&self) -> bool {
        self@.len() == 32 && be_value(self@) < field_prime()
    }

    /// Constructs a field element from its canonical 32-byte big-endian
    /// encoding; rejects byte strings denoting a value at or above the field
    /// prime.
    pub fn from_be_bytes(b: [u8; 32]) -> (r: Option<StarkHash>)
        ensures
            r is Some <==> be_value(b@) < field_prime(),
            r is Some ==> r.unwrap().wf() && r.unwrap()@ == b@,
    {
        let p = prime_be_bytes();
        let mut i: usize = 0;
        loop
            invariant
                i <= 32,
                p@ == field_prime_bytes(),
                forall|j: int| 0 <= j < i ==> b@[j] == p@[j],
            decreases 32 - i,
        {
            if i == 32 {
                // all bytes equal: the value is exactly the prime
                proof {
                    assert(b@ =~= field_prime_bytes());
                    lemma_lt_be_irrefl(b@);
                    lemma_lt_be_value(b@, field_prime_bytes());
                }
                return None;
            }
            if b[i] < p[i] {
                proof {
                    lemma_lt_be_from_prefix(b@, field_prime_bytes(), i as int);
                    lemma_lt_be_value(b@, field_prime_bytes());
                }
                return Some(StarkHash { bytes: b });
            }
            if b[i] > p[i] {
                proof {
                    lemma_not_lt_be_from_prefix(b@, field_prime_bytes(), i as int);
                    lemma_lt_be_value(b@, field_prime_bytes());
                }
                return None;
            }
            i = i + 1;
        }
    }

    /// Returns the canonical 32-byte big-endian encoding of this field
    /// element.
    pub fn to_be_bytes(&self) -> (r: [u8; 32])
        ensures
            r@ == self@,
    {
        self.bytes
    }
}

/// A field element is determined by its canonical encoding: equal encodings
/// mean equal elements.
pub proof fn lemma_view_determines_felt(a: StarkHash, b: StarkHash)
    requires
        a@ == b@,
    ensures
        a == b,
{
    assert(a.bytes =~= b.bytes);
}

/// Encoding then decoding is the identity on field elements: decoding always
/// succeeds on a well-formed element's encoding, and any element carrying that
/// encoding is the element itself.
pub proof fn lemma_felt_round_trip(h: StarkHash, d: StarkHash)
    requires
        h.wf(),
        d.wf(),
        d@ == h@,
    ensures
        be_value(h@) < field_prime(),
        d == h,
{
    lemma_view_determines_felt(h, d);
}

/// Truncates a 32-byte digest to a field element by masking the six most
/// significant bits, leaving a 250-bit value that is always strictly below the
/// field prime. This never fails, whatever the digest.
pub fn truncate_to_field(digest: [u8; 32]) -> (r: StarkHash)
    ensures
        r.wf(),
        r@ == truncate_to_field_spec(digest@),
{
    let mut out = digest;
    out[0] = out[0] & 0x03;
    proof {
        assert(out@ =~= truncate_to_field_spec(digest@));
        let b0: u8 = digest@[0];
        assert(b0 & 0x03 < 0x08) by (bit_vector);
        assert(out@[0] < field_prime_bytes()[0]);
        lemma_lt_be_from_prefix(out@, field_prime_bytes(), 0);
        lemma_lt_be_value(out@, field_prime_bytes());
    }
    StarkHash { bytes: out }
}

/// The truncation rule: the first byte masked down to its two lowest bits, the
/// remaining 31 bytes kept as they are.
pub open spec fn truncate_to_field_spec(d: Seq<u8>) -> Seq<u8>
    recommends
        d.len() == 32,
{
    d.update(0, d[0] & 0x03)
}

/// The field prime equals `2^251 + 17 * 2^192 + 1`.
pub proof fn lemma_field_prime_value()
    ensures
        field_prime() == 8 * pow256(31) + 0x11 * pow256(24) + 1,
{
    lemma_prime_suffix(0);
    assert(field_prime_bytes().skip(0) =~= field_prime_bytes());
}

/// The value of the prime's encoding from byte position `i` on.
proof fn lemma_prime_suffix(i: int)
    requires
        0 <= i <= 32,
    ensures
        i <= 0 ==> be_value(field_prime_bytes().skip(i)) == 8 * pow256(31) + 0x11 * pow256(24) + 1,
        0 < i <= 7 ==> be_value(field_prime_bytes().skip(i)) == 0x11 * pow256(24) + 1,
        7 < i <= 31 ==> be_value(field_prime_bytes().skip(i)) == 1,
        i > 31 ==> be_value(field_prime_bytes().skip(i)) == 0,
    decreases 32 - i,
{
    let s = field_prime_bytes().skip(i);
    if i == 32 {
        assert(s.len() == 0);
    } else {
        lemma_prime_suffix(i + 1);
        assert(field_prime_bytes().skip(i).skip(1) =~= field_prime_bytes().skip(i + 1));
        assert(be_value(s) == (s[0] as nat) * pow256((s.len() - 1) as nat) + be_value(s.skip(1)));
    }
}

/// Builds the prime's canonical encoding.
fn prime_be_bytes() -> (r: [u8; 32])
    ensures
        r@ == field_prime_bytes(),
{
    let mut r = [0u8; 32];
    r[0] = 0x08;
    r[7] = 0x11;
    r[31] = 0x01;
    proof {
        assert(r@ =~= field_prime_bytes());
    }
    r
}

} // verus!
