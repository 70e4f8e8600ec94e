//! Byte-level encoding primitives shared by the identifier types: big-endian
//! numeric interpretation of byte strings, lexicographic comparison, and the
//! 8-byte big-endian codec for 64-bit identifiers.

use vstd::prelude::*;
use vstd::arithmetic::mul::lemma_mul_inequality;

verus! {

/// 256 raised to the power `n`: the weight of a byte `n` positions above the
/// least significant one.
pub open spec fn pow256(n: nat) -> nat
    decreases n,
{
    if n == 0 {
        1
    } else {
        256 * pow256((n - 1) as nat)
    }
}

/// The unsigned integer a byte string denotes when read big-endian.
pub open spec fn be_value(s: Seq<u8>) -> nat
    decreases s.len(),
{
    if s.len() == 0 {
        0
    } else {
        (s[0] as nat) * pow256((s.len() - 1) as nat) + be_value(s.skip(1))
    }
}

/// Lexicographic strict order on equal-length byte strings.
pub open spec fn lt_be(a: Seq<u8>, b: Seq<u8>) -> bool
    recommends
        a.len() == b.len(),
    decreases a.len(),
{
    if a.len() == 0 {
        false
    } else if a[0] < b[0] {
        true
    } else if a[0] > b[0] {
        false
    } else {
        lt_be(a.skip(1), b.skip(1))
    }
}

/// A byte string of length `n` denotes a value below `256^n`.
pub proof fn lemma_be_value_bound(s: Seq<u8>)
    ensures
        be_value(s) < pow256(s.len()),
    decreases s.len(),
{
    if s.len() > 0 {
        let p = pow256((s.len() - 1) as nat);
        lemma_be_value_bound(s.skip(1));
        lemma_mul_inequality(s[0] as int, 255, p as int);
        assert((s[0] as nat) * p + be_value(s.skip(1)) < 255 * p + p);
    }
}

/// On equal-length byte strings, the lexicographic order coincides with the
/// order of the denoted big-endian values.
pub proof fn lemma_lt_be_value(a: Seq<u8>, b: Seq<u8>)
    requires
        a.len() == b.len(),
    ensures
        lt_be(a, b) <==> be_value(a) < be_value(b),
    decreases a.len(),
{
    if a.len() > 0 {
        let p = pow256((a.len() - 1) as nat);
        lemma_lt_be_value(a.skip(1), b.skip(1));
        lemma_be_value_bound(a.skip(1));
        lemma_be_value_bound(b.skip(1));
        if a[0] < b[0] {
            lemma_mul_inequality(a[0] as int + 1, b[0] as int, p as int);
            assert((a[0] as nat) * p + p == (a[0] as nat + 1) * p) by (nonlinear_arith);
        } else if a[0] > b[0] {
            lemma_mul_inequality(b[0] as int + 1, a[0] as int, p as int);
            assert((b[0] as nat) * p + p == (b[0] as nat + 1) * p) by (nonlinear_arith);
        }
    }
}

/// If two equal-length byte strings agree before position `i` and the first is
/// smaller at `i`, the first is lexicographically smaller.
pub proof fn lemma_lt_be_from_prefix(a: Seq<u8>, b: Seq<u8>, i: int)
    requires
        a.len() == b.len(),
        0 <= i < a.len(),
        forall|j: int| 0 <= j < i ==> a[j] == b[j],
        a[i] < b[i],
    ensures
        lt_be(a, b),
    decreases i,
{
    if i > 0 {
        lemma_lt_be_from_prefix(a.skip(1), b.skip(1), i - 1);
    }
}

/// If two equal-length byte strings agree before position `i` and the first is
/// larger at `i`, the first is not lexicographically smaller.
pub proof fn lemma_not_lt_be_from_prefix(a: Seq<u8>, b: Seq<u8>, i: int)
    requires
        a.len() == b.len(),
        0 <= i < a.len(),
        forall|j: int| 0 <= j < i ==> a[j] == b[j],
        a[i] > b[i],
    ensures
        !lt_be(a, b),
    decreases i,
{
    if i > 0 {
        lemma_not_lt_be_from_prefix(a.skip(1), b.skip(1), i - 1);
    }
}

/// A byte string is not lexicographically smaller than itself.
pub proof fn lemma_lt_be_irrefl(a: Seq<u8>)
    ensures
        !lt_be(a, a),
    decreases a.len(),
{
    if a.len() > 0 {
        lemma_lt_be_irrefl(a.skip(1));
    }
}

/// The canonical 8-byte big-endian encoding of a 64-bit identifier value.
pub open spec fn u64_to_be_spec(x: u64) -> Seq<u8> {
    seq![
        (x >> 56) as u8,
        (x >> 48) as u8,
        (x >> 40) as u8,
        (x >> 32) as u8,
        (x >> 24) as u8,
        (x >> 16) as u8,
        (x >> 8) as u8,
        x as u8,
    ]
}

/// The 64-bit value an 8-byte string denotes when read big-endian.
pub open spec fn u64_from_be_spec(s: Seq<u8>) -> u64
    recommends
        s.len() == 8,
{
    ((s[0] as u64) << 56) | ((s[1] as u64) << 48) | ((s[2] as u64) << 40) | ((s[3] as u64) << 32)
        | ((s[4] as u64) << 24) | ((s[5] as u64) << 16) | ((s[6] as u64) << 8) | (s[7] as u64)
}

/// Decoding the canonical encoding of a 64-bit value yields the value back.
pub proof fn lemma_u64_round_trip(x: u64)
    ensures
        u64_from_be_spec(u64_to_be_spec(x)) == x,
{
    assert((((x >> 56) as u8 as u64) << 56) | (((x >> 48) as u8 as u64) << 48) | (((x >> 40)
        as u8 as u64) << 40) | (((x >> 32) as u8 as u64) << 32) | (((x >> 24) as u8 as u64) << 24)
        | (((x >> 16) as u8 as u64) << 16) | (((x >> 8) as u8 as u64) << 8) | (x as u8 as u64)
        == x) by (bit_vector);
}

/// The 8-byte encoding of a 64-bit value denotes that value when read as a
/// big-endian integer: the codec agrees with the numeric interpretation the
/// other representations use.
pub proof fn lemma_u64_be_value(x: u64)
    ensures
        be_value(u64_to_be_spec(x)) == x,
{
    let b0: u8 = (x >> 56) as u8;
    let b1: u8 = (x >> 48) as u8;
    let b2: u8 = (x >> 40) as u8;
    let b3: u8 = (x >> 32) as u8;
    let b4: u8 = (x >> 24) as u8;
    let b5: u8 = (x >> 16) as u8;
    let b6: u8 = (x >> 8) as u8;
    let b7: u8 = x as u8;
    let s = u64_to_be_spec(x);
    let s1 = s.skip(1);
    let s2 = s1.skip(1);
    let s3 = s2.skip(1);
    let s4 = s3.skip(1);
    let s5 = s4.skip(1);
    let s6 = s5.skip(1);
    let s7 = s6.skip(1);
    assert(pow256(0) == 1);
    assert(pow256(1) == 0x100);
    assert(pow256(2) == 0x1_0000);
    assert(pow256(3) == 0x100_0000);
    assert(pow256(4) == 0x1_0000_0000);
    assert(pow256(5) == 0x100_0000_0000);
    assert(pow256(6) == 0x1_0000_0000_0000);
    assert(pow256(7) == 0x100_0000_0000_0000);
    assert(s7[0] == b7 && s6[0] == b6 && s5[0] == b5 && s4[0] == b4 && s3[0] == b3 && s2[0] == b2
        && s1[0] == b1 && s[0] == b0);
    assert(s.len() == 8);
    assert(be_value(s7.skip(1)) == 0);
    assert(be_value(s7) == b7 as nat);
    assert(be_value(s6) == (b6 as nat) * 0x100 + be_value(s7));
    assert(be_value(s5) == (b5 as nat) * 0x1_0000 + be_value(s6));
    assert(be_value(s4) == (b4 as nat) * 0x100_0000 + be_value(s5));
    assert(be_value(s3) == (b3 as nat) * 0x1_0000_0000 + be_value(s4));
    assert(be_value(s2) == (b2 as nat) * 0x100_0000_0000 + be_value(s3));
    assert(be_value(s1) == (b1 as nat) * 0x1_0000_0000_0000 + be_value(s2));
    assert(be_value(s) == (b0 as nat) * 0x100_0000_0000_0000 + be_value(s1));
    assert(x == ((x >> 56) as u8 as u64) * 0x100_0000_0000_0000 + ((x >> 48) as u8 as u64)
        * 0x1_0000_0000_0000 + ((x >> 40) as u8 as u64) * 0x100_0000_0000 + ((x >> 32)
        as u8 as u64) * 0x1_0000_0000 + ((x >> 24) as u8 as u64) * 0x100_0000 + ((x >> 16)
        as u8 as u64) * 0x1_0000 + ((x >> 8) as u8 as u64) * 0x100 + (x as u8 as u64))
        by (bit_vector);
}

/// Encodes a 64-bit value as 8 big-endian bytes.
pub fn u64_to_be_bytes(x: u64) -> (r: [u8; 8])
    ensures
        r@ == u64_to_be_spec(x),
        u64_from_be_spec(r@) == x,
{
    let r = [
        (x >> 56) as u8,
        (x >> 48) as u8,
        (x >> 40) as u8,
        (x >> 32) as u8,
        (x >> 24) as u8,
        (x >> 16) as u8,
        (x >> 8) as u8,
        x as u8,
    ];
    proof {
        assert(r@ =~= u64_to_be_spec(x));
        lemma_u64_round_trip(x);
    }
    r
}

/// Decodes 8 big-endian bytes into the 64-bit value they denote.
pub fn u64_from_be_bytes(b: &[u8; 8]) -> (r: u64)
    ensures
        r == u64_from_be_spec(b@),
{
    ((b[0] as u64) << 56) | ((b[1] as u64) << 48) | ((b[2] as u64) << 40) | ((b[3] as u64) << 32)
        | ((b[4] as u64) << 24) | ((b[5] as u64) << 16) | ((b[6] as u64) << 8) | (b[7] as u64)
}

} // verus!
