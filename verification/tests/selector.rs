//! Tests for entry-point selector derivation.

use pathfinder_core::felt::StarkHash;
use pathfinder_core::identifiers::EntryPoint;

/// The selector of `initialize`, recorded once as a regression fixture.
#[test]
fn initialize_selector_regression() {
    // 0x0079dc0da7c54b95f10aa182ad0a46400db63156920adb65eca2654c0945a463
    let expected: [u8; 32] = [
        0x00, 0x79, 0xdc, 0x0d, 0xa7, 0xc5, 0x4b, 0x95, 0xf1, 0x0a, 0xa1, 0x82, 0xad, 0x0a, 0x46,
        0x40, 0x0d, 0xb6, 0x31, 0x56, 0x92, 0x0a, 0xdb, 0x65, 0xec, 0xa2, 0x65, 0x4c, 0x09, 0x45,
        0xa4, 0x63,
    ];
    let selector = EntryPoint::hashed(b"initialize");
    assert_eq!(selector.0.to_be_bytes(), expected);
}

#[test]
fn selector_is_deterministic() {
    let a = EntryPoint::hashed(b"transfer");
    let b = EntryPoint::hashed(b"transfer");
    assert_eq!(a, b);
}

#[test]
fn selector_accepts_empty_input() {
    let a = EntryPoint::hashed(b"");
    let b = EntryPoint::hashed(b"");
    assert_eq!(a, b);
}

#[test]
fn selector_is_in_field_range() {
    // A selector's encoding must decode back as a valid field element: the
    // decoder rejects anything at or above the field prime.
    for name in [&b"initialize"[..], b"transfer", b"", b"mint", b"balance_of"] {
        let selector = EntryPoint::hashed(name);
        let bytes = selector.0.to_be_bytes();
        assert!(StarkHash::from_be_bytes(bytes).is_some());
        // The six most significant bits are masked off.
        assert!(bytes[0] <= 0x03);
    }
}

#[test]
fn selector_differs_from_digest_input() {
    // Distinct names give distinct selectors here (collisions are possible in
    // principle, but not among these fixtures).
    let a = EntryPoint::hashed(b"initialize");
    let b = EntryPoint::hashed(b"transfer");
    assert_ne!(a, b);
    // And a selector is not the input bytes themselves.
    let padded_name: [u8; 32] = {
        let mut p = [0u8; 32];
        p[..10].copy_from_slice(b"initialize");
        p
    };
    assert_ne!(a.0.to_be_bytes(), padded_name);
}
