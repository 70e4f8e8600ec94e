//! Tests for block-height ordering and offset arithmetic.

use pathfinder_core::block::HeightUnderflow;
use pathfinder_core::identifiers::StarknetBlockNumber;

#[test]
fn genesis_is_zero() {
    assert_eq!(StarknetBlockNumber::genesis(), StarknetBlockNumber(0));
    assert_eq!(StarknetBlockNumber::genesis().0, 0);
}

#[test]
fn genesis_advance_five() {
    assert_eq!(
        StarknetBlockNumber::genesis().advance(5),
        StarknetBlockNumber(5)
    );
    assert_eq!(
        StarknetBlockNumber(5).recede(5),
        Ok(StarknetBlockNumber::genesis())
    );
}

#[test]
fn recede_below_genesis_is_underflow() {
    assert_eq!(StarknetBlockNumber(5).recede(6), Err(HeightUnderflow));
    assert_eq!(StarknetBlockNumber(0).recede(1), Err(HeightUnderflow));
}

#[test]
fn advance_recede_round_trip() {
    let b = StarknetBlockNumber(123_456);
    assert_eq!(b.advance(789).recede(789), Ok(b));
    assert_eq!(b.advance(0).recede(0), Ok(b));
}

#[test]
fn order_follows_wrapped_integer() {
    assert!(StarknetBlockNumber(1) < StarknetBlockNumber(2));
    assert!(StarknetBlockNumber(2) > StarknetBlockNumber(1));
    assert!(StarknetBlockNumber(7) <= StarknetBlockNumber(7));
    assert!(StarknetBlockNumber(7) >= StarknetBlockNumber(7));
    assert!(!(StarknetBlockNumber(2) < StarknetBlockNumber(1)));
    let b = StarknetBlockNumber(41);
    assert!(b.advance(1) > b);
}

#[test]
fn advance_assign_adds_offset() {
    let mut b = StarknetBlockNumber(10);
    b.advance_assign(32);
    assert_eq!(b, StarknetBlockNumber(42));
}

#[test]
fn recede_assign_subtracts_or_reports_underflow() {
    let mut b = StarknetBlockNumber(42);
    assert_eq!(b.recede_assign(2), Ok(()));
    assert_eq!(b, StarknetBlockNumber(40));
    assert_eq!(b.recede_assign(41), Err(HeightUnderflow));
    assert_eq!(b, StarknetBlockNumber(40));
}
