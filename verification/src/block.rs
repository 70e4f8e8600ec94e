//! Total ordering and offset arithmetic over StarkNet block heights.
//!
//! A height is an ordinal position counted from genesis, not a general
//! number: the only arithmetic is advancing by an offset and receding by an
//! offset, and receding below genesis is an explicit error instead of
//! ambient integer underflow.

use vstd::prelude::*;
use core::cmp::Ordering;
use crate::identifiers::StarknetBlockNumber;

verus! {

/// Receding a block height by an offset larger than the height itself would
/// fall below genesis.
#[derive(Debug, Copy, Clone, PartialEq, Eq)]
pub struct HeightUnderflow;

impl StarknetBlockNumber {
    /// The height of the first block of the chain.
    pub open spec fn genesis_spec() -> StarknetBlockNumber {
        StarknetBlockNumber(0)
    }

    /// Returns the height of the first block of the chain: zero.
    pub fn genesis() -> (r: Self)
        ensures
            r == Self::genesis_spec(),
            r.0 == 0,
    {
        StarknetBlockNumber(0)
    }

    /// The height `offset` blocks above this one.
    pub open spec fn advance_spec(self, offset: u64) -> StarknetBlockNumber
        recommends
            self.0 + offset <= u64::MAX,
    {
        StarknetBlockNumber((self.0 + offset) as u64)
    }

    /// The height `offset` blocks below this one, or an underflow error when
    /// this height is fewer than `offset` blocks above genesis.
    pub open spec fn recede_spec(self, offset: u64) -> Result<
        StarknetBlockNumber,
        HeightUnderflow,
    > {
        if offset <= self.0 {
            Ok(StarknetBlockNumber((self.0 - offset) as u64))
        } else {
            Err(HeightUnderflow)
        }
    }

    /// Returns a new height equal to this one plus `offset`.
    pub fn advance(self, offset: u64) -> (r: Self)
        requires
            self.0 + offset <= u64::MAX,
        ensures
            r == self.advance_spec(offset),
            r.0 == self.0 + offset,
    {
        StarknetBlockNumber(self.0 + offset)
    }

    /// Advances this height in place by `offset`.
    pub fn advance_assign(&mut self, offset: u64)
        requires
            old(self).0 + offset <= u64::MAX,
        ensures
            *final(self) == old(self).advance_spec(offset),
    {
        self.0 = self.0 + offset;
    }

    /// Returns a new height equal to this one minus `offset`, or an
    /// underflow error when `offset` exceeds this height.
    pub fn recede(self, offset: u64) -> (r: Result<Self, HeightUnderflow>)
        ensures
            r == self.recede_spec(offset),
            offset <= self.0 <==> r is Ok,
            r is Ok ==> r.unwrap().0 == self.0 - offset,
    {
        if offset <= self.0 {
            Ok(StarknetBlockNumber(self.0 - offset))
        } else {
            Err(HeightUnderflow)
        }
    }

    /// Recedes this height in place by `offset`, or leaves it unchanged and
    /// reports an underflow error when `offset` exceeds it.
    pub fn recede_assign(&mut self, offset: u64) -> (r: Result<(), HeightUnderflow>)
        ensures
            old(self).recede_spec(offset) is Ok ==> r is Ok && *final(self)
                == old(self).recede_spec(offset).unwrap(),
            old(self).recede_spec(offset) is Err ==> r is Err && *final(self) == *old(self),
    {
        if offset <= self.0 {
            self.0 = self.0 - offset;
            Ok(())
        } else {
            Err(HeightUnderflow)
        }
    }

    /// What comparing two heights returns: the order of the wrapped
    /// integers, which is total.
    pub open spec fn cmp_spec(self, other: StarknetBlockNumber) -> Option<Ordering> {
        if self.0 < other.0 {
            Some(Ordering::Less)
        } else if self.0 == other.0 {
            Some(Ordering::Equal)
        } else {
            Some(Ordering::Greater)
        }
    }
}

impl PartialOrd for StarknetBlockNumber {
    fn partial_cmp(&self, other: &Self) -> (r: Option<Ordering>) {
        if self.0 < other.0 {
            Some(Ordering::Less)
        } else if self.0 == other.0 {
            Some(Ordering::Equal)
        } else {
            Some(Ordering::Greater)
        }
    }
}

impl vstd::std_specs::cmp::PartialOrdSpecImpl for StarknetBlockNumber {
    open spec fn obeys_partial_cmp_spec() -> bool {
        true
    }

    open spec fn partial_cmp_spec(&self, other: &Self) -> Option<Ordering> {
        self.cmp_spec(*other)
    }
}

/// Genesis is the height zero.
pub proof fn lemma_genesis()
    ensures
        StarknetBlockNumber::genesis_spec() == StarknetBlockNumber(0),
        StarknetBlockNumber::genesis_spec().0 == 0,
{
}

/// Advancing a height by an offset and then receding by the same offset
/// returns the original height, whenever the advance stays representable.
pub proof fn lemma_advance_recede(b: StarknetBlockNumber, o: u64)
    requires
        b.0 + o <= u64::MAX,
    ensures
        b.advance_spec(o).recede_spec(o) == Ok::<StarknetBlockNumber, HeightUnderflow>(b),
{
}

/// The order on heights is the order of the wrapped integers: one height
/// compares below another exactly when its integer is smaller, and advancing
/// by a positive offset strictly increases a height.
pub proof fn lemma_order_consistency(b1: StarknetBlockNumber, b2: StarknetBlockNumber)
    ensures
        b1.cmp_spec(b2) == Some(Ordering::Less) <==> b1.0 < b2.0,
        b1.cmp_spec(b2) == Some(Ordering::Greater) <==> b1.0 > b2.0,
        b1.cmp_spec(b2) == Some(Ordering::Equal) <==> b1.0 == b2.0,
        b1.0 + 1 <= u64::MAX ==> b1.advance_spec(1).cmp_spec(b1) == Some(Ordering::Greater),
{
}

/// The order on heights is total: comparison always answers, a height equals
/// itself, two heights each below the other cannot exist, and the order is
/// transitive.
pub proof fn lemma_order_total(
    a: StarknetBlockNumber,
    b: StarknetBlockNumber,
    c: StarknetBlockNumber,
)
    ensures
        a.cmp_spec(b) is Some,
        a.cmp_spec(a) == Some(Ordering::Equal),
        a.cmp_spec(b) == Some(Ordering::Less) <==> b.cmp_spec(a) == Some(Ordering::Greater),
        a.cmp_spec(b) == Some(Ordering::Less) && b.cmp_spec(c) == Some(Ordering::Less)
            ==> a.cmp_spec(c) == Some(Ordering::Less),
{
}

} // verus!
