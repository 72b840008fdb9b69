//! Padding of transport payloads.

use vstd::prelude::*;
use crate::constants::MESSAGE_PADDING_MULTIPLE;

verus! {

/// The bytes that bring `size` up to the next multiple of the padding unit.
pub open spec fn fill(size: int) -> int {
    let unit = MESSAGE_PADDING_MULTIPLE as int;
    (unit - size % unit) % unit
}

/// The padded length of a payload of `size` bytes on a device with the given
/// MTU: `size` rounded up to the padding unit, but never more than the MTU.
pub open spec fn padded_len(size: int, mtu: int) -> int {
    if size + fill(size) <= mtu {
        size + fill(size)
    } else {
        mtu
    }
}

/// Returns the padded length of a message of `size` bytes.
pub fn padding(size: usize, mtu: usize) -> (padded: usize)
    ensures
        padded == padded_len(size as int, mtu as int),
{
    let unit: usize = MESSAGE_PADDING_MULTIPLE;
    let fill: usize = (unit - size % unit) % unit;
    if size >= mtu {
        mtu
    } else if fill > mtu - size {
        mtu
    } else {
        size + fill
    }
}

/// A payload that fits the MTU is never shortened and never padded beyond
/// the MTU, and its padded length is the MTU or a multiple of the unit.
pub proof fn lemma_padding_bounds(size: nat, mtu: nat)
    requires
        size <= mtu,
    ensures
        size <= padded_len(size as int, mtu as int) <= mtu,
        padded_len(size as int, mtu as int) == mtu
            || padded_len(size as int, mtu as int) % (MESSAGE_PADDING_MULTIPLE as int) == 0,
{
}

/// Padding a padded length changes nothing.
pub proof fn lemma_padding_idempotent(size: nat, mtu: nat)
    ensures
        padded_len(padded_len(size as int, mtu as int), mtu as int) == padded_len(
            size as int,
            mtu as int,
        ),
{
}

} // verus!
