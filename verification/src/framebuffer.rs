//! One bit plane of the frame buffer: a packed byte array in which a set bit
//! is a pixel that is off.

use vstd::prelude::*;
use crate::display::is_single_bit;
use crate::BUF_SIZE;

verus! {

/// Whether the bit under `mask` in byte `index` of `plane` is set.
pub open spec fn bit_is_set(plane: Seq<u8>, index: int, mask: u8) -> bool {
    plane[index] & mask != 0
}

/// `plane` with the bits under `mask` in byte `index` set.
pub open spec fn with_bit_set(plane: Seq<u8>, index: int, mask: u8) -> Seq<u8> {
    plane.update(index, plane[index] | mask)
}

/// `plane` with the bits under `mask` in byte `index` cleared.
pub open spec fn with_bit_cleared(plane: Seq<u8>, index: int, mask: u8) -> Seq<u8> {
    plane.update(index, plane[index] & !mask)
}

/// A plane in which every byte is `byte`.
pub open spec fn filled(byte: u8) -> Seq<u8> {
    Seq::new(BUF_SIZE as nat, |i: int| byte)
}

/// Returns a plane in which every byte is `byte`.
pub fn new_plane(byte: u8) -> (plane: [u8; BUF_SIZE])
    ensures
        plane@ == filled(byte),
{
    let plane: [u8; BUF_SIZE] = [byte;BUF_SIZE];
    assert(plane@ =~= filled(byte));
    plane
}

/// Sets the bits under `mask` in byte `index` of `plane`.
pub fn set_bit(plane: &mut [u8; BUF_SIZE], index: usize, mask: u8)
    requires
        index < BUF_SIZE,
    ensures
        final(plane)@ == with_bit_set(old(plane)@, index as int, mask),
{
    let byte: u8 = plane[index];
    plane[index] = byte | mask;
}

/// Clears the bits under `mask` in byte `index` of `plane`.
pub fn clear_bit(plane: &mut [u8; BUF_SIZE], index: usize, mask: u8)
    requires
        index < BUF_SIZE,
    ensures
        final(plane)@ == with_bit_cleared(old(plane)@, index as int, mask),
{
    let byte: u8 = plane[index];
    plane[index] = byte & !mask;
}

/// Tells whether the bit under `mask` in byte `index` of `plane` is set.
pub fn test_bit(plane: &[u8; BUF_SIZE], index: usize, mask: u8) -> (set: bool)
    requires
        index < BUF_SIZE,
    ensures
        set == bit_is_set(plane@, index as int, mask),
{
    plane[index] & mask != 0
}

/// What setting or clearing one bit of a byte does to that bit and to each
/// other bit of the byte.
pub proof fn one_bit_of_a_byte(byte: u8, mask: u8, other: u8)
    requires
        is_single_bit(mask),
        is_single_bit(other),
    ensures
        (byte | mask) & mask != 0,
        (byte & !mask) & mask == 0,
        other != mask ==> (byte | mask) & other == byte & other,
        other != mask ==> (byte & !mask) & other == byte & other,
        byte & mask != 0 ==> byte | mask == byte,
        byte & mask == 0 ==> byte & !mask == byte,
{
    assert(is_single_bit(mask) && is_single_bit(other) ==> {
        &&& (byte | mask) & mask != 0
        &&& (byte & !mask) & mask == 0
        &&& (other != mask ==> (byte | mask) & other == byte & other)
        &&& (other != mask ==> (byte & !mask) & other == byte & other)
        &&& (byte & mask != 0 ==> byte | mask == byte)
        &&& (byte & mask == 0 ==> byte & !mask == byte)
    }) by (bit_vector);
}

/// Setting a bit sets it and leaves every other bit of the plane as it was.
pub proof fn set_bit_touches_one_bit(plane: Seq<u8>, index: int, mask: u8, index2: int, mask2: u8)
    requires
        0 <= index < plane.len(),
        0 <= index2 < plane.len(),
        is_single_bit(mask),
        is_single_bit(mask2),
    ensures
        bit_is_set(with_bit_set(plane, index, mask), index, mask),
        (index2, mask2) != (index, mask) ==> bit_is_set(
            with_bit_set(plane, index, mask),
            index2,
            mask2,
        ) == bit_is_set(plane, index2, mask2),
        bit_is_set(plane, index, mask) ==> with_bit_set(plane, index, mask) == plane,
{
    one_bit_of_a_byte(plane[index], mask, mask2);
    if bit_is_set(plane, index, mask) {
        assert(with_bit_set(plane, index, mask) =~= plane);
    }
}

/// Clearing a bit clears it and leaves every other bit of the plane as it
/// was.
pub proof fn clear_bit_touches_one_bit(
    plane: Seq<u8>,
    index: int,
    mask: u8,
    index2: int,
    mask2: u8,
)
    requires
        0 <= index < plane.len(),
        0 <= index2 < plane.len(),
        is_single_bit(mask),
        is_single_bit(mask2),
    ensures
        !bit_is_set(with_bit_cleared(plane, index, mask), index, mask),
        (index2, mask2) != (index, mask) ==> bit_is_set(
            with_bit_cleared(plane, index, mask),
            index2,
            mask2,
        ) == bit_is_set(plane, index2, mask2),
        !bit_is_set(plane, index, mask) ==> with_bit_cleared(plane, index, mask) == plane,
{
    one_bit_of_a_byte(plane[index], mask, mask2);
    if !bit_is_set(plane, index, mask) {
        assert(with_bit_cleared(plane, index, mask) =~= plane);
    }
}

/// In a plane of all ones every bit is set; in a plane of zeros none is.
pub proof fn bits_of_filled_planes(index: int, mask: u8)
    requires
        0 <= index < BUF_SIZE,
        is_single_bit(mask),
    ensures
        bit_is_set(filled(0xFF), index, mask),
        !bit_is_set(filled(0x00), index, mask),
{
    assert(is_single_bit(mask) ==> 0xFFu8 & mask != 0 && 0x00u8 & mask == 0) by (bit_vector);
}

} // verus!
