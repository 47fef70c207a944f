//! Single-bit access to the packed flag bytes and words used by the bus
//! records and the processor status registers.

use vstd::prelude::*;

verus! {

/// Whether bit number `flag` of `byte` is set.
pub open spec fn bit_u8(byte: u8, flag: u8) -> bool {
    byte & (1u8 << flag) != 0
}

/// `byte` with bit number `flag` forced to `value`; every other bit is kept.
pub open spec fn with_bit_u8(byte: u8, flag: u8, value: bool) -> u8 {
    if value {
        byte | (1u8 << flag)
    } else {
        byte & !(1u8 << flag)
    }
}

/// Whether bit number `flag` of `short` is set.
pub open spec fn bit_u16(short: u16, flag: u16) -> bool {
    short & (1u16 << flag) != 0
}

/// `short` with bit number `flag` forced to `value`; every other bit is kept.
pub open spec fn with_bit_u16(short: u16, flag: u16, value: bool) -> u16 {
    if value {
        short | (1u16 << flag)
    } else {
        short & !(1u16 << flag)
    }
}

/// Reading back a bit after one bit was forced: the forced bit reads as the
/// forced value, all others read as before.
pub broadcast proof fn lemma_bit_with_bit_u8(byte: u8, i: u8, j: u8, value: bool)
    requires
        i < 8,
        j < 8,
    ensures
        #[trigger] bit_u8(with_bit_u8(byte, i, value), j) == (if i == j {
            value
        } else {
            bit_u8(byte, j)
        }),
{
    assert((byte | (1u8 << i)) & (1u8 << j) != 0 <==> (i == j || byte & (1u8 << j) != 0))
        by (bit_vector)
        requires
            i < 8,
            j < 8,
    ;
    assert((byte & !(1u8 << i)) & (1u8 << j) != 0 <==> (i != j && byte & (1u8 << j) != 0))
        by (bit_vector)
        requires
            i < 8,
            j < 8,
    ;
}

/// The sixteen-bit counterpart of [`lemma_bit_with_bit_u8`].
pub broadcast proof fn lemma_bit_with_bit_u16(short: u16, i: u16, j: u16, value: bool)
    requires
        i < 16,
        j < 16,
    ensures
        #[trigger] bit_u16(with_bit_u16(short, i, value), j) == (if i == j {
            value
        } else {
            bit_u16(short, j)
        }),
{
    assert((short | (1u16 << i)) & (1u16 << j) != 0 <==> (i == j || short & (1u16 << j) != 0))
        by (bit_vector)
        requires
            i < 16,
            j < 16,
    ;
    assert((short & !(1u16 << i)) & (1u16 << j) != 0 <==> (i != j && short & (1u16 << j) != 0))
        by (bit_vector)
        requires
            i < 16,
            j < 16,
    ;
}

/// No bit of the zero byte is set.
pub proof fn lemma_no_bit_in_zero()
    ensures
        forall|j: u8| j < 8 ==> !#[trigger] bit_u8(0, j),
{
    assert forall|j: u8| j < 8 implies !#[trigger] bit_u8(0, j) by {
        assert(0u8 & (1u8 << j) == 0) by (bit_vector);
    }
}

/// Reads bit number `flag` of `byte`.
pub fn get_flag_u8(byte: u8, flag: u8) -> (set: bool)
    requires
        flag < 8,
    ensures
        set == bit_u8(byte, flag),
{
    byte & (1u8 << flag) != 0
}

/// Forces bit number `flag` of `byte` to `value`.
pub fn set_flag_u8(byte: &mut u8, flag: u8, value: bool)
    requires
        flag < 8,
    ensures
        *final(byte) == with_bit_u8(*old(byte), flag, value),
{
    let mask: u8 = 1u8 << flag;
    if value {
        *byte = *byte | mask;
    } else {
        *byte = *byte & !mask;
    }
}

/// Reads bit number `flag` of `short`.
pub fn get_flag_u16(short: u16, flag: u16) -> (set: bool)
    requires
        flag < 16,
    ensures
        set == bit_u16(short, flag),
{
    short & (1u16 << flag) != 0
}

/// Forces bit number `flag` of `short` to `value`.
pub fn set_flag_u16(short: &mut u16, flag: u16, value: bool)
    requires
        flag < 16,
    ensures
        *final(short) == with_bit_u16(*old(short), flag, value),
{
    let mask: u16 = 1u16 << flag;
    if value {
        *short = *short | mask;
    } else {
        *short = *short & !mask;
    }
}

} // verus!
