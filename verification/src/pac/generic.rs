use vstd::prelude::*;

verus! {

/// Whether bit `offset` of `bits` is 1.
pub open spec fn bit_of(bits: u32, offset: u32) -> bool {
    (bits >> offset) & 1 == 1
}

/// The word `bits` with its bit `offset` set to `value`.
pub open spec fn with_bit(bits: u32, offset: u32, value: bool) -> u32 {
    if value {
        bits | (1u32 << offset)
    } else {
        bits & !(1u32 << offset)
    }
}

/// Whether bit `offset` of `bits` is 1.
pub fn read_bit(bits: u32, offset: u32) -> (b: bool)
    requires
        offset < 32,
    ensures
        b == bit_of(bits, offset),
{
    ((bits >> offset) & 1) == 1
}

/// The word `bits` with its bit `offset` set to `value`.
pub fn write_bit(bits: u32, offset: u32, value: bool) -> (word: u32)
    requires
        offset < 32,
    ensures
        word == with_bit(bits, offset, value),
{
    if value {
        bits | (1u32 << offset)
    } else {
        bits & !(1u32 << offset)
    }
}

/// Setting a bit of a word changes that bit and no other: in the word
/// `with_bit(bits, offset, value)` the bit `offset` is `value`, and every
/// other bit is what it is in `bits`.
pub proof fn lemma_with_bit(bits: u32, offset: u32, value: bool, other: u32)
    requires
        offset < 32,
        other < 32,
    ensures
        bit_of(with_bit(bits, offset, value), other) == (if other == offset {
            value
        } else {
            bit_of(bits, other)
        }),
{
    if value {
        assert(((bits | (1u32 << offset)) >> other) & 1 == (if other == offset {
            1u32
        } else {
            (bits >> other) & 1
        })) by (bit_vector)
            requires
                offset < 32,
                other < 32,
        ;
    } else {
        assert(((bits & !(1u32 << offset)) >> other) & 1 == (if other == offset {
            0u32
        } else {
            (bits >> other) & 1
        })) by (bit_vector)
            requires
                offset < 32,
                other < 32,
        ;
    }
}

/// A bit that is written and then read is the bit written.
pub proof fn lemma_write_read(bits: u32, offset: u32, value: bool)
    requires
        offset < 32,
    ensures
        bit_of(with_bit(bits, offset, value), offset) == value,
{
    lemma_with_bit(bits, offset, value, offset);
}

} // verus!
