//! Reading single bits and halves of 64-bit register values.
use vstd::prelude::*;

verus! {

/// Bits 31:0 of `value`.
pub open spec fn spec_low32(value: u64) -> u32 {
    (value % 0x1_0000_0000) as u32
}

/// Bits 63:32 of `value`.
pub open spec fn spec_high32(value: u64) -> u32 {
    (value / 0x1_0000_0000) as u32
}

/// The halves of a 64-bit value are what masking and shifting give.
pub proof fn lemma_halves(value: u64)
    ensures
        spec_low32(value) == value & 0xffff_ffff,
        spec_high32(value) == value >> 32,
        value == spec_low32(value) + spec_high32(value) * 0x1_0000_0000,
{
    assert(value & 0xffff_ffff == value % 0x1_0000_0000 && value >> 32 == value / 0x1_0000_0000
        && (value >> 32) <= 0xffff_ffff) by (bit_vector);
}

/// Bits 31:0 of `value`.
#[verifier::when_used_as_spec(spec_low32)]
pub fn low32(value: u64) -> (low: u32)
    ensures
        low == spec_low32(value),
{
    proof {
        lemma_halves(value);
    }
    (value & 0xffff_ffff) as u32
}

/// Bits 63:32 of `value`.
#[verifier::when_used_as_spec(spec_high32)]
pub fn high32(value: u64) -> (high: u32)
    ensures
        high == spec_high32(value),
{
    proof {
        lemma_halves(value);
    }
    (value >> 32) as u32
}

/// Whether `value` has the bit set whose weight is `weight`, a power of two:
/// whether `weight` goes into `value` an odd number of times.
pub open spec fn spec_bit(value: u64, weight: u64) -> bool {
    weight != 0 && (value / weight) % 2 == 1
}

/// For the weights that the registers of this crate use, a bit is set
/// exactly if masking with its weight leaves something; clearing the bit
/// takes its weight away, and setting it adds the weight.
pub proof fn lemma_bits(value: u64)
    by (bit_vector)
    ensures
        (value & 0x1 != 0) == ((value / 0x1) % 2 == 1),
        (value & 0x4 != 0) == ((value / 0x4) % 2 == 1),
        (value & 0x40 != 0) == ((value / 0x40) % 2 == 1),
        (value & 0x80 != 0) == ((value / 0x80) % 2 == 1),
        (value & 0x200 != 0) == ((value / 0x200) % 2 == 1),
        (value & 0x400 != 0) == ((value / 0x400) % 2 == 1),
        (value & 0x800 != 0) == ((value / 0x800) % 2 == 1),
        (value & 0x1000_0000_0000 != 0) == ((value / 0x1000_0000_0000) % 2 == 1),
        (value & 0x80_0000_0000_0000 != 0) == ((value / 0x80_0000_0000_0000) % 2 == 1),
        value & !0x200u64 == value - ((value / 0x200) % 2) * 0x200,
        value | 0x4u64 | 0x1u64 == value + (1 - (value / 0x1) % 2) * 0x1 + (1 - (value / 0x4) % 2)
            * 0x4,
{
}

/// For every single bit, the bit is set exactly if masking with its weight
/// leaves something.
pub proof fn lemma_bit_is_mask(value: u64, index: u64)
    requires
        index < 64,
    ensures
        spec_bit(value, 1u64 << index) == (value & (1u64 << index) != 0),
{
    let weight = 1u64 << index;
    vstd::bits::lemma_u64_pow2_no_overflow(index as nat);
    vstd::bits::lemma_u64_shl_is_mul(1, index);
    vstd::bits::lemma_u64_shr_is_div(value, index);
    assert(((value >> index) % 2 == 1) == (value & (1u64 << index) != 0)) by (bit_vector)
        requires
            index < 64,
    ;
}

/// Whether `value` has the bit set whose weight is `weight`, a power of two.
#[verifier::when_used_as_spec(spec_bit)]
pub fn bit(value: u64, weight: u64) -> (set: bool)
    ensures
        set == spec_bit(value, weight),
{
    weight != 0 && (value / weight) % 2 == 1
}

} // verus!
