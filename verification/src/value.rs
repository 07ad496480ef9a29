//! 128-bit values as ordered pairs of 64-bit words.
//!
//! The high word holds the most significant 64 bits. Two values are equal
//! exactly when both of their words are.

use vstd::arithmetic::div_mod::lemma_fundamental_div_mod;
use vstd::arithmetic::div_mod::lemma_fundamental_div_mod_converse;
use vstd::prelude::*;

verus! {

/// Two to the power of 64: the weight of the high word.
pub open spec fn word_modulus() -> int {
    0x1_0000_0000_0000_0000
}

/// The 128-bit value whose words are `high` and `low`.
pub open spec fn spec_from_parts(high: u64, low: u64) -> u128 {
    (high * word_modulus() + low) as u128
}

/// The most significant 64 bits of `value`.
pub open spec fn spec_high64(value: u128) -> u64 {
    (value / (word_modulus() as u128)) as u64
}

/// The least significant 64 bits of `value`.
pub open spec fn spec_low64(value: u128) -> u64 {
    (value % (word_modulus() as u128)) as u64
}

/// Packs two 64-bit words into one 128-bit value, `high` first.
pub fn from_parts(high: u64, low: u64) -> (value: u128)
    ensures
        value == spec_from_parts(high, low),
        spec_high64(value) == high,
        spec_low64(value) == low,
{
    let value: u128 = ((high as u128) << 64) | (low as u128);
    proof {
        assert(((high as u128) << 64) | (low as u128) == (high as u128) * 0x1_0000_0000_0000_0000
            + (low as u128)) by (bit_vector);
        lemma_parts_round_trip(high, low);
    }
    value
}

/// The high word of `value`.
pub fn high64(value: u128) -> (high: u64)
    ensures
        high == spec_high64(value),
{
    let word: u128 = value >> 64;
    proof {
        assert(value >> 64 == value / 0x1_0000_0000_0000_0000) by (bit_vector);
    }
    word as u64
}

/// The low word of `value`.
pub fn low64(value: u128) -> (low: u64)
    ensures
        low == spec_low64(value),
{
    let word: u128 = value & 0xffff_ffff_ffff_ffff;
    proof {
        assert(value & 0xffff_ffff_ffff_ffff == value % 0x1_0000_0000_0000_0000) by (bit_vector);
    }
    word as u64
}

/// Splitting a packed value gives back the two words it was packed from.
pub proof fn lemma_parts_round_trip(high: u64, low: u64)
    ensures
        spec_high64(spec_from_parts(high, low)) == high,
        spec_low64(spec_from_parts(high, low)) == low,
{
    let packed: int = high * word_modulus() + low;
    assert(0 <= packed <= u128::MAX);
    lemma_fundamental_div_mod_converse(packed, word_modulus(), high as int, low as int);
}

/// Packing the two words of a value gives back the value.
pub proof fn lemma_halves_rebuild(value: u128)
    ensures
        spec_from_parts(spec_high64(value), spec_low64(value)) == value,
{
    lemma_fundamental_div_mod(value as int, word_modulus());
    assert(0 <= value as int / word_modulus() <= u64::MAX);
    assert(0 <= value as int % word_modulus() <= u64::MAX);
}

/// Two 128-bit values are equal exactly when their high words are equal and
/// their low words are equal.
pub proof fn lemma_equal_iff_halves_equal(a: u128, b: u128)
    ensures
        a == b <==> (spec_high64(a) == spec_high64(b) && spec_low64(a) == spec_low64(b)),
{
    lemma_halves_rebuild(a);
    lemma_halves_rebuild(b);
}

/// A packed value is its low word, widened, exactly when its high word is
/// zero.
pub proof fn lemma_narrow_value(high: u64, low: u64)
    ensures
        spec_from_parts(high, low) == low as u128 <==> high == 0,
{
    lemma_parts_round_trip(high, low);
    lemma_parts_round_trip(0, low);
}

} // verus!
