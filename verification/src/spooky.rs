//! SpookyHash: one-shot and streaming adapters over the native functions.
//!
//! SpookyHash takes a seed of two 64-bit words and gives a result of two
//! 64-bit words, for one-shot hashing and for its streaming state alike. The
//! mixing is native code and is not part of this crate: the adapters are
//! generic in it. This module holds what they decide on either side of a
//! native call: which two words a seed of each width becomes, and which value
//! the two result words become.

use crate::hasher::is_functional;
use crate::hasher::FastHash;
use crate::value::from_parts;
use crate::value::high64;
use crate::value::lemma_equal_iff_halves_equal;
use crate::value::lemma_parts_round_trip;
use crate::value::low64;
use crate::value::spec_from_parts;
use crate::value::spec_high64;
use crate::value::spec_low64;
use core::marker::PhantomData;
use vstd::prelude::*;

verus! {

/// The native one-shot SpookyHash.
///
/// Nothing is asked of an implementation here. What the adapters promise is
/// stated in terms of what this function promises.
pub trait SpookyMix {
    /// Mixes `bytes` under two seed words into two result words.
    fn mix(bytes: &[u8], seed1: u64, seed2: u64) -> (u64, u64);
}

/// The native streaming state of SpookyHash: fixed in size, changed in place
/// by every update, and read without being changed.
///
/// Nothing is asked of an implementation here but what the signatures say: a
/// state is made from two seed words, and reading needs no more than a shared
/// borrow. The state is released when its owner drops it.
pub trait SpookyState: Sized {
    /// Makes a state from two seed words.
    fn init(seed1: u64, seed2: u64) -> Self;

    /// Takes `bytes` into the state.
    fn update(&mut self, bytes: &[u8]);

    /// The two result words for everything taken in so far.
    fn read(&self) -> (u64, u64);
}

/// The seed words for a 32-bit seed: the seed, widened, in both words.
pub open spec fn spec_seed_words32(seed: u32) -> (u64, u64) {
    (seed as u64, seed as u64)
}

/// The seed words for a 64-bit seed: the seed in both words.
pub open spec fn spec_seed_words64(seed: u64) -> (u64, u64) {
    (seed, seed)
}

/// The seed words for a 128-bit seed: its high word, then its low word.
pub open spec fn spec_seed_words128(seed: u128) -> (u64, u64) {
    (spec_high64(seed), spec_low64(seed))
}

/// The 32-bit value of a result: the low 32 bits of its first word.
pub open spec fn spec_value32(hash1: u64, hash2: u64) -> u32 {
    (hash1 % 0x1_0000_0000) as u32
}

/// The 64-bit value of a result: its first word.
pub open spec fn spec_value64(hash1: u64, hash2: u64) -> u64 {
    hash1
}

/// The 128-bit value of a result: the first word as the high half, the second
/// as the low half.
pub open spec fn spec_value128(hash1: u64, hash2: u64) -> u128 {
    spec_from_parts(hash1, hash2)
}

/// The two words handed to the native code for a 32-bit seed.
pub fn seed_words32(seed: u32) -> (words: (u64, u64))
    ensures
        words == spec_seed_words32(seed),
{
    (seed as u64, seed as u64)
}

/// The two words handed to the native code for a 64-bit seed.
pub fn seed_words64(seed: u64) -> (words: (u64, u64))
    ensures
        words == spec_seed_words64(seed),
{
    (seed, seed)
}

/// The two words handed to the native code for a 128-bit seed.
pub fn seed_words128(seed: u128) -> (words: (u64, u64))
    ensures
        words == spec_seed_words128(seed),
{
    (high64(seed), low64(seed))
}

/// The 32-bit value made from the two words the native code gave back.
pub fn value32(hash1: u64, hash2: u64) -> (value: u32)
    ensures
        value == spec_value32(hash1, hash2),
{
    let low: u64 = hash1 & 0xffff_ffff;
    proof {
        assert(hash1 & 0xffff_ffff == hash1 % 0x1_0000_0000) by (bit_vector);
    }
    low as u32
}

/// The 64-bit value made from the two words the native code gave back.
pub fn value64(hash1: u64, hash2: u64) -> (value: u64)
    ensures
        value == spec_value64(hash1, hash2),
{
    hash1
}

/// The 128-bit value made from the two words the native code gave back.
pub fn value128(hash1: u64, hash2: u64) -> (value: u128)
    ensures
        value == spec_value128(hash1, hash2),
        spec_high64(value) == hash1,
        spec_low64(value) == hash2,
{
    from_parts(hash1, hash2)
}

/// Whether `words` is a result of the native one-shot function `M` on `bytes`
/// under the seed words `seed`.
pub open spec fn is_mix<M: SpookyMix>(bytes: &[u8], seed: (u64, u64), words: (u64, u64)) -> bool {
    call_ensures(M::mix, (bytes, seed.0, seed.1), words)
}

/// SpookyHash with 32-bit values and 32-bit seeds, over the native function
/// `M`.
pub struct SpookyHash32<M: SpookyMix> {
    mix: PhantomData<M>,
}

impl<M: SpookyMix> SpookyHash32<M> {
    /// Whether `value` is a hash of `bytes` under `seed`: the 32-bit value of
    /// a result that the native function can give for the bytes and the seed
    /// words of `seed`.
    pub open spec fn is_hash(bytes: &[u8], seed: u32, value: u32) -> bool {
        exists|words: (u64, u64)|
            is_mix::<M>(bytes, spec_seed_words32(seed), words) && value == spec_value32(
                words.0,
                words.1,
            )
    }
}

impl<M: SpookyMix> FastHash for SpookyHash32<M> {
    type Value = u32;

    type Seed = u32;

    /// Hashes `bytes` without a seed, which is hashing under seed zero.
    fn hash(bytes: &[u8]) -> (value: u32)
        ensures
            Self::is_hash(bytes, 0, value),
    {
        Self::hash_with_seed(bytes, 0)
    }

    /// Hashes `bytes` under `seed`: hands the native function the bytes and
    /// the seed words, and makes the value from the words that come back.
    fn hash_with_seed(bytes: &[u8], seed: u32) -> (value: u32)
        ensures
            Self::is_hash(bytes, seed, value),
    {
        let seed_words = seed_words32(seed);
        let words = M::mix(bytes, seed_words.0, seed_words.1);
        assert(is_mix::<M>(bytes, spec_seed_words32(seed), words));
        value32(words.0, words.1)
    }
}

/// SpookyHash with 64-bit values and 64-bit seeds, over the native function
/// `M`.
pub struct SpookyHash64<M: SpookyMix> {
    mix: PhantomData<M>,
}

impl<M: SpookyMix> SpookyHash64<M> {
    /// Whether `value` is a hash of `bytes` under `seed`: the 64-bit value of
    /// a result that the native function can give for the bytes and the seed
    /// words of `seed`.
    pub open spec fn is_hash(bytes: &[u8], seed: u64, value: u64) -> bool {
        exists|words: (u64, u64)|
            is_mix::<M>(bytes, spec_seed_words64(seed), words) && value == spec_value64(
                words.0,
                words.1,
            )
    }
}

impl<M: SpookyMix> FastHash for SpookyHash64<M> {
    type Value = u64;

    type Seed = u64;

    /// Hashes `bytes` without a seed, which is hashing under seed zero.
    fn hash(bytes: &[u8]) -> (value: u64)
        ensures
            Self::is_hash(bytes, 0, value),
    {
        Self::hash_with_seed(bytes, 0)
    }

    /// Hashes `bytes` under `seed`: hands the native function the bytes and
    /// the seed words, and makes the value from the words that come back.
    fn hash_with_seed(bytes: &[u8], seed: u64) -> (value: u64)
        ensures
            Self::is_hash(bytes, seed, value),
    {
        let seed_words = seed_words64(seed);
        let words = M::mix(bytes, seed_words.0, seed_words.1);
        assert(is_mix::<M>(bytes, spec_seed_words64(seed), words));
        value64(words.0, words.1)
    }
}

/// SpookyHash with 128-bit values and 128-bit seeds, over the native function
/// `M`.
pub struct SpookyHash128<M: SpookyMix> {
    mix: PhantomData<M>,
}

impl<M: SpookyMix> SpookyHash128<M> {
    /// Whether `value` is a hash of `bytes` under `seed`: the 128-bit value
    /// of a result that the native function can give for the bytes and the
    /// seed words of `seed`.
    pub open spec fn is_hash(bytes: &[u8], seed: u128, value: u128) -> bool {
        exists|words: (u64, u64)|
            is_mix::<M>(bytes, spec_seed_words128(seed), words) && value == spec_value128(
                words.0,
                words.1,
            )
    }
}

impl<M: SpookyMix> FastHash for SpookyHash128<M> {
    type Value = u128;

    type Seed = u128;

    /// Hashes `bytes` without a seed, which is hashing under seed zero.
    fn hash(bytes: &[u8]) -> (value: u128)
        ensures
            Self::is_hash(bytes, 0, value),
    {
        Self::hash_with_seed(bytes, 0)
    }

    /// Hashes `bytes` under `seed`: hands the native function the bytes and
    /// the seed words, and makes the value from the words that come back.
    fn hash_with_seed(bytes: &[u8], seed: u128) -> (value: u128)
        ensures
            Self::is_hash(bytes, seed, value),
    {
        let seed_words = seed_words128(seed);
        let words = M::mix(bytes, seed_words.0, seed_words.1);
        assert(is_mix::<M>(bytes, spec_seed_words128(seed), words));
        value128(words.0, words.1)
    }
}

/// The 32-bit SpookyHash of a byte sequence.
pub fn hash32<M: SpookyMix>(s: &[u8]) -> (value: u32)
    ensures
        SpookyHash32::<M>::is_hash(s, 0, value),
{
    SpookyHash32::<M>::hash(s)
}

/// The 32-bit SpookyHash of a byte sequence under a seed.
pub fn hash32_with_seed<M: SpookyMix>(s: &[u8], seed: u32) -> (value: u32)
    ensures
        SpookyHash32::<M>::is_hash(s, seed, value),
{
    SpookyHash32::<M>::hash_with_seed(s, seed)
}

/// The 64-bit SpookyHash of a byte sequence.
pub fn hash64<M: SpookyMix>(s: &[u8]) -> (value: u64)
    ensures
        SpookyHash64::<M>::is_hash(s, 0, value),
{
    SpookyHash64::<M>::hash(s)
}

/// The 64-bit SpookyHash of a byte sequence under a seed.
pub fn hash64_with_seed<M: SpookyMix>(s: &[u8], seed: u64) -> (value: u64)
    ensures
        SpookyHash64::<M>::is_hash(s, seed, value),
{
    SpookyHash64::<M>::hash_with_seed(s, seed)
}

/// The 128-bit SpookyHash of a byte sequence.
pub fn hash128<M: SpookyMix>(s: &[u8]) -> (value: u128)
    ensures
        SpookyHash128::<M>::is_hash(s, 0, value),
{
    SpookyHash128::<M>::hash(s)
}

/// The 128-bit SpookyHash of a byte sequence under a seed.
pub fn hash128_with_seed<M: SpookyMix>(s: &[u8], seed: u128) -> (value: u128)
    ensures
        SpookyHash128::<M>::is_hash(s, seed, value),
{
    SpookyHash128::<M>::hash_with_seed(s, seed)
}

/// The streaming SpookyHash with a 64-bit seed, over the native state `S`.
///
/// The hasher is the only owner of its state: it is neither `Clone` nor
/// `Copy`, it hands out no reference to the state, and the state goes when
/// the hasher goes. Reading a digest borrows the hasher shared, so a digest
/// can be asked for at any time and writing can go on after it.
pub struct SpookyHasher<S: SpookyState> {
    state: S,
}

impl<S: SpookyState> SpookyHasher<S> {
    /// The native state that the hasher owns.
    pub closed spec fn state(&self) -> S {
        self.state
    }

    /// Whether `value` is a digest of the native state `state`: the 64-bit
    /// value of two words that reading the state can give.
    pub open spec fn is_digest(state: S, value: u64) -> bool {
        exists|words: (u64, u64)|
            call_ensures(S::read, (&state,), words) && value == spec_value64(words.0, words.1)
    }

    /// A hasher without a seed, which is one with seed zero.
    pub fn new() -> (hasher: Self)
        ensures
            call_ensures(S::init, (0u64, 0u64), hasher.state()),
    {
        Self::with_seed(0)
    }

    /// A hasher with the given seed: its state is made from the seed in both
    /// seed words.
    pub fn with_seed(seed: u64) -> (hasher: Self)
        ensures
            call_ensures(
                S::init,
                (spec_seed_words64(seed).0, spec_seed_words64(seed).1),
                hasher.state(),
            ),
    {
        let words = seed_words64(seed);
        SpookyHasher { state: S::init(words.0, words.1) }
    }

    /// Takes `bytes` into the native state: the state after the call is one
    /// that the native update can leave when it is given the state before and
    /// the bytes.
    pub fn write(&mut self, bytes: &[u8])
        ensures
            exists|state: &mut S|
                *state == old(self).state() && *final(state) == final(self).state()
                    && call_ensures(S::update, (state, bytes), ()),
    {
        self.state.update(bytes);
    }

    /// The digest of everything written so far: the first of the two words
    /// that the state reports. The state is read and left as it is.
    pub fn finish(&self) -> (value: u64)
        ensures
            Self::is_digest(self.state(), value),
    {
        let words = self.state.read();
        value64(words.0, words.1)
    }
}

impl<S: SpookyState> core::hash::Hasher for SpookyHasher<S> {
    fn finish(&self) -> (value: u64)
        ensures
            Self::is_digest(self.state(), value),
    {
        SpookyHasher::finish(self)
    }

    fn write(&mut self, bytes: &[u8])
        ensures
            exists|state: &mut S|
                *state == old(self).state() && *final(state) == final(self).state()
                    && call_ensures(S::update, (state, bytes), ()),
    {
        SpookyHasher::write(self, bytes)
    }
}

impl<S: SpookyState> Default for SpookyHasher<S> {
    fn default() -> (hasher: Self)
        ensures
            call_ensures(S::init, (0u64, 0u64), hasher.state()),
    {
        SpookyHasher::new()
    }
}

/// The streaming SpookyHash with a 128-bit seed and a 128-bit digest, over
/// the native state `S`. It owns its state as [`SpookyHasher`] does.
pub struct SpookyHasherExt<S: SpookyState> {
    state: S,
}

impl<S: SpookyState> SpookyHasherExt<S> {
    /// The native state that the hasher owns.
    pub closed spec fn state(&self) -> S {
        self.state
    }

    /// Whether `value` is a full digest of the native state `state`: the
    /// 128-bit value of two words that reading the state can give.
    pub open spec fn is_digest_ext(state: S, value: u128) -> bool {
        exists|words: (u64, u64)|
            call_ensures(S::read, (&state,), words) && value == spec_value128(words.0, words.1)
    }

    /// Whether `value` is a 64-bit digest of the native state `state`: the
    /// low half of a full digest, which is the second of the two words.
    pub open spec fn is_digest(state: S, value: u64) -> bool {
        exists|words: (u64, u64)|
            call_ensures(S::read, (&state,), words) && value == spec_low64(
                spec_value128(words.0, words.1),
            ) && value == words.1
    }

    /// A hasher without a seed, which is one with seed zero.
    pub fn new() -> (hasher: Self)
        ensures
            call_ensures(S::init, (0u64, 0u64), hasher.state()),
    {
        Self::with_seed(0)
    }

    /// A hasher with the given seed: its state is made from the high word
    /// and the low word of the seed.
    pub fn with_seed(seed: u128) -> (hasher: Self)
        ensures
            call_ensures(
                S::init,
                (spec_seed_words128(seed).0, spec_seed_words128(seed).1),
                hasher.state(),
            ),
    {
        let words = seed_words128(seed);
        SpookyHasherExt { state: S::init(words.0, words.1) }
    }

    /// Takes `bytes` into the native state: the state after the call is one
    /// that the native update can leave when it is given the state before and
    /// the bytes.
    pub fn write(&mut self, bytes: &[u8])
        ensures
            exists|state: &mut S|
                *state == old(self).state() && *final(state) == final(self).state()
                    && call_ensures(S::update, (state, bytes), ()),
    {
        self.state.update(bytes);
    }

    /// The full digest of everything written so far: the two words that the
    /// state reports, the first as the high half. The state is read and left
    /// as it is.
    pub fn finish_ext(&self) -> (value: u128)
        ensures
            Self::is_digest_ext(self.state(), value),
    {
        let words = self.state.read();
        value128(words.0, words.1)
    }

    /// The 64-bit digest of everything written so far: the low half of the
    /// full digest, not its high half.
    pub fn finish(&self) -> (value: u64)
        ensures
            Self::is_digest(self.state(), value),
    {
        let words = self.state.read();
        proof {
            lemma_parts_round_trip(words.0, words.1);
        }
        low64(value128(words.0, words.1))
    }
}

impl<S: SpookyState> core::hash::Hasher for SpookyHasherExt<S> {
    fn finish(&self) -> (value: u64)
        ensures
            Self::is_digest(self.state(), value),
    {
        SpookyHasherExt::finish(self)
    }

    fn write(&mut self, bytes: &[u8])
        ensures
            exists|state: &mut S|
                *state == old(self).state() && *final(state) == final(self).state()
                    && call_ensures(S::update, (state, bytes), ()),
    {
        SpookyHasherExt::write(self, bytes)
    }
}

impl<S: SpookyState> Default for SpookyHasherExt<S> {
    fn default() -> (hasher: Self)
        ensures
            call_ensures(S::init, (0u64, 0u64), hasher.state()),
    {
        SpookyHasherExt::new()
    }
}

/// The 32-bit algorithm seeds as the 64-bit one does on the widened seed, and
/// its value is the low 32 bits of the 64-bit value of the same result.
pub proof fn lemma_width_32_in_64(seed: u32, hash1: u64, hash2: u64)
    ensures
        spec_seed_words32(seed) == spec_seed_words64(seed as u64),
        spec_value32(hash1, hash2) == spec_value64(hash1, hash2) % 0x1_0000_0000,
{
}

/// The 64-bit algorithm seeds as the 128-bit one does on the seed that has
/// the 64-bit seed in both halves, and its value is the high half of the
/// 128-bit value of the same result.
pub proof fn lemma_width_64_in_128(seed: u64, hash1: u64, hash2: u64)
    ensures
        spec_seed_words64(seed) == spec_seed_words128(spec_from_parts(seed, seed)),
        spec_value64(hash1, hash2) == spec_high64(spec_value128(hash1, hash2)),
{
    lemma_parts_round_trip(seed, seed);
    lemma_parts_round_trip(hash1, hash2);
}

/// The low half of the 128-bit value is the 64-bit value of the same result
/// when the two result words are equal. When they differ it is not: the
/// 64-bit value is the first word, and the first word is the high half.
pub proof fn lemma_low_half_is_narrow_value(hash1: u64, hash2: u64)
    requires
        hash1 == hash2,
    ensures
        spec_low64(spec_value128(hash1, hash2)) == spec_value64(hash1, hash2),
{
    lemma_parts_round_trip(hash1, hash2);
}

/// The low half of the 128-bit value is the second result word, whatever the
/// first is.
pub proof fn lemma_low_half_is_second_word(hash1: u64, hash2: u64)
    ensures
        spec_low64(spec_value128(hash1, hash2)) == hash2,
{
    lemma_parts_round_trip(hash1, hash2);
}

/// A seed is never ignored: seeds that differ give seed words that differ.
pub proof fn lemma_seed_words_injective(a: u64, b: u64, wide_a: u128, wide_b: u128)
    ensures
        spec_seed_words64(a) == spec_seed_words64(b) ==> a == b,
        spec_seed_words128(wide_a) == spec_seed_words128(wide_b) ==> wide_a == wide_b,
{
    lemma_equal_iff_halves_equal(wide_a, wide_b);
}

/// The one-shot hashes of the three widths are made from one native result:
/// whatever the 128-bit algorithm gives under the seed with `seed` in both
/// halves, its high half is a hash by the 64-bit algorithm under `seed`.
pub proof fn lemma_wide_hash_holds_narrow_hash<M: SpookyMix>(bytes: &[u8], seed: u64, wide: u128)
    requires
        SpookyHash128::<M>::is_hash(bytes, spec_from_parts(seed, seed), wide),
    ensures
        SpookyHash64::<M>::is_hash(bytes, seed, spec_high64(wide)),
{
    lemma_parts_round_trip(seed, seed);
    let words = choose|words: (u64, u64)|
        is_mix::<M>(bytes, spec_seed_words128(spec_from_parts(seed, seed)), words) && wide
            == spec_value128(words.0, words.1);
    lemma_parts_round_trip(words.0, words.1);
    assert(is_mix::<M>(bytes, spec_seed_words64(seed), words));
}

/// Whether the native one-shot function `M` gives one result per input: for
/// equal bytes and equal seed words, equal result words.
pub open spec fn mix_is_function<M: SpookyMix>() -> bool {
    forall|a: &[u8], b: &[u8], seed1: u64, seed2: u64, x: (u64, u64), y: (u64, u64)|
        a@ == b@ && #[trigger] call_ensures(M::mix, (a, seed1, seed2), x)
            && #[trigger] call_ensures(M::mix, (b, seed1, seed2), y) ==> x == y
}

/// Where the native function gives one result per input, so do the three
/// families: hashing the same bytes under the same seed twice gives the same
/// value, at every width.
pub proof fn lemma_spooky_is_functional<M: SpookyMix>()
    requires
        mix_is_function::<M>(),
    ensures
        is_functional::<SpookyHash32<M>>(),
        is_functional::<SpookyHash64<M>>(),
        is_functional::<SpookyHash128<M>>(),
{
}

/// Where the native function gives one result per input, two results for
/// equal bytes under the same seed words are the same two words.
pub proof fn lemma_hash_is_function<M: SpookyMix>(
    a: &[u8],
    b: &[u8],
    seed: (u64, u64),
    x: (u64, u64),
    y: (u64, u64),
)
    requires
        mix_is_function::<M>(),
    ensures
        a@ == b@ && is_mix::<M>(a, seed, x) && is_mix::<M>(b, seed, y) ==> x == y,
{
}

/// Where the native function gives one result per input, equal bytes have
/// one hash under each seed, at every width.
pub proof fn lemma_hashes_are_unique<M: SpookyMix>(a: &[u8], b: &[u8])
    requires
        mix_is_function::<M>(),
        a@ == b@,
    ensures
        forall|seed: u32, x: u32, y: u32|
            SpookyHash32::<M>::is_hash(a, seed, x) && SpookyHash32::<M>::is_hash(b, seed, y)
                ==> x == y,
        forall|seed: u64, x: u64, y: u64|
            SpookyHash64::<M>::is_hash(a, seed, x) && SpookyHash64::<M>::is_hash(b, seed, y)
                ==> x == y,
        forall|seed: u128, x: u128, y: u128|
            SpookyHash128::<M>::is_hash(a, seed, x) && SpookyHash128::<M>::is_hash(b, seed, y)
                ==> x == y,
{
}

/// The adapters let a seed's effect through: where the native function gives
/// different words for some bytes under the seed words of two seeds, the
/// 128-bit hashes under the two seeds differ, and where it gives different
/// first words, the 64-bit hashes differ.
pub proof fn lemma_seed_effect_reaches_the_hash<M: SpookyMix>(
    bytes: &[u8],
    seed: u64,
    other: u64,
    wide_seed: u128,
    wide_other: u128,
)
    ensures
        (forall|x: (u64, u64), y: (u64, u64)|
            is_mix::<M>(bytes, spec_seed_words64(seed), x) && is_mix::<M>(
                bytes,
                spec_seed_words64(other),
                y,
            ) ==> x.0 != y.0) ==> (forall|x: u64, y: u64|
            SpookyHash64::<M>::is_hash(bytes, seed, x) && SpookyHash64::<M>::is_hash(
                bytes,
                other,
                y,
            ) ==> x != y),
        (forall|x: (u64, u64), y: (u64, u64)|
            is_mix::<M>(bytes, spec_seed_words128(wide_seed), x) && is_mix::<M>(
                bytes,
                spec_seed_words128(wide_other),
                y,
            ) ==> x != y) ==> (forall|x: u128, y: u128|
            SpookyHash128::<M>::is_hash(bytes, wide_seed, x) && SpookyHash128::<M>::is_hash(
                bytes,
                wide_other,
                y,
            ) ==> x != y),
{
    if forall|x: (u64, u64), y: (u64, u64)|
        is_mix::<M>(bytes, spec_seed_words128(wide_seed), x) && is_mix::<M>(
            bytes,
            spec_seed_words128(wide_other),
            y,
        ) ==> x != y {
        assert forall|x: u128, y: u128|
            SpookyHash128::<M>::is_hash(bytes, wide_seed, x) && SpookyHash128::<M>::is_hash(
                bytes,
                wide_other,
                y,
            ) implies x != y by {
            let a = choose|a: (u64, u64)|
                is_mix::<M>(bytes, spec_seed_words128(wide_seed), a) && x == spec_value128(
                    a.0,
                    a.1,
                );
            let b = choose|b: (u64, u64)|
                is_mix::<M>(bytes, spec_seed_words128(wide_other), b) && y == spec_value128(
                    b.0,
                    b.1,
                );
            lemma_parts_round_trip(a.0, a.1);
            lemma_parts_round_trip(b.0, b.1);
        }
    }
}

/// The bytes of `chunks`, one chunk after the other.
pub open spec fn joined(chunks: Seq<&[u8]>) -> Seq<u8>
    decreases chunks.len(),
{
    if chunks.len() == 0 {
        Seq::empty()
    } else {
        joined(chunks.drop_last()) + chunks.last()@
    }
}

proof fn lemma_faithful_state_keeps_all<S: SpookyState>(
    seeds: spec_fn(S) -> (u64, u64),
    taken: spec_fn(S) -> Seq<u8>,
    seed1: u64,
    seed2: u64,
    states: Seq<S>,
    chunks: Seq<&[u8]>,
    upto: int,
)
    requires
        forall|x: u64, y: u64, state: S| #[trigger]
            call_ensures(S::init, (x, y), state) ==> seeds(state) == (x, y) && taken(state)
                == Seq::<u8>::empty(),
        forall|state: &mut S, bytes: &[u8]| #[trigger]
            call_ensures(S::update, (state, bytes), ()) ==> seeds(*final(state)) == seeds(*state)
                && taken(*final(state)) == taken(*state) + bytes@,
        states.len() == chunks.len() + 1,
        call_ensures(S::init, (seed1, seed2), states[0]),
        forall|i: int|
            0 <= i < chunks.len() ==> exists|state: &mut S|
                *state == #[trigger] states[i] && *final(state) == states[i + 1] && call_ensures(
                    S::update,
                    (state, chunks[i]),
                    (),
                ),
        0 <= upto <= chunks.len(),
    ensures
        seeds(states[upto]) == (seed1, seed2),
        taken(states[upto]) == joined(chunks.take(upto)),
    decreases upto,
{
    if upto == 0 {
        assert(chunks.take(0) =~= Seq::<&[u8]>::empty());
    } else {
        lemma_faithful_state_keeps_all(seeds, taken, seed1, seed2, states, chunks, upto - 1);
        let before = states[upto - 1];
        assert(chunks.take(upto).drop_last() =~= chunks.take(upto - 1));
        assert(chunks.take(upto).last() == chunks[upto - 1]);
    }
}

/// A native state that is faithful to the one-shot function reports, after
/// any number of updates, what the one-shot function gives for all the
/// chunks put together: under the seed words the state was made from, with
/// nothing reset in between, and for no update at all what the one-shot
/// function gives for no bytes.
///
/// A state is faithful when it keeps its seed words (`seeds`) and all the
/// bytes it took in (`taken`) through every update, and reports a result of
/// the one-shot function `M` on them. The first three premises say so for
/// the three native functions. The others describe one run: the first of
/// `states` comes from `init`, each next one from updating the one before
/// with the chunk of the same place, and `words` is read from the last.
/// Reading changes no state, so digests asked for on the way do not show in
/// the run.
pub proof fn lemma_faithful_state_reports_one_shot<S: SpookyState, M: SpookyMix>(
    seeds: spec_fn(S) -> (u64, u64),
    taken: spec_fn(S) -> Seq<u8>,
    seed1: u64,
    seed2: u64,
    states: Seq<S>,
    chunks: Seq<&[u8]>,
    words: (u64, u64),
)
    requires
        forall|x: u64, y: u64, state: S| #[trigger]
            call_ensures(S::init, (x, y), state) ==> seeds(state) == (x, y) && taken(state)
                == Seq::<u8>::empty(),
        forall|state: &mut S, bytes: &[u8]| #[trigger]
            call_ensures(S::update, (state, bytes), ()) ==> seeds(*final(state)) == seeds(*state)
                && taken(*final(state)) == taken(*state) + bytes@,
        forall|state: S, result: (u64, u64)| #[trigger]
            call_ensures(S::read, (&state,), result) ==> exists|all: &[u8]|
                all@ == taken(state) && is_mix::<M>(all, seeds(state), result),
        states.len() == chunks.len() + 1,
        call_ensures(S::init, (seed1, seed2), states[0]),
        forall|i: int|
            0 <= i < chunks.len() ==> exists|state: &mut S|
                *state == #[trigger] states[i] && *final(state) == states[i + 1] && call_ensures(
                    S::update,
                    (state, chunks[i]),
                    (),
                ),
        call_ensures(S::read, (&states.last(),), words),
    ensures
        exists|all: &[u8]| all@ == joined(chunks) && is_mix::<M>(all, (seed1, seed2), words),
{
    let last = states.last();
    lemma_faithful_state_keeps_all(
        seeds,
        taken,
        seed1,
        seed2,
        states,
        chunks,
        chunks.len() as int,
    );
    assert(chunks.take(chunks.len() as int) =~= chunks);
    assert(taken(last) == joined(chunks) && seeds(last) == (seed1, seed2));
    let all = choose|all: &[u8]| all@ == taken(last) && is_mix::<M>(all, seeds(last), words);
    assert(all@ == joined(chunks) && is_mix::<M>(all, (seed1, seed2), words));
}

/// A faithful native state to which nothing has been written reports what
/// the one-shot function gives for no bytes, under the seed words the state
/// was made from.
pub proof fn lemma_unwritten_state_reports_empty_hash<S: SpookyState, M: SpookyMix>(
    seeds: spec_fn(S) -> (u64, u64),
    taken: spec_fn(S) -> Seq<u8>,
    seed1: u64,
    seed2: u64,
    made: S,
    words: (u64, u64),
)
    requires
        forall|x: u64, y: u64, state: S| #[trigger]
            call_ensures(S::init, (x, y), state) ==> seeds(state) == (x, y) && taken(state)
                == Seq::<u8>::empty(),
        forall|state: S, result: (u64, u64)| #[trigger]
            call_ensures(S::read, (&state,), result) ==> exists|all: &[u8]|
                all@ == taken(state) && is_mix::<M>(all, seeds(state), result),
        call_ensures(S::init, (seed1, seed2), made),
        call_ensures(S::read, (&made,), words),
    ensures
        exists|all: &[u8]| all@.len() == 0 && is_mix::<M>(all, (seed1, seed2), words),
{
    let all = choose|all: &[u8]| all@ == taken(made) && is_mix::<M>(all, seeds(made), words);
    assert(all@.len() == 0 && is_mix::<M>(all, (seed1, seed2), words));
}

/// Where the state of a [`SpookyHasher`] made with `seed` reports what the
/// one-shot function gives for `written`, the hasher's digest is a hash of
/// `written` under `seed` by the 64-bit algorithm.
pub proof fn lemma_stream_digest_is_hash<S: SpookyState, M: SpookyMix>(
    state: S,
    seed: u64,
    written: Seq<u8>,
    value: u64,
)
    requires
        forall|words: (u64, u64)| #[trigger]
            call_ensures(S::read, (&state,), words) ==> exists|all: &[u8]|
                all@ == written && is_mix::<M>(all, spec_seed_words64(seed), words),
        SpookyHasher::<S>::is_digest(state, value),
    ensures
        exists|all: &[u8]| all@ == written && SpookyHash64::<M>::is_hash(all, seed, value),
{
    let words = choose|words: (u64, u64)|
        call_ensures(S::read, (&state,), words) && value == spec_value64(words.0, words.1);
    assert(call_ensures(S::read, (&state,), words));
    let all = choose|all: &[u8]|
        all@ == written && is_mix::<M>(all, spec_seed_words64(seed), words);
    assert(all@ == written && is_mix::<M>(all, spec_seed_words64(seed), words));
    assert(SpookyHash64::<M>::is_hash(all, seed, value));
}

/// Where the state of a [`SpookyHasherExt`] made with `seed` reports what the
/// one-shot function gives for `written`, the hasher's full digest is a hash
/// of `written` under `seed` by the 128-bit algorithm.
pub proof fn lemma_wide_stream_digest_is_hash<S: SpookyState, M: SpookyMix>(
    state: S,
    seed: u128,
    written: Seq<u8>,
    value: u128,
)
    requires
        forall|words: (u64, u64)| #[trigger]
            call_ensures(S::read, (&state,), words) ==> exists|all: &[u8]|
                all@ == written && is_mix::<M>(all, spec_seed_words128(seed), words),
        SpookyHasherExt::<S>::is_digest_ext(state, value),
    ensures
        exists|all: &[u8]| all@ == written && SpookyHash128::<M>::is_hash(all, seed, value),
{
    let words = choose|words: (u64, u64)|
        call_ensures(S::read, (&state,), words) && value == spec_value128(words.0, words.1);
    assert(call_ensures(S::read, (&state,), words));
    let all = choose|all: &[u8]|
        all@ == written && is_mix::<M>(all, spec_seed_words128(seed), words);
    assert(all@ == written && is_mix::<M>(all, spec_seed_words128(seed), words));
    assert(SpookyHash128::<M>::is_hash(all, seed, value));
}

} // verus!
