//! FarmHash: hashes of 32, 64 and 128 bits, and fingerprints of bytes and of
//! integers.
//!
//! The mixing functions for bytes are native code and are not part of this
//! crate: the adapters of each width are generic in them, and what an adapter
//! promises is stated in terms of what the native functions promise.
//!
//! A hash may differ between builds and platforms. A fingerprint is meant to
//! stay the same for ever. The two come from native functions of their own:
//! no hash here is computed from a fingerprint function, and no fingerprint
//! from a hash function.

use crate::hasher::is_functional;
use crate::hasher::BufferedHasher;
use crate::hasher::FastHash;
use crate::hasher::Fingerprint;
use crate::value::from_parts;
use crate::value::high64;
use crate::value::lemma_halves_rebuild;
use crate::value::lemma_parts_round_trip;
use crate::value::low64;
use crate::value::spec_from_parts;
use crate::value::spec_high64;
use crate::value::spec_low64;
use core::marker::PhantomData;
use vstd::prelude::*;

verus! {

/// The native 32-bit FarmHash functions.
///
/// Nothing is asked of an implementation here. What [`FarmHash32`] promises
/// is stated in terms of what these functions promise.
pub trait FarmMix32 {
    /// Mixes `bytes` into a 32-bit hash.
    fn mix(bytes: &[u8]) -> u32;

    /// Mixes `bytes` into a 32-bit hash under a seed.
    fn mix_with_seed(bytes: &[u8], seed: u32) -> u32;

    /// Mixes `bytes` into their 32-bit fingerprint.
    fn fingerprint(bytes: &[u8]) -> u32;
}

/// FarmHash with 32-bit values and 32-bit seeds, over the native functions
/// `M`. Value and seed cross the boundary as they are.
pub struct FarmHash32<M: FarmMix32> {
    mix: PhantomData<M>,
}

impl<M: FarmMix32> FastHash for FarmHash32<M> {
    type Value = u32;

    type Seed = u32;

    /// Hashes `bytes`: the hash is what the native function gives for them.
    fn hash(bytes: &[u8]) -> (value: u32)
        ensures
            call_ensures(M::mix, (bytes,), value),
    {
        M::mix(bytes)
    }

    /// Hashes `bytes` under `seed`: the hash is what the seeded native
    /// function gives for the bytes and the seed, zero included.
    fn hash_with_seed(bytes: &[u8], seed: u32) -> (value: u32)
        ensures
            call_ensures(M::mix_with_seed, (bytes, seed), value),
    {
        M::mix_with_seed(bytes, seed)
    }
}

/// An incremental 32-bit FarmHash over the native functions `M`.
pub type FarmHasher32<M> = BufferedHasher<FarmHash32<M>>;

/// The 32-bit FarmHash of a byte sequence.
pub fn hash32<M: FarmMix32>(v: &[u8]) -> (value: u32)
    ensures
        call_ensures(M::mix, (v,), value),
{
    FarmHash32::<M>::hash(v)
}

/// The 32-bit FarmHash of a byte sequence under a seed.
pub fn hash32_with_seed<M: FarmMix32>(v: &[u8], seed: u32) -> (value: u32)
    ensures
        call_ensures(M::mix_with_seed, (v, seed), value),
{
    FarmHash32::<M>::hash_with_seed(v, seed)
}

/// The 32-bit FarmHash fingerprint of a byte sequence. It takes no seed, and
/// it comes from a native function of its own, not from the hash.
pub fn fingerprint32<M: FarmMix32>(v: &[u8]) -> (value: u32)
    ensures
        call_ensures(M::fingerprint, (v,), value),
{
    M::fingerprint(v)
}

/// The native 64-bit FarmHash functions.
///
/// Nothing is asked of an implementation here. What [`FarmHash64`] promises
/// is stated in terms of what these functions promise.
pub trait FarmMix64 {
    /// Mixes `bytes` into a 64-bit hash.
    fn mix(bytes: &[u8]) -> u64;

    /// Mixes `bytes` into a 64-bit hash under a seed.
    fn mix_with_seed(bytes: &[u8], seed: u64) -> u64;

    /// Mixes `bytes` into a 64-bit hash under two independent seeds.
    fn mix_with_seeds(bytes: &[u8], seed0: u64, seed1: u64) -> u64;

    /// Mixes `bytes` into their 64-bit fingerprint.
    fn fingerprint(bytes: &[u8]) -> u64;
}

/// FarmHash with 64-bit values and 64-bit seeds, over the native functions
/// `M`. Value and seeds cross the boundary as they are.
pub struct FarmHash64<M: FarmMix64> {
    mix: PhantomData<M>,
}

impl<M: FarmMix64> FastHash for FarmHash64<M> {
    type Value = u64;

    type Seed = u64;

    /// Hashes `bytes`: the hash is what the native function gives for them.
    /// Every byte sequence is handed on, the empty one too.
    fn hash(bytes: &[u8]) -> (value: u64)
        ensures
            call_ensures(M::mix, (bytes,), value),
    {
        M::mix(bytes)
    }

    /// Hashes `bytes` under `seed`: the hash is what the seeded native
    /// function gives for the bytes and the seed. No seed is special: zero
    /// is handed on like any other.
    fn hash_with_seed(bytes: &[u8], seed: u64) -> (value: u64)
        ensures
            call_ensures(M::mix_with_seed, (bytes, seed), value),
    {
        M::mix_with_seed(bytes, seed)
    }
}

impl<M: FarmMix64> FarmHash64<M> {
    /// Hashes `bytes` under two independent seeds: the hash is what the
    /// native function for two seeds gives for the bytes and the seeds, in
    /// their order.
    pub fn hash_with_seeds(bytes: &[u8], seed0: u64, seed1: u64) -> (value: u64)
        ensures
            call_ensures(M::mix_with_seeds, (bytes, seed0, seed1), value),
    {
        M::mix_with_seeds(bytes, seed0, seed1)
    }
}

/// An incremental 64-bit FarmHash over the native functions `M`.
///
/// FarmHash has no streaming form, so the hasher keeps what is written and
/// hashes all of it on every `finish`.
pub type FarmHasher64<M> = BufferedHasher<FarmHash64<M>>;

/// The 64-bit FarmHash of a byte sequence.
pub fn hash64<M: FarmMix64>(v: &[u8]) -> (value: u64)
    ensures
        call_ensures(M::mix, (v,), value),
{
    FarmHash64::<M>::hash(v)
}

/// The 64-bit FarmHash of a byte sequence under a seed.
pub fn hash64_with_seed<M: FarmMix64>(v: &[u8], seed: u64) -> (value: u64)
    ensures
        call_ensures(M::mix_with_seed, (v, seed), value),
{
    FarmHash64::<M>::hash_with_seed(v, seed)
}

/// The 64-bit FarmHash of a byte sequence under two seeds.
pub fn hash64_with_seeds<M: FarmMix64>(v: &[u8], seed0: u64, seed1: u64) -> (value: u64)
    ensures
        call_ensures(M::mix_with_seeds, (v, seed0, seed1), value),
{
    FarmHash64::<M>::hash_with_seeds(v, seed0, seed1)
}

/// The 64-bit FarmHash fingerprint of a byte sequence. It takes no seed, and
/// it comes from a native function of its own, not from the hash.
pub fn fingerprint64<M: FarmMix64>(v: &[u8]) -> (value: u64)
    ensures
        call_ensures(M::fingerprint, (v,), value),
{
    M::fingerprint(v)
}

/// The native 128-bit FarmHash functions. A 128-bit value crosses this
/// boundary as two 64-bit words, the low half first.
///
/// Nothing is asked of an implementation here. What [`FarmHash128`] promises
/// is stated in terms of what these functions promise.
pub trait FarmMix128 {
    /// Mixes `bytes` into two words.
    fn mix(bytes: &[u8]) -> (u64, u64);

    /// Mixes `bytes` into two words under a seed of two words.
    fn mix_with_seed(bytes: &[u8], first: u64, second: u64) -> (u64, u64);

    /// Mixes `bytes` into the two words of their fingerprint.
    fn fingerprint(bytes: &[u8]) -> (u64, u64);
}

/// The two words of `value` in boundary order: low half, then high half.
pub open spec fn spec_boundary_words(value: u128) -> (u64, u64) {
    (spec_low64(value), spec_high64(value))
}

/// The value whose low half is `first` and whose high half is `second`.
pub open spec fn spec_from_boundary_words(first: u64, second: u64) -> u128 {
    spec_from_parts(second, first)
}

/// Cuts `value` into the two words that cross the boundary.
pub fn boundary_words(value: u128) -> (words: (u64, u64))
    ensures
        words == spec_boundary_words(value),
{
    (low64(value), high64(value))
}

/// Puts two words that crossed the boundary together.
pub fn from_boundary_words(first: u64, second: u64) -> (value: u128)
    ensures
        value == spec_from_boundary_words(first, second),
        spec_low64(value) == first,
        spec_high64(value) == second,
{
    from_parts(second, first)
}

/// A value that is cut into boundary words and put together again is
/// unchanged, and so are two words that are put together and cut again.
pub proof fn lemma_boundary_words_round_trip(value: u128, first: u64, second: u64)
    ensures
        spec_from_boundary_words(spec_boundary_words(value).0, spec_boundary_words(value).1)
            == value,
        spec_boundary_words(spec_from_boundary_words(first, second)) == (first, second),
{
    lemma_halves_rebuild(value);
    lemma_parts_round_trip(second, first);
}

/// FarmHash with 128-bit values and 128-bit seeds, over the native functions
/// `M`.
pub struct FarmHash128<M: FarmMix128> {
    mix: PhantomData<M>,
}

impl<M: FarmMix128> FarmHash128<M> {
    /// Whether `value` is a hash of `bytes`: the value of two words that
    /// `M::mix` can give for the bytes.
    pub open spec fn is_hash(bytes: &[u8], value: u128) -> bool {
        exists|words: (u64, u64)|
            call_ensures(M::mix, (bytes,), words) && value == spec_from_boundary_words(
                words.0,
                words.1,
            )
    }

    /// Whether `value` is a hash of `bytes` under `seed`: the value of two
    /// words that `M::mix_with_seed` can give for the bytes and the boundary
    /// words of the seed.
    pub open spec fn is_seeded_hash(bytes: &[u8], seed: u128, value: u128) -> bool {
        exists|words: (u64, u64)|
            call_ensures(
                M::mix_with_seed,
                (bytes, spec_boundary_words(seed).0, spec_boundary_words(seed).1),
                words,
            ) && value == spec_from_boundary_words(words.0, words.1)
    }

    /// Whether `value` is a fingerprint of `bytes`: the value of two words
    /// that `M::fingerprint` can give for the bytes.
    pub open spec fn is_fingerprint(bytes: &[u8], value: u128) -> bool {
        exists|words: (u64, u64)|
            call_ensures(M::fingerprint, (bytes,), words) && value == spec_from_boundary_words(
                words.0,
                words.1,
            )
    }
}

impl<M: FarmMix128> FastHash for FarmHash128<M> {
    type Value = u128;

    type Seed = u128;

    /// Hashes `bytes`: hands them to the native function and puts the words
    /// that come back together.
    fn hash(bytes: &[u8]) -> (value: u128)
        ensures
            Self::is_hash(bytes, value),
    {
        let words = M::mix(bytes);
        from_boundary_words(words.0, words.1)
    }

    /// Hashes `bytes` under `seed`: hands the native function the bytes and
    /// the boundary words of the seed, and puts the words that come back
    /// together.
    fn hash_with_seed(bytes: &[u8], seed: u128) -> (value: u128)
        ensures
            Self::is_seeded_hash(bytes, seed, value),
    {
        let seed_words = boundary_words(seed);
        let words = M::mix_with_seed(bytes, seed_words.0, seed_words.1);
        from_boundary_words(words.0, words.1)
    }
}

/// An incremental 128-bit FarmHash over the native functions `M`.
pub type FarmHasher128<M> = BufferedHasher<FarmHash128<M>>;

/// The 128-bit FarmHash of a byte sequence.
pub fn hash128<M: FarmMix128>(v: &[u8]) -> (value: u128)
    ensures
        FarmHash128::<M>::is_hash(v, value),
{
    FarmHash128::<M>::hash(v)
}

/// The 128-bit FarmHash of a byte sequence under a seed.
pub fn hash128_with_seed<M: FarmMix128>(v: &[u8], seed: u128) -> (value: u128)
    ensures
        FarmHash128::<M>::is_seeded_hash(v, seed, value),
{
    FarmHash128::<M>::hash_with_seed(v, seed)
}

/// The 128-bit FarmHash fingerprint of a byte sequence. It takes no seed, and
/// it comes from a native function of its own, not from the hash.
pub fn fingerprint128<M: FarmMix128>(v: &[u8]) -> (value: u128)
    ensures
        FarmHash128::<M>::is_fingerprint(v, value),
{
    let words = M::fingerprint(v);
    from_boundary_words(words.0, words.1)
}

/// The product of `x` and `y`, reduced to 64 bits.
pub open spec fn spec_mul64(x: u64, y: u64) -> u64 {
    ((x as nat * y as nat) % 0x1_0000_0000_0000_0000) as u64
}

/// The multiplier of the integer fingerprints.
pub const FINGERPRINT_MUL: u64 = 0x9ddfea08eb382d69;

/// The last steps of both integer fingerprints: fold the top bits down by 44,
/// multiply, fold down by 41, multiply.
pub open spec fn spec_fingerprint_tail(b: u64) -> u64 {
    let folded: u64 = spec_mul64(b ^ (b >> 44), FINGERPRINT_MUL);
    spec_mul64(folded ^ (folded >> 41), FINGERPRINT_MUL)
}

/// The fingerprint of a 64-bit integer.
pub open spec fn spec_fingerprint_u64(x: u64) -> u64 {
    spec_fingerprint_tail(spec_mul64(x, FINGERPRINT_MUL))
}

/// The fingerprint of a 128-bit integer: both halves go in, the high half
/// twice.
pub open spec fn spec_fingerprint_u128(x: u128) -> u64 {
    let mixed: u64 = spec_mul64(spec_low64(x) ^ spec_high64(x), FINGERPRINT_MUL);
    let a: u64 = mixed ^ (mixed >> 47);
    spec_fingerprint_tail(spec_mul64(spec_high64(x) ^ a, FINGERPRINT_MUL))
}

fn fingerprint_tail(b: u64) -> (value: u64)
    ensures
        value == spec_fingerprint_tail(b),
{
    let folded: u64 = (b ^ (b >> 44)).wrapping_mul(FINGERPRINT_MUL);
    (folded ^ (folded >> 41)).wrapping_mul(FINGERPRINT_MUL)
}

impl Fingerprint<u64> for u64 {
    open spec fn spec_fingerprint(&self) -> u64 {
        spec_fingerprint_u64(*self)
    }

    fn fingerprint(&self) -> (value: u64) {
        fingerprint_tail(self.wrapping_mul(FINGERPRINT_MUL))
    }
}

impl Fingerprint<u64> for u128 {
    open spec fn spec_fingerprint(&self) -> u64 {
        spec_fingerprint_u128(*self)
    }

    fn fingerprint(&self) -> (value: u64) {
        let low: u64 = low64(*self);
        let high: u64 = high64(*self);
        let mixed: u64 = (low ^ high).wrapping_mul(FINGERPRINT_MUL);
        let a: u64 = mixed ^ (mixed >> 47);
        fingerprint_tail((high ^ a).wrapping_mul(FINGERPRINT_MUL))
    }
}

/// Whether the 32-bit native functions `M` give one result per input: for
/// equal bytes, and equal seeds, equal values.
pub open spec fn mix32_is_function<M: FarmMix32>() -> bool {
    &&& forall|a: &[u8], b: &[u8], x: u32, y: u32|
        a@ == b@ && #[trigger] call_ensures(M::mix, (a,), x) && #[trigger] call_ensures(
            M::mix,
            (b,),
            y,
        ) ==> x == y
    &&& forall|a: &[u8], b: &[u8], seed: u32, x: u32, y: u32|
        a@ == b@ && #[trigger] call_ensures(M::mix_with_seed, (a, seed), x)
            && #[trigger] call_ensures(M::mix_with_seed, (b, seed), y) ==> x == y
    &&& forall|a: &[u8], b: &[u8], x: u32, y: u32|
        a@ == b@ && #[trigger] call_ensures(M::fingerprint, (a,), x)
            && #[trigger] call_ensures(M::fingerprint, (b,), y) ==> x == y
}

/// Whether the 64-bit native functions `M` give one result per input.
pub open spec fn mix64_is_function<M: FarmMix64>() -> bool {
    &&& forall|a: &[u8], b: &[u8], x: u64, y: u64|
        a@ == b@ && #[trigger] call_ensures(M::mix, (a,), x) && #[trigger] call_ensures(
            M::mix,
            (b,),
            y,
        ) ==> x == y
    &&& forall|a: &[u8], b: &[u8], seed: u64, x: u64, y: u64|
        a@ == b@ && #[trigger] call_ensures(M::mix_with_seed, (a, seed), x)
            && #[trigger] call_ensures(M::mix_with_seed, (b, seed), y) ==> x == y
    &&& forall|a: &[u8], b: &[u8], seed0: u64, seed1: u64, x: u64, y: u64|
        a@ == b@ && #[trigger] call_ensures(M::mix_with_seeds, (a, seed0, seed1), x)
            && #[trigger] call_ensures(M::mix_with_seeds, (b, seed0, seed1), y) ==> x == y
    &&& forall|a: &[u8], b: &[u8], x: u64, y: u64|
        a@ == b@ && #[trigger] call_ensures(M::fingerprint, (a,), x)
            && #[trigger] call_ensures(M::fingerprint, (b,), y) ==> x == y
}

/// Whether the 128-bit native functions `M` give one result per input.
pub open spec fn mix128_is_function<M: FarmMix128>() -> bool {
    &&& forall|a: &[u8], b: &[u8], x: (u64, u64), y: (u64, u64)|
        a@ == b@ && #[trigger] call_ensures(M::mix, (a,), x) && #[trigger] call_ensures(
            M::mix,
            (b,),
            y,
        ) ==> x == y
    &&& forall|a: &[u8], b: &[u8], first: u64, second: u64, x: (u64, u64), y: (u64, u64)|
        a@ == b@ && #[trigger] call_ensures(M::mix_with_seed, (a, first, second), x)
            && #[trigger] call_ensures(M::mix_with_seed, (b, first, second), y) ==> x == y
    &&& forall|a: &[u8], b: &[u8], x: (u64, u64), y: (u64, u64)|
        a@ == b@ && #[trigger] call_ensures(M::fingerprint, (a,), x)
            && #[trigger] call_ensures(M::fingerprint, (b,), y) ==> x == y
}

/// Where the native functions give one result per input, so does the 32-bit
/// family: hashing the same bytes under the same seed twice gives the same
/// value.
pub proof fn lemma_farm32_is_functional<M: FarmMix32>()
    requires
        mix32_is_function::<M>(),
    ensures
        is_functional::<FarmHash32<M>>(),
{
}

/// Where the native functions give one result per input, so does the 64-bit
/// family.
pub proof fn lemma_farm64_is_functional<M: FarmMix64>()
    requires
        mix64_is_function::<M>(),
    ensures
        is_functional::<FarmHash64<M>>(),
{
}

/// Where the native functions give one result per input, so does the 128-bit
/// family.
pub proof fn lemma_farm128_is_functional<M: FarmMix128>()
    requires
        mix128_is_function::<M>(),
    ensures
        is_functional::<FarmHash128<M>>(),
{
}

/// Where the native functions give one result per input, equal bytes have
/// one 128-bit hash, one 128-bit hash under each seed, and one 128-bit
/// fingerprint.
pub proof fn lemma_farm128_values_are_unique<M: FarmMix128>(
    a: &[u8],
    b: &[u8],
    seed: u128,
    x: u128,
    y: u128,
)
    requires
        mix128_is_function::<M>(),
        a@ == b@,
    ensures
        FarmHash128::<M>::is_hash(a, x) && FarmHash128::<M>::is_hash(b, y) ==> x == y,
        FarmHash128::<M>::is_seeded_hash(a, seed, x) && FarmHash128::<M>::is_seeded_hash(
            b,
            seed,
            y,
        ) ==> x == y,
        FarmHash128::<M>::is_fingerprint(a, x) && FarmHash128::<M>::is_fingerprint(b, y) ==> x
            == y,
{
}

} // verus!
