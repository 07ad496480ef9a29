//! The one-shot contract of a hash family, and the incremental hasher that is
//! built on it by buffering.
//!
//! Some hash families offer only a one-shot function. An incremental hasher
//! for such a family appends what is written to a buffer and hashes the whole
//! buffer whenever a digest is asked for. [`BufferedHasher`] does that for
//! any family, and is a [`core::hash::Hasher`] for any of them.

use crate::value::low64;
use crate::value::spec_low64;
use vstd::prelude::*;

verus! {

/// A family of one-shot hash functions of one width.
///
/// Nothing is asked of an implementation here. What an adapter built on a
/// family promises is stated in terms of what the family's two functions
/// promise.
pub trait FastHash {
    /// The hash value: 32, 64 or 128 bits.
    type Value;

    /// The seed.
    type Seed: Copy;

    /// Hashes `bytes`.
    fn hash(bytes: &[u8]) -> Self::Value;

    /// Hashes `bytes` under `seed`.
    fn hash_with_seed(bytes: &[u8], seed: Self::Seed) -> Self::Value;
}

/// A hash value that a 64-bit digest can stand for.
pub trait Digest64 {
    /// The 64-bit digest of `self`.
    spec fn spec_digest64(&self) -> u64;

    /// Computes the 64-bit digest of `self`.
    fn digest64(&self) -> (digest: u64)
        ensures
            digest == self.spec_digest64(),
    ;
}

/// A 32-bit value is widened.
impl Digest64 for u32 {
    open spec fn spec_digest64(&self) -> u64 {
        *self as u64
    }

    fn digest64(&self) -> (digest: u64) {
        *self as u64
    }
}

/// A 64-bit value is its own digest.
impl Digest64 for u64 {
    open spec fn spec_digest64(&self) -> u64 {
        *self
    }

    fn digest64(&self) -> (digest: u64) {
        *self
    }
}

/// Of a 128-bit value the low half is taken. Who needs the full width asks
/// for the value itself.
impl Digest64 for u128 {
    open spec fn spec_digest64(&self) -> u64 {
        spec_low64(*self)
    }

    fn digest64(&self) -> (digest: u64) {
        low64(*self)
    }
}

/// A value with a stable identifier of type `T`: one that does not depend on
/// a seed, a platform or a build.
pub trait Fingerprint<T> {
    /// The identifier of `self`.
    spec fn spec_fingerprint(&self) -> T;

    /// Computes the identifier of `self`.
    fn fingerprint(&self) -> (value: T)
        ensures
            value == self.spec_fingerprint(),
    ;
}

/// What a buffering hasher holds: the seed it was made with, if any, and every
/// byte written to it since, in the order of writing.
pub struct BufferModel<S> {
    pub seed: Option<S>,
    pub bytes: Seq<u8>,
}

impl<S> BufferModel<S> {
    /// The state of a hasher to which nothing has been written yet.
    pub open spec fn fresh(seed: Option<S>) -> Self {
        BufferModel { seed, bytes: Seq::empty() }
    }

    /// The state after `bytes` have been written: the seed stays, the bytes go
    /// behind those already there.
    pub open spec fn write(self, bytes: Seq<u8>) -> Self {
        BufferModel { seed: self.seed, bytes: self.bytes + bytes }
    }
}

/// Whether `value` is a hash of the state `state` by the family `H`: a result
/// of `H::hash` on all the bytes where the state has no seed, a result of
/// `H::hash_with_seed` on all the bytes and the seed where it has one.
pub open spec fn is_digest<H: FastHash>(state: BufferModel<H::Seed>, value: H::Value) -> bool {
    match state.seed {
        None => exists|all: &[u8]| all@ == state.bytes && call_ensures(H::hash, (all,), value),
        Some(seed) => exists|all: &[u8]|
            all@ == state.bytes && call_ensures(H::hash_with_seed, (all, seed), value),
    }
}

/// Whether the two functions of the family `H` give one result per input:
/// for equal bytes, and equal seeds, equal values.
pub open spec fn is_functional<H: FastHash>() -> bool {
    &&& forall|a: &[u8], b: &[u8], x: H::Value, y: H::Value|
        a@ == b@ && #[trigger] call_ensures(H::hash, (a,), x) && #[trigger] call_ensures(
            H::hash,
            (b,),
            y,
        ) ==> x == y
    &&& forall|a: &[u8], b: &[u8], seed: H::Seed, x: H::Value, y: H::Value|
        a@ == b@ && #[trigger] call_ensures(H::hash_with_seed, (a, seed), x)
            && #[trigger] call_ensures(H::hash_with_seed, (b, seed), y) ==> x == y
}

/// An incremental hasher for a family that has only one-shot functions.
///
/// The buffer is never shortened, reordered or cleared, and it has one owner:
/// the type is neither `Clone` nor `Copy`.
pub struct BufferedHasher<H: FastHash> {
    seed: Option<H::Seed>,
    bytes: Vec<u8>,
}

impl<H: FastHash> View for BufferedHasher<H> {
    type V = BufferModel<H::Seed>;

    closed spec fn view(&self) -> BufferModel<H::Seed> {
        BufferModel { seed: self.seed, bytes: self.bytes@ }
    }
}

impl<H: FastHash> BufferedHasher<H> {
    /// A hasher without a seed, with nothing written.
    pub fn new() -> (hasher: Self)
        ensures
            hasher@ == BufferModel::<H::Seed>::fresh(None),
    {
        BufferedHasher { seed: None, bytes: Vec::new() }
    }

    /// A hasher with the given seed, with nothing written.
    pub fn with_seed(seed: H::Seed) -> (hasher: Self)
        ensures
            hasher@ == BufferModel::fresh(Some(seed)),
    {
        BufferedHasher { seed: Some(seed), bytes: Vec::new() }
    }

    /// Takes `bytes` in, behind everything written before.
    pub fn write(&mut self, bytes: &[u8])
        ensures
            final(self)@ == old(self)@.write(bytes@),
    {
        self.bytes.extend_from_slice(bytes);
        assert(self.bytes@ =~= old(self).bytes@ + bytes@);
    }

    /// The hash, at the family's full width, of everything written since the
    /// hasher was made: of the whole buffer, not of the last write. The
    /// hasher is left as it was: it can be asked again and written to again.
    pub fn finish_ext(&self) -> (value: H::Value)
        ensures
            is_digest::<H>(self@, value),
    {
        match self.seed {
            None => H::hash(self.bytes.as_slice()),
            Some(seed) => H::hash_with_seed(self.bytes.as_slice(), seed),
        }
    }
}

impl<H: FastHash> BufferedHasher<H> where H::Value: Digest64 {
    /// The 64-bit digest of the hash that [`BufferedHasher::finish_ext`]
    /// gives.
    pub fn finish(&self) -> (digest: u64)
        ensures
            exists|value: H::Value|
                is_digest::<H>(self@, value) && digest == value.spec_digest64(),
    {
        let value = self.finish_ext();
        value.digest64()
    }
}

impl<H: FastHash> core::hash::Hasher for BufferedHasher<H> where H::Value: Digest64 {
    fn finish(&self) -> (digest: u64)
        ensures
            exists|value: H::Value|
                is_digest::<H>(self@, value) && digest == value.spec_digest64(),
    {
        BufferedHasher::finish(self)
    }

    fn write(&mut self, bytes: &[u8])
        ensures
            final(self)@ == old(self)@.write(bytes@),
    {
        BufferedHasher::write(self, bytes)
    }
}

impl<H: FastHash> Default for BufferedHasher<H> {
    fn default() -> (hasher: Self)
        ensures
            hasher@ == BufferModel::<H::Seed>::fresh(None),
    {
        BufferedHasher::new()
    }
}

/// Writing nothing leaves the state as it is.
pub proof fn lemma_write_nothing<S>(state: BufferModel<S>)
    ensures
        state.write(Seq::empty()) == state,
{
    assert(state.bytes + Seq::<u8>::empty() =~= state.bytes);
}

/// Writing two chunks one after the other leaves the state that writing their
/// concatenation leaves: only the bytes and their order count, not how they
/// were cut into writes.
pub proof fn lemma_write_concatenates<S>(state: BufferModel<S>, first: Seq<u8>, second: Seq<u8>)
    ensures
        state.write(first).write(second) == state.write(first + second),
{
    assert((state.bytes + first) + second =~= state.bytes + (first + second));
}

/// After any write the earlier contents are still there, at the front: the
/// buffer is never truncated or reset.
pub proof fn lemma_write_keeps_prefix<S>(state: BufferModel<S>, bytes: Seq<u8>)
    ensures
        state.write(bytes).seed == state.seed,
        state.write(bytes).bytes.len() == state.bytes.len() + bytes.len(),
        state.write(bytes).bytes.subrange(0, state.bytes.len() as int) == state.bytes,
{
    assert((state.bytes + bytes).subrange(0, state.bytes.len() as int) =~= state.bytes);
}

/// A hasher that was given two chunks reports a hash of the two put together,
/// and one that was given a single chunk reports a hash of that chunk: what a
/// family's one-shot function gives for the same bytes and the same seed.
pub proof fn lemma_incremental_is_one_shot<H: FastHash>(
    seed: Option<H::Seed>,
    first: Seq<u8>,
    second: Seq<u8>,
    value: H::Value,
)
    ensures
        is_digest::<H>(BufferModel::fresh(seed).write(first), value) <==> is_digest::<H>(
            BufferModel { seed, bytes: first },
            value,
        ),
        is_digest::<H>(BufferModel::fresh(seed).write(first).write(second), value) <==> is_digest::<
            H,
        >(BufferModel { seed, bytes: first + second }, value),
{
    assert(Seq::<u8>::empty() + first =~= first);
    assert((Seq::<u8>::empty() + first) + second =~= first + second);
}

/// Where the family gives one result per input, a hasher has one digest in
/// each state: asking twice without a write between gives the same value.
pub proof fn lemma_digest_is_unique<H: FastHash>(
    state: BufferModel<H::Seed>,
    once: H::Value,
    again: H::Value,
)
    requires
        is_functional::<H>(),
        is_digest::<H>(state, once),
        is_digest::<H>(state, again),
    ensures
        once == again,
{
}

/// Where the family gives one result per input, an unseeded hasher that was
/// given two chunks reports the very value that the family's one-shot
/// function gives for the two chunks put together.
pub proof fn lemma_digest_equals_one_shot_hash<H: FastHash>(
    first: Seq<u8>,
    second: Seq<u8>,
    value: H::Value,
    all: &[u8],
    one_shot: H::Value,
)
    requires
        is_functional::<H>(),
        is_digest::<H>(BufferModel::fresh(None).write(first).write(second), value),
        all@ == first + second,
        call_ensures(H::hash, (all,), one_shot),
    ensures
        value == one_shot,
{
    assert((Seq::<u8>::empty() + first) + second =~= first + second);
}

/// The same for a seeded hasher and the family's seeded one-shot function.
pub proof fn lemma_seeded_digest_equals_one_shot_hash<H: FastHash>(
    seed: H::Seed,
    first: Seq<u8>,
    second: Seq<u8>,
    value: H::Value,
    all: &[u8],
    one_shot: H::Value,
)
    requires
        is_functional::<H>(),
        is_digest::<H>(BufferModel::fresh(Some(seed)).write(first).write(second), value),
        all@ == first + second,
        call_ensures(H::hash_with_seed, (all, seed), one_shot),
    ensures
        value == one_shot,
{
    assert((Seq::<u8>::empty() + first) + second =~= first + second);
}

} // verus!
