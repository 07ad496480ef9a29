//! Adapters that put several non-cryptographic hash families behind one
//! contract: one-shot hashing, seeded hashing, incremental hashing and
//! fingerprinting, with 128-bit values handled as pairs of 64-bit words.
//!
//! The bit mixing itself is not part of this crate. FarmHash and SpookyHash
//! exist as native code: the adapters are generic in the native functions,
//! nothing is assumed of those, and what an adapter promises is stated in
//! terms of what they promise. Where a law needs more of the native code,
//! that it gives one result per input or that its streaming state keeps what
//! it took in, the law says so as a premise.
//!
//! - [`value`]: 128-bit values as two 64-bit words.
//! - [`hasher`]: the one-shot contract and the buffering incremental hasher.
//! - [`farm`]: FarmHash hashes and fingerprints.
//! - [`spooky`]: SpookyHash, one-shot and streaming.

pub mod farm;
pub mod hasher;
pub mod spooky;
pub mod value;
