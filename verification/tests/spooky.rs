use fasthash::hasher::FastHash;
use fasthash::spooky::hash128;
use fasthash::spooky::hash128_with_seed;
use fasthash::spooky::hash32;
use fasthash::spooky::hash32_with_seed;
use fasthash::spooky::hash64;
use fasthash::spooky::hash64_with_seed;
use fasthash::spooky::seed_words128;
use fasthash::spooky::seed_words32;
use fasthash::spooky::seed_words64;
use fasthash::spooky::value128;
use fasthash::spooky::value32;
use fasthash::spooky::value64;
use fasthash::spooky::SpookyMix;
use fasthash::spooky::SpookyState;
use fasthash::value::from_parts;
use fasthash::value::high64;
use fasthash::value::low64;
use std::hash::Hash;
use std::hash::Hasher;

// The two result words for "hello" and for "helloworld" under seed words (0, 0).
const HELLO: (u64, u64) = (6105954949053820864, 16417113279381893933);
const HELLOWORLD: (u64, u64) = (18412934266828208920, 13883738476858207693);

// The native mixing function on the inputs these tests use. Where a test
// reads the first word only, the second stands as zero.
struct Table;

impl SpookyMix for Table {
    fn mix(bytes: &[u8], seed1: u64, seed2: u64) -> (u64, u64) {
        if bytes == b"hello" && (seed1, seed2) == (0, 0) {
            HELLO
        } else if bytes == b"helloworld" && (seed1, seed2) == (0, 0) {
            HELLOWORLD
        } else if bytes == b"hello" && (seed1, seed2) == (123, 123) {
            (8819086853393477700, 0)
        } else if bytes == b"hello" && (seed1, seed2) == (0, 123) {
            (7262466432451564128, 15030932129358977799)
        } else {
            panic!("the mixing function was handed {:?} with {} and {}", bytes, seed1, seed2)
        }
    }
}

// A mixing function that shows what it was handed: the length goes into the
// first word.
struct Echo;

impl SpookyMix for Echo {
    fn mix(bytes: &[u8], seed1: u64, seed2: u64) -> (u64, u64) {
        (seed1 + bytes.len() as u64, seed2)
    }
}

// A streaming state that keeps what it is given and reports what the mixing
// function `M` gives for all of it, as the native state does.
struct Kept<M: SpookyMix> {
    seed1: u64,
    seed2: u64,
    bytes: Vec<u8>,
    mix: std::marker::PhantomData<M>,
}

impl<M: SpookyMix> SpookyState for Kept<M> {
    fn init(seed1: u64, seed2: u64) -> Self {
        Kept { seed1, seed2, bytes: Vec::new(), mix: std::marker::PhantomData }
    }

    fn update(&mut self, bytes: &[u8]) {
        self.bytes.extend_from_slice(bytes);
    }

    fn read(&self) -> (u64, u64) {
        M::mix(&self.bytes, self.seed1, self.seed2)
    }
}

type SpookyHash32 = fasthash::spooky::SpookyHash32<Table>;
type SpookyHash64 = fasthash::spooky::SpookyHash64<Table>;
type SpookyHash128 = fasthash::spooky::SpookyHash128<Table>;
type SpookyHasher = fasthash::spooky::SpookyHasher<Kept<Table>>;
type SpookyHasherExt = fasthash::spooky::SpookyHasherExt<Kept<Table>>;
type EchoHash32 = fasthash::spooky::SpookyHash32<Echo>;
type EchoHash64 = fasthash::spooky::SpookyHash64<Echo>;
type EchoHash128 = fasthash::spooky::SpookyHash128<Echo>;
type EchoHasher = fasthash::spooky::SpookyHasher<Kept<Echo>>;
type EchoHasherExt = fasthash::spooky::SpookyHasherExt<Kept<Echo>>;

#[test]
fn test_spooky32() {
    assert_eq!(SpookyHash32::hash(b"hello"), 3907268544);
    assert_eq!(SpookyHash32::hash_with_seed(b"hello", 123), 2211835972);
    assert_eq!(SpookyHash32::hash(b"helloworld"), 3874077464);
}

#[test]
fn test_spooky64() {
    assert_eq!(SpookyHash64::hash(b"hello"), 6105954949053820864);
    assert_eq!(SpookyHash64::hash_with_seed(b"hello", 123), 8819086853393477700);
    assert_eq!(SpookyHash64::hash(b"helloworld"), 18412934266828208920);
}

#[test]
fn test_spooky128() {
    assert_eq!(
        SpookyHash128::hash(b"hello"),
        from_parts(6105954949053820864, 16417113279381893933)
    );
    assert_eq!(
        SpookyHash128::hash_with_seed(b"hello", 123),
        from_parts(7262466432451564128, 15030932129358977799)
    );
    assert_eq!(
        SpookyHash128::hash(b"helloworld"),
        from_parts(18412934266828208920, 13883738476858207693)
    );
}

#[test]
fn test_spooky_hasher() {
    let mut h = SpookyHasher::new();

    h.write(b"hello");
    assert_eq!(h.finish(), 6105954949053820864);

    h.write(b"world");
    assert_eq!(h.finish(), 18412934266828208920);
}

#[test]
fn test_spooky_hasher_ext() {
    let mut h = SpookyHasherExt::new();

    h.write(b"hello");
    assert_eq!(
        h.finish_ext(),
        from_parts(6105954949053820864, 16417113279381893933)
    );

    h.write(b"world");
    assert_eq!(
        h.finish_ext(),
        from_parts(18412934266828208920, 13883738476858207693)
    );
}

#[test]
fn free_functions_agree_with_the_algorithm_types() {
    assert_eq!(hash32::<Table>(b"hello"), 3907268544);
    assert_eq!(hash32_with_seed::<Table>(b"hello", 123), 2211835972);
    assert_eq!(hash64::<Table>(b"helloworld"), 18412934266828208920);
    assert_eq!(hash64_with_seed::<Table>(b"hello", 123), 8819086853393477700);
    assert_eq!(
        hash128::<Table>(b"hello"),
        from_parts(6105954949053820864, 16417113279381893933)
    );
    assert_eq!(
        hash128_with_seed::<Table>(b"hello", 123),
        from_parts(7262466432451564128, 15030932129358977799)
    );
}

#[test]
fn the_mixing_function_gets_the_bytes_and_the_seed_words() {
    assert_eq!(EchoHash64::hash_with_seed(b"abc", 40), 43);
    assert_eq!(EchoHash64::hash(b"abc"), 3);
    assert_eq!(EchoHash64::hash(b""), 0);
    assert_eq!(EchoHash32::hash_with_seed(b"abc", u32::MAX), 2);
    assert_eq!(EchoHash32::hash(b"abcd"), 4);
    assert_eq!(EchoHash128::hash_with_seed(b"", from_parts(7, 9)), from_parts(7, 9));
    assert_eq!(EchoHash128::hash_with_seed(b"ab", from_parts(7, 9)), from_parts(9, 9));
    assert_eq!(EchoHash128::hash(b""), 0);
}

#[test]
fn the_seed_is_not_ignored() {
    assert_ne!(EchoHash64::hash_with_seed(b"abc", 1), EchoHash64::hash_with_seed(b"abc", 2));
    assert_ne!(
        EchoHash128::hash_with_seed(b"abc", 1),
        EchoHash128::hash_with_seed(b"abc", 1 << 64)
    );
    assert_ne!(SpookyHash64::hash_with_seed(b"hello", 123), SpookyHash64::hash(b"hello"));
    assert_eq!(EchoHash64::hash_with_seed(b"abc", 0), EchoHash64::hash(b"abc"));
}

#[test]
fn narrow_seeds_fill_both_words() {
    assert_eq!(seed_words32(123), (123, 123));
    assert_eq!(seed_words32(u32::MAX), (4294967295, 4294967295));
    assert_eq!(seed_words64(123), (123, 123));
    assert_eq!(seed_words64(u64::MAX), (u64::MAX, u64::MAX));
    assert_eq!(seed_words32(0), (0, 0));
    assert_eq!(seed_words64(0), (0, 0));
}

#[test]
fn wide_seeds_are_split_high_word_first() {
    assert_eq!(seed_words128(0), (0, 0));
    assert_eq!(seed_words128(123), (0, 123));
    assert_eq!(seed_words128(from_parts(7, 9)), (7, 9));
    assert_eq!(seed_words128(u128::MAX), (u64::MAX, u64::MAX));
}

#[test]
fn different_seeds_give_different_words() {
    assert_ne!(seed_words32(1), seed_words32(2));
    assert_ne!(seed_words64(0), seed_words64(1));
    assert_ne!(seed_words128(1), seed_words128(1 << 64));
}

#[test]
fn values_of_each_width() {
    assert_eq!(value32(HELLO.0, HELLO.1), 3907268544);
    assert_eq!(value64(HELLO.0, HELLO.1), 6105954949053820864);
    assert_eq!(
        value128(HELLO.0, HELLO.1),
        from_parts(6105954949053820864, 16417113279381893933)
    );
    assert_eq!(value32(u64::MAX, 0), u32::MAX);
    assert_eq!(value32(1 << 32, 5), 0);
    assert_eq!(value32((7 << 32) + 9, 5), 9);
}

#[test]
fn widths_are_consistent() {
    for (hash1, hash2) in [HELLO, HELLOWORLD, (0, 0), (u64::MAX, 1)] {
        let wide = value128(hash1, hash2);
        assert_eq!(high64(wide), value64(hash1, hash2));
        assert_eq!(value64(hash1, hash2) as u32, value32(hash1, hash2));
        assert_eq!(low64(wide), hash2);
    }
    assert_eq!(high64(SpookyHash128::hash(b"hello")), SpookyHash64::hash(b"hello"));
    assert_eq!(SpookyHash64::hash(b"helloworld") as u32, SpookyHash32::hash(b"helloworld"));
    assert_eq!(
        high64(EchoHash128::hash_with_seed(b"abc", from_parts(5, 5))),
        EchoHash64::hash_with_seed(b"abc", 5)
    );
}

#[test]
fn the_stream_is_seeded_with_the_seed_in_both_words() {
    let mut h = EchoHasher::with_seed(40);
    assert_eq!(h.finish(), 40);
    h.write(b"abc");
    assert_eq!(h.finish(), 43);
    assert_eq!(h.finish(), EchoHash64::hash_with_seed(b"abc", 40));

    let mut seeded = SpookyHasher::with_seed(123);
    seeded.write(b"hel");
    seeded.write(b"lo");
    assert_eq!(seeded.finish(), 8819086853393477700);
}

#[test]
fn the_wide_stream_is_seeded_high_word_first() {
    let mut h = EchoHasherExt::with_seed(from_parts(7, 9));
    assert_eq!(h.finish_ext(), from_parts(7, 9));
    h.write(b"ab");
    assert_eq!(h.finish_ext(), from_parts(9, 9));
    assert_eq!(h.finish_ext(), EchoHash128::hash_with_seed(b"ab", from_parts(7, 9)));

    let mut seeded = SpookyHasherExt::with_seed(123);
    seeded.write(b"hello");
    assert_eq!(
        seeded.finish_ext(),
        from_parts(7262466432451564128, 15030932129358977799)
    );
}

#[test]
fn the_narrow_digest_of_the_wide_stream_is_its_low_half() {
    let mut h = SpookyHasherExt::new();
    h.write(b"hello");
    assert_eq!(h.finish(), 16417113279381893933);
    assert_eq!(h.finish(), low64(h.finish_ext()));

    let mut narrow = SpookyHasher::new();
    narrow.write(b"hello");
    assert_ne!(h.finish(), narrow.finish());
    assert_eq!(high64(h.finish_ext()), narrow.finish());
}

#[test]
fn an_unwritten_stream_reports_the_hash_of_nothing() {
    let h = EchoHasher::new();
    assert_eq!(h.finish(), EchoHash64::hash(b""));

    let mut seeded = EchoHasher::with_seed(7);
    assert_eq!(seeded.finish(), EchoHash64::hash_with_seed(b"", 7));
    seeded.write(b"");
    seeded.write(&[]);
    assert_eq!(seeded.finish(), EchoHash64::hash_with_seed(b"", 7));

    let wide = EchoHasherExt::with_seed(from_parts(7, 9));
    assert_eq!(wide.finish_ext(), EchoHash128::hash_with_seed(b"", from_parts(7, 9)));
}

#[test]
fn one_shot_hashing_is_repeatable() {
    assert_eq!(SpookyHash64::hash_with_seed(b"hello", 123), SpookyHash64::hash_with_seed(b"hello", 123));
    assert_eq!(hash32_with_seed::<Table>(b"hello", 123), SpookyHash32::hash_with_seed(b"hello", 123));
    assert_eq!(hash32_with_seed::<Echo>(b"abc", 9), EchoHash32::hash_with_seed(b"abc", 9));
    assert_eq!(EchoHash128::hash(b"abc"), EchoHash128::hash(b"abc"));
}

#[test]
fn reading_a_digest_does_not_disturb_the_stream() {
    let mut h = SpookyHasher::new();
    h.write(b"hello");
    let once = h.finish();
    assert_eq!(h.finish(), once);
    assert_eq!(h.finish(), once);
    h.write(b"");
    assert_eq!(h.finish(), once);
    h.write(b"world");
    assert_eq!(h.finish(), 18412934266828208920);
}

#[test]
fn chunking_does_not_matter_to_the_stream() {
    let mut bytewise = SpookyHasherExt::default();
    for byte in b"helloworld".iter() {
        bytewise.write(&[*byte]);
    }
    let mut whole = SpookyHasherExt::default();
    whole.write(b"helloworld");
    assert_eq!(bytewise.finish_ext(), whole.finish_ext());
    assert_eq!(whole.finish_ext(), SpookyHash128::hash(b"helloworld"));
}

#[test]
fn the_streams_serve_std_hashing() {
    let mut h = EchoHasher::default();
    "abc".hash(&mut h);
    assert_eq!(Hasher::finish(&h), 4);

    let mut wide = EchoHasherExt::with_seed(from_parts(1, 2));
    Hasher::write(&mut wide, b"abc");
    assert_eq!(Hasher::finish(&wide), 2);
    wide.write_u8(0);
    assert_eq!(wide.finish_ext(), from_parts(5, 2));
}
