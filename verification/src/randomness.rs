//! The seeded pseudorandom stream that every scene is drawn from.
//!
//! The stream itself comes from `rand_chacha`; the seed comes from the
//! SHA-256 digest of the token address. Neither is proved here: the items
//! marked `external_body` state what this library relies on.

use rand::Rng;
use rand::SeedableRng;
use rand_chacha::ChaCha8Rng;
use sha2::Digest;
use sha2::Sha256;
use vstd::prelude::*;

verus! {

/// `rand_chacha::ChaCha8Rng`, carried through verified code as an opaque value.
#[verifier::external_type_specification]
#[verifier::external_body]
pub struct ExChaCha8Rng(rand_chacha::ChaCha8Rng);

/// The place of a generator in its output: key, stream number and word
/// offset. `rand_chacha` compares generators by exactly these three and
/// documents them as all that decides later output.
pub struct StreamPosition {
    pub key: Seq<u8>,
    pub stream: u64,
    pub word: nat,
}

/// The position that a generator currently stands at.
pub uninterp spec fn position_of(rng: ChaCha8Rng) -> StreamPosition;

/// The 32-byte key that `SeedableRng::seed_from_u64` expands a seed into.
pub uninterp spec fn key_of_seed(seed: u64) -> Seq<u8>;

/// The SHA-256 digest of a byte string.
pub uninterp spec fn sha256_of(data: Seq<u8>) -> Seq<u8>;

/// What `Rng::gen_range(low..high)` returns for `i32` at a position, and the
/// position it leaves the generator at.
pub uninterp spec fn drawn_i32(at: StreamPosition, low: i32, high: i32) -> (i32, StreamPosition);

/// What `Rng::gen_range(low..high)` returns for `u8` at a position, and the
/// position it leaves the generator at.
pub uninterp spec fn drawn_u8(at: StreamPosition, low: u8, high: u8) -> (u8, StreamPosition);

/// What `Rng::gen_range(low..high)` returns for `u64` at a position, and the
/// position it leaves the generator at.
pub uninterp spec fn drawn_u64(at: StreamPosition, low: u64, high: u64) -> (u64, StreamPosition);

/// Calls `sha2::Sha256::digest`. The contract names the digest; nothing of
/// SHA-256 itself is proved here.
#[verifier::external_body]
fn sha256(data: &[u8]) -> (digest: [u8; 32])
    ensures
        digest@ == sha256_of(data@),
{
    Sha256::digest(data).into()
}

/// Calls `ChaCha8Rng::seed_from_u64`. The new generator has the key that the
/// seed expands to and stands at the start of stream zero.
#[verifier::external_body]
fn seeded_generator(seed: u64) -> (rng: ChaCha8Rng)
    ensures
        position_of(rng) == (StreamPosition { key: key_of_seed(seed), stream: 0, word: 0 }),
{
    ChaCha8Rng::seed_from_u64(seed)
}

/// Calls `Rng::gen_range(low..high)` for `i32`, which panics on an empty
/// range. The value lies in the range; value and new position depend on the
/// old position and the range alone.
#[verifier::external_body]
fn gen_range_i32(rng: &mut ChaCha8Rng, low: i32, high: i32) -> (value: i32)
    requires
        low < high,
    ensures
        low <= value < high,
        value == drawn_i32(position_of(*old(rng)), low, high).0,
        position_of(*final(rng)) == drawn_i32(position_of(*old(rng)), low, high).1,
{
    rng.gen_range(low..high)
}

/// Calls `Rng::gen_range(low..high)` for `u8`, which panics on an empty
/// range. The value lies in the range; value and new position depend on the
/// old position and the range alone.
#[verifier::external_body]
fn gen_range_u8(rng: &mut ChaCha8Rng, low: u8, high: u8) -> (value: u8)
    requires
        low < high,
    ensures
        low <= value < high,
        value == drawn_u8(position_of(*old(rng)), low, high).0,
        position_of(*final(rng)) == drawn_u8(position_of(*old(rng)), low, high).1,
{
    rng.gen_range(low..high)
}

/// Calls `Rng::gen_range(low..high)` for `u64`, which panics on an empty
/// range. The value lies in the range; value and new position depend on the
/// old position and the range alone.
#[verifier::external_body]
fn gen_range_u64(rng: &mut ChaCha8Rng, low: u64, high: u64) -> (value: u64)
    requires
        low < high,
    ensures
        low <= value < high,
        value == drawn_u64(position_of(*old(rng)), low, high).0,
        position_of(*final(rng)) == drawn_u64(position_of(*old(rng)), low, high).1,
{
    rng.gen_range(low..high)
}

/// The first eight bytes of `bytes`, read as a big-endian number.
pub open spec fn leading_u64(bytes: Seq<u8>) -> int {
    bytes[0] * 0x0100_0000_0000_0000 + bytes[1] * 0x0001_0000_0000_0000 + bytes[2]
        * 0x0000_0100_0000_0000 + bytes[3] * 0x0000_0001_0000_0000 + bytes[4] * 0x0100_0000
        + bytes[5] * 0x0001_0000 + bytes[6] * 0x0100 + bytes[7]
}

/// The seed of a token: the leading eight bytes, big-endian, of the SHA-256
/// digest of the address as it is written.
pub open spec fn seed_of(token_address: Seq<char>) -> int {
    leading_u64(sha256_of(vstd::utf8::encode_utf8(token_address)))
}

/// Where the stream of a token starts: at word zero of stream zero, under
/// the key of the token's seed.
pub open spec fn stream_start(token_address: Seq<char>) -> StreamPosition {
    StreamPosition {
        key: key_of_seed(seed_of(token_address) as u64),
        stream: 0,
        word: 0,
    }
}

/// The leading eight bytes of a digest as a big-endian number.
pub fn seed_from_digest(digest: &[u8; 32]) -> (seed: u64)
    ensures
        seed == leading_u64(digest@),
{
    let b0: u64 = digest[0] as u64;
    let b1: u64 = digest[1] as u64;
    let b2: u64 = digest[2] as u64;
    let b3: u64 = digest[3] as u64;
    let b4: u64 = digest[4] as u64;
    let b5: u64 = digest[5] as u64;
    let b6: u64 = digest[6] as u64;
    let b7: u64 = digest[7] as u64;
    b0 * 0x0100_0000_0000_0000 + b1 * 0x0001_0000_0000_0000 + b2 * 0x0000_0100_0000_0000 + b3
        * 0x0000_0001_0000_0000 + b4 * 0x0100_0000 + b5 * 0x0001_0000 + b6 * 0x0100 + b7
}

/// The seed that a token address stands for.
pub fn token_seed(token_address: &str) -> (seed: u64)
    ensures
        seed == seed_of(token_address@),
{
    let digest = sha256(token_address.as_bytes());
    seed_from_digest(&digest)
}

/// A generator seeded from a token address.
fn get_rng(token_address: &str) -> (rng: ChaCha8Rng)
    ensures
        position_of(rng) == stream_start(token_address@),
{
    seeded_generator(token_seed(token_address))
}

/// The pseudorandom stream of one scene. It is seeded once, from a token
/// address, and every draw moves it on; it cannot be copied.
pub struct Randomness {
    rng: ChaCha8Rng,
}

impl View for Randomness {
    type V = StreamPosition;

    closed spec fn view(&self) -> StreamPosition {
        position_of(self.rng)
    }
}

impl Randomness {
    /// The stream of `token_address`, at its start. The same address always
    /// gives the same stream.
    pub fn from_token_address(token_address: &str) -> (randomness: Self)
        ensures
            randomness@ == stream_start(token_address@),
    {
        Randomness { rng: get_rng(token_address) }
    }

    /// Draws from `low..high`. The value and the position afterwards are
    /// those that the stream gives at the position before.
    pub fn draw_i32(&mut self, low: i32, high: i32) -> (value: i32)
        requires
            low < high,
        ensures
            low <= value < high,
            value == drawn_i32(old(self)@, low, high).0,
            final(self)@ == drawn_i32(old(self)@, low, high).1,
    {
        gen_range_i32(&mut self.rng, low, high)
    }

    /// Draws from `low..high`. The value and the position afterwards are
    /// those that the stream gives at the position before.
    pub fn draw_u8(&mut self, low: u8, high: u8) -> (value: u8)
        requires
            low < high,
        ensures
            low <= value < high,
            value == drawn_u8(old(self)@, low, high).0,
            final(self)@ == drawn_u8(old(self)@, low, high).1,
    {
        gen_range_u8(&mut self.rng, low, high)
    }

    /// Draws from `low..high`. The value and the position afterwards are
    /// those that the stream gives at the position before.
    pub fn draw_u64(&mut self, low: u64, high: u64) -> (value: u64)
        requires
            low < high,
        ensures
            low <= value < high,
            value == drawn_u64(old(self)@, low, high).0,
            final(self)@ == drawn_u64(old(self)@, low, high).1,
    {
        gen_range_u64(&mut self.rng, low, high)
    }
}

} // verus!
