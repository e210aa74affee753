//! Independent pseudo-random streams derived from one 32-byte seed.
//!
//! A stream is a ChaCha20 generator keyed by the seed, on the stream number
//! that names its use; each use of randomness in a run gets its own number.

use vstd::prelude::*;
use rand::SeedableRng;
use rand_chacha::ChaCha20Rng;

verus! {

#[verifier::external_type_specification]
#[verifier::external_body]
pub struct ExChaCha20Rng(ChaCha20Rng);

/// Stream that feeds the terrain height field.
pub const HEIGHT_STREAM: u64 = 1;

/// Stream that feeds the upgrade draws.
pub const UPGRADE_STREAM: u64 = 2;

/// Stream that feeds the hole field.
pub const HOLE_STREAM: u64 = 3;

/// The key a ChaCha20 generator was made with (what `get_seed` returns).
pub uninterp spec fn stream_key(r: ChaCha20Rng) -> Seq<u8>;

/// The stream a ChaCha20 generator is on (what `get_stream` returns).
pub uninterp spec fn stream_number(r: ChaCha20Rng) -> u64;

/// The word position of a ChaCha20 generator in its stream (what
/// `get_word_pos` returns): the output it gives next is fixed by its key,
/// stream and word position.
pub uninterp spec fn stream_position(r: ChaCha20Rng) -> u128;

/// The 32-byte key that `seed_from_u64` expands a 64-bit seed to.
pub uninterp spec fn expanded_seed(n: u64) -> Seq<u8>;

/// Relies on `SeedableRng::from_seed` for `ChaCha20Rng` (rand_chacha): a
/// generator keyed by `seed`, on stream 0, at its first word.
#[verifier::external_body]
pub(crate) fn chacha_from_seed(seed: [u8; 32]) -> (r: ChaCha20Rng)
    ensures
        stream_key(r) == seed@,
        stream_number(r) == 0,
        stream_position(r) == 0,
{
    ChaCha20Rng::from_seed(seed)
}

/// Relies on `SeedableRng::seed_from_u64` for `ChaCha20Rng` (rand_core): a
/// generator keyed by 32 bytes expanded from `seed` (a function of `seed`
/// alone), on stream 0.
#[verifier::external_body]
pub(crate) fn chacha_from_u64(seed: u64) -> (r: ChaCha20Rng)
    ensures
        stream_key(r) == expanded_seed(seed),
        stream_number(r) == 0,
        stream_position(r) == 0,
{
    ChaCha20Rng::seed_from_u64(seed)
}

/// Relies on `ChaCha20Rng::set_stream` (rand_chacha): moves the generator to
/// another stream of the same key, at the same word position.
#[verifier::external_body]
fn chacha_set_stream(rng: &mut ChaCha20Rng, stream: u64)
    ensures
        stream_key(*final(rng)) == stream_key(*old(rng)),
        stream_number(*final(rng)) == stream,
        stream_position(*final(rng)) == stream_position(*old(rng)),
{
    rng.set_stream(stream)
}

/// Relies on `ChaCha20Rng::get_seed` (rand_chacha): the key the generator
/// was made with.
#[verifier::external_body]
pub(crate) fn chacha_seed(rng: &ChaCha20Rng) -> (r: [u8; 32])
    ensures
        r@ == stream_key(*rng),
{
    rng.get_seed()
}

/// The seed typed by a player: text of 32 bytes or more is cut to its first
/// 32; shorter text is padded on the left with zero bytes.
pub open spec fn text_seed(text: Seq<u8>) -> Seq<u8> {
    let pad: int = if text.len() < 32 {
        32 - text.len()
    } else {
        0
    };
    Seq::new(32, |i: int| if i < pad { 0u8 } else { text[i - pad] })
}

/// Turns seed text into the 32 bytes that key a run (see `text_seed`).
pub fn seed_from_text(text: &[u8]) -> (r: [u8; 32])
    ensures
        r@ == text_seed(text@),
{
    let pad: usize = if text.len() < 32 {
        32 - text.len()
    } else {
        0
    };
    let mut seed = [0u8; 32];
    let mut i: usize = pad;
    while i < 32
        invariant
            pad <= i <= 32,
            pad == (if text@.len() < 32 { 32 - text@.len() } else { 0 }),
            forall|j: int|
                0 <= j < 32 ==> #[trigger] seed@[j] == if pad <= j < i {
                    text@[j - pad]
                } else {
                    0u8
                },
        decreases 32 - i,
    {
        seed[i] = text[i - pad];
        i += 1;
    }
    assert(seed@ =~= text_seed(text@));
    seed
}

/// The stream numbered `index` of the generator keyed by `seed`, at its
/// first word.
pub fn derive_stream(seed: [u8; 32], index: u64) -> (r: ChaCha20Rng)
    ensures
        stream_key(r) == seed@,
        stream_number(r) == index,
        stream_position(r) == 0,
{
    let mut rng = chacha_from_seed(seed);
    chacha_set_stream(&mut rng, index);
    rng
}

} // verus!
