//! Low-quality entropy source built on the system's clock.
//!
//! The library produces 64-bit pseudo-random values and byte streams by
//! reading a time-based counter, adding a per-call disambiguation word so
//! that concurrent callers see different inputs, and feeding the sum
//! through the SplitMix64 finalization step. The output is *not* suitable
//! for security or cryptography: the underlying counter is observable and
//! somewhat predictable. It is meant for testing, randomized algorithms
//! and other places where "better than nothing" is good enough.

use vstd::prelude::*;

pub mod iter;
pub mod rng;

pub use rng::Rng;

verus! {

/// Odd additive constant of the SplitMix64 step (the "golden gamma").
pub const GOLDEN_GAMMA: u64 = 0x9e3779b97f4a7c15;

/// Multiplier of the first xor-shift-multiply round of SplitMix64.
pub const MIX_MULTIPLIER_ONE: u64 = 0xbf58476d1ce4e5b9;

/// Multiplier of the second xor-shift-multiply round of SplitMix64.
pub const MIX_MULTIPLIER_TWO: u64 = 0x94d049bb133111eb;

/// The SplitMix64 finalization step as a mathematical function: add the
/// golden gamma with wraparound, apply two rounds of xor-right-shift
/// followed by a wrapping multiplication, and finish with one more
/// xor-right-shift.
pub open spec fn split_mix_64_spec(state: u64) -> u64 {
    let a = state.wrapping_add(GOLDEN_GAMMA);
    let b = (a ^ (a >> 30)).wrapping_mul(MIX_MULTIPLIER_ONE);
    let c = (b ^ (b >> 27)).wrapping_mul(MIX_MULTIPLIER_TWO);
    c ^ (c >> 31)
}

/// Mixes a 64-bit value so that the low-order structure of a slowly moving
/// counter does not show in the output. Pure and deterministic: the result
/// is exactly `split_mix_64_spec` of the input.
pub fn split_mix_64(state: u64) -> (r: u64)
    ensures
        r == split_mix_64_spec(state),
{
    let a: u64 = state.wrapping_add(GOLDEN_GAMMA);
    let b: u64 = (a ^ (a >> 30)).wrapping_mul(MIX_MULTIPLIER_ONE);
    let c: u64 = (b ^ (b >> 27)).wrapping_mul(MIX_MULTIPLIER_TWO);
    c ^ (c >> 31)
}

/// Mixing is a pure function of its input: two applications to equal
/// inputs yield identical outputs.
pub proof fn lemma_split_mix_64_deterministic(x: u64, y: u64)
    requires
        x == y,
    ensures
        split_mix_64_spec(x) == split_mix_64_spec(y),
{
}

/// The mixing step is injective, hence a bijection on 64-bit words: every
/// round of it can be undone, so mixing removes the structure of its input
/// without discarding any of the entropy the input carries. Together with
/// distinct raw words this is what makes distinct outputs expected.
pub proof fn lemma_split_mix_64_injective(x: u64, y: u64)
    requires
        split_mix_64_spec(x) == split_mix_64_spec(y),
    ensures
        x == y,
{
    let ax: u64 = x.wrapping_add(GOLDEN_GAMMA);
    let bx: u64 = (ax ^ (ax >> 30)).wrapping_mul(MIX_MULTIPLIER_ONE);
    let cx: u64 = (bx ^ (bx >> 27)).wrapping_mul(MIX_MULTIPLIER_TWO);
    let ay: u64 = y.wrapping_add(GOLDEN_GAMMA);
    let by: u64 = (ay ^ (ay >> 30)).wrapping_mul(MIX_MULTIPLIER_ONE);
    let cy: u64 = (by ^ (by >> 27)).wrapping_mul(MIX_MULTIPLIER_TWO);
    assert(cx ^ (cx >> 31) == cy ^ (cy >> 31));
    assert(cx ^ (cx >> 31) == cy ^ (cy >> 31) ==> cx == cy) by (bit_vector);
    assert(cx == cy ==> bx == by) by (bit_vector)
        requires
            cx == (bx ^ (bx >> 27)).wrapping_mul(0x94d049bb133111eb),
            cy == (by ^ (by >> 27)).wrapping_mul(0x94d049bb133111eb),
    ;
    assert(bx == by ==> ax == ay) by (bit_vector)
        requires
            bx == (ax ^ (ax >> 30)).wrapping_mul(0xbf58476d1ce4e5b9),
            by == (ay ^ (ay >> 30)).wrapping_mul(0xbf58476d1ce4e5b9),
    ;
    assert(ax == ay ==> x == y) by (bit_vector)
        requires
            ax == x.wrapping_add(0x9e3779b97f4a7c15),
            ay == y.wrapping_add(0x9e3779b97f4a7c15),
    ;
}

/// Relies on `std::time::SystemTime::now`: reads the system clock and
/// converts it to a nanosecond count. The value depends on the moment of
/// the call, so nothing is stated about it; every caller must be correct
/// for every outcome. Between two calls in one process the clock has
/// almost always advanced, but that is a quality expectation, not a
/// promise.
#[verifier::external_body]
fn clock_ticks() -> u64 {
    match std::time::SystemTime::now().duration_since(std::time::UNIX_EPOCH) {
        Ok(since) => since.as_nanos() as u64,
        Err(before) => before.duration().as_nanos() as u64,
    }
}

/// Relies on `std::collections::hash_map::RandomState`, read out through
/// `BuildHasher::build_hasher` and `Hasher::finish`: each freshly built
/// state carries hash keys made of per-thread random material and a
/// per-thread counter that moves on every construction, and the returned
/// word is the hash of the empty input under those keys. The value
/// depends on process-level state outside this library's control, so
/// nothing is stated about it; every caller must be correct for every
/// outcome. Its role is disambiguation: two calls, even from different
/// threads at the same instant, are built from different keys and so are
/// expected (not promised) to yield different words.
#[verifier::external_body]
fn sequence_word() -> u64 {
    let state = std::collections::hash_map::RandomState::new();
    let hasher = std::hash::BuildHasher::build_hasher(&state);
    std::hash::Hasher::finish(&hasher)
}

/// Returns a pseudo-random 64-bit value: the current tick count plus a
/// per-call disambiguation word, mixed.
///
/// The result is the SplitMix64 finalization of the wrapping sum of two
/// counter-like values that are outside this library's control, so no
/// clause can pin it down; the mixing itself is specified exactly by
/// [`split_mix_64`], and by [`lemma_split_mix_64_injective`] distinct sums
/// give distinct results. The call always succeeds and never blocks.
#[must_use]
pub fn get() -> u64 {
    split_mix_64(clock_ticks().wrapping_add(sequence_word()))
}

/// The eight bytes of a 64-bit word in little-endian order.
pub open spec fn word_le_bytes(w: u64) -> Seq<u8> {
    seq![
        (w & 0xff) as u8,
        ((w >> 8) & 0xff) as u8,
        ((w >> 16) & 0xff) as u8,
        ((w >> 24) & 0xff) as u8,
        ((w >> 32) & 0xff) as u8,
        ((w >> 40) & 0xff) as u8,
        ((w >> 48) & 0xff) as u8,
        ((w >> 56) & 0xff) as u8,
    ]
}

/// Splits a 64-bit word into its little-endian bytes.
pub fn word_to_le_bytes(w: u64) -> (r: [u8; 8])
    ensures
        r@ == word_le_bytes(w),
{
    let r: [u8; 8] = [
        (w & 0xff) as u8,
        ((w >> 8) & 0xff) as u8,
        ((w >> 16) & 0xff) as u8,
        ((w >> 24) & 0xff) as u8,
        ((w >> 32) & 0xff) as u8,
        ((w >> 40) & 0xff) as u8,
        ((w >> 48) & 0xff) as u8,
        ((w >> 56) & 0xff) as u8,
    ];
    proof {
        assert(r@ =~= word_le_bytes(w));
    }
    r
}

/// The byte that `fill_from_words` owes position `k` of the buffer: byte
/// `k % 8` of the little-endian encoding of word `k / 8`.
pub open spec fn le_byte_at(words: Seq<u64>, k: int) -> u8 {
    word_le_bytes(words[k / 8])[k % 8]
}

/// Overwrites every byte of the buffer from the given words: position `k`
/// receives byte `k % 8` of the little-endian encoding of word `k / 8`.
/// The buffer keeps its length, and an empty buffer is left untouched.
pub fn fill_from_words(buf: &mut Vec<u8>, words: &Vec<u64>)
    requires
        old(buf)@.len() <= words@.len() * 8,
    ensures
        final(buf)@.len() == old(buf)@.len(),
        forall|k: int|
            0 <= k < old(buf)@.len() ==> final(buf)@[k] == le_byte_at(words@, k),
{
    let n: usize = buf.len();
    let mut i: usize = 0;
    let mut w: usize = 0;
    while i < n
        invariant
            i <= n,
            i == w * 8 || i == n,
            n <= words@.len() * 8,
            buf@.len() == n,
            forall|k: int| 0 <= k < i ==> buf@[k] == le_byte_at(words@, k),
        decreases n - i,
    {
        proof {
            assert(w < words@.len()) by (nonlinear_arith)
                requires
                    i == w * 8,
                    i < n,
                    n <= words@.len() * 8,
            ;
        }
        let chunk = word_to_le_bytes(words[w]);
        let remaining: usize = n - i;
        let step: usize = if remaining < 8 {
            remaining
        } else {
            8
        };
        let mut j: usize = 0;
        while j < step
            invariant
                j <= step,
                step <= 8,
                i + step <= n,
                i == w * 8,
                w < words@.len(),
                buf@.len() == n,
                chunk@ == word_le_bytes(words@[w as int]),
                forall|k: int| 0 <= k < i ==> buf@[k] == le_byte_at(words@, k),
                forall|m: int| 0 <= m < j ==> buf@[i + m] == chunk@[m],
            decreases step - j,
        {
            buf[i + j] = chunk[j];
            j = j + 1;
        }
        proof {
            assert forall|k: int| i <= k < i + step implies buf@[k] == le_byte_at(
                words@,
                k,
            ) by {
                assert(k / 8 == w && k % 8 == k - i) by (nonlinear_arith)
                    requires
                        i == w * 8,
                        i <= k < i + step,
                        step <= 8,
                ;
            }
        }
        i = i + step;
        w = w + 1;
    }
}

/// Fills the whole buffer with pseudo-random bytes: each run of eight
/// positions receives the little-endian bytes of one fresh value from
/// [`get`], and a final shorter run receives a prefix of such bytes. The
/// buffer keeps its length, an empty buffer is left untouched, and the
/// call always succeeds.
pub fn fill(buf: &mut Vec<u8>)
    ensures
        final(buf)@.len() == old(buf)@.len(),
        old(buf)@.len() == 0 ==> final(buf)@ == old(buf)@,
{
    let n: usize = buf.len();
    let needed: usize = if n == 0 {
        0
    } else {
        (n - 1) / 8 + 1
    };
    let mut words: Vec<u64> = Vec::new();
    while words.len() < needed
        invariant
            words@.len() <= needed,
        decreases needed - words@.len(),
    {
        words.push(get());
    }
    proof {
        if n > 0 {
            assert(n <= needed * 8) by (nonlinear_arith)
                requires
                    n >= 1,
                    needed == (n - 1) / 8 + 1,
            ;
        }
    }
    fill_from_words(buf, &words);
}

/// Returns a fresh, never-ending stream of pseudo-random bytes, starting
/// at position zero with a zeroed buffer.
#[must_use]
pub fn bytes() -> (r: iter::Bytes)
    ensures
        r.wf(),
        r.position() == 0,
        r.buffer() =~= seq![0u8, 0u8, 0u8, 0u8, 0u8, 0u8, 0u8, 0u8],
{
    iter::Bytes::new()
}

} // verus!
