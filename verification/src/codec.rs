//! Binary codec for the persisted duty-sequence configuration.
//!
//! Layout (big-endian, fixed header plus repeated records):
//! bytes `[0..8)` hold `interval` as a `u64`, and every following group of
//! four bytes holds one step as an `i32`, in playback order. There is no
//! count field: the number of steps is implied by the total length, so a
//! blob is structurally valid exactly when it is at least 8 bytes long and
//! the remainder past the header is a multiple of 4.

use vstd::prelude::*;

use crate::config::{PwmConfig, PwmConfigModel};

verus! {

/// Why a blob could not be decoded.
#[derive(Clone, Copy, Debug, PartialEq, Eq, Structural)]
pub enum DecodeError {
    /// The blob is shorter than the 8-byte header, or the part past the
    /// header is not a whole number of 4-byte steps.
    MalformedLength,
}

/// A blob of this length parses as a configuration: an 8-byte header
/// followed by whole 4-byte steps.
pub open spec fn valid_blob_len(n: int) -> bool {
    n >= 8 && (n - 8) % 4 == 0
}

/// The big-endian bytes of a `u64`, most significant first.
pub open spec fn u64_be_bytes(x: u64) -> Seq<u8> {
    seq![
        ((x >> 56) & 0xff) as u8,
        ((x >> 48) & 0xff) as u8,
        ((x >> 40) & 0xff) as u8,
        ((x >> 32) & 0xff) as u8,
        ((x >> 24) & 0xff) as u8,
        ((x >> 16) & 0xff) as u8,
        ((x >> 8) & 0xff) as u8,
        (x & 0xff) as u8,
    ]
}

/// The `u64` read from 8 big-endian bytes.
pub open spec fn u64_from_be(b: Seq<u8>) -> u64
    recommends
        b.len() == 8,
{
    ((b[0] as u64) << 56) | ((b[1] as u64) << 48) | ((b[2] as u64) << 40) | ((b[3] as u64) << 32)
        | ((b[4] as u64) << 24) | ((b[5] as u64) << 16) | ((b[6] as u64) << 8) | (b[7] as u64)
}

/// The big-endian bytes of a `u32`, most significant first.
pub open spec fn u32_be_bytes(x: u32) -> Seq<u8> {
    seq![
        ((x >> 24) & 0xff) as u8,
        ((x >> 16) & 0xff) as u8,
        ((x >> 8) & 0xff) as u8,
        (x & 0xff) as u8,
    ]
}

/// The `u32` read from 4 big-endian bytes.
pub open spec fn u32_from_be(b: Seq<u8>) -> u32
    recommends
        b.len() == 4,
{
    ((b[0] as u32) << 24) | ((b[1] as u32) << 16) | ((b[2] as u32) << 8) | (b[3] as u32)
}

/// The two's-complement bit pattern of an `i32`, as the `u32` with the same
/// bytes.
pub open spec fn i32_to_bits(x: i32) -> u32 {
    if x >= 0 {
        x as u32
    } else {
        (x + 0x1_0000_0000) as u32
    }
}

/// The `i32` whose two's-complement bit pattern is the given `u32`.
pub open spec fn bits_to_i32(u: u32) -> i32 {
    if u < 0x8000_0000 {
        u as i32
    } else {
        (u - 0x1_0000_0000) as i32
    }
}

/// The encoded step records: 4 big-endian bytes per step, in order.
pub open spec fn steps_to_bytes(steps: Seq<i32>) -> Seq<u8>
    decreases steps.len(),
{
    if steps.len() == 0 {
        Seq::empty()
    } else {
        u32_be_bytes(i32_to_bits(steps.first())) + steps_to_bytes(steps.drop_first())
    }
}

/// The steps read back from encoded records, 4 bytes at a time; a trailing
/// fragment shorter than 4 bytes yields nothing.
pub open spec fn bytes_to_steps(b: Seq<u8>) -> Seq<i32>
    decreases b.len(),
{
    if b.len() < 4 {
        Seq::empty()
    } else {
        seq![bits_to_i32(u32_from_be(b.take(4)))] + bytes_to_steps(b.skip(4))
    }
}

/// The encoded form of a configuration: the interval header followed by the
/// step records.
pub open spec fn spec_encode(c: PwmConfigModel) -> Seq<u8> {
    u64_be_bytes(c.interval) + steps_to_bytes(c.steps)
}

/// The configuration read from a blob of valid length.
pub open spec fn spec_decode(b: Seq<u8>) -> PwmConfigModel
    recommends
        valid_blob_len(b.len() as int),
{
    PwmConfigModel { steps: bytes_to_steps(b.skip(8)), interval: u64_from_be(b.take(8)) }
}

/// Reading back the bit pattern of an `i32` returns that `i32`.
pub proof fn lemma_i32_bits_round_trip(x: i32)
    ensures
        bits_to_i32(i32_to_bits(x)) == x,
{
}

/// Reading a `u64` back from its big-endian bytes returns that `u64`.
pub proof fn lemma_u64_be_round_trip(x: u64)
    ensures
        u64_from_be(u64_be_bytes(x)) == x,
{
    assert(((((x >> 56) & 0xff) as u8 as u64) << 56) | ((((x >> 48) & 0xff) as u8 as u64) << 48)
        | ((((x >> 40) & 0xff) as u8 as u64) << 40) | ((((x >> 32) & 0xff) as u8 as u64) << 32)
        | ((((x >> 24) & 0xff) as u8 as u64) << 24) | ((((x >> 16) & 0xff) as u8 as u64) << 16)
        | ((((x >> 8) & 0xff) as u8 as u64) << 8) | ((x & 0xff) as u8 as u64) == x) by (bit_vector);
}

/// Reading a `u32` back from its big-endian bytes returns that `u32`.
pub proof fn lemma_u32_be_round_trip(x: u32)
    ensures
        u32_from_be(u32_be_bytes(x)) == x,
{
    assert(((((x >> 24) & 0xff) as u8 as u32) << 24) | ((((x >> 16) & 0xff) as u8 as u32) << 16)
        | ((((x >> 8) & 0xff) as u8 as u32) << 8) | ((x & 0xff) as u8 as u32) == x) by (bit_vector);
}

/// The step records of `n` steps take exactly `4 * n` bytes.
pub proof fn lemma_steps_to_bytes_len(steps: Seq<i32>)
    ensures
        steps_to_bytes(steps).len() == 4 * steps.len(),
    decreases steps.len(),
{
    if steps.len() != 0 {
        lemma_steps_to_bytes_len(steps.drop_first());
    }
}

/// Appending one step appends its 4-byte record.
pub proof fn lemma_steps_to_bytes_push(steps: Seq<i32>, v: i32)
    ensures
        steps_to_bytes(steps.push(v)) == steps_to_bytes(steps) + u32_be_bytes(i32_to_bits(v)),
    decreases steps.len(),
{
    if steps.len() == 0 {
        assert(steps.push(v).first() == v);
        assert(steps.push(v).drop_first() =~= Seq::<i32>::empty());
        assert(steps_to_bytes(Seq::<i32>::empty()) == Seq::<u8>::empty());
        assert(steps_to_bytes(steps.push(v)) =~= steps_to_bytes(steps) + u32_be_bytes(
            i32_to_bits(v),
        ));
    } else {
        assert(steps.push(v).first() == steps.first());
        assert(steps.push(v).drop_first() =~= steps.drop_first().push(v));
        lemma_steps_to_bytes_push(steps.drop_first(), v);
        assert(steps_to_bytes(steps.push(v)) == u32_be_bytes(i32_to_bits(steps.first()))
            + (steps_to_bytes(steps.drop_first()) + u32_be_bytes(i32_to_bits(v))));
        assert(u32_be_bytes(i32_to_bits(steps.first())) + (steps_to_bytes(steps.drop_first())
            + u32_be_bytes(i32_to_bits(v))) =~= (u32_be_bytes(i32_to_bits(steps.first()))
            + steps_to_bytes(steps.drop_first())) + u32_be_bytes(i32_to_bits(v)));
    }
}

/// Reading the step records back yields the original steps.
pub proof fn lemma_steps_round_trip(steps: Seq<i32>)
    ensures
        bytes_to_steps(steps_to_bytes(steps)) == steps,
    decreases steps.len(),
{
    if steps.len() == 0 {
        assert(bytes_to_steps(steps_to_bytes(steps)) =~= steps);
    } else {
        let chunk = u32_be_bytes(i32_to_bits(steps.first()));
        let rest = steps_to_bytes(steps.drop_first());
        let b = chunk + rest;
        assert(b.take(4) =~= chunk);
        assert(b.skip(4) =~= rest);
        lemma_u32_be_round_trip(i32_to_bits(steps.first()));
        lemma_i32_bits_round_trip(steps.first());
        lemma_steps_round_trip(steps.drop_first());
        assert(bytes_to_steps(steps_to_bytes(steps)) =~= steps);
    }
}

/// Round trip: every configuration decodes from its own encoding, and the
/// encoding always has a valid length.
pub proof fn lemma_config_round_trip(c: PwmConfigModel)
    ensures
        valid_blob_len(spec_encode(c).len() as int),
        spec_decode(spec_encode(c)) == c,
{
    let b = spec_encode(c);
    lemma_steps_to_bytes_len(c.steps);
    assert(b.take(8) =~= u64_be_bytes(c.interval));
    assert(b.skip(8) =~= steps_to_bytes(c.steps));
    lemma_u64_be_round_trip(c.interval);
    lemma_steps_round_trip(c.steps);
    assert(spec_decode(b) =~= c);
}

/// Append the big-endian bytes of a `u64` to a buffer.
fn push_u64_be(buf: &mut Vec<u8>, x: u64)
    ensures
        final(buf)@ == old(buf)@ + u64_be_bytes(x),
{
    proof {
        assert((x >> 56) & 0xff < 256 && (x >> 48) & 0xff < 256 && (x >> 40) & 0xff < 256 && (x
            >> 32) & 0xff < 256 && (x >> 24) & 0xff < 256 && (x >> 16) & 0xff < 256 && (x >> 8)
            & 0xff < 256 && x & 0xff < 256) by (bit_vector);
    }
    buf.push(((x >> 56) & 0xff) as u8);
    buf.push(((x >> 48) & 0xff) as u8);
    buf.push(((x >> 40) & 0xff) as u8);
    buf.push(((x >> 32) & 0xff) as u8);
    buf.push(((x >> 24) & 0xff) as u8);
    buf.push(((x >> 16) & 0xff) as u8);
    buf.push(((x >> 8) & 0xff) as u8);
    buf.push((x & 0xff) as u8);
    proof {
        assert(buf@ =~= old(buf)@ + u64_be_bytes(x));
    }
}

/// Append the big-endian bytes of a `u32` to a buffer.
fn push_u32_be(buf: &mut Vec<u8>, x: u32)
    ensures
        final(buf)@ == old(buf)@ + u32_be_bytes(x),
{
    proof {
        assert((x >> 24) & 0xff < 256 && (x >> 16) & 0xff < 256 && (x >> 8) & 0xff < 256 && x
            & 0xff < 256) by (bit_vector);
    }
    buf.push(((x >> 24) & 0xff) as u8);
    buf.push(((x >> 16) & 0xff) as u8);
    buf.push(((x >> 8) & 0xff) as u8);
    buf.push((x & 0xff) as u8);
    proof {
        assert(buf@ =~= old(buf)@ + u32_be_bytes(x));
    }
}

/// Read the big-endian `u64` at offset `at`.
fn read_u64_be(b: &[u8], at: usize) -> (r: u64)
    requires
        at + 8 <= b@.len(),
    ensures
        r == u64_from_be(b@.subrange(at as int, at as int + 8)),
{
    let r: u64 = ((b[at] as u64) << 56) | ((b[at + 1] as u64) << 48) | ((b[at + 2] as u64) << 40)
        | ((b[at + 3] as u64) << 32) | ((b[at + 4] as u64) << 24) | ((b[at + 5] as u64) << 16) | ((
    b[at + 6] as u64) << 8) | (b[at + 7] as u64);
    proof {
        let s = b@.subrange(at as int, at as int + 8);
        assert(s[0] == b@[at as int] && s[1] == b@[at as int + 1] && s[2] == b@[at as int + 2]
            && s[3] == b@[at as int + 3] && s[4] == b@[at as int + 4] && s[5] == b@[at as int + 5]
            && s[6] == b@[at as int + 6] && s[7] == b@[at as int + 7]);
    }
    r
}

/// Read the big-endian `u32` at offset `at`.
fn read_u32_be(b: &[u8], at: usize) -> (r: u32)
    requires
        at + 4 <= b@.len(),
    ensures
        r == u32_from_be(b@.subrange(at as int, at as int + 4)),
{
    let r: u32 = ((b[at] as u32) << 24) | ((b[at + 1] as u32) << 16) | ((b[at + 2] as u32) << 8)
        | (b[at + 3] as u32);
    proof {
        let s = b@.subrange(at as int, at as int + 4);
        assert(s[0] == b@[at as int] && s[1] == b@[at as int + 1] && s[2] == b@[at as int + 2]
            && s[3] == b@[at as int + 3]);
    }
    r
}

/// The `u32` with the same bytes as the given `i32`.
fn i32_bits(x: i32) -> (r: u32)
    ensures
        r == i32_to_bits(x),
{
    if x >= 0 {
        x as u32
    } else {
        ((x as i64) + 0x1_0000_0000i64) as u32
    }
}

/// The `i32` with the same bytes as the given `u32`.
fn i32_from_bits(u: u32) -> (r: i32)
    ensures
        r == bits_to_i32(u),
{
    if u < 0x8000_0000 {
        u as i32
    } else {
        ((u as i64) - 0x1_0000_0000i64) as i32
    }
}

/// Encode a configuration: exactly `8 + 4 * steps.len()` bytes, the
/// interval header followed by one 4-byte record per step.
pub fn encode_config(c: &PwmConfig) -> (r: Vec<u8>)
    ensures
        r@ == spec_encode(c@),
        r@.len() == 8 + 4 * c.steps@.len(),
{
    let mut buf: Vec<u8> = Vec::new();
    push_u64_be(&mut buf, c.interval);
    let mut i: usize = 0;
    while i < c.steps.len()
        invariant
            i <= c.steps@.len(),
            buf@ == u64_be_bytes(c.interval) + steps_to_bytes(c.steps@.take(i as int)),
        decreases c.steps@.len() - i,
    {
        let w: u32 = i32_bits(c.steps[i]);
        push_u32_be(&mut buf, w);
        proof {
            lemma_steps_to_bytes_push(c.steps@.take(i as int), c.steps@[i as int]);
            assert(c.steps@.take(i as int).push(c.steps@[i as int]) =~= c.steps@.take(
                i as int + 1,
            ));
            assert(buf@ =~= u64_be_bytes(c.interval) + steps_to_bytes(c.steps@.take(i as int + 1)));
        }
        i = i + 1;
    }
    proof {
        assert(c.steps@.take(c.steps@.len() as int) =~= c.steps@);
        lemma_steps_to_bytes_len(c.steps@);
    }
    buf
}

/// Decode a blob. Succeeds if and only if the length is structurally
/// valid; a malformed length is the sole decode error, and the steps and
/// interval read back are exactly the encoded ones.
pub fn decode_config(bytes: &[u8]) -> (r: Result<PwmConfig, DecodeError>)
    ensures
        r is Ok <==> valid_blob_len(bytes@.len() as int),
        r matches Ok(c) ==> c@ == spec_decode(bytes@),
        r matches Err(e) ==> e == DecodeError::MalformedLength,
{
    let n: usize = bytes.len();
    if n < 8 || (n - 8) % 4 != 0 {
        return Err(DecodeError::MalformedLength);
    }
    let interval: u64 = read_u64_be(bytes, 0);
    let mut steps: Vec<i32> = Vec::new();
    let mut idx: usize = 8;
    while idx < n
        invariant
            8 <= idx <= n,
            (idx - 8) % 4 == 0,
            n == bytes@.len(),
            (n - 8) % 4 == 0,
            bytes_to_steps(bytes@.skip(8)) == steps@ + bytes_to_steps(bytes@.skip(idx as int)),
        decreases n - idx,
    {
        assert(idx + 4 <= n);
        let word: u32 = read_u32_be(bytes, idx);
        let step: i32 = i32_from_bits(word);
        proof {
            let tail = bytes@.skip(idx as int);
            assert(tail.take(4) =~= bytes@.subrange(idx as int, idx as int + 4));
            assert(tail.skip(4) =~= bytes@.skip(idx as int + 4));
            assert(steps@.push(step) + bytes_to_steps(bytes@.skip(idx as int + 4)) =~= steps@
                + bytes_to_steps(tail));
        }
        steps.push(step);
        idx = idx + 4;
    }
    proof {
        assert(bytes_to_steps(bytes@.skip(idx as int)) =~= Seq::<i32>::empty());
        assert(steps@ =~= steps@ + bytes_to_steps(bytes@.skip(idx as int)));
    }
    let c = PwmConfig { steps, interval };
    proof {
        assert(bytes@.subrange(0, 8) =~= bytes@.take(8));
        assert(c@ =~= spec_decode(bytes@));
    }
    Ok(c)
}

} // verus!
